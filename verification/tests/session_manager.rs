use quizbot::game::db::{FlagQuizDB, QuizDB, QuizType};
use quizbot::game::model::{FlagQuiz, Quiz};
use quizbot::game::state::{
    draw_next, AnswerResult, Game, GameManager, RoundClock, WaitOutcome, MAX_ROUNDS,
    MAX_TIMEOUT_SECONDS,
};
use quizbot::Error;

fn sample_quiz_db() -> QuizDB {
    QuizDB::from_quizzes(vec![
        Quiz::new("상식".to_string(), "q1".to_string(), "a1".to_string(), None),
        Quiz::new("상식".to_string(), "q2".to_string(), "a2".to_string(), Some("c2".to_string())),
        Quiz::new("넌센스".to_string(), "q3".to_string(), "a3".to_string(), None),
    ])
}

fn sample_flag_db() -> FlagQuizDB {
    FlagQuizDB::new(vec![
        FlagQuiz::new("kr".to_string(), "대한민국".to_string()),
        FlagQuiz::new("jp".to_string(), "일본".to_string()),
    ])
}

fn sample_manager() -> GameManager {
    GameManager::new(sample_quiz_db(), sample_flag_db()).unwrap()
}

fn current_answer(gm: &GameManager, group: &str) -> String {
    let game = gm.current_game(&group.to_string()).unwrap();
    game.current_quiz.get_answer().to_string()
}

#[test]
fn limits_are_three_rounds_of_sixty_seconds() {
    assert_eq!(MAX_ROUNDS, 3);
    assert_eq!(MAX_TIMEOUT_SECONDS, 60);
}

#[test]
fn new_manager_has_no_games_and_no_scores() {
    let gm = sample_manager();
    assert!(!gm.is_game_exists(&"g1".to_string()));
    assert!(gm.current_game(&"g1".to_string()).is_none());
    assert_eq!(gm.score_of_user("u1"), 0);
    assert_eq!(gm.score_of_group("g1"), 0);
}

#[test]
fn start_then_correct_answer_scores_and_moves_to_round_two() {
    let mut gm = sample_manager();
    let game = gm.start_game("g1".to_string(), None, false).unwrap();
    assert_eq!(game.current_round, 1);
    assert_eq!(game.group_key, "g1");
    assert!(game.selected_category.is_none());
    assert!(!game.answer_submitted.signaled);
    assert!(matches!(game.current_quiz, QuizType::Simple(_)));
    let answer = game.current_quiz.get_answer().to_string();
    assert!(gm.can_take_answer("u1", &"g1".to_string()));
    let result = gm.try_answer_inmemory("u1", &"g1".to_string(), &answer).unwrap();
    match result {
        AnswerResult::Correct { user_id, score, current_quiz, next_quiz, current_round } => {
            assert_eq!(user_id, "u1");
            assert_eq!(score, 1);
            assert_eq!(current_round, 2);
            assert_eq!(current_quiz.get_answer(), answer);
            let now = gm.current_game(&"g1".to_string()).unwrap();
            assert_eq!(now.current_round, 2);
            assert_eq!(now.current_quiz.get_answer(), next_quiz.get_answer());
        }
        AnswerResult::Wrong => panic!("the answer was the expected one"),
    }
    assert_eq!(gm.score_of_user("u1"), 1);
    assert_eq!(gm.score_of_group("g1"), 1);
    assert_eq!(gm.score_of_user("u2"), 0);
}

#[test]
fn second_start_is_refused_and_leaves_the_game() {
    let mut gm = sample_manager();
    let first = gm.start_game("g1".to_string(), None, false).unwrap();
    let second = gm.start_game("g1".to_string(), Some("상식".to_string()), false);
    match second {
        Err(Error::GameAlreadyStarted(group)) => assert_eq!(group, "g1"),
        _ => panic!("a second start must be refused"),
    }
    let kept = gm.current_game(&"g1".to_string()).unwrap();
    assert_eq!(kept.current_round, 1);
    assert!(kept.selected_category.is_none());
    assert_eq!(kept.current_quiz.get_answer(), first.current_quiz.get_answer());
}

#[test]
fn flag_game_asks_flag_questions_in_every_round() {
    let mut gm = sample_manager();
    let game = gm.start_game("g1".to_string(), Some("국기".to_string()), true).unwrap();
    assert!(matches!(game.current_quiz, QuizType::Flag(_)));
    let answer = current_answer(&gm, "g1");
    match gm.try_answer_inmemory("u1", &"g1".to_string(), &answer).unwrap() {
        AnswerResult::Correct { next_quiz, .. } => {
            assert!(matches!(next_quiz, QuizType::Flag(_)))
        }
        AnswerResult::Wrong => panic!("the answer was the expected one"),
    }
    let (finished, next, round) =
        gm.get_current_quiz_and_move_next("g1".to_string()).unwrap();
    assert!(matches!(finished, QuizType::Flag(_)));
    assert!(matches!(next, QuizType::Flag(_)));
    assert_eq!(round, 3);
}

#[test]
fn three_correct_answers_end_the_game() {
    let mut gm = sample_manager();
    gm.start_game("g1".to_string(), None, false).unwrap();
    let mut last_round = 1;
    for expected in 2..=4u8 {
        let answer = current_answer(&gm, "g1");
        match gm.try_answer_inmemory("u1", &"g1".to_string(), &answer).unwrap() {
            AnswerResult::Correct { current_round, score, .. } => {
                assert_eq!(current_round, expected);
                assert_eq!(score, u32::from(expected) - 1);
                last_round = current_round;
            }
            AnswerResult::Wrong => panic!("the answer was the expected one"),
        }
    }
    assert_eq!(last_round, 4);
    assert!(last_round > MAX_ROUNDS);
    assert!(gm.stop_game("g1".to_string()).is_ok());
    assert!(!gm.is_game_exists(&"g1".to_string()));
    assert_eq!(gm.score_of_user("u1"), 3);
    assert_eq!(gm.score_of_group("g1"), 3);
}

#[test]
fn timeout_moves_on_without_scoring() {
    let mut gm = sample_manager();
    let game = gm.start_game("g1".to_string(), None, false).unwrap();
    assert_eq!(
        gm.wait_for_answer("g1".to_string(), 1, false).unwrap(),
        None
    );
    assert_eq!(
        gm.wait_for_answer("g1".to_string(), 1, true).unwrap(),
        Some(WaitOutcome::TimedOut)
    );
    let (finished, next, round) =
        gm.get_current_quiz_and_move_next("g1".to_string()).unwrap();
    assert_eq!(finished.get_answer(), game.current_quiz.get_answer());
    assert_eq!(round, 2);
    let now = gm.current_game(&"g1".to_string()).unwrap();
    assert_eq!(now.current_round, 2);
    assert_eq!(now.current_quiz.get_answer(), next.get_answer());
    assert_eq!(gm.score_of_user("u1"), 0);
    assert_eq!(gm.score_of_group("g1"), 0);
}

#[test]
fn move_next_twice_moves_two_rounds() {
    let mut gm = sample_manager();
    gm.start_game("g1".to_string(), None, false).unwrap();
    let (_, _, first) = gm.get_current_quiz_and_move_next("g1".to_string()).unwrap();
    let (_, _, second) = gm.get_current_quiz_and_move_next("g1".to_string()).unwrap();
    assert_eq!(first, 2);
    assert_eq!(second, 3);
}

#[test]
fn stop_of_a_missing_game_is_not_found_every_time() {
    let mut gm = sample_manager();
    gm.start_game("g2".to_string(), None, false).unwrap();
    for _ in 0..3 {
        match gm.stop_game("g1".to_string()) {
            Err(Error::GameNotFound(group)) => assert_eq!(group, "g1"),
            _ => panic!("there is no game to stop"),
        }
    }
    assert!(gm.is_game_exists(&"g2".to_string()));
    assert!(gm.stop_game("g2".to_string()).is_ok());
    assert!(matches!(gm.stop_game("g2".to_string()), Err(Error::GameNotFound(_))));
}

#[test]
fn operations_on_a_missing_game_are_not_found() {
    let mut gm = sample_manager();
    assert!(matches!(
        gm.try_answer_inmemory("u1", &"g1".to_string(), "a1"),
        Err(Error::GameNotFound(_))
    ));
    assert!(matches!(
        gm.get_current_quiz_and_move_next("g1".to_string()),
        Err(Error::GameNotFound(_))
    ));
    assert!(matches!(gm.submit_answer("g1".to_string()), Err(Error::GameNotFound(_))));
    assert!(matches!(
        gm.wait_for_answer("g1".to_string(), 1, true),
        Err(Error::GameNotFound(_))
    ));
    assert_eq!(gm.score_of_user("u1"), 0);
}

#[test]
fn wrong_answer_changes_nothing() {
    let mut gm = sample_manager();
    let game = gm.start_game("g1".to_string(), None, false).unwrap();
    let result = gm.try_answer_inmemory("u1", &"g1".to_string(), "no such answer").unwrap();
    assert!(matches!(result, AnswerResult::Wrong));
    let now = gm.current_game(&"g1".to_string()).unwrap();
    assert_eq!(now.current_round, 1);
    assert_eq!(now.current_quiz.get_answer(), game.current_quiz.get_answer());
    assert_eq!(gm.score_of_user("u1"), 0);
    assert_eq!(gm.score_of_group("g1"), 0);
}

#[test]
fn answer_with_other_case_or_space_is_wrong() {
    let quiz_db = QuizDB::from_quizzes(vec![Quiz::new(
        "상식".to_string(),
        "q".to_string(),
        "Seoul".to_string(),
        None,
    )]);
    let mut gm = GameManager::new(quiz_db, sample_flag_db()).unwrap();
    gm.start_game("g1".to_string(), None, false).unwrap();
    for answer in ["seoul", "Seoul ", " Seoul", "SEOUL"] {
        let result = gm.try_answer_inmemory("u1", &"g1".to_string(), answer).unwrap();
        assert!(matches!(result, AnswerResult::Wrong));
    }
    let result = gm.try_answer_inmemory("u1", &"g1".to_string(), "Seoul").unwrap();
    assert!(matches!(result, AnswerResult::Correct { .. }));
}

#[test]
fn a_round_is_won_only_once() {
    let mut gm = sample_manager();
    gm.start_game("g1".to_string(), None, false).unwrap();
    let answer = current_answer(&gm, "g1");
    let first = gm.try_answer_inmemory("u1", &"g1".to_string(), &answer).unwrap();
    let (first_round, next_answer) = match first {
        AnswerResult::Correct { current_round, next_quiz, .. } => {
            (current_round, next_quiz.get_answer().to_string())
        }
        AnswerResult::Wrong => panic!("the answer was the expected one"),
    };
    assert_eq!(first_round, 2);
    let second = gm.try_answer_inmemory("u2", &"g1".to_string(), &answer).unwrap();
    match second {
        AnswerResult::Correct { current_round, .. } => {
            assert_eq!(next_answer, answer);
            assert_eq!(current_round, 3);
        }
        AnswerResult::Wrong => {
            assert_ne!(next_answer, answer);
            assert_eq!(gm.current_game(&"g1".to_string()).unwrap().current_round, 2);
            assert_eq!(gm.score_of_user("u2"), 0);
        }
    }
    assert_eq!(gm.score_of_user("u1"), 1);
}

#[test]
fn games_of_other_groups_are_left_alone() {
    let mut gm = sample_manager();
    gm.start_game("g1".to_string(), None, false).unwrap();
    let other = gm.start_game("g2".to_string(), Some("넌센스".to_string()), false).unwrap();
    let answer = current_answer(&gm, "g1");
    gm.try_answer_inmemory("u1", &"g1".to_string(), &answer).unwrap();
    gm.stop_game("g1".to_string()).unwrap();
    let kept = gm.current_game(&"g2".to_string()).unwrap();
    assert_eq!(kept.current_round, 1);
    assert_eq!(kept.selected_category, Some("넌센스".to_string()));
    assert_eq!(kept.current_quiz.get_answer(), other.current_quiz.get_answer());
    assert_eq!(gm.score_of_group("g2"), 0);
}

#[test]
fn category_game_draws_from_its_category() {
    let mut gm = sample_manager();
    gm.start_game("g1".to_string(), Some("넌센스".to_string()), false).unwrap();
    for _ in 0..20 {
        let (_, next, _) = gm.get_current_quiz_and_move_next("g1".to_string()).unwrap();
        match next {
            QuizType::Simple(quiz) => assert_eq!(quiz.category, "넌센스"),
            QuizType::Flag(_) => panic!("a text category draws text questions"),
        }
    }
}

#[test]
fn unknown_category_falls_back_to_any_question() {
    let quiz_db = sample_quiz_db();
    let flag_db = sample_flag_db();
    for _ in 0..20 {
        match draw_next(&quiz_db, &flag_db, &Some("없는 카테고리".to_string())) {
            QuizType::Simple(quiz) => {
                assert!(quiz.category == "상식" || quiz.category == "넌센스")
            }
            QuizType::Flag(_) => panic!("only the flag category draws flags"),
        }
    }
    assert!(matches!(draw_next(&quiz_db, &flag_db, &None), QuizType::Simple(_)));
    assert!(matches!(
        draw_next(&quiz_db, &flag_db, &Some("국기".to_string())),
        QuizType::Flag(_)
    ));
}

#[test]
fn signal_before_wait_is_not_lost() {
    let mut clock = RoundClock::new();
    assert!(!clock.signaled);
    assert_eq!(clock.wait_for_answer_or_timeout(false), None);
    assert_eq!(clock.wait_for_answer_or_timeout(true), Some(WaitOutcome::TimedOut));
    clock.signal_answered();
    assert_eq!(clock.wait_for_answer_or_timeout(false), Some(WaitOutcome::Answered));
    assert_eq!(clock.wait_for_answer_or_timeout(true), Some(WaitOutcome::Answered));
    clock.signal_answered();
    assert_eq!(clock.wait_for_answer_or_timeout(true), Some(WaitOutcome::Answered));
}

#[test]
fn submit_answer_signals_the_current_round() {
    let mut gm = sample_manager();
    gm.start_game("g1".to_string(), None, false).unwrap();
    assert!(gm.submit_answer("g1".to_string()).is_ok());
    assert!(gm.current_game(&"g1".to_string()).unwrap().answer_submitted.signaled);
    assert_eq!(
        gm.wait_for_answer("g1".to_string(), 1, true).unwrap(),
        Some(WaitOutcome::Answered)
    );
    assert_eq!(
        gm.wait_for_answer("g1".to_string(), 1, false).unwrap(),
        Some(WaitOutcome::Answered)
    );
}

#[test]
fn correct_answer_closes_the_round_for_its_waiter() {
    let mut gm = sample_manager();
    gm.start_game("g1".to_string(), None, false).unwrap();
    let answer = current_answer(&gm, "g1");
    gm.try_answer_inmemory("u1", &"g1".to_string(), &answer).unwrap();
    assert_eq!(
        gm.wait_for_answer("g1".to_string(), 1, true).unwrap(),
        Some(WaitOutcome::Answered)
    );
    assert_eq!(gm.wait_for_answer("g1".to_string(), 2, false).unwrap(), None);
    assert_eq!(
        gm.wait_for_answer("g1".to_string(), 2, true).unwrap(),
        Some(WaitOutcome::TimedOut)
    );
}

#[test]
fn game_with_quiz_starts_in_round_one_and_advances() {
    let quiz = QuizType::Flag(FlagQuiz::new("kr".to_string(), "대한민국".to_string()));
    let mut game = Game::with_quiz("g1".to_string(), Some("국기".to_string()), quiz);
    assert_eq!(game.current_round, 1);
    game.answer_submitted.signal_answered();
    game.advance(QuizType::Flag(FlagQuiz::new("jp".to_string(), "일본".to_string())));
    assert_eq!(game.current_round, 2);
    assert_eq!(game.current_quiz.get_answer(), "일본");
    assert_eq!(game.selected_category, Some("국기".to_string()));
    assert!(!game.answer_submitted.signaled);
    let copy = game.clone();
    assert_eq!(copy.group_key, "g1");
    assert_eq!(copy.current_round, 2);
}

#[test]
fn new_game_draws_the_shape_that_was_asked_for() {
    let quiz_db = sample_quiz_db();
    let flag_db = sample_flag_db();
    let flags = Game::new("g1".to_string(), None, true, &quiz_db, &flag_db);
    assert!(matches!(flags.current_quiz, QuizType::Flag(_)));
    let texts = Game::new("g1".to_string(), None, false, &quiz_db, &flag_db);
    assert!(matches!(texts.current_quiz, QuizType::Simple(_)));
}

#[test]
fn ranking_is_a_fixed_pair() {
    let gm = sample_manager();
    assert_eq!(gm.get_ranking("u1", "g1").unwrap(), (123, 123));
}
