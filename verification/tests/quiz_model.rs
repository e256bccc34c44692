use quizbot::game::db::{is_valid_category, FlagQuizDB, QuizDB, QuizType};
use quizbot::game::model::{FlagQuiz, Quiz, QuizTrait, FLAG_IMAGE_CDN_PATH, FLAG_IMAGE_EXT};
use quizbot::game::scores::ScoreLedger;

fn text_quiz(category: &str, question: &str, answer: &str) -> Quiz {
    Quiz::new(category.to_string(), question.to_string(), answer.to_string(), None)
}

#[test]
fn quiz_info_before_shows_round_category_and_question() {
    let quiz = text_quiz("상식", "한국의 수도는?", "서울");
    assert_eq!(quiz.info_before(1), "[1/3] (상식)\n한국의 수도는?");
    assert_eq!(quiz.info_before(3), "[3/3] (상식)\n한국의 수도는?");
}

#[test]
fn quiz_info_before_writes_the_round_in_decimal() {
    let quiz = text_quiz("a", "b", "c");
    assert_eq!(quiz.info_before(0), "[0/3] (a)\nb");
    assert_eq!(quiz.info_before(10), "[10/3] (a)\nb");
    assert_eq!(quiz.info_before(255), "[255/3] (a)\nb");
}

#[test]
fn quiz_answer_match_is_exact() {
    let quiz = text_quiz("상식", "q", "Seoul");
    assert!(quiz.is_correct_answer("Seoul"));
    assert!(!quiz.is_correct_answer("seoul"));
    assert!(!quiz.is_correct_answer("Seoul "));
    assert!(!quiz.is_correct_answer(" Seoul"));
    assert!(!quiz.is_correct_answer(""));
}

#[test]
fn flag_quiz_answer_match_is_exact() {
    let quiz = FlagQuiz::new("kr".to_string(), "대한민국".to_string());
    assert!(quiz.is_correct_answer("대한민국"));
    assert!(!quiz.is_correct_answer("대한민국 "));
    assert!(!quiz.is_correct_answer("kr"));
}

#[test]
fn flag_quiz_info_before_is_the_fixed_prompt() {
    let quiz = FlagQuiz::new("kr".to_string(), "대한민국".to_string());
    assert_eq!(quiz.info_before(2), "[2/3] 이 국기는 어느 나라의 국기일까요?");
}

#[test]
fn flag_quiz_image_url_joins_path_code_and_extension() {
    let quiz = FlagQuiz::new("kr".to_string(), "대한민국".to_string());
    assert_eq!(
        quiz.image_url(),
        "https://kakao-quizbot-cdn.joe-brothers.com/flags_640/kr.png"
    );
    assert_eq!(quiz.image_url(), format!("{}/kr.{}", FLAG_IMAGE_CDN_PATH, FLAG_IMAGE_EXT));
}

#[test]
fn get_answer_gives_the_expected_answer() {
    let quiz = text_quiz("상식", "q", "서울");
    let flag = FlagQuiz::new("jp".to_string(), "일본".to_string());
    assert_eq!(quiz.get_answer(), "서울");
    assert_eq!(flag.get_answer(), "일본");
    assert_eq!(QuizType::Simple(quiz.clone()).get_answer(), "서울");
    assert_eq!(QuizType::Flag(flag.clone()).get_answer(), "일본");
    assert!(QuizType::Flag(flag).is_correct_answer("일본"));
    assert!(!QuizType::Simple(quiz).is_correct_answer("일본"));
}

#[test]
fn clones_keep_every_field() {
    let quiz = Quiz::new(
        "상식".to_string(),
        "q".to_string(),
        "a".to_string(),
        Some("note".to_string()),
    );
    let copy = quiz.clone();
    assert_eq!(copy.category, "상식");
    assert_eq!(copy.question, "q");
    assert_eq!(copy.answer, "a");
    assert_eq!(copy.comment, Some("note".to_string()));
}

#[test]
fn valid_categories_are_the_three_known_ones() {
    assert!(is_valid_category("상식"));
    assert!(is_valid_category("넌센스"));
    assert!(is_valid_category("고사성어"));
    assert!(!is_valid_category("국기"));
    assert!(!is_valid_category(""));
    assert!(!is_valid_category("상식 "));
}

#[test]
fn from_quizzes_groups_by_category_in_order() {
    let db = QuizDB::from_quizzes(vec![
        text_quiz("상식", "q1", "a1"),
        text_quiz("넌센스", "q2", "a2"),
        text_quiz("상식", "q3", "a3"),
    ]);
    assert_eq!(db.pools.len(), 2);
    assert_eq!(db.pools[0].category, "상식");
    assert_eq!(db.pools[0].quizzes.len(), 2);
    assert_eq!(db.pools[0].quizzes[0].question, "q1");
    assert_eq!(db.pools[0].quizzes[1].question, "q3");
    assert_eq!(db.pools[1].category, "넌센스");
    assert_eq!(db.pools[1].quizzes.len(), 1);
    assert_eq!(db.find_pool("넌센스"), Some(1));
    assert_eq!(db.find_pool("고사성어"), None);
    assert_eq!(db.quiz_at(0, 1).answer, "a3");
}

#[test]
fn add_opens_a_pool_for_a_new_category() {
    let mut db = QuizDB::new();
    assert_eq!(db.pools.len(), 0);
    db.add(text_quiz("상식", "q1", "a1"));
    db.add(text_quiz("상식", "q2", "a2"));
    db.add(text_quiz("고사성어", "q3", "a3"));
    assert_eq!(db.pools.len(), 2);
    assert_eq!(db.pools[0].quizzes.len(), 2);
    assert_eq!(db.pools[1].quizzes[0].answer, "a3");
}

#[test]
fn random_quiz_by_category_stays_in_the_category() {
    let db = QuizDB::from_quizzes(vec![
        text_quiz("상식", "q1", "a1"),
        text_quiz("넌센스", "q2", "a2"),
        text_quiz("상식", "q3", "a3"),
        text_quiz("상식", "q4", "a4"),
    ]);
    for _ in 0..50 {
        let quiz = db.get_random_quiz_by_category(&"상식".to_string()).unwrap();
        assert_eq!(quiz.category, "상식");
        assert!(quiz.question == "q1" || quiz.question == "q3" || quiz.question == "q4");
    }
    assert!(db.get_random_quiz_by_category(&"없음".to_string()).is_none());
}

#[test]
fn any_random_quiz_is_one_of_the_database() {
    let db = QuizDB::from_quizzes(vec![
        text_quiz("상식", "q1", "a1"),
        text_quiz("넌센스", "q2", "a2"),
    ]);
    let mut seen_first = false;
    let mut seen_second = false;
    for _ in 0..200 {
        let quiz = db.get_any_random_quiz();
        assert!(quiz.question == "q1" || quiz.question == "q2");
        seen_first = seen_first || quiz.question == "q1";
        seen_second = seen_second || quiz.question == "q2";
    }
    assert!(seen_first && seen_second);
}

#[test]
fn random_flag_quiz_is_one_of_the_database() {
    let db = FlagQuizDB::new(vec![
        FlagQuiz::new("kr".to_string(), "대한민국".to_string()),
        FlagQuiz::new("jp".to_string(), "일본".to_string()),
    ]);
    for _ in 0..50 {
        let quiz = db.get_random_flag_quiz();
        assert!(quiz.country_code_alpha_2 == "kr" || quiz.country_code_alpha_2 == "jp");
    }
    assert_eq!(db.flag_quiz_at(1).answer, "일본");
}

#[test]
fn ledger_counts_each_subject_from_zero() {
    let mut ledger = ScoreLedger::new();
    assert_eq!(ledger.get("u1"), 0);
    assert_eq!(ledger.increment("u1"), 1);
    assert_eq!(ledger.increment("u1"), 2);
    assert_eq!(ledger.increment("u2"), 1);
    assert_eq!(ledger.get("u1"), 2);
    assert_eq!(ledger.get("u2"), 1);
    assert_eq!(ledger.get("u3"), 0);
    assert_eq!(ledger.entries.len(), 2);
}
