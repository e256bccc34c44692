//! The session manager: which groups are playing, which round each game is
//! in, and what an answer or an elapsed round does to it.

use crate::error::Error;
use crate::game::db::{FlagQuizDB, QuizDB, QuizType};
use crate::game::scores::ScoreLedger;
use crate::text::str_eq;
use vstd::prelude::*;
use vstd::string::StringExecFns;

verus! {

/// What identifies a chat group. A group has at most one game at a time.
pub type GroupKey = String;

/// The number of rounds a game runs for. A round number above it tells the
/// caller that the game is over and has to be stopped.
pub const MAX_ROUNDS: u8 = 3;

/// How long a round waits for a correct answer.
pub const MAX_TIMEOUT_SECONDS: u64 = 60;

/// The category that turns every question of a game into a flag question.
pub open spec fn flag_category() -> Seq<char> {
    "국기"@
}

/// How a wait on a round clock ends.
#[derive(Clone, Copy, Debug, PartialEq, Eq, Structural)]
pub enum WaitOutcome {
    /// Somebody gave the correct answer.
    Answered,
    /// The time ran out first.
    TimedOut,
}

/// The wake signal of one round: a latch with two states. Once signaled it
/// stays signaled, so a waiter that comes late still learns of the answer.
#[derive(Clone, Copy, Debug)]
pub struct RoundClock {
    pub signaled: bool,
}

impl RoundClock {
    /// The clock after a signal, whatever it was before.
    pub open spec fn signal(self) -> RoundClock {
        RoundClock { signaled: true }
    }

    /// What a waiter learns: the answer wins over the timer, and without
    /// either the wait goes on.
    pub open spec fn outcome(self, timer_elapsed: bool) -> Option<WaitOutcome> {
        if self.signaled {
            Some(WaitOutcome::Answered)
        } else if timer_elapsed {
            Some(WaitOutcome::TimedOut)
        } else {
            None
        }
    }

    /// The clock of a round that has just begun.
    pub fn new() -> (clock: RoundClock)
        ensures
            !clock.signaled,
    {
        RoundClock { signaled: false }
    }

    /// Records that the round was answered.
    pub fn signal_answered(&mut self)
        ensures
            *final(self) == old(self).signal(),
    {
        self.signaled = true;
    }

    /// One look at the clock by a waiter whose timer has or has not run
    /// out: how the wait ends, or `None` while it has to go on.
    pub fn wait_for_answer_or_timeout(&self, timer_elapsed: bool) -> (outcome: Option<WaitOutcome>)
        ensures
            outcome == self.outcome(timer_elapsed),
    {
        if self.signaled {
            Some(WaitOutcome::Answered)
        } else if timer_elapsed {
            Some(WaitOutcome::TimedOut)
        } else {
            None
        }
    }

    /// A signal that comes before the wait is not lost: from then on every
    /// look at the clock says "answered", whether or not the timer has run
    /// out, and further signals change nothing.
    pub proof fn lemma_signal_latches(self, timer_elapsed: bool)
        ensures
            self.signal().outcome(timer_elapsed) == Some(WaitOutcome::Answered),
            self.signal().signal() == self.signal(),
    {
    }
}

/// Whether `quiz` is a question that a game of `category` may be given:
/// a flag question for the flag category, else a text question, taken from
/// the category's pool where the category has one.
pub open spec fn draw_allowed(
    quiz_db: QuizDB,
    flag_quiz_db: FlagQuizDB,
    category: Option<String>,
    quiz: QuizType,
) -> bool {
    match quiz {
        QuizType::Flag(flag) => {
            &&& category is Some
            &&& category->0@ == flag_category()
            &&& flag_quiz_db.contains(flag)
        },
        QuizType::Simple(simple) => {
            &&& category is Some ==> category->0@ != flag_category()
            &&& quiz_db.contains(simple)
            &&& category is Some && quiz_db.has_category(category->0@) ==> simple.category@
                == category->0@
        },
    }
}

/// Draws the next question of a game of `category`: a flag for the flag
/// category; for another category one of its pool or, if it has none, any
/// question; without a category any question.
pub fn draw_next(quiz_db: &QuizDB, flag_quiz_db: &FlagQuizDB, category: &Option<String>) -> (quiz:
    QuizType)
    requires
        quiz_db.wf(),
        flag_quiz_db.wf(),
    ensures
        draw_allowed(*quiz_db, *flag_quiz_db, *category, quiz),
{
    match category {
        Some(name) => {
            if str_eq(name.as_str(), "국기") {
                QuizType::Flag(flag_quiz_db.get_random_flag_quiz().clone())
            } else {
                match quiz_db.get_random_quiz_by_category(name) {
                    Some(quiz) => QuizType::Simple(quiz.clone()),
                    None => QuizType::Simple(quiz_db.get_any_random_quiz().clone()),
                }
            }
        },
        None => QuizType::Simple(quiz_db.get_any_random_quiz().clone()),
    }
}

/// One group's game in progress.
#[derive(Debug)]
pub struct Game {
    pub group_key: GroupKey,
    pub current_round: u8,
    pub current_quiz: QuizType,
    /// Fixed when the game starts; without one, questions come from all
    /// categories.
    pub selected_category: Option<String>,
    /// The clock of the current round.
    pub answer_submitted: RoundClock,
}

impl Game {
    /// The game as it is once the current round is over and `next` has been
    /// drawn: one round further, with a fresh clock.
    pub open spec fn advanced(self, next: QuizType) -> Game {
        Game {
            group_key: self.group_key,
            current_round: (self.current_round + 1) as u8,
            current_quiz: next,
            selected_category: self.selected_category,
            answer_submitted: RoundClock { signaled: false },
        }
    }

    /// Whether the question fits the category as far as its shape goes:
    /// a flag question exactly in a game of the flag category.
    pub open spec fn shape_fits_category(self) -> bool {
        self.current_quiz.is_flag() <==> (self.selected_category is Some
            && self.selected_category->0@ == flag_category())
    }

    /// A game in its first round that asks `quiz`.
    pub fn with_quiz(group_key: GroupKey, selected_category: Option<String>, quiz: QuizType) -> (game:
        Game)
        ensures
            game.group_key == group_key,
            game.current_round == 1,
            game.current_quiz == quiz,
            game.selected_category == selected_category,
            !game.answer_submitted.signaled,
    {
        Game {
            group_key,
            current_round: 1,
            current_quiz: quiz,
            selected_category,
            answer_submitted: RoundClock::new(),
        }
    }

    /// A game in its first round. Its question is drawn at once: a flag
    /// question if `is_flag_quiz`, else a text question of any category.
    pub fn new(
        group_key: GroupKey,
        selected_category: Option<String>,
        is_flag_quiz: bool,
        quiz_db: &QuizDB,
        flag_quiz_db: &FlagQuizDB,
    ) -> (game: Game)
        requires
            quiz_db.wf(),
            flag_quiz_db.wf(),
        ensures
            game.group_key == group_key,
            game.current_round == 1,
            game.selected_category == selected_category,
            !game.answer_submitted.signaled,
            match game.current_quiz {
                QuizType::Flag(flag) => is_flag_quiz && flag_quiz_db.contains(flag),
                QuizType::Simple(simple) => !is_flag_quiz && quiz_db.contains(simple),
            },
    {
        let quiz = if is_flag_quiz {
            QuizType::Flag(flag_quiz_db.get_random_flag_quiz().clone())
        } else {
            QuizType::Simple(quiz_db.get_any_random_quiz().clone())
        };
        Game::with_quiz(group_key, selected_category, quiz)
    }

    /// Ends the current round and begins the next one with `next` as its
    /// question. The round number must still fit its type.
    pub fn advance(&mut self, next: QuizType)
        requires
            old(self).current_round < u8::MAX,
        ensures
            *final(self) == old(self).advanced(next),
    {
        self.current_round = self.current_round + 1;
        self.current_quiz = next;
        self.answer_submitted = RoundClock::new();
    }
}

impl Clone for Game {
    fn clone(&self) -> (copy: Self)
        ensures
            copy == *self,
    {
        Game {
            group_key: self.group_key.clone(),
            current_round: self.current_round,
            current_quiz: self.current_quiz.clone(),
            selected_category: self.selected_category.clone(),
            answer_submitted: self.answer_submitted,
        }
    }
}

/// What an answer did.
#[derive(Debug)]
pub enum AnswerResult {
    /// The answer was right: the user scored and the game moved on.
    Correct {
        user_id: String,
        /// The user's score, this answer counted.
        score: u32,
        /// The question that was answered.
        current_quiz: QuizType,
        /// The question of the round that begins.
        next_quiz: QuizType,
        /// The number of the round that begins.
        current_round: u8,
    },
    /// The answer was wrong: nothing changed.
    Wrong,
}

/// Whether the game at `at` exists and belongs to `group`.
pub open spec fn session_at(games: Seq<Game>, at: int, group: Seq<char>) -> bool {
    0 <= at < games.len() && games[at].group_key@ == group
}

/// Whether `group` has a game.
pub open spec fn has_session(games: Seq<Game>, group: Seq<char>) -> bool {
    exists|at: int| session_at(games, at, group)
}

/// The game of `group`, where it has one.
pub open spec fn session_of(games: Seq<Game>, group: Seq<char>) -> Game {
    games[choose|at: int| session_at(games, at, group)]
}

/// No group has two games.
pub open spec fn one_session_per_group(games: Seq<Game>) -> bool {
    forall|i: int, j: int|
        0 <= i < j < games.len() ==> (#[trigger] games[i]).group_key@ != (
        #[trigger] games[j]).group_key@
}

/// Every game is in round one or a later one.
pub open spec fn rounds_from_one(games: Seq<Game>) -> bool {
    forall|at: int| 0 <= at < games.len() ==> (#[trigger] games[at]).current_round >= 1
}

/// Whether every group but `group` has in `after` the game, if any, that it
/// has in `before`.
pub open spec fn other_sessions_kept(before: Seq<Game>, after: Seq<Game>, group: Seq<char>) -> bool {
    forall|other: Seq<char>|
        other != group ==> {
            &&& #[trigger] has_session(after, other) == has_session(before, other)
            &&& has_session(before, other) ==> session_of(after, other) == session_of(before, other)
        }
}

/// Where no group has two games, a game found for a group is the group's
/// game.
pub proof fn lemma_session_decides(games: Seq<Game>, at: int, group: Seq<char>)
    requires
        one_session_per_group(games),
        session_at(games, at, group),
    ensures
        has_session(games, group),
        session_of(games, group) == games[at],
{
}

/// Replacing a group's game by another of the same group touches no other
/// group.
proof fn lemma_replace(before: Seq<Game>, at: int, game: Game)
    requires
        one_session_per_group(before),
        0 <= at < before.len(),
        game.group_key@ == before[at].group_key@,
    ensures
        one_session_per_group(before.update(at, game)),
        has_session(before.update(at, game), game.group_key@),
        session_of(before.update(at, game), game.group_key@) == game,
        other_sessions_kept(before, before.update(at, game), game.group_key@),
{
    let after = before.update(at, game);
    lemma_session_decides(after, at, game.group_key@);
    assert forall|other: Seq<char>| other != game.group_key@ implies (#[trigger] has_session(
        after,
        other,
    ) == has_session(before, other)) && (has_session(before, other) ==> session_of(after, other)
        == session_of(before, other)) by {
        if has_session(before, other) {
            let i = choose|i: int| session_at(before, i, other);
            lemma_session_decides(after, i, other);
            lemma_session_decides(before, i, other);
        } else if has_session(after, other) {
            let i = choose|i: int| session_at(after, i, other);
            assert(session_at(before, i, other));
        }
    }
}

/// A game added for a group that had none touches no other group.
proof fn lemma_insert(before: Seq<Game>, game: Game)
    requires
        one_session_per_group(before),
        !has_session(before, game.group_key@),
    ensures
        one_session_per_group(before.push(game)),
        has_session(before.push(game), game.group_key@),
        session_of(before.push(game), game.group_key@) == game,
        other_sessions_kept(before, before.push(game), game.group_key@),
{
    let after = before.push(game);
    let last = before.len() as int;
    assert forall|i: int, j: int| 0 <= i < j < after.len() implies (#[trigger] after[i]).group_key@
        != (#[trigger] after[j]).group_key@ by {
        if j == last {
            assert(!session_at(before, i, game.group_key@));
        }
    }
    lemma_session_decides(after, last, game.group_key@);
    assert forall|other: Seq<char>| other != game.group_key@ implies (#[trigger] has_session(
        after,
        other,
    ) == has_session(before, other)) && (has_session(before, other) ==> session_of(after, other)
        == session_of(before, other)) by {
        if has_session(before, other) {
            let i = choose|i: int| session_at(before, i, other);
            lemma_session_decides(after, i, other);
            lemma_session_decides(before, i, other);
        } else if has_session(after, other) {
            let i = choose|i: int| session_at(after, i, other);
            assert(session_at(before, i, other));
        }
    }
}

/// Taking a group's game away touches no other group.
proof fn lemma_remove(before: Seq<Game>, at: int)
    requires
        one_session_per_group(before),
        0 <= at < before.len(),
    ensures
        one_session_per_group(before.remove(at)),
        !has_session(before.remove(at), before[at].group_key@),
        other_sessions_kept(before, before.remove(at), before[at].group_key@),
{
    let after = before.remove(at);
    let group = before[at].group_key@;
    assert forall|other: Seq<char>| other != group implies (#[trigger] has_session(after, other)
        == has_session(before, other)) && (has_session(before, other) ==> session_of(after, other)
        == session_of(before, other)) by {
        if has_session(before, other) {
            let i = choose|i: int| session_at(before, i, other);
            let ai = if i < at { i } else { i - 1 };
            lemma_session_decides(after, ai, other);
            lemma_session_decides(before, i, other);
        } else if has_session(after, other) {
            let i = choose|i: int| session_at(after, i, other);
            let bi = if i < at { i } else { i + 1 };
            assert(session_at(before, bi, other));
        }
    }
}

/// The session manager: the games in progress, the scores of users and
/// groups, and the pools that questions are drawn from.
pub struct GameManager {
    games: Vec<Game>,
    scores_by_user: ScoreLedger,
    scores_by_group: ScoreLedger,
    quiz_db: QuizDB,
    flag_quiz_db: FlagQuizDB,
}

impl GameManager {
    /// The games in progress.
    pub closed spec fn games(&self) -> Seq<Game> {
        self.games@
    }

    /// The scores of the users.
    pub closed spec fn scores_by_user(&self) -> ScoreLedger {
        self.scores_by_user
    }

    /// The scores of the groups.
    pub closed spec fn scores_by_group(&self) -> ScoreLedger {
        self.scores_by_group
    }

    /// The pools of text questions.
    pub closed spec fn quiz_db(&self) -> QuizDB {
        self.quiz_db
    }

    /// The pool of flag questions.
    pub closed spec fn flag_quiz_db(&self) -> FlagQuizDB {
        self.flag_quiz_db
    }

    /// No group has two games, rounds are counted from one, no subject
    /// has two scores, and both pools can be drawn from.
    pub open spec fn wf(&self) -> bool {
        &&& one_session_per_group(self.games())
        &&& rounds_from_one(self.games())
        &&& self.scores_by_user().wf()
        &&& self.scores_by_group().wf()
        &&& self.quiz_db().wf()
        &&& self.flag_quiz_db().wf()
    }

    /// Whether `group` has a game in progress.
    pub open spec fn has_game(&self, group: Seq<char>) -> bool {
        has_session(self.games(), group)
    }

    /// The game of `group`, where it has one.
    pub open spec fn game(&self, group: Seq<char>) -> Game {
        session_of(self.games(), group)
    }

    /// The score of the user `user`.
    pub open spec fn user_score(&self, user: Seq<char>) -> nat {
        self.scores_by_user().score_of(user)
    }

    /// The score of the group `group`.
    pub open spec fn group_score(&self, group: Seq<char>) -> nat {
        self.scores_by_group().score_of(group)
    }

    /// Whether the numbers that a correct answer of `user` in the game of
    /// `group` would raise still fit their types.
    pub open spec fn can_score(&self, user: Seq<char>, group: Seq<char>) -> bool {
        self.has_game(group) ==> {
            &&& self.game(group).current_round < u8::MAX
            &&& self.user_score(user) < u32::MAX
            &&& self.group_score(group) < u32::MAX
        }
    }

    /// Whether `post` has the pools and the scores of `pre`.
    pub open spec fn pools_and_scores_kept(pre: GameManager, post: GameManager) -> bool {
        &&& post.quiz_db() == pre.quiz_db()
        &&& post.flag_quiz_db() == pre.flag_quiz_db()
        &&& post.scores_by_user() == pre.scores_by_user()
        &&& post.scores_by_group() == pre.scores_by_group()
    }

    /// Whether `post` is `pre` with the game of `group` one round further
    /// and `next`, a question that its category allows, as its question.
    /// No other game differs, and the pools are the same.
    pub open spec fn round_advanced(
        pre: GameManager,
        post: GameManager,
        group: Seq<char>,
        next: QuizType,
    ) -> bool {
        &&& pre.has_game(group)
        &&& post.has_game(group)
        &&& post.game(group) == pre.game(group).advanced(next)
        &&& other_sessions_kept(pre.games(), post.games(), group)
        &&& post.quiz_db() == pre.quiz_db()
        &&& post.flag_quiz_db() == pre.flag_quiz_db()
        &&& draw_allowed(
            pre.quiz_db(),
            pre.flag_quiz_db(),
            pre.game(group).selected_category,
            next,
        )
    }

    /// What starting a game does: a group that is playing gets an error
    /// and nothing changes; any other group gets a game in round one.
    pub open spec fn started(
        pre: GameManager,
        post: GameManager,
        group: String,
        category: Option<String>,
        is_flag_quiz: bool,
        result: Result<Game, Error>,
    ) -> bool {
        if pre.has_game(group@) {
            post == pre && result == Err::<Game, Error>(Error::GameAlreadyStarted(group))
        } else {
            &&& result matches Ok(game)
            &&& game.group_key == group
            &&& game.current_round == 1
            &&& game.selected_category == category
            &&& !game.answer_submitted.signaled
            &&& match game.current_quiz {
                QuizType::Flag(flag) => is_flag_quiz && pre.flag_quiz_db().contains(flag),
                QuizType::Simple(simple) => !is_flag_quiz && pre.quiz_db().contains(simple),
            }
            &&& post.has_game(group@)
            &&& post.game(group@) == game
            &&& other_sessions_kept(pre.games(), post.games(), group@)
            &&& Self::pools_and_scores_kept(pre, post)
        }
    }

    /// What stopping a game does: a group that is not playing gets an
    /// error and nothing changes; the game of any other group is gone.
    pub open spec fn stopped(
        pre: GameManager,
        post: GameManager,
        group: String,
        result: Result<(), Error>,
    ) -> bool {
        if !pre.has_game(group@) {
            post == pre && result == Err::<(), Error>(Error::GameNotFound(group))
        } else {
            &&& result == Ok::<(), Error>(())
            &&& !post.has_game(group@)
            &&& other_sessions_kept(pre.games(), post.games(), group@)
            &&& Self::pools_and_scores_kept(pre, post)
        }
    }

    /// What an answer does. Without a game: an error. With a game whose
    /// question expects another answer: `Wrong`. In both cases nothing
    /// changes. Else the user and the group score one point each, no other
    /// score changes, and the game moves on by one round.
    pub open spec fn answered(
        pre: GameManager,
        post: GameManager,
        user: Seq<char>,
        group: String,
        answer: Seq<char>,
        result: Result<AnswerResult, Error>,
    ) -> bool {
        if !pre.has_game(group@) {
            post == pre && result == Err::<AnswerResult, Error>(Error::GameNotFound(group))
        } else if pre.game(group@).current_quiz.expected_answer() != answer {
            post == pre && result matches Ok(AnswerResult::Wrong)
        } else {
            &&& result matches Ok(
                AnswerResult::Correct { user_id, score, current_quiz, next_quiz, current_round },
            )
            &&& user_id@ == user
            &&& score == pre.user_score(user) + 1
            &&& current_quiz == pre.game(group@).current_quiz
            &&& current_round == pre.game(group@).current_round + 1
            &&& Self::round_advanced(pre, post, group@, next_quiz)
            &&& post.user_score(user) == pre.user_score(user) + 1
            &&& forall|other: Seq<char>|
                other != user ==> #[trigger] post.scores_by_user().score_of(other)
                    == pre.scores_by_user().score_of(other)
            &&& post.group_score(group@) == pre.group_score(group@) + 1
            &&& forall|other: Seq<char>|
                other != group@ ==> #[trigger] post.scores_by_group().score_of(other)
                    == pre.scores_by_group().score_of(other)
        }
    }

    /// What an elapsed round does. Without a game: an error, and nothing
    /// changes. Else the game moves on by one round, as after a correct
    /// answer, but nobody scores. The result holds the question that was
    /// left unanswered, the next question and the number of its round.
    pub open spec fn moved_next(
        pre: GameManager,
        post: GameManager,
        group: String,
        result: Result<(QuizType, QuizType, u8), Error>,
    ) -> bool {
        if !pre.has_game(group@) {
            post == pre && result == Err::<(QuizType, QuizType, u8), Error>(
                Error::GameNotFound(group),
            )
        } else {
            &&& result matches Ok((current_quiz, next_quiz, next_round))
            &&& current_quiz == pre.game(group@).current_quiz
            &&& next_round == pre.game(group@).current_round + 1
            &&& Self::round_advanced(pre, post, group@, next_quiz)
            &&& post.scores_by_user() == pre.scores_by_user()
            &&& post.scores_by_group() == pre.scores_by_group()
        }
    }

    /// What signaling does. Without a game: an error, and nothing changes.
    /// Else the clock of the game's current round is signaled, and nothing
    /// else changes.
    pub open spec fn signaled(
        pre: GameManager,
        post: GameManager,
        group: String,
        result: Result<(), Error>,
    ) -> bool {
        if !pre.has_game(group@) {
            post == pre && result == Err::<(), Error>(Error::GameNotFound(group))
        } else {
            &&& result == Ok::<(), Error>(())
            &&& post.has_game(group@)
            &&& post.game(group@) == (Game {
                answer_submitted: pre.game(group@).answer_submitted.signal(),
                ..pre.game(group@)
            })
            &&& other_sessions_kept(pre.games(), post.games(), group@)
            &&& Self::pools_and_scores_kept(pre, post)
        }
    }

    /// What the waiter of round `round` of `group` learns when it looks at
    /// the game with its timer elapsed or not. Without a game: an error.
    /// With the game in a later round: the round is closed, which counts as
    /// answered. Else what the clock of the current round says.
    pub open spec fn wait_result(&self, group: String, round: u8, timer_elapsed: bool) -> Result<
        Option<WaitOutcome>,
        Error,
    > {
        if !self.has_game(group@) {
            Err(Error::GameNotFound(group))
        } else if self.game(group@).current_round > round {
            Ok(Some(WaitOutcome::Answered))
        } else {
            Ok(self.game(group@).answer_submitted.outcome(timer_elapsed))
        }
    }

    /// A manager without games, with every score at zero.
    pub fn new(quiz_db: QuizDB, flag_quiz_db: FlagQuizDB) -> (result: Result<GameManager, Error>)
        requires
            quiz_db.wf(),
            flag_quiz_db.wf(),
        ensures
            result matches Ok(manager) && {
                &&& manager.wf()
                &&& manager.games().len() == 0
                &&& manager.quiz_db() == quiz_db
                &&& manager.flag_quiz_db() == flag_quiz_db
                &&& forall|group: Seq<char>| !manager.has_game(group)
                &&& forall|subject: Seq<char>| #[trigger]
                    manager.scores_by_user().score_of(subject) == 0
                &&& forall|subject: Seq<char>| #[trigger]
                    manager.scores_by_group().score_of(subject) == 0
            },
    {
        let manager = GameManager {
            games: Vec::new(),
            scores_by_user: ScoreLedger::new(),
            scores_by_group: ScoreLedger::new(),
            quiz_db,
            flag_quiz_db,
        };
        Ok(manager)
    }

    /// The position of the game of `group`, if it has one.
    fn find(&self, group: &str) -> (found: Option<usize>)
        requires
            self.wf(),
        ensures
            match found {
                Some(at) => session_at(self.games(), at as int, group@) && self.has_game(group@)
                    && self.game(group@) == self.games()[at as int],
                None => !self.has_game(group@),
            },
    {
        let mut i: usize = 0;
        while i < self.games.len()
            invariant
                self.wf(),
                i <= self.games@.len(),
                forall|at: int| 0 <= at < i ==> !session_at(self.games@, at, group@),
            decreases self.games@.len() - i,
        {
            if str_eq(self.games[i].group_key.as_str(), group) {
                proof {
                    lemma_session_decides(self.games@, i as int, group@);
                }
                return Some(i);
            }
            i += 1;
        }
        None
    }

    /// Starts a game for `group_key` unless it has one. The first question
    /// is drawn at once, and the clock of round one is not yet signaled.
    pub fn start_game(
        &mut self,
        group_key: GroupKey,
        category_name: Option<String>,
        is_flag_quiz: bool,
    ) -> (result: Result<Game, Error>)
        requires
            old(self).wf(),
        ensures
            final(self).wf(),
            Self::started(
                *old(self),
                *final(self),
                group_key,
                category_name,
                is_flag_quiz,
                result,
            ),
    {
        match self.find(group_key.as_str()) {
            Some(_) => Err(Error::GameAlreadyStarted(group_key)),
            None => {
                let game = Game::new(
                    group_key,
                    category_name,
                    is_flag_quiz,
                    &self.quiz_db,
                    &self.flag_quiz_db,
                );
                proof {
                    lemma_insert(self.games@, game);
                }
                self.games.push(game.clone());
                Ok(game)
            },
        }
    }

    /// Stops the game of `group_key`, in whatever round it is.
    pub fn stop_game(&mut self, group_key: GroupKey) -> (result: Result<(), Error>)
        requires
            old(self).wf(),
        ensures
            final(self).wf(),
            Self::stopped(*old(self), *final(self), group_key, result),
    {
        match self.find(group_key.as_str()) {
            None => Err(Error::GameNotFound(group_key)),
            Some(at) => {
                proof {
                    lemma_remove(self.games@, at as int);
                }
                let _ = self.games.remove(at);
                Ok(())
            },
        }
    }

    /// Holds `answer` against the question that the game of `group_key`
    /// asks. The comparison is exact. The first correct answer of a round
    /// wins it: the game moves on at once, so that the same answer given
    /// again is held against the next question.
    pub fn try_answer_inmemory(&mut self, user_id: &str, group_key: &GroupKey, answer: &str) -> (result:
        Result<AnswerResult, Error>)
        requires
            old(self).wf(),
            old(self).can_score(user_id@, group_key@),
        ensures
            final(self).wf(),
            Self::answered(*old(self), *final(self), user_id@, *group_key, answer@, result),
    {
        let ghost pre = *self;
        match self.find(group_key.as_str()) {
            None => Err(Error::GameNotFound(group_key.clone())),
            Some(at) => {
                if !self.games[at].current_quiz.is_correct_answer(answer) {
                    return Ok(AnswerResult::Wrong);
                }
                let score = self.scores_by_user.increment(user_id);
                let _ = self.scores_by_group.increment(group_key.as_str());
                let current_quiz = self.games[at].current_quiz.clone();
                let next_quiz = draw_next(
                    &self.quiz_db,
                    &self.flag_quiz_db,
                    &self.games[at].selected_category,
                );
                self.games[at].advance(next_quiz.clone());
                proof {
                    lemma_replace(pre.games@, at as int, self.games@[at as int]);
                }
                Ok(
                    AnswerResult::Correct {
                        user_id: String::from_str(user_id),
                        score,
                        current_quiz,
                        next_quiz,
                        current_round: self.games[at].current_round,
                    },
                )
            },
        }
    }

    /// Ends the round of `group_key` that nobody answered in time and
    /// begins the next. Called twice, it moves on twice: it is for the one
    /// waiter whose round timed out.
    pub fn get_current_quiz_and_move_next(&mut self, group_key: GroupKey) -> (result: Result<
        (QuizType, QuizType, u8),
        Error,
    >)
        requires
            old(self).wf(),
            old(self).has_game(group_key@) ==> old(self).game(group_key@).current_round < u8::MAX,
        ensures
            final(self).wf(),
            Self::moved_next(*old(self), *final(self), group_key, result),
    {
        let ghost pre = *self;
        match self.find(group_key.as_str()) {
            None => Err(Error::GameNotFound(group_key)),
            Some(at) => {
                let current_quiz = self.games[at].current_quiz.clone();
                let next_quiz = draw_next(
                    &self.quiz_db,
                    &self.flag_quiz_db,
                    &self.games[at].selected_category,
                );
                self.games[at].advance(next_quiz.clone());
                proof {
                    lemma_replace(pre.games@, at as int, self.games@[at as int]);
                }
                Ok((current_quiz, next_quiz, self.games[at].current_round))
            },
        }
    }

    /// Whether `group_key` has a game in progress.
    pub fn is_game_exists(&self, group_key: &GroupKey) -> (exists: bool)
        requires
            self.wf(),
        ensures
            exists == self.has_game(group_key@),
    {
        self.find(group_key.as_str()).is_some()
    }

    /// Signals the clock of the current round of `game_id`: somebody gave
    /// the correct answer.
    pub fn submit_answer(&mut self, game_id: String) -> (result: Result<(), Error>)
        requires
            old(self).wf(),
        ensures
            final(self).wf(),
            Self::signaled(*old(self), *final(self), game_id, result),
    {
        let ghost pre = *self;
        match self.find(game_id.as_str()) {
            None => Err(Error::GameNotFound(game_id)),
            Some(at) => {
                self.games[at].answer_submitted.signal_answered();
                proof {
                    lemma_replace(pre.games@, at as int, self.games@[at as int]);
                }
                Ok(())
            },
        }
    }

    /// One look at the game of `game_id` by the waiter of round `round`,
    /// whose timer has or has not run out: how its wait ends, or `None`
    /// while it has to go on.
    pub fn wait_for_answer(&self, game_id: String, round: u8, timer_elapsed: bool) -> (result:
        Result<Option<WaitOutcome>, Error>)
        requires
            self.wf(),
        ensures
            result == self.wait_result(game_id, round, timer_elapsed),
    {
        match self.find(game_id.as_str()) {
            None => Err(Error::GameNotFound(game_id)),
            Some(at) => {
                if self.games[at].current_round > round {
                    Ok(Some(WaitOutcome::Answered))
                } else {
                    Ok(self.games[at].answer_submitted.wait_for_answer_or_timeout(timer_elapsed))
                }
            },
        }
    }

    /// The ranks of a user and of a group. Ranking is not kept yet: both
    /// come back as 123.
    pub fn get_ranking(&self, user_id: &str, group_key: &str) -> (result: Result<(i32, i32), Error>)
        ensures
            result == Ok::<(i32, i32), Error>((123i32, 123i32)),
    {
        Ok((123, 123))
    }

    /// The game of `group_key` as it stands, if it has one.
    pub fn current_game(&self, group_key: &GroupKey) -> (game: Option<Game>)
        requires
            self.wf(),
        ensures
            game is Some <==> self.has_game(group_key@),
            game is Some ==> game->0 == self.game(group_key@),
    {
        match self.find(group_key.as_str()) {
            None => None,
            Some(at) => Some(self.games[at].clone()),
        }
    }

    /// The score of the user `user_id`; zero for one who never scored.
    pub fn score_of_user(&self, user_id: &str) -> (score: u32)
        requires
            self.wf(),
        ensures
            score == self.user_score(user_id@),
    {
        self.scores_by_user.get(user_id)
    }

    /// The score of the group `group_key`; zero for one that never scored.
    pub fn score_of_group(&self, group_key: &str) -> (score: u32)
        requires
            self.wf(),
        ensures
            score == self.group_score(group_key@),
    {
        self.scores_by_group.get(group_key)
    }

    /// Whether an answer of `user_id` in the game of `group_key` can be
    /// taken: the round number and both scores have room for one more.
    pub fn can_take_answer(&self, user_id: &str, group_key: &GroupKey) -> (room: bool)
        requires
            self.wf(),
        ensures
            room == self.can_score(user_id@, group_key@),
    {
        match self.find(group_key.as_str()) {
            None => true,
            Some(at) => self.games[at].current_round < u8::MAX && self.scores_by_user.get(user_id)
                < u32::MAX && self.scores_by_group.get(group_key.as_str()) < u32::MAX,
        }
    }

    /// No group has two games: two places that hold a game of one group
    /// are one place.
    pub proof fn lemma_one_game_per_group(&self, group: Seq<char>, i: int, j: int)
        requires
            self.wf(),
            session_at(self.games(), i, group),
            session_at(self.games(), j, group),
        ensures
            i == j,
    {
    }

    /// Rounds are counted from one: a game is never in round zero.
    pub proof fn lemma_rounds_from_one(&self, group: Seq<char>)
        requires
            self.wf(),
            self.has_game(group),
        ensures
            self.game(group).current_round >= 1,
    {
    }

    /// An answer never turns the round number back: a correct answer
    /// raises it by exactly one, any other leaves it, and the game's
    /// category, as it is.
    pub proof fn lemma_answer_moves_one_round(
        pre: GameManager,
        post: GameManager,
        user: Seq<char>,
        group: String,
        answer: Seq<char>,
        result: Result<AnswerResult, Error>,
    )
        requires
            pre.can_score(user, group@),
            pre.has_game(group@),
            Self::answered(pre, post, user, group, answer, result),
        ensures
            post.has_game(group@),
            post.game(group@).selected_category == pre.game(group@).selected_category,
            result matches Ok(AnswerResult::Correct { .. }) ==> post.game(group@).current_round
                == pre.game(group@).current_round + 1,
            !(result matches Ok(AnswerResult::Correct { .. })) ==> post.game(group@).current_round
                == pre.game(group@).current_round,
    {
    }

    /// An elapsed round raises the round number by exactly one and changes
    /// no score.
    pub proof fn lemma_timeout_moves_one_round(
        pre: GameManager,
        post: GameManager,
        group: String,
        result: Result<(QuizType, QuizType, u8), Error>,
    )
        requires
            pre.has_game(group@),
            pre.game(group@).current_round < u8::MAX,
            Self::moved_next(pre, post, group, result),
        ensures
            post.has_game(group@),
            post.game(group@).current_round == pre.game(group@).current_round + 1,
            result matches Ok((_, _, next_round)) && next_round == post.game(group@).current_round,
            forall|subject: Seq<char>| #[trigger]
                post.user_score(subject) == pre.user_score(subject),
            forall|subject: Seq<char>| #[trigger]
                post.group_score(subject) == pre.group_score(subject),
    {
    }

    /// Whenever a game moves on, its new question has the shape that its
    /// category asks for: a flag question exactly in a game of the flag
    /// category.
    pub proof fn lemma_next_question_fits_category(
        pre: GameManager,
        post: GameManager,
        group: Seq<char>,
        next: QuizType,
    )
        requires
            Self::round_advanced(pre, post, group, next),
        ensures
            post.game(group).shape_fits_category(),
    {
    }

    /// Stopping a group that has no game fails and changes nothing, so a
    /// second stop right after a first always reports that no game was
    /// found.
    pub proof fn lemma_stop_again_finds_nothing(
        first: GameManager,
        second: GameManager,
        third: GameManager,
        group: String,
        first_result: Result<(), Error>,
        second_result: Result<(), Error>,
    )
        requires
            Self::stopped(first, second, group, first_result),
            Self::stopped(second, third, group, second_result),
        ensures
            !second.has_game(group@),
            third == second,
            second_result == Err::<(), Error>(Error::GameNotFound(group)),
    {
    }

    /// A round is won once. Of two answers to one game, one after the
    /// other, that are both counted as correct, the second has won the
    /// round after the one that the first has won.
    pub proof fn lemma_round_won_once(
        first: GameManager,
        second: GameManager,
        third: GameManager,
        group: String,
        first_user: Seq<char>,
        first_answer: Seq<char>,
        first_result: Result<AnswerResult, Error>,
        second_user: Seq<char>,
        second_answer: Seq<char>,
        second_result: Result<AnswerResult, Error>,
    )
        requires
            first.can_score(first_user, group@),
            second.can_score(second_user, group@),
            Self::answered(first, second, first_user, group, first_answer, first_result),
            Self::answered(second, third, second_user, group, second_answer, second_result),
            first_result matches Ok(AnswerResult::Correct { .. }),
            second_result matches Ok(AnswerResult::Correct { .. }),
        ensures
            second_result->Ok_0->current_round == first_result->Ok_0->current_round + 1,
            second_result->Ok_0->current_quiz == first_result->Ok_0->next_quiz,
    {
    }

    /// The answer that has just won a round is held against the next
    /// question when it is given again: it is wrong unless the next
    /// question expects the very same answer, and then it wins the next
    /// round, not the same round again.
    pub proof fn lemma_same_answer_again(
        first: GameManager,
        second: GameManager,
        third: GameManager,
        group: String,
        answer: Seq<char>,
        first_user: Seq<char>,
        first_result: Result<AnswerResult, Error>,
        second_user: Seq<char>,
        second_result: Result<AnswerResult, Error>,
    )
        requires
            first.can_score(first_user, group@),
            second.can_score(second_user, group@),
            Self::answered(first, second, first_user, group, answer, first_result),
            Self::answered(second, third, second_user, group, answer, second_result),
            first_result matches Ok(AnswerResult::Correct { .. }),
        ensures
            first_result->Ok_0->next_quiz.expected_answer() != answer ==> third == second && (
            second_result matches Ok(AnswerResult::Wrong)),
            first_result->Ok_0->next_quiz.expected_answer() == answer ==> (
            second_result matches Ok(AnswerResult::Correct { current_round, .. })
                && current_round == first_result->Ok_0->current_round + 1),
    {
    }

    /// A signal is not lost. Once the clock of a game's round is signaled,
    /// the waiter of that round is told "answered" whenever it looks,
    /// timer elapsed or not.
    pub proof fn lemma_signal_reaches_waiter(
        pre: GameManager,
        post: GameManager,
        group: String,
        result: Result<(), Error>,
        timer_elapsed: bool,
    )
        requires
            pre.has_game(group@),
            Self::signaled(pre, post, group, result),
        ensures
            post.game(group@).current_round == pre.game(group@).current_round,
            post.wait_result(group, pre.game(group@).current_round, timer_elapsed) == Ok::<
                Option<WaitOutcome>,
                Error,
            >(Some(WaitOutcome::Answered)),
    {
    }

    /// A correct answer closes its round. The waiter of the round that
    /// was answered is told "answered" whenever it looks afterwards, as
    /// long as the game exists.
    pub proof fn lemma_correct_answer_reaches_waiter(
        pre: GameManager,
        post: GameManager,
        user: Seq<char>,
        group: String,
        answer: Seq<char>,
        result: Result<AnswerResult, Error>,
        timer_elapsed: bool,
    )
        requires
            pre.can_score(user, group@),
            Self::answered(pre, post, user, group, answer, result),
            result matches Ok(AnswerResult::Correct { .. }),
        ensures
            post.wait_result(group, pre.game(group@).current_round, timer_elapsed) == Ok::<
                Option<WaitOutcome>,
                Error,
            >(Some(WaitOutcome::Answered)),
    {
    }
}

} // verus!
