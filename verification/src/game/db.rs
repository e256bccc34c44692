//! The quiz pools, held in memory, and the random draws from them.

use crate::game::model::{FlagQuiz, Quiz};
use crate::text::str_eq;
use vstd::prelude::*;

verus! {

/// Calls `rand::thread_rng` and `Rng::gen_range` on the half-open range
/// from zero to `bound`. The contract claims only that the number drawn
/// lies in that range; which one it is depends on the generator. An empty
/// range makes `gen_range` panic, so `bound` must be positive.
#[verifier::external_body]
fn random_below(bound: usize) -> (n: usize)
    requires
        bound > 0,
    ensures
        n < bound,
{
    rand::Rng::gen_range(&mut rand::thread_rng(), 0..bound)
}

/// Calls `rand::random` for a `usize`. Nothing is claimed of the number.
#[verifier::external_body]
fn random_usize() -> usize {
    rand::random::<usize>()
}

/// Whether `name` is one of the categories a game can be started with.
pub open spec fn valid_category(name: Seq<char>) -> bool {
    name == "상식"@ || name == "넌센스"@ || name == "고사성어"@
}

/// Whether `name` is one of the categories a game can be started with.
pub fn is_valid_category(name: &str) -> (valid: bool)
    ensures
        valid == valid_category(name@),
{
    str_eq(name, "상식") || str_eq(name, "넌센스") || str_eq(name, "고사성어")
}

/// A question of either shape.
#[derive(Debug)]
pub enum QuizType {
    Simple(Quiz),
    Flag(FlagQuiz),
}

impl QuizType {
    /// The answer that the question expects.
    pub open spec fn expected_answer(&self) -> Seq<char> {
        match self {
            QuizType::Simple(quiz) => quiz.answer@,
            QuizType::Flag(quiz) => quiz.answer@,
        }
    }

    /// Whether this is a flag-guessing question.
    pub open spec fn is_flag(&self) -> bool {
        self is Flag
    }

    /// Whether `answer` is the expected answer, letter for letter.
    pub fn is_correct_answer(&self, answer: &str) -> (correct: bool)
        ensures
            correct == (self.expected_answer() == answer@),
    {
        match self {
            QuizType::Simple(quiz) => quiz.is_correct_answer(answer),
            QuizType::Flag(quiz) => quiz.is_correct_answer(answer),
        }
    }

    pub fn get_answer(&self) -> (answer: &str)
        ensures
            answer@ == self.expected_answer(),
    {
        match self {
            QuizType::Simple(quiz) => quiz.answer.as_str(),
            QuizType::Flag(quiz) => quiz.answer.as_str(),
        }
    }
}

impl Clone for QuizType {
    fn clone(&self) -> (copy: Self)
        ensures
            copy == *self,
    {
        match self {
            QuizType::Simple(quiz) => QuizType::Simple(quiz.clone()),
            QuizType::Flag(quiz) => QuizType::Flag(quiz.clone()),
        }
    }
}

/// The questions of one category.
pub struct QuizPool {
    pub category: String,
    pub quizzes: Vec<Quiz>,
}

impl QuizPool {
    /// A pool is never empty, and holds questions of its own category only.
    pub open spec fn wf(&self) -> bool {
        &&& self.quizzes@.len() > 0
        &&& forall|j: int|
            0 <= j < self.quizzes@.len() ==> (#[trigger] self.quizzes@[j]).category@
                == self.category@
    }
}

/// The questions of `records` that belong to `category`, in their order.
pub open spec fn of_category(records: Seq<Quiz>, category: Seq<char>) -> Seq<Quiz> {
    records.filter(|quiz: Quiz| quiz.category@ == category)
}

/// Whether one of `records` belongs to `category`.
pub open spec fn mentions(records: Seq<Quiz>, category: Seq<char>) -> bool {
    exists|k: int| 0 <= k < records.len() && (#[trigger] records[k]).category@ == category
}

/// `records` by category: every category that occurs, with its questions
/// in their order.
pub open spec fn grouped(records: Seq<Quiz>) -> Map<Seq<char>, Seq<Quiz>> {
    Map::new(
        |category: Seq<char>| mentions(records, category),
        |category: Seq<char>| of_category(records, category),
    )
}

/// `groups` with `quiz` put behind the questions of its category.
pub open spec fn with_quiz(groups: Map<Seq<char>, Seq<Quiz>>, quiz: Quiz) -> Map<
    Seq<char>,
    Seq<Quiz>,
> {
    let category = quiz.category@;
    if groups.dom().contains(category) {
        groups.insert(category, groups[category].push(quiz))
    } else {
        groups.insert(category, seq![quiz])
    }
}

/// One more question changes the questions of its own category only, and
/// comes last among them.
pub proof fn lemma_of_category_push(records: Seq<Quiz>, quiz: Quiz, category: Seq<char>)
    ensures
        of_category(records.push(quiz), category) == if quiz.category@ == category {
            of_category(records, category).push(quiz)
        } else {
            of_category(records, category)
        },
{
    reveal(Seq::filter);
    assert(records.push(quiz).drop_last() =~= records);
}

/// A category that no question belongs to has no questions.
pub proof fn lemma_of_category_unmentioned(records: Seq<Quiz>, category: Seq<char>)
    requires
        !mentions(records, category),
    ensures
        of_category(records, category) == Seq::<Quiz>::empty(),
    decreases records.len(),
{
    reveal(Seq::filter);
    if records.len() > 0 {
        let front = records.drop_last();
        assert forall|k: int| 0 <= k < front.len() implies (#[trigger] front[k]).category@
            != category by {
            assert(records[k].category@ != category);
        }
        lemma_of_category_unmentioned(front, category);
        assert(records[records.len() - 1].category@ != category);
    }
}

/// Grouping one more question puts it behind the questions of its
/// category.
pub proof fn lemma_grouped_push(records: Seq<Quiz>, quiz: Quiz)
    ensures
        grouped(records.push(quiz)) == with_quiz(grouped(records), quiz),
{
    let longer = records.push(quiz);
    assert forall|category: Seq<char>| mentions(longer, category) <==> mentions(records, category)
        || category == quiz.category@ by {
        if mentions(longer, category) {
            let k = choose|k: int|
                0 <= k < longer.len() && (#[trigger] longer[k]).category@ == category;
            if k < records.len() {
                assert(records[k].category@ == category);
            }
        }
        if mentions(records, category) {
            let k = choose|k: int|
                0 <= k < records.len() && (#[trigger] records[k]).category@ == category;
            assert(longer[k].category@ == category);
        }
        if category == quiz.category@ {
            assert(longer[records.len() as int].category@ == category);
        }
    }
    assert forall|category: Seq<char>| #[trigger]
        mentions(longer, category) implies grouped(longer)[category] == with_quiz(
        grouped(records),
        quiz,
    )[category] by {
        lemma_of_category_push(records, quiz, category);
        if !mentions(records, category) {
            lemma_of_category_unmentioned(records, category);
        }
    }
    assert(grouped(longer) =~= with_quiz(grouped(records), quiz));
}

/// All text questions, one pool per category.
pub struct QuizDB {
    pub pools: Vec<QuizPool>,
}

impl View for QuizDB {
    type V = Map<Seq<char>, Seq<Quiz>>;

    /// The questions by category.
    open spec fn view(&self) -> Map<Seq<char>, Seq<Quiz>> {
        Map::new(
            |category: Seq<char>| self.has_category(category),
            |category: Seq<char>| self.pool_of(category),
        )
    }
}

impl QuizDB {
    /// Every pool is well formed and no category has two pools.
    pub open spec fn pools_wf(&self) -> bool {
        &&& forall|i: int| 0 <= i < self.pools@.len() ==> (#[trigger] self.pools@[i]).wf()
        &&& forall|i: int, j: int|
            0 <= i < j < self.pools@.len() ==> (#[trigger] self.pools@[i]).category@ != (
            #[trigger] self.pools@[j]).category@
    }

    /// A database that can be drawn from: well-formed pools, at least one.
    pub open spec fn wf(&self) -> bool {
        &&& self.pools@.len() > 0
        &&& self.pools_wf()
    }

    /// Whether the question at `index` of pool `pool` exists and is `quiz`.
    pub open spec fn holds_at(&self, pool: int, index: int, quiz: Quiz) -> bool {
        &&& 0 <= pool < self.pools@.len()
        &&& 0 <= index < self.pools@[pool].quizzes@.len()
        &&& self.pools@[pool].quizzes@[index] == quiz
    }

    /// Whether `quiz` is one of the questions, of whatever category.
    pub open spec fn contains(&self, quiz: Quiz) -> bool {
        exists|pool: int, index: int| self.holds_at(pool, index, quiz)
    }

    /// Whether the category at `pool` exists and is called `category`.
    pub open spec fn names(&self, pool: int, category: Seq<char>) -> bool {
        0 <= pool < self.pools@.len() && self.pools@[pool].category@ == category
    }

    /// Whether there is a pool for `category`.
    pub open spec fn has_category(&self, category: Seq<char>) -> bool {
        exists|pool: int| self.names(pool, category)
    }

    /// The questions of `category`, where it has a pool.
    pub open spec fn pool_of(&self, category: Seq<char>) -> Seq<Quiz> {
        self.pools@[choose|pool: int| self.names(pool, category)].quizzes@
    }

    /// Where no category has two pools, a pool found for a category holds
    /// the category's questions.
    pub proof fn lemma_pool_decides(&self, pool: int, category: Seq<char>)
        requires
            self.pools_wf(),
            self.names(pool, category),
        ensures
            self.has_category(category),
            self.pool_of(category) == self.pools@[pool].quizzes@,
    {
        let chosen = choose|c: int| self.names(c, category);
        if chosen < pool {
            assert(self.pools@[chosen].category@ != self.pools@[pool].category@);
        } else if pool < chosen {
            assert(self.pools@[pool].category@ != self.pools@[chosen].category@);
        }
    }

    /// A database without questions. It is not ready to be drawn from.
    pub fn new() -> (db: QuizDB)
        ensures
            db.pools@.len() == 0,
            db.pools_wf(),
            db@ == Map::<Seq<char>, Seq<Quiz>>::empty(),
    {
        let db = QuizDB { pools: Vec::new() };
        assert(db@ =~= Map::<Seq<char>, Seq<Quiz>>::empty());
        db
    }

    /// Puts `quiz` into the pool of its category, behind the questions that
    /// are already there; a category seen for the first time gets a new pool
    /// behind the others.
    pub fn add(&mut self, quiz: Quiz)
        requires
            old(self).pools_wf(),
        ensures
            final(self).wf(),
            final(self)@ == with_quiz(old(self)@, quiz),
            forall|q: Quiz| final(self).contains(q) <==> old(self).contains(q) || q == quiz,
            forall|c: Seq<char>|
                final(self).has_category(c) <==> old(self).has_category(c) || c == quiz.category@,
    {
        let ghost before = *self;
        match self.find_pool(quiz.category.as_str()) {
            Some(pool) => {
                let ghost last = self.pools@[pool as int].quizzes@.len() as int;
                self.pools[pool].quizzes.push(quiz);
                proof {
                    assert(self.holds_at(pool as int, last, quiz));
                    assert forall|q: Quiz| self.contains(q) implies before.contains(q) || q
                        == quiz by {
                        let (i, j) = choose|i: int, j: int| self.holds_at(i, j, q);
                        if i != pool || j != last {
                            assert(before.holds_at(i, j, q));
                        }
                    }
                    assert forall|q: Quiz| before.contains(q) implies self.contains(q) by {
                        let (i, j) = choose|i: int, j: int| before.holds_at(i, j, q);
                        assert(self.holds_at(i, j, q));
                    }
                    assert forall|c: Seq<char>| self.has_category(c) implies before.has_category(
                        c,
                    ) by {
                        let i = choose|i: int| self.names(i, c);
                        assert(before.names(i, c));
                    }
                    assert forall|c: Seq<char>|
                        before.has_category(c) || c == quiz.category@ implies self.has_category(
                        c,
                    ) by {
                        if c == quiz.category@ {
                            assert(self.names(pool as int, c));
                        } else {
                            let i = choose|i: int| before.names(i, c);
                            assert(self.names(i, c));
                        }
                    }
                    assert forall|c: Seq<char>| self.has_category(c) implies #[trigger] self.pool_of(
                        c,
                    ) == with_quiz(before@, quiz)[c] by {
                        let i = choose|i: int| self.names(i, c);
                        assert(before.names(i, c));
                        self.lemma_pool_decides(i, c);
                        before.lemma_pool_decides(i, c);
                        if i != pool {
                            assert(self.pools@[i] == before.pools@[i]);
                        }
                    }
                    assert(self@ =~= with_quiz(before@, quiz));
                }
            },
            None => {
                let ghost at = self.pools@.len() as int;
                let category = quiz.category.clone();
                let mut quizzes: Vec<Quiz> = Vec::new();
                quizzes.push(quiz);
                self.pools.push(QuizPool { category, quizzes });
                proof {
                    assert forall|i: int, j: int| 0 <= i < j < self.pools@.len() implies (
                    #[trigger] self.pools@[i]).category@ != (#[trigger] self.pools@[j]).category@ by {
                        if j == at {
                            assert(!before.names(i, quiz.category@));
                        }
                    }
                    assert(self.holds_at(at, 0, quiz));
                    assert(self.names(at, quiz.category@));
                    assert forall|q: Quiz| self.contains(q) implies before.contains(q) || q
                        == quiz by {
                        let (i, j) = choose|i: int, j: int| self.holds_at(i, j, q);
                        if i != at {
                            assert(before.holds_at(i, j, q));
                        }
                    }
                    assert forall|q: Quiz| before.contains(q) implies self.contains(q) by {
                        let (i, j) = choose|i: int, j: int| before.holds_at(i, j, q);
                        assert(self.holds_at(i, j, q));
                    }
                    assert forall|c: Seq<char>| self.has_category(c) implies before.has_category(
                        c,
                    ) || c == quiz.category@ by {
                        let i = choose|i: int| self.names(i, c);
                        if i != at {
                            assert(before.names(i, c));
                        }
                    }
                    assert forall|c: Seq<char>|
                        before.has_category(c) || c == quiz.category@ implies self.has_category(
                        c,
                    ) by {
                        if c != quiz.category@ {
                            let i = choose|i: int| before.names(i, c);
                            assert(self.names(i, c));
                        }
                    }
                    assert forall|c: Seq<char>| self.has_category(c) implies #[trigger] self.pool_of(
                        c,
                    ) == with_quiz(before@, quiz)[c] by {
                        let i = choose|i: int| self.names(i, c);
                        self.lemma_pool_decides(i, c);
                        if i != at {
                            assert(before.names(i, c));
                            before.lemma_pool_decides(i, c);
                        }
                    }
                    assert(self@ =~= with_quiz(before@, quiz));
                }
            },
        }
    }

    /// The database of the given questions, grouped by category. At least
    /// one question is needed: an empty database cannot be drawn from.
    pub fn from_quizzes(records: Vec<Quiz>) -> (db: QuizDB)
        requires
            records@.len() > 0,
        ensures
            db.wf(),
            db@ == grouped(records@),
            forall|q: Quiz| db.contains(q) <==> records@.contains(q),
            forall|c: Seq<char>| db.has_category(c) <==> mentions(records@, c),
    {
        let mut db = QuizDB::new();
        let mut n: usize = 0;
        while n < records.len()
            invariant
                n <= records@.len(),
                db.pools_wf(),
                n > 0 ==> db.pools@.len() > 0,
                forall|q: Quiz|
                    db.contains(q) <==> exists|k: int| 0 <= k < n && #[trigger] records@[k] == q,
                db@ == grouped(records@.subrange(0, n as int)),
            decreases records@.len() - n,
        {
            proof {
                lemma_grouped_push(records@.subrange(0, n as int), records@[n as int]);
                assert(records@.subrange(0, n + 1) =~= records@.subrange(0, n as int).push(
                    records@[n as int],
                ));
            }
            db.add(records[n].clone());
            n += 1;
        }
        proof {
            assert(records@.subrange(0, n as int) =~= records@);
            assert forall|c: Seq<char>| db.has_category(c) <==> mentions(records@, c) by {
                assert(db@.dom().contains(c) == db.has_category(c));
            }
        }
        db
    }

    /// The position of the pool for `category`, if there is one.
    pub fn find_pool(&self, category: &str) -> (found: Option<usize>)
        ensures
            match found {
                Some(pool) => self.names(pool as int, category@),
                None => !self.has_category(category@),
            },
    {
        let mut i: usize = 0;
        while i < self.pools.len()
            invariant
                i <= self.pools@.len(),
                forall|pool: int| 0 <= pool < i ==> !self.names(pool, category@),
            decreases self.pools@.len() - i,
        {
            if str_eq(self.pools[i].category.as_str(), category) {
                return Some(i);
            }
            i += 1;
        }
        None
    }

    /// The question at `index` of pool `pool`.
    pub fn quiz_at(&self, pool: usize, index: usize) -> (quiz: &Quiz)
        requires
            pool < self.pools@.len(),
            index < self.pools@[pool as int].quizzes@.len(),
        ensures
            *quiz == self.pools@[pool as int].quizzes@[index as int],
            self.holds_at(pool as int, index as int, *quiz),
    {
        &self.pools[pool].quizzes[index]
    }

    /// A question drawn at random: first a category, then a question of it.
    pub fn get_any_random_quiz(&self) -> (quiz: &Quiz)
        requires
            self.wf(),
        ensures
            self.contains(*quiz),
    {
        let pool = random_below(self.pools.len());
        assert(self.pools@[pool as int].wf());
        let index = random_below(self.pools[pool].quizzes.len());
        self.quiz_at(pool, index)
    }

    /// A question drawn at random from the pool of `category`; none where
    /// the category has no pool.
    pub fn get_random_quiz_by_category(&self, category: &String) -> (drawn: Option<&Quiz>)
        requires
            self.wf(),
        ensures
            drawn is Some <==> self.has_category(category@),
            drawn is Some ==> self@[category@].contains(*drawn->0),
            drawn is Some ==> self.contains(*drawn->0) && drawn->0.category@ == category@,
    {
        match self.find_pool(category.as_str()) {
            Some(pool) => {
                proof {
                    self.lemma_pool_decides(pool as int, category@);
                }
                assert(self.pools@[pool as int].wf());
                let index = random_usize() % self.pools[pool].quizzes.len();
                Some(self.quiz_at(pool, index))
            },
            None => None,
        }
    }
}

/// All flag questions.
pub struct FlagQuizDB {
    pub quizzes: Vec<FlagQuiz>,
}

impl FlagQuizDB {
    /// A database that can be drawn from holds at least one question.
    pub open spec fn wf(&self) -> bool {
        self.quizzes@.len() > 0
    }

    /// Whether `quiz` is one of the questions.
    pub open spec fn contains(&self, quiz: FlagQuiz) -> bool {
        self.quizzes@.contains(quiz)
    }

    /// The database of the given questions. At least one is needed: an
    /// empty database cannot be drawn from.
    pub fn new(quizzes: Vec<FlagQuiz>) -> (db: FlagQuizDB)
        requires
            quizzes@.len() > 0,
        ensures
            db.wf(),
            db.quizzes == quizzes,
    {
        FlagQuizDB { quizzes }
    }

    /// The question at `index`.
    pub fn flag_quiz_at(&self, index: usize) -> (quiz: &FlagQuiz)
        requires
            index < self.quizzes@.len(),
        ensures
            *quiz == self.quizzes@[index as int],
    {
        &self.quizzes[index]
    }

    /// A question drawn at random.
    pub fn get_random_flag_quiz(&self) -> (quiz: &FlagQuiz)
        requires
            self.wf(),
        ensures
            self.contains(*quiz),
    {
        let index = random_below(self.quizzes.len());
        self.flag_quiz_at(index)
    }
}

} // verus!
