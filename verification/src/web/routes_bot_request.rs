//! What the bot does with a request: the command it carries out on the
//! session manager and the reply it gives, and what it does when a round
//! runs out of time.

use crate::error::Error;
use crate::game::db::QuizType;
use crate::game::state::{flag_category, AnswerResult, GameManager, WaitOutcome, MAX_ROUNDS};
use crate::text::{str_eq, u32_to_string};
use crate::web::model::{BotRequest, ChatIdType, Command};
use vstd::prelude::*;
use vstd::string::{StrSliceExecFns, StringExecFns};

verus! {

/// The help text that answers a message without a command.
pub const HELP_MESSAGE: &'static str =
    "🗒️ 명령어 목록\n- 시작 [카테고리]: 카테고리를 입력하지 않으면 전체 문제를 대상으로 출제됩니다.\n  (사용 가능 카테고리: 국기(추천), 상식, 고사성어)\n- 중지\n- 정답 OOO\n- 랭킹(🚧)";

/// One part of a reply.
#[derive(Debug)]
pub enum Output {
    SimpleText(String),
    SimpleImage { image_url: String, alt_text: String },
}

/// One part of a reply, its texts as sequences of characters.
pub enum OutputText {
    SimpleText(Seq<char>),
    SimpleImage { image_url: Seq<char>, alt_text: Seq<char> },
}

impl View for Output {
    type V = OutputText;

    open spec fn view(&self) -> OutputText {
        match self {
            Output::SimpleText(text) => OutputText::SimpleText(text@),
            Output::SimpleImage { image_url, alt_text } => OutputText::SimpleImage {
                image_url: image_url@,
                alt_text: alt_text@,
            },
        }
    }
}

/// The parts of a reply, each by its view.
pub open spec fn texts(outputs: Seq<Output>) -> Seq<OutputText> {
    outputs.map_values(|output: Output| output@)
}

/// What the bot answers, and whether a round has begun that somebody has
/// to watch the clock of.
#[derive(Debug)]
pub struct Reply {
    pub outputs: Vec<Output>,
    /// The number of the round that has begun, if one has.
    pub watch_round: Option<u8>,
}

/// How a question is put in round `round`: a text question by its text, a
/// flag question by the flag's picture and the prompt.
pub open spec fn question_texts(quiz: QuizType, round: u8) -> Seq<OutputText> {
    match quiz {
        QuizType::Simple(simple) => seq![OutputText::SimpleText(simple.info_before_text(round))],
        QuizType::Flag(flag) => seq![
            OutputText::SimpleImage {
                image_url: flag.image_url_text(),
                alt_text: flag.country_code_alpha_2@,
            },
            OutputText::SimpleText(flag.info_before_text(round)),
        ],
    }
}

/// What follows a round that ended: the next question, or the closing
/// line once the round number is past the last round.
pub open spec fn next_texts(next_quiz: QuizType, next_round: u8) -> Seq<OutputText> {
    if next_round > MAX_ROUNDS {
        seq![OutputText::SimpleText("✅ 다 풀었습니다 :)"@)]
    } else {
        question_texts(next_quiz, next_round)
    }
}

/// The first six characters of a user's name, or all of a shorter one.
pub open spec fn short_name(user_id: Seq<char>) -> Seq<char> {
    if user_id.len() <= 6 {
        user_id
    } else {
        user_id.subrange(0, 6)
    }
}

/// The line that praises a correct answer: the user's short name, the
/// score, and the comment of a text question that has one.
pub open spec fn praise_text(user_id: Seq<char>, score: u32, answered: QuizType) -> Seq<char> {
    let line = "👏 "@ + short_name(user_id) + " 정답! (누적 점수: "@ + crate::text::decimal(
        score as nat,
    ) + ")"@;
    match answered {
        QuizType::Simple(simple) => match simple.comment {
            Some(comment) => line + "\n"@ + comment@,
            None => line,
        },
        QuizType::Flag(_) => line,
    }
}

/// The reply to an answer: nothing to a wrong one; to a correct one the
/// praise and what follows the round.
pub open spec fn answer_texts(result: AnswerResult) -> Seq<OutputText> {
    match result {
        AnswerResult::Wrong => Seq::empty(),
        AnswerResult::Correct { user_id, score, current_quiz, next_quiz, current_round } => seq![
            OutputText::SimpleText(praise_text(user_id@, score, current_quiz)),
        ] + next_texts(next_quiz, current_round),
    }
}

/// The line that gives away the answer of a round that timed out.
pub open spec fn timeout_text(finished: QuizType) -> Seq<char> {
    match finished {
        QuizType::Simple(simple) => "🔔 시간 초과! 정답은 \""@ + simple.answer@ + "\""@,
        QuizType::Flag(flag) => "?? 시간 초과! 정답은 \""@ + flag.answer@ + "\""@,
    }
}

/// What the group is told when a round timed out: the answer and what
/// follows the round. Nothing where the two questions differ in shape.
pub open spec fn timeout_texts(finished: QuizType, next_quiz: QuizType, next_round: u8) -> Seq<
    OutputText,
> {
    if finished.is_flag() == next_quiz.is_flag() {
        seq![OutputText::SimpleText(timeout_text(finished))] + next_texts(next_quiz, next_round)
    } else {
        Seq::empty()
    }
}

/// Puts a question in round `round`.
pub fn question_outputs(quiz: &QuizType, round: u8) -> (outputs: Vec<Output>)
    ensures
        texts(outputs@) == question_texts(*quiz, round),
{
    let mut outputs: Vec<Output> = Vec::new();
    match quiz {
        QuizType::Simple(simple) => {
            outputs.push(Output::SimpleText(simple.info_before(round)));
        },
        QuizType::Flag(flag) => {
            outputs.push(
                Output::SimpleImage {
                    image_url: flag.image_url(),
                    alt_text: flag.country_code_alpha_2.clone(),
                },
            );
            outputs.push(Output::SimpleText(flag.info_before(round)));
        },
    }
    outputs
}

/// Adds to `outputs` what follows a round that ended.
fn push_next(outputs: &mut Vec<Output>, next_quiz: &QuizType, next_round: u8)
    ensures
        texts(final(outputs)@) == texts(old(outputs)@) + next_texts(*next_quiz, next_round),
{
    if next_round > MAX_ROUNDS {
        outputs.push(Output::SimpleText(String::from_str("✅ 다 풀었습니다 :)")));
    } else {
        let mut question = question_outputs(next_quiz, next_round);
        outputs.append(&mut question);
    }
}

/// The line that praises a correct answer.
pub fn praise(user_id: &str, score: u32, answered: &QuizType) -> (line: String)
    ensures
        line@ == praise_text(user_id@, score, *answered),
{
    let len = user_id.unicode_len();
    let name = if len <= 6 {
        user_id
    } else {
        user_id.substring_char(0, 6)
    };
    let mut line = String::from_str("👏 ");
    line.append(name);
    line.append(" 정답! (누적 점수: ");
    line.append(u32_to_string(score).as_str());
    line.append(")");
    match answered {
        QuizType::Simple(simple) => {
            match &simple.comment {
                Some(comment) => {
                    line.append("\n");
                    line.append(comment.as_str());
                },
                None => {},
            }
        },
        QuizType::Flag(_) => {},
    }
    line
}

/// The reply to an answer.
pub fn answer_outputs(result: &AnswerResult) -> (outputs: Vec<Output>)
    ensures
        texts(outputs@) == answer_texts(*result),
{
    let mut outputs: Vec<Output> = Vec::new();
    match result {
        AnswerResult::Wrong => {
        },
        AnswerResult::Correct { user_id, score, current_quiz, next_quiz, current_round } => {
            outputs.push(Output::SimpleText(praise(user_id.as_str(), *score, current_quiz)));
            push_next(&mut outputs, next_quiz, *current_round);
        },
    }
    outputs
}

/// What the group is told when a round timed out.
pub fn timeout_outputs(finished: &QuizType, next_quiz: &QuizType, next_round: u8) -> (outputs: Vec<
    Output,
>)
    ensures
        texts(outputs@) == timeout_texts(*finished, *next_quiz, next_round),
{
    let mut outputs: Vec<Output> = Vec::new();
    match (finished, next_quiz) {
        (QuizType::Simple(simple), QuizType::Simple(_)) => {
            let mut line = String::from_str("🔔 시간 초과! 정답은 \"");
            line.append(simple.answer.as_str());
            line.append("\"");
            outputs.push(Output::SimpleText(line));
            push_next(&mut outputs, next_quiz, next_round);
        },
        (QuizType::Flag(flag), QuizType::Flag(_)) => {
            let mut line = String::from_str("?? 시간 초과! 정답은 \"");
            line.append(flag.answer.as_str());
            line.append("\"");
            outputs.push(Output::SimpleText(line));
            push_next(&mut outputs, next_quiz, next_round);
        },
        _ => {
        },
    }
    outputs
}

/// Whether `category` is the flag category.
pub open spec fn is_flag_category(category: Option<String>) -> bool {
    category is Some && category->0@ == flag_category()
}

/// How a round that ended leaves the manager: past the last round the
/// game is stopped and nothing is left to watch; else the game stays and
/// the round that has begun is to be watched.
pub open spec fn round_closed(
    mid: GameManager,
    post: GameManager,
    chat: String,
    next_round: u8,
    watch_round: Option<u8>,
) -> bool {
    if next_round > MAX_ROUNDS {
        GameManager::stopped(mid, post, chat, Ok(())) && watch_round is None
    } else {
        post == mid && watch_round == Some(next_round)
    }
}

/// What a start command does: it starts a game, of flag questions for the
/// flag category, puts the first question and has round one watched.
pub open spec fn start_handled(
    pre: GameManager,
    post: GameManager,
    chat: String,
    category: Option<String>,
    result: Result<Reply, Error>,
) -> bool {
    if pre.has_game(chat@) {
        post == pre && result == Err::<Reply, Error>(Error::GameAlreadyStarted(chat))
    } else {
        &&& result matches Ok(reply)
        &&& GameManager::started(
            pre,
            post,
            chat,
            category,
            is_flag_category(category),
            Ok(post.game(chat@)),
        )
        &&& texts(reply.outputs@) == question_texts(post.game(chat@).current_quiz, 1)
        &&& reply.watch_round == Some(1u8)
    }
}

/// What a stop command does: it stops the game and says so.
pub open spec fn stop_handled(
    pre: GameManager,
    post: GameManager,
    chat: String,
    result: Result<Reply, Error>,
) -> bool {
    if !pre.has_game(chat@) {
        post == pre && result == Err::<Reply, Error>(Error::GameNotFound(chat))
    } else {
        &&& result matches Ok(reply)
        &&& GameManager::stopped(pre, post, chat, Ok(()))
        &&& texts(reply.outputs@) == seq![OutputText::SimpleText("🔴 퀴즈게임이 종료되었습니다."@)]
        &&& reply.watch_round is None
    }
}

/// What an answer command does: the answer is held against the question;
/// a wrong one is met with silence; a correct one is praised, and the
/// round is closed.
pub open spec fn answer_handled(
    pre: GameManager,
    post: GameManager,
    user: Seq<char>,
    chat: String,
    answer: Seq<char>,
    result: Result<Reply, Error>,
) -> bool {
    if !pre.has_game(chat@) {
        post == pre && result == Err::<Reply, Error>(Error::GameNotFound(chat))
    } else {
        &&& result matches Ok(reply)
        &&& exists|mid: GameManager, outcome: AnswerResult|
            {
                &&& #[trigger] GameManager::answered(pre, mid, user, chat, answer, Ok(outcome))
                &&& texts(reply.outputs@) == answer_texts(outcome)
                &&& match outcome {
                    AnswerResult::Wrong => post == mid && reply.watch_round is None,
                    AnswerResult::Correct { current_round, .. } => round_closed(
                        mid,
                        post,
                        chat,
                        current_round,
                        reply.watch_round,
                    ),
                }
            }
    }
}

/// What a command does to the manager, and the reply to it.
pub open spec fn command_handled(
    pre: GameManager,
    post: GameManager,
    user: Seq<char>,
    chat: String,
    command: Command,
    result: Result<Reply, Error>,
) -> bool {
    match command {
        Command::Start(category) => start_handled(pre, post, chat, category, result),
        Command::Stop => stop_handled(pre, post, chat, result),
        Command::Answer(answer) => answer_handled(pre, post, user, chat, answer@, result),
        Command::Ranking => {
            &&& post == pre
            &&& result matches Ok(reply)
            &&& texts(reply.outputs@) == seq![OutputText::SimpleText("🚧 공사중"@)]
            &&& reply.watch_round is None
        },
    }
}

/// What a request does: one from a chat that is no group is refused, one
/// whose message holds no command is answered with the help text, and
/// any other has its command carried out.
pub open spec fn request_handled(
    pre: GameManager,
    post: GameManager,
    payload: BotRequest,
    result: Result<Reply, Error>,
) -> bool {
    let request = payload.user_request;
    if request.chat.type_ != ChatIdType::BotGroupKey {
        post == pre && result == Err::<Reply, Error>(
            Error::ChatTypeNotSupported(request.chat.type_),
        )
    } else {
        match crate::web::model::parse_command(crate::text::trimmed(request.utterance@)) {
            None => post == pre && result == Err::<Reply, Error>(
                Error::GameCommandParseFail(HELP_MESSAGE),
            ),
            Some(text) => exists|command: Command|
                command@ == text && #[trigger] command_handled(
                    pre,
                    post,
                    request.user.id@,
                    request.chat.id,
                    command,
                    result,
                ),
        }
    }
}

/// What the end of a round's time does, as seen by the waiter of round
/// `round`. Where the game is gone or the round is closed, nothing.
/// Else the game moves on without anybody scoring, the group is told
/// the answer, and the round is closed.
pub open spec fn timeout_handled(
    pre: GameManager,
    post: GameManager,
    chat: String,
    round: u8,
    result: Option<Reply>,
) -> bool {
    if pre.wait_result(chat, round, true) == Ok::<Option<WaitOutcome>, Error>(
        Some(WaitOutcome::TimedOut),
    ) {
        &&& result matches Some(reply)
        &&& exists|mid: GameManager, finished: QuizType, next_quiz: QuizType, next_round: u8|
            {
                &&& #[trigger] GameManager::moved_next(
                    pre,
                    mid,
                    chat,
                    Ok((finished, next_quiz, next_round)),
                )
                &&& texts(reply.outputs@) == timeout_texts(finished, next_quiz, next_round)
                &&& round_closed(mid, post, chat, next_round, reply.watch_round)
            }
    } else {
        post == pre && result is None
    }
}

/// Closes a round that ended with the game of `chat_id` in round
/// `next_round`: past the last round the game is stopped.
fn close_round(gm: &mut GameManager, chat_id: String, next_round: u8) -> (watch_round: Option<u8>)
    requires
        old(gm).wf(),
        old(gm).has_game(chat_id@),
    ensures
        final(gm).wf(),
        round_closed(*old(gm), *final(gm), chat_id, next_round, watch_round),
{
    if next_round > MAX_ROUNDS {
        let _ = gm.stop_game(chat_id);
        None
    } else {
        Some(next_round)
    }
}

/// Carries out `command` of the user `user_id` in the group `chat_id`.
pub fn handle_command(gm: &mut GameManager, user_id: &str, chat_id: String, command: Command) -> (result:
    Result<Reply, Error>)
    requires
        old(gm).wf(),
        old(gm).can_score(user_id@, chat_id@),
    ensures
        final(gm).wf(),
        command_handled(*old(gm), *final(gm), user_id@, chat_id, command, result),
{
    let ghost pre = *gm;
    match command {
        Command::Start(category) => {
            let is_flag_quiz = match &category {
                Some(name) => str_eq(name.as_str(), "국기"),
                None => false,
            };
            match gm.start_game(chat_id, category, is_flag_quiz) {
                Err(error) => Err(error),
                Ok(game) => Ok(
                    Reply {
                        outputs: question_outputs(&game.current_quiz, game.current_round),
                        watch_round: Some(game.current_round),
                    },
                ),
            }
        },
        Command::Stop => {
            match gm.stop_game(chat_id) {
                Err(error) => Err(error),
                Ok(()) => {
                    let mut outputs: Vec<Output> = Vec::new();
                    outputs.push(Output::SimpleText(String::from_str("🔴 퀴즈게임이 종료되었습니다.")));
                    assert(texts(outputs@) =~= seq![
                        OutputText::SimpleText("🔴 퀴즈게임이 종료되었습니다."@),
                    ]);
                    Ok(Reply { outputs, watch_round: None })
                },
            }
        },
        Command::Answer(answer) => {
            match gm.try_answer_inmemory(user_id, &chat_id, answer.as_str()) {
                Err(error) => Err(error),
                Ok(outcome) => {
                    let ghost mid = *gm;
                    let outputs = answer_outputs(&outcome);
                    let watch_round = match &outcome {
                        AnswerResult::Wrong => None,
                        AnswerResult::Correct { current_round, .. } => close_round(
                            gm,
                            chat_id,
                            *current_round,
                        ),
                    };
                    assert(GameManager::answered(
                        pre,
                        mid,
                        user_id@,
                        chat_id,
                        answer@,
                        Ok(outcome),
                    ));
                    Ok(Reply { outputs, watch_round })
                },
            }
        },
        Command::Ranking => {
            let mut outputs: Vec<Output> = Vec::new();
            outputs.push(Output::SimpleText(String::from_str("🚧 공사중")));
            assert(texts(outputs@) =~= seq![OutputText::SimpleText("🚧 공사중"@)]);
            Ok(Reply { outputs, watch_round: None })
        },
    }
}

/// Serves one request.
pub fn bot_request(gm: &mut GameManager, payload: BotRequest) -> (result: Result<Reply, Error>)
    requires
        old(gm).wf(),
        old(gm).can_score(payload.user_request.user.id@, payload.user_request.chat.id@),
    ensures
        final(gm).wf(),
        request_handled(*old(gm), *final(gm), payload, result),
{
    let request = payload.user_request;
    if request.chat.type_ != ChatIdType::BotGroupKey {
        return Err(Error::ChatTypeNotSupported(request.chat.type_));
    }
    match Command::from_utterance(request.utterance.as_str()) {
        None => Err(Error::GameCommandParseFail(HELP_MESSAGE)),
        Some(command) => handle_command(gm, request.user.id.as_str(), request.chat.id, command),
    }
}

/// Called by the waiter of round `round` of `chat_id` when its time is up.
/// Where the round is still open, the game moves on and the group is told;
/// the reply then holds what to tell it.
pub fn on_round_timeout(gm: &mut GameManager, chat_id: String, round: u8) -> (result: Option<Reply>)
    requires
        old(gm).wf(),
        old(gm).has_game(chat_id@) ==> old(gm).game(chat_id@).current_round < u8::MAX,
    ensures
        final(gm).wf(),
        timeout_handled(*old(gm), *final(gm), chat_id, round, result),
{
    let ghost pre = *gm;
    match gm.wait_for_answer(chat_id.clone(), round, true) {
        Ok(Some(WaitOutcome::TimedOut)) => {
            match gm.get_current_quiz_and_move_next(chat_id.clone()) {
                Err(_) => None,
                Ok((finished, next_quiz, next_round)) => {
                    let ghost mid = *gm;
                    let outputs = timeout_outputs(&finished, &next_quiz, next_round);
                    let watch_round = close_round(gm, chat_id, next_round);
                    assert(GameManager::moved_next(
                        pre,
                        mid,
                        chat_id,
                        Ok((finished, next_quiz, next_round)),
                    ));
                    Some(Reply { outputs, watch_round })
                },
            }
        },
        _ => None,
    }
}

/// A game that a start command has started asks questions of the shape
/// that its category asks for, from its first round on: flag questions
/// exactly in a game of the flag category.
pub proof fn lemma_started_game_fits_category(
    pre: GameManager,
    post: GameManager,
    chat: String,
    category: Option<String>,
    result: Result<Reply, Error>,
)
    requires
        start_handled(pre, post, chat, category, result),
        result is Ok,
    ensures
        post.has_game(chat@),
        post.game(chat@).current_round == 1,
        post.game(chat@).shape_fits_category(),
{
}

/// A round that ends past the last round ends the game: once a round is
/// closed, the group has a game exactly if rounds are left, and somebody
/// watches the clock exactly then.
pub proof fn lemma_closed_round_keeps_no_finished_game(
    mid: GameManager,
    post: GameManager,
    chat: String,
    next_round: u8,
    watch_round: Option<u8>,
)
    requires
        mid.has_game(chat@),
        round_closed(mid, post, chat, next_round, watch_round),
    ensures
        post.has_game(chat@) <==> next_round <= MAX_ROUNDS,
        watch_round is Some <==> next_round <= MAX_ROUNDS,
{
}

} // verus!
