//! The two shapes of question.

use crate::game::state::MAX_ROUNDS;
use crate::text::{str_eq, u8_to_string};
use vstd::prelude::*;
use vstd::string::StringExecFns;

verus! {

/// Where the flag images are served from.
pub const FLAG_IMAGE_CDN_PATH: &'static str = "https://kakao-quizbot-cdn.joe-brothers.com/flags_640";

/// The file extension of every flag image.
pub const FLAG_IMAGE_EXT: &'static str = "png";

/// The round banner that opens every question: `[round/rounds]`.
pub open spec fn round_banner(current_round: u8) -> Seq<char> {
    "["@ + crate::text::decimal(current_round as nat) + "/"@ + crate::text::decimal(
        MAX_ROUNDS as nat,
    ) + "]"@
}

/// A text question of some category.
#[derive(Debug)]
pub struct Quiz {
    pub category: String,
    pub question: String,
    pub answer: String,
    pub comment: Option<String>,
}

impl Quiz {
    pub fn new(category: String, question: String, answer: String, comment: Option<String>) -> (quiz:
        Quiz)
        ensures
            quiz.category == category,
            quiz.question == question,
            quiz.answer == answer,
            quiz.comment == comment,
    {
        Quiz { category, question, answer, comment }
    }

    /// What is shown when the question is put: banner, category, question.
    pub open spec fn info_before_text(&self, current_round: u8) -> Seq<char> {
        round_banner(current_round) + " ("@ + self.category@ + ")\n"@ + self.question@
    }

    pub fn info_before(&self, current_round: u8) -> (info: String)
        ensures
            info@ == self.info_before_text(current_round),
    {
        let mut info = String::from_str("[");
        info.append(u8_to_string(current_round).as_str());
        info.append("/");
        info.append(u8_to_string(MAX_ROUNDS).as_str());
        info.append("]");
        info.append(" (");
        info.append(self.category.as_str());
        info.append(")\n");
        info.append(self.question.as_str());
        info
    }

    /// Whether `answer` is the expected answer, letter for letter.
    pub fn is_correct_answer(&self, answer: &str) -> (correct: bool)
        ensures
            correct == (self.answer@ == answer@),
    {
        str_eq(self.answer.as_str(), answer)
    }
}

impl Clone for Quiz {
    fn clone(&self) -> (copy: Self)
        ensures
            copy == *self,
    {
        Quiz {
            category: self.category.clone(),
            question: self.question.clone(),
            answer: self.answer.clone(),
            comment: self.comment.clone(),
        }
    }
}

/// A flag-guessing question: the picture of a flag, the country to name.
#[derive(Debug)]
pub struct FlagQuiz {
    /// The country's two-letter code, in lower case.
    pub country_code_alpha_2: String,
    /// The country's name.
    pub answer: String,
}

impl FlagQuiz {
    pub fn new(country_code_alpha_2: String, answer: String) -> (quiz: FlagQuiz)
        ensures
            quiz.country_code_alpha_2 == country_code_alpha_2,
            quiz.answer == answer,
    {
        FlagQuiz { country_code_alpha_2, answer }
    }

    /// Whether `answer` is the expected answer, letter for letter.
    pub fn is_correct_answer(&self, answer: &str) -> (correct: bool)
        ensures
            correct == (self.answer@ == answer@),
    {
        str_eq(self.answer.as_str(), answer)
    }

    /// What is shown when the question is put: banner and the fixed prompt.
    pub open spec fn info_before_text(&self, current_round: u8) -> Seq<char> {
        round_banner(current_round) + " 이 국기는 어느 나라의 국기일까요?"@
    }

    pub fn info_before(&self, current_round: u8) -> (info: String)
        ensures
            info@ == self.info_before_text(current_round),
    {
        let mut info = String::from_str("[");
        info.append(u8_to_string(current_round).as_str());
        info.append("/");
        info.append(u8_to_string(MAX_ROUNDS).as_str());
        info.append("]");
        info.append(" 이 국기는 어느 나라의 국기일까요?");
        info
    }

    /// The address of the flag's picture: path, code and extension.
    pub open spec fn image_url_text(&self) -> Seq<char> {
        FLAG_IMAGE_CDN_PATH@ + "/"@ + self.country_code_alpha_2@ + "."@ + FLAG_IMAGE_EXT@
    }

    pub fn image_url(&self) -> (url: String)
        ensures
            url@ == self.image_url_text(),
    {
        let mut url = String::from_str(FLAG_IMAGE_CDN_PATH);
        url.append("/");
        url.append(self.country_code_alpha_2.as_str());
        url.append(".");
        url.append(FLAG_IMAGE_EXT);
        url
    }
}

impl Clone for FlagQuiz {
    fn clone(&self) -> (copy: Self)
        ensures
            copy == *self,
    {
        FlagQuiz {
            country_code_alpha_2: self.country_code_alpha_2.clone(),
            answer: self.answer.clone(),
        }
    }
}

/// What every shape of question offers: the answer it expects.
pub trait QuizTrait {
    /// The expected answer as a sequence of characters.
    spec fn expected_answer(&self) -> Seq<char>;

    fn get_answer(&self) -> (answer: &str)
        ensures
            answer@ == self.expected_answer(),
    ;
}

impl QuizTrait for Quiz {
    open spec fn expected_answer(&self) -> Seq<char> {
        self.answer@
    }

    fn get_answer(&self) -> (answer: &str) {
        self.answer.as_str()
    }
}

impl QuizTrait for FlagQuiz {
    open spec fn expected_answer(&self) -> Seq<char> {
        self.answer@
    }

    fn get_answer(&self) -> (answer: &str) {
        self.answer.as_str()
    }
}

} // verus!
