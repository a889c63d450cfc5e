//! One question of a quiz: what is shown, and the answer that counts.

use vstd::prelude::*;

verus! {

/// What a question is, as plain text.
pub struct QuestionView {
    pub question: Seq<char>,
    pub answer: Seq<char>,
}

/// A prompt with its expected answer. It never changes once built.
#[derive(Debug)]
pub struct Question {
    question: String,
    answer: String,
}

impl View for Question {
    type V = QuestionView;

    closed spec fn view(&self) -> QuestionView {
        QuestionView { question: self.question@, answer: self.answer@ }
    }
}

impl Question {
    /// Builds a question from its prompt and its expected answer.
    pub fn new(question: String, answer: String) -> (q: Question)
        ensures
            q@ == (QuestionView { question: question@, answer: answer@ }),
    {
        Question { question, answer }
    }

    /// The text to show for this question.
    pub fn ask(&self) -> (text: &String)
        ensures
            text@ == self@.question,
    {
        &self.question
    }

    /// The answer that counts as right.
    pub fn answer(&self) -> (text: &String)
        ensures
            text@ == self@.answer,
    {
        &self.answer
    }

    /// Whether `answer` is the expected answer: the same characters, in the
    /// same case, with nothing added and nothing left out.
    pub fn check(&self, answer: &str) -> (right: bool)
        ensures
            right == (answer@ == self@.answer),
    {
        let given = answer.to_owned();
        self.answer == given
    }
}

/// What each of `questions` is, in the same order.
pub open spec fn views(questions: Seq<Question>) -> Seq<QuestionView> {
    questions.map_values(|q: Question| q@)
}

} // verus!
