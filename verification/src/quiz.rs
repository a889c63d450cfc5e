//! A quiz in progress: its questions in the order in which they are asked,
//! how far the player has come, and the score so far.
//!
//! The quiz does no input and no output of its own. Its caller shows what an
//! `Action` says, waits for the player, and hands back an `Event`.

use vstd::prelude::*;
use vstd::seq_lib::to_multiset_len;
use crate::decimal::{decimal_text, render};
use crate::outside::{csv_records, read_records, shuffle};
use crate::question::{views, Question, QuestionView};
use crate::rearrange::lemma_map_keeps_multiset;
use crate::report::{texts, Report};
use crate::rows::{
    all_rows_sound, is_fault_of, lemma_fault_is_unsound, parse_rows, question_rows, questions_in,
    time_limit_in, ParseError,
};
use crate::text::{is_blank, read_line, trimmed};

verus! {

/// Said when a line holds no answer.
pub const ANSWER_PLEASE: &'static str = "Please enter an answer";

/// Said of a right answer.
pub const CORRECT: &'static str = "🎉 ¡Correct! 🎉";

/// Said of a wrong answer.
pub const INCORRECT: &'static str = "❌ Incorrect ❌";

/// What a quiz is at one moment.
pub struct QuizView {
    /// The questions, in the order in which they are asked.
    pub questions: Seq<QuestionView>,
    /// How many of them have been answered.
    pub asked: nat,
    /// How many of the answers were right.
    pub correct: nat,
    /// Whether the quiz has run to its end.
    pub finished: bool,
    /// The time limit, in seconds.
    pub time: u64,
}

impl QuizView {
    /// What holds of every quiz: no more right answers than answers, no more
    /// answers than questions, and no end before the last answer.
    pub open spec fn well_formed(self) -> bool {
        &&& self.correct <= self.asked <= self.questions.len()
        &&& self.finished ==> self.asked == self.questions.len()
    }

    /// A quiz before its first question.
    pub open spec fn fresh(questions: Seq<QuestionView>, time: u64) -> QuizView {
        QuizView { questions, asked: 0, correct: 0, finished: false, time }
    }
}

/// What the caller tells the quiz.
#[derive(Debug)]
pub enum Event {
    /// The player is ready for what comes next.
    Next,
    /// The player typed this line.
    Line(String),
}

/// What an event says, as plain text.
pub enum EventView {
    Next,
    Line(Seq<char>),
}

impl View for Event {
    type V = EventView;

    open spec fn view(&self) -> EventView {
        match self {
            Event::Next => EventView::Next,
            Event::Line(line) => EventView::Line(line@),
        }
    }
}

/// What the quiz asks of its caller.
#[derive(Debug, PartialEq, Eq)]
pub enum Action {
    /// Show this question under its number, counted from one, and hand back
    /// the line that the player types.
    Ask { number: usize, question: String },
    /// Ask for an answer once more, and hand back the line that the player
    /// types.
    Retry,
    /// Say whether the answer was right, and hand back `Event::Next`.
    Mark { correct: bool },
    /// Stop: the quiz is over.
    Finish,
}

/// What an action says, as plain text.
pub enum ActionView {
    Ask { number: nat, question: Seq<char> },
    Retry,
    Mark { correct: bool },
    Finish,
}

impl View for Action {
    type V = ActionView;

    open spec fn view(&self) -> ActionView {
        match self {
            Action::Ask { number, question } => ActionView::Ask {
                number: *number as nat,
                question: question@,
            },
            Action::Retry => ActionView::Retry,
            Action::Mark { correct } => ActionView::Mark { correct: *correct },
            Action::Finish => ActionView::Finish,
        }
    }
}

/// The quiz after `event`.
///
/// With every question answered, any event ends the quiz. Before that,
/// `Next` changes nothing, a blank line changes nothing, and any other line
/// answers the question at hand: it counts as right where it is the expected
/// answer once the white space around it is taken off.
pub open spec fn quiz_after(quiz: QuizView, event: EventView) -> QuizView {
    if quiz.asked >= quiz.questions.len() {
        QuizView { finished: true, ..quiz }
    } else {
        match event {
            EventView::Next => quiz,
            EventView::Line(line) => if is_blank(line) {
                quiz
            } else {
                QuizView {
                    asked: quiz.asked + 1,
                    correct: if trimmed(line) == quiz.questions[quiz.asked as int].answer {
                        quiz.correct + 1
                    } else {
                        quiz.correct
                    },
                    ..quiz
                }
            },
        }
    }
}

/// What the quiz asks for in answer to `event`.
pub open spec fn action_on(quiz: QuizView, event: EventView) -> ActionView {
    if quiz.asked >= quiz.questions.len() {
        ActionView::Finish
    } else {
        match event {
            EventView::Next => ActionView::Ask {
                number: quiz.asked + 1,
                question: quiz.questions[quiz.asked as int].question,
            },
            EventView::Line(line) => if is_blank(line) {
                ActionView::Retry
            } else {
                ActionView::Mark {
                    correct: trimmed(line) == quiz.questions[quiz.asked as int].answer,
                }
            },
        }
    }
}

/// The lines that an action has its caller show, from first to last.
pub open spec fn action_lines(action: ActionView) -> Seq<Seq<char>> {
    match action {
        ActionView::Ask { number, question } => seq![
            Seq::<char>::empty(),
            "Question #"@ + decimal_text(number) + ":"@,
            question,
        ],
        ActionView::Retry => seq![ANSWER_PLEASE@],
        ActionView::Mark { correct } => if correct {
            seq![CORRECT@]
        } else {
            seq![INCORRECT@]
        },
        ActionView::Finish => Seq::<Seq<char>>::empty(),
    }
}

impl Action {
    /// The lines to show, from first to last.
    pub fn lines(&self) -> (lines: Vec<String>)
        ensures
            texts(lines@) == action_lines(self@),
    {
        let mut lines: Vec<String> = Vec::new();
        match self {
            Action::Ask { number, question } => {
                let mut heading = "Question #".to_owned();
                heading.append(render(*number as u64).as_str());
                heading.append(":");
                lines.push(String::new());
                lines.push(heading);
                lines.push(question.clone());
            },
            Action::Retry => {
                lines.push(ANSWER_PLEASE.to_owned());
            },
            Action::Mark { correct } => {
                if *correct {
                    lines.push(CORRECT.to_owned());
                } else {
                    lines.push(INCORRECT.to_owned());
                }
            },
            Action::Finish => {},
        }
        assert(texts(lines@) =~= action_lines(self@));
        lines
    }
}

/// A quiz in progress.
#[derive(Debug)]
pub struct Quiz {
    questions: Vec<Question>,
    correct: usize,
    finished: bool,
    time: u64,
    asked: usize,
}

impl View for Quiz {
    type V = QuizView;

    closed spec fn view(&self) -> QuizView {
        QuizView {
            questions: views(self.questions@),
            asked: self.asked as nat,
            correct: self.correct as nat,
            finished: self.finished,
            time: self.time,
        }
    }
}

impl Quiz {
    /// Every quiz is well formed, at every moment.
    #[verifier::type_invariant]
    spec fn sound(&self) -> bool {
        self@.well_formed()
    }

    /// A quiz that asks `questions` in the order given, with a limit of
    /// `time` seconds.
    pub fn new(questions: Vec<Question>, time: u64) -> (quiz: Quiz)
        ensures
            quiz@ == QuizView::fresh(views(questions@), time),
    {
        Quiz { questions, correct: 0, finished: false, time, asked: 0 }
    }

    /// Loads a quiz from `data`, a comma-separated text without a header row,
    /// and puts its questions in a random order.
    ///
    /// Loading fails where the text cannot be split into rows, and where a
    /// row is faulty; it succeeds otherwise. The quiz then holds the
    /// questions of the text, each as often as the text has it and none
    /// besides, in some order; its time limit is the one that the text sets.
    pub fn from_cvs(data: &[u8]) -> (loaded: Result<Quiz, ParseError>)
        ensures
            loaded is Ok <==> (csv_records(data@) matches Some(rows) && all_rows_sound(rows)),
            match csv_records(data@) {
                None => loaded matches Err(error) && error == ParseError::Unreadable,
                Some(rows) => match loaded {
                    Ok(quiz) => {
                        &&& quiz@.questions.to_multiset() == questions_in(rows).to_multiset()
                        &&& quiz@.questions.len() == question_rows(rows).len()
                        &&& quiz@.time == time_limit_in(rows)
                        &&& quiz@.asked == 0
                        &&& quiz@.correct == 0
                        &&& !quiz@.finished
                    },
                    Err(error) => is_fault_of(rows, error),
                },
            },
    {
        let rows = match read_records(data) {
            Ok(rows) => rows,
            Err(_) => {
                return Err(ParseError::Unreadable);
            },
        };
        let (mut questions, time) = match parse_rows(&rows) {
            Ok(loaded) => loaded,
            Err(error) => {
                assert(!all_rows_sound(rows.deep_view())) by {
                    lemma_fault_is_unsound(rows.deep_view(), error);
                }
                return Err(error);
            },
        };
        let ghost in_order = questions@;
        shuffle(&mut questions);
        proof {
            lemma_map_keeps_multiset(questions@, in_order, |q: Question| q@);
            to_multiset_len(questions@);
            to_multiset_len(in_order);
        }
        Ok(Quiz::new(questions, time))
    }

    /// The time limit, in seconds.
    pub fn time(&self) -> (seconds: u64)
        ensures
            seconds == self@.time,
    {
        self.time
    }

    /// The questions, in the order in which they are asked.
    pub fn questions(&self) -> (questions: &Vec<Question>)
        ensures
            views(questions@) == self@.questions,
    {
        &self.questions
    }

    /// How many questions have been answered so far.
    pub fn asked(&self) -> (asked: usize)
        ensures
            asked == self@.asked,
            self@.well_formed(),
    {
        proof {
            use_type_invariant(self);
        }
        self.asked
    }

    /// How many questions the quiz has.
    pub fn total(&self) -> (total: usize)
        ensures
            total == self@.questions.len(),
    {
        self.questions.len()
    }

    /// How many answers were right so far. Never more than there are
    /// questions.
    pub fn correct(&self) -> (correct: usize)
        ensures
            correct == self@.correct,
            self@.well_formed(),
    {
        proof {
            use_type_invariant(self);
        }
        self.correct
    }

    /// Whether the quiz has run to its end.
    pub fn finished(&self) -> (finished: bool)
        ensures
            finished == self@.finished,
    {
        self.finished
    }

    /// Takes one event and says what to do next.
    pub fn ask(&mut self, event: Event) -> (action: Action)
        ensures
            final(self)@ == quiz_after(old(self)@, event@),
            action@ == action_on(old(self)@, event@),
            final(self)@.well_formed(),
    {
        proof {
            use_type_invariant(&*self);
        }
        if self.asked >= self.questions.len() {
            self.finished = true;
            return Action::Finish;
        }
        let question = &self.questions[self.asked];
        assert(question@ == self@.questions[self.asked as int]);
        match event {
            Event::Next => Action::Ask {
                number: self.asked + 1,
                question: question.ask().clone(),
            },
            Event::Line(line) => match read_line(line.as_str()) {
                None => Action::Retry,
                Some(answer) => {
                    let correct = question.check(answer.as_str());
                    self.asked = self.asked + 1;
                    if correct {
                        self.correct = self.correct + 1;
                    }
                    Action::Mark { correct }
                },
            },
        }
    }

    /// How the quiz stands: whether it ran to its end, and the score.
    pub fn result(&self) -> (report: Report)
        ensures
            report == (Report {
                finished: self@.finished,
                correct: self@.correct as usize,
                total: self@.questions.len() as usize,
            }),
            report.correct == self@.correct,
            report.total == self@.questions.len(),
            report.correct <= report.total,
    {
        proof {
            use_type_invariant(self);
        }
        Report { finished: self.finished, correct: self.correct, total: self.questions.len() }
    }
}

} // verus!
