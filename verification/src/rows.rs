//! From the rows of a delimited text to questions and a time limit.
//!
//! A row with two or more fields is a question: its first field is the
//! prompt, its second the expected answer, and the rest is ignored. A row
//! with one field sets the time limit in seconds. A row with no field at all
//! is a fault.

use vstd::prelude::*;
use crate::decimal::{parse, parsed};
use crate::question::{views, Question, QuestionView};

verus! {

/// The time limit, in seconds, of a text that sets none.
pub const DEFAULT_TIME_LIMIT: u64 = 30;

/// Why a text could not be loaded.
#[derive(Clone, Copy, Debug, PartialEq, Eq, Structural)]
pub enum ParseError {
    /// The text could not be split into rows of fields.
    Unreadable,
    /// The row at this position, counted from zero, has no field.
    EmptyRow { row: usize },
    /// The row at this position, counted from zero, has one field, and that
    /// field is no number of seconds.
    BadTimeLimit { row: usize },
}

/// Whether `row` holds a question.
pub open spec fn is_question_row(row: Seq<Seq<char>>) -> bool {
    row.len() >= 2
}

/// Whether `row` is there to set the time limit.
pub open spec fn is_time_row(row: Seq<Seq<char>>) -> bool {
    row.len() == 1
}

/// Whether `row` can be neither: it is empty, or its one field is no number.
pub open spec fn is_faulty_row(row: Seq<Seq<char>>) -> bool {
    row.len() == 0 || (row.len() == 1 && parsed(row[0]) is None)
}

/// The question that a question row holds.
pub open spec fn question_of(row: Seq<Seq<char>>) -> QuestionView
    recommends
        is_question_row(row),
{
    QuestionView { question: row[0], answer: row[1] }
}

/// The rows of `rows` that hold a question, in their order.
pub open spec fn question_rows(rows: Seq<Seq<Seq<char>>>) -> Seq<Seq<Seq<char>>> {
    rows.filter(|row: Seq<Seq<char>>| is_question_row(row))
}

/// The questions of `rows`, in the order of their rows.
pub open spec fn questions_in(rows: Seq<Seq<Seq<char>>>) -> Seq<QuestionView> {
    question_rows(rows).map_values(|row: Seq<Seq<char>>| question_of(row))
}

/// The time limit that `rows` set: that of the last row that sets one, and
/// the default where none does.
pub open spec fn time_limit_in(rows: Seq<Seq<Seq<char>>>) -> u64 {
    let limits = rows.filter(|row: Seq<Seq<char>>| is_time_row(row));
    if limits.len() == 0 {
        DEFAULT_TIME_LIMIT
    } else {
        match parsed(limits.last()[0]) {
            Some(seconds) => seconds,
            None => DEFAULT_TIME_LIMIT,
        }
    }
}

/// Whether no row of `rows` is faulty.
pub open spec fn all_rows_sound(rows: Seq<Seq<Seq<char>>>) -> bool {
    forall|i: int| 0 <= i < rows.len() ==> !is_faulty_row(#[trigger] rows[i])
}

/// Whether the row at `at` is the first faulty row of `rows`.
pub open spec fn first_fault_at(rows: Seq<Seq<Seq<char>>>, at: int) -> bool {
    &&& 0 <= at < rows.len()
    &&& is_faulty_row(rows[at])
    &&& all_rows_sound(rows.take(at))
}

/// Whether `error` is what loading `rows` fails with: it names the first
/// faulty row and says what is wrong with it.
pub open spec fn is_fault_of(rows: Seq<Seq<Seq<char>>>, error: ParseError) -> bool {
    match error {
        ParseError::Unreadable => false,
        ParseError::EmptyRow { row } => first_fault_at(rows, row as int) && rows[row as int].len()
            == 0,
        ParseError::BadTimeLimit { row } => first_fault_at(rows, row as int)
            && rows[row as int].len() == 1,
    }
}

/// Rows that loading fails on are not all sound.
pub proof fn lemma_fault_is_unsound(rows: Seq<Seq<Seq<char>>>, error: ParseError)
    requires
        is_fault_of(rows, error),
    ensures
        !all_rows_sound(rows),
{
    let at = match error {
        ParseError::EmptyRow { row } => row as int,
        ParseError::BadTimeLimit { row } => row as int,
        ParseError::Unreadable => 0,
    };
    assert(is_faulty_row(rows[at]));
}

/// Reads `rows` from first to last. The result holds the questions in the
/// order of their rows, and the time limit in seconds. The first faulty row
/// ends the reading with an error.
pub fn parse_rows(rows: &Vec<Vec<String>>) -> (loaded: Result<(Vec<Question>, u64), ParseError>)
    ensures
        match loaded {
            Ok((questions, time)) => {
                &&& all_rows_sound(rows.deep_view())
                &&& views(questions@) == questions_in(rows.deep_view())
                &&& questions.len() == question_rows(rows.deep_view()).len()
                &&& time == time_limit_in(rows.deep_view())
            },
            Err(error) => is_fault_of(rows.deep_view(), error),
        },
{
    let ghost all = rows.deep_view();
    let mut questions: Vec<Question> = Vec::new();
    let mut time: u64 = DEFAULT_TIME_LIMIT;
    let mut i: usize = 0;
    proof {
        reveal(Seq::filter);
        assert(all.take(0) =~= Seq::<Seq<Seq<char>>>::empty());
        assert(views(questions@) =~= questions_in(all.take(0)));
    }
    while i < rows.len()
        invariant
            all == rows.deep_view(),
            0 <= i <= rows.len(),
            all_rows_sound(all.take(i as int)),
            views(questions@) == questions_in(all.take(i as int)),
            time == time_limit_in(all.take(i as int)),
        decreases rows.len() - i,
    {
        let row = &rows[i];
        let ghost seen = all.take(i as int);
        proof {
            assert(all[i as int] == row.deep_view());
            assert(all.take(i + 1) =~= seen.push(all[i as int]));
            seen.lemma_filter_push(all[i as int], |row: Seq<Seq<char>>| is_question_row(row));
            seen.lemma_filter_push(all[i as int], |row: Seq<Seq<char>>| is_time_row(row));
        }
        if row.len() == 0 {
            return Err(ParseError::EmptyRow { row: i });
        } else if row.len() == 1 {
            assert(all[i as int][0] == row[0]@);
            match parse(row[0].as_str()) {
                Some(seconds) => {
                    time = seconds;
                },
                None => {
                    return Err(ParseError::BadTimeLimit { row: i });
                },
            }
        } else {
            assert(all[i as int][0] == row[0]@);
            assert(all[i as int][1] == row[1]@);
            let ghost before = questions@;
            let question = Question::new(row[0].clone(), row[1].clone());
            questions.push(question);
            proof {
                assert(views(questions@) =~= views(before).push(question@));
                seen.filter(|row: Seq<Seq<char>>| is_question_row(row)).lemma_push_map_commute(
                    |row: Seq<Seq<char>>| question_of(row),
                    all[i as int],
                );
            }
        }
        i += 1;
        assert(all_rows_sound(all.take(i as int))) by {
            assert forall|k: int| 0 <= k < i implies !is_faulty_row(
                #[trigger] all.take(i as int)[k],
            ) by {
                if k < i - 1 {
                    assert(all.take(i as int)[k] == seen[k]);
                }
            }
        }
    }
    assert(all.take(i as int) =~= all);
    Ok((questions, time))
}

} // verus!
