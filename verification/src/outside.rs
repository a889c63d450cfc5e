//! The calls that this library makes into other crates. What is stated of
//! them here is taken on trust: it is read off their sources, not proved.

use vstd::prelude::*;
use rand::seq::SliceRandom;
use crate::question::Question;

verus! {

#[verifier::external_type_specification]
#[verifier::external_body]
pub struct ExCsvError(csv::Error);

/// What the `csv` reader makes of `data`, read as comma-separated text
/// without a header row and with rows of any number of fields: the rows, each
/// a list of fields, or nothing where the reader reports an error.
pub uninterp spec fn csv_records(data: Seq<u8>) -> Option<Seq<Seq<Seq<char>>>>;

/// Runs `csv::Reader::records` over `data`, with a reader built by
/// `csv::ReaderBuilder` with `has_headers(false)` and `flexible(true)`.
///
/// Trusted: the outcome depends on `data` alone, and is what `csv_records`
/// names. The rows come in the order of the text, each field as an owned
/// string; the first error that the reader reports is handed back as it is.
#[verifier::external_body]
pub(crate) fn read_records(data: &[u8]) -> (read: Result<Vec<Vec<String>>, csv::Error>)
    ensures
        csv_records(data@) == match read {
            Ok(rows) => Some(rows.deep_view()),
            Err(_) => None,
        },
{
    let mut reader = csv::ReaderBuilder::new().has_headers(false).flexible(true).from_reader(data);
    let mut rows: Vec<Vec<String>> = Vec::new();
    for record in reader.records() {
        rows.push(record?.iter().map(|field| field.to_string()).collect());
    }
    Ok(rows)
}

/// Whether `c` is white space as `char::is_whitespace` of the standard
/// library has it: a character with the Unicode property `White_Space`.
pub uninterp spec fn is_whitespace(c: char) -> bool;

/// Calls `char::is_whitespace` on `c`.
///
/// Trusted: the answer depends on `c` alone, and is what `is_whitespace`
/// names.
#[verifier::external_body]
pub(crate) fn char_is_whitespace(c: char) -> (white: bool)
    ensures
        white == is_whitespace(c),
{
    c.is_whitespace()
}

/// Runs `rand::seq::SliceRandom::shuffle` on `questions`, with the generator
/// that `rand::thread_rng` hands out.
///
/// Trusted: the shuffle only swaps elements, so afterwards the vector holds
/// what it held before, each element as often as before. Nothing is said of
/// the order, which differs from call to call.
#[verifier::external_body]
pub(crate) fn shuffle(questions: &mut Vec<Question>)
    ensures
        final(questions)@.to_multiset() == old(questions)@.to_multiset(),
{
    questions.shuffle(&mut rand::thread_rng());
}

} // verus!
