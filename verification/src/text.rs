//! Lines of text as a person types them: their characters, and what is left
//! of a line once the white space around it is taken off.

use vstd::prelude::*;
use crate::outside::{char_is_whitespace, is_whitespace};

verus! {

/// `s` without the white space that it begins with.
pub open spec fn trimmed_start(s: Seq<char>) -> Seq<char>
    decreases s.len(),
{
    if s.len() > 0 && is_whitespace(s.first()) {
        trimmed_start(s.drop_first())
    } else {
        s
    }
}

/// `s` without the white space that it ends with.
pub open spec fn trimmed_end(s: Seq<char>) -> Seq<char>
    decreases s.len(),
{
    if s.len() > 0 && is_whitespace(s.last()) {
        trimmed_end(s.drop_last())
    } else {
        s
    }
}

/// `s` without the white space at either end. White space inside it stays.
pub open spec fn trimmed(s: Seq<char>) -> Seq<char> {
    trimmed_end(trimmed_start(s))
}

/// Whether `s` is blank: empty, or white space throughout.
pub open spec fn is_blank(s: Seq<char>) -> bool {
    forall|i: int| 0 <= i < s.len() ==> is_whitespace(#[trigger] s[i])
}

/// Where `s` begins with `n` characters of white space and goes on with
/// something else, or ends there, trimming its start leaves what follows.
pub proof fn lemma_trimmed_start_skips(s: Seq<char>, n: int)
    requires
        0 <= n <= s.len(),
        is_blank(s.take(n)),
        n < s.len() ==> !is_whitespace(s[n]),
    ensures
        trimmed_start(s) == s.skip(n),
    decreases n,
{
    if n == 0 {
        assert(s.skip(0) =~= s);
    } else {
        assert(s.take(n)[0] == s[0]);
        let rest = s.drop_first();
        assert(is_blank(rest.take(n - 1))) by {
            assert forall|i: int| 0 <= i < n - 1 implies is_whitespace(
                #[trigger] rest.take(n - 1)[i],
            ) by {
                assert(rest.take(n - 1)[i] == s.take(n)[i + 1]);
            }
        }
        lemma_trimmed_start_skips(rest, n - 1);
        assert(rest.skip(n - 1) =~= s.skip(n));
    }
}

/// Where `s` ends with white space from position `n` on, and the character
/// before that, if there is one, is something else, trimming its end leaves
/// what comes before `n`.
pub proof fn lemma_trimmed_end_takes(s: Seq<char>, n: int)
    requires
        0 <= n <= s.len(),
        is_blank(s.skip(n)),
        n > 0 ==> !is_whitespace(s[n - 1]),
    ensures
        trimmed_end(s) == s.take(n),
    decreases s.len() - n,
{
    if n == s.len() {
        assert(s.take(n) =~= s);
    } else {
        assert(s.skip(n)[s.len() - n - 1] == s.last());
        let rest = s.drop_last();
        assert(is_blank(rest.skip(n))) by {
            assert forall|i: int| 0 <= i < rest.len() - n implies is_whitespace(
                #[trigger] rest.skip(n)[i],
            ) by {
                assert(rest.skip(n)[i] == s.skip(n)[i]);
            }
        }
        lemma_trimmed_end_takes(rest, n);
        assert(rest.take(n) =~= s.take(n));
    }
}

/// A line is blank exactly when trimming leaves nothing of it.
pub proof fn lemma_blank_trims_to_nothing(s: Seq<char>)
    ensures
        is_blank(s) <==> trimmed(s).len() == 0,
    decreases s.len(),
{
    if s.len() > 0 && is_whitespace(s.first()) {
        let rest = s.drop_first();
        lemma_blank_trims_to_nothing(rest);
        assert(is_blank(s) <==> is_blank(rest)) by {
            if is_blank(rest) {
                assert forall|i: int| 0 <= i < s.len() implies is_whitespace(#[trigger] s[i]) by {
                    if i > 0 {
                        assert(s[i] == rest[i - 1]);
                    }
                }
            }
            if is_blank(s) {
                assert forall|i: int| 0 <= i < rest.len() implies is_whitespace(
                    #[trigger] rest[i],
                ) by {
                    assert(rest[i] == s[i + 1]);
                }
            }
        }
    } else if s.len() > 0 {
        assert(trimmed_start(s) == s);
        lemma_trimmed_end_keeps_start(s);
    }
}

/// Trimming the end of a line that begins with something other than white
/// space leaves that beginning in place.
proof fn lemma_trimmed_end_keeps_start(s: Seq<char>)
    requires
        s.len() > 0,
        !is_whitespace(s.first()),
    ensures
        trimmed_end(s).len() > 0,
        trimmed_end(s).first() == s.first(),
    decreases s.len(),
{
    if is_whitespace(s.last()) {
        assert(s.len() > 1);
        lemma_trimmed_end_keeps_start(s.drop_last());
    }
}

/// The characters of `s`, in order.
pub fn chars_of(s: &str) -> (v: Vec<char>)
    ensures
        v@ == s@,
{
    let mut v: Vec<char> = Vec::new();
    for c in it: s.chars()
        invariant
            v@ == it.seq().take(it.index() as int),
            it.seq() == s@,
    {
        v.push(c);
    }
    v
}

/// `s` without the white space at either end.
pub fn trim(s: &str) -> (t: String)
    ensures
        t@ == trimmed(s@),
{
    let chars = chars_of(s);
    let mut start: usize = 0;
    while start < chars.len() && char_is_whitespace(chars[start])
        invariant
            start <= chars.len(),
            is_blank(chars@.take(start as int)),
        decreases chars.len() - start,
    {
        start += 1;
        assert(is_blank(chars@.take(start as int))) by {
            assert forall|i: int| 0 <= i < start implies is_whitespace(
                #[trigger] chars@.take(start as int)[i],
            ) by {
                if i < start - 1 {
                    assert(chars@.take(start as int)[i] == chars@.take(start - 1)[i]);
                }
            }
        }
    }
    let mut end: usize = chars.len();
    while end > start && char_is_whitespace(chars[end - 1])
        invariant
            start <= end <= chars.len(),
            is_blank(chars@.skip(end as int)),
        decreases end,
    {
        end -= 1;
        assert(is_blank(chars@.skip(end as int))) by {
            assert forall|i: int| 0 <= i < chars.len() - end implies is_whitespace(
                #[trigger] chars@.skip(end as int)[i],
            ) by {
                if i > 0 {
                    assert(chars@.skip(end as int)[i] == chars@.skip(end + 1)[i - 1]);
                }
            }
        }
    }
    proof {
        let kept = s@.skip(start as int);
        lemma_trimmed_start_skips(s@, start as int);
        assert(is_blank(kept.skip(end - start))) by {
            assert(kept.skip(end - start) =~= s@.skip(end as int));
        }
        lemma_trimmed_end_takes(kept, end - start);
        assert(kept.take(end - start) =~= s@.subrange(start as int, end as int));
    }
    s.substring_char(start, end).to_owned()
}

/// Reads an answer out of one line as it was typed: the line without the
/// white space around it, or nothing where the line is blank.
pub fn read_line(line: &str) -> (answer: Option<String>)
    ensures
        match answer {
            Some(text) => !is_blank(line@) && text@ == trimmed(line@),
            None => is_blank(line@),
        },
{
    let text = trim(line);
    proof {
        lemma_blank_trims_to_nothing(line@);
    }
    if text.as_str().is_empty() {
        None
    } else {
        Some(text)
    }
}

} // verus!
