use vstd::prelude::*;
use vstd::string::StrSliceExecFns;

verus! {

/// Whether `ch` occurs anywhere in `s`.
pub open spec fn contains_char(s: Seq<char>, ch: char) -> bool {
    exists|i: int| 0 <= i < s.len() && s[i] == ch
}

/// A submission is multi-word when it holds a space anywhere.
pub open spec fn contains_space(s: Seq<char>) -> bool {
    contains_char(s, ' ')
}

/// A word ends the sentence when it holds a period anywhere — deliberately
/// "anywhere", not "at the end", so `"end.!"` terminates too.
pub open spec fn contains_period(s: Seq<char>) -> bool {
    contains_char(s, '.')
}

/// Whether `ch` occurs anywhere in `s`.
pub fn find_char(s: &str, ch: char) -> (r: bool)
    ensures
        r == contains_char(s@, ch),
{
    let n = s.unicode_len();
    let mut i: usize = 0;
    while i < n
        invariant
            n == s@.len(),
            0 <= i <= n,
            forall|j: int| 0 <= j < i ==> s@[j] != ch,
        decreases n - i,
    {
        if s.get_char(i) == ch {
            return true;
        }
        i += 1;
    }
    false
}

/// The turn validator's verdict on one candidate word.
#[derive(Debug, Clone, Copy, PartialEq, Eq, Structural)]
pub enum Decision {
    Accept,
    RejectSameAuthor,
    RejectMultiWord,
}

/// What the validator decides: a multi-word submission is rejected first,
/// then a contributor matching the channel's last contributor, and anything
/// else is accepted. The "none" sentinel never matches an author.
pub open spec fn evaluate_spec(
    word: Seq<char>,
    author: u64,
    last_contributor: Option<u64>,
) -> Decision {
    if contains_space(word) {
        Decision::RejectMultiWord
    } else if last_contributor == Some(author) {
        Decision::RejectSameAuthor
    } else {
        Decision::Accept
    }
}

/// Pure turn validation: given the candidate word, its author and the
/// channel's persisted last contributor, decide whether the turn is legal.
pub fn evaluate(word: &str, author: u64, last_contributor: Option<u64>) -> (d: Decision)
    ensures
        d == evaluate_spec(word@, author, last_contributor),
{
    if find_char(word, ' ') {
        return Decision::RejectMultiWord;
    }
    match last_contributor {
        Some(last) => if last == author {
            Decision::RejectSameAuthor
        } else {
            Decision::Accept
        },
        None => Decision::Accept,
    }
}

} // verus!
