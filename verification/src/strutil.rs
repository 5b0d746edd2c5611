//! Verified string helpers for the command shell: equality of tokens and
//! extraction of the first whitespace-separated token from an input line.

use vstd::prelude::*;
use vstd::string::StrSliceExecFns;

verus! {

/// A blank character for the purpose of splitting a command line into tokens.
pub open spec fn spec_is_space(c: char) -> bool {
    c == ' ' || c == '\t' || c == '\r' || c == '\n'
}

/// Executable test matching `spec_is_space`.
pub fn is_space(c: char) -> (r: bool)
    ensures
        r == spec_is_space(c),
{
    c == ' ' || c == '\t' || c == '\r' || c == '\n'
}

/// Character-wise equality of two string slices.
pub fn str_eq(a: &str, b: &str) -> (r: bool)
    ensures
        r == (a@ == b@),
{
    let a_len = a.unicode_len();
    let b_len = b.unicode_len();
    if a_len != b_len {
        return false;
    }
    let mut i: usize = 0;
    while i < a_len
        invariant
            a_len == a@.len(),
            b_len == b@.len(),
            a_len == b_len,
            i <= a_len,
            forall|j: int| 0 <= j < i ==> a@[j] == b@[j],
        decreases a_len - i,
    {
        if a.get_char(i) != b.get_char(i) {
            return false;
        }
        i = i + 1;
    }
    proof {
        assert(a@ =~= b@);
    }
    true
}

/// `i` and `j` delimit the first token of `s`: everything before `i` is
/// blank, `s[i..j]` is a non-empty run of non-blank characters, and the run
/// ends at `j` (end of line or a blank).
pub open spec fn is_first_token_at(s: Seq<char>, i: int, j: int) -> bool {
    &&& 0 <= i < j <= s.len()
    &&& forall|k: int| 0 <= k < i ==> spec_is_space(s[k])
    &&& forall|k: int| i <= k < j ==> !spec_is_space(s[k])
    &&& j == s.len() || spec_is_space(s[j])
}

/// The first whitespace-separated token of `line`, or `None` when the line
/// is blank. Only this token is interpreted by the shell; the rest of the
/// line is ignored.
pub fn first_token(line: &str) -> (r: Option<&str>)
    ensures
        match r {
            Option::None => forall|k: int| 0 <= k < line@.len() ==> spec_is_space(line@[k]),
            Option::Some(tok) => exists|i: int, j: int|
                is_first_token_at(line@, i, j) && tok@ == line@.subrange(i, j),
        },
{
    let len = line.unicode_len();
    let mut start: usize = 0;
    while start < len && is_space(line.get_char(start))
        invariant
            len == line@.len(),
            start <= len,
            forall|k: int| 0 <= k < start ==> spec_is_space(line@[k]),
        decreases len - start,
    {
        start = start + 1;
    }
    if start == len {
        return None;
    }
    let mut end: usize = start + 1;
    while end < len && !is_space(line.get_char(end))
        invariant
            len == line@.len(),
            start < end <= len,
            forall|k: int| start <= k < end ==> !spec_is_space(line@[k]),
        decreases len - end,
    {
        end = end + 1;
    }
    let tok = line.substring_char(start, end);
    proof {
        assert(is_first_token_at(line@, start as int, end as int));
    }
    Some(tok)
}

} // verus!
