//! Character-level helpers for the text the server handles: searching for a
//! pattern and skipping leading characters.

use vstd::prelude::*;
use vstd::string::*;

verus! {

/// `pattern` stands in `text` at index `at`.
pub open spec fn occurs_at(text: Seq<char>, pattern: Seq<char>, at: int) -> bool {
    &&& 0 <= at
    &&& at + pattern.len() <= text.len()
    &&& text.subrange(at, at + pattern.len()) == pattern
}

/// `pattern` stands in `text` at index `at` and at no earlier index.
pub open spec fn is_first_occurrence(text: Seq<char>, pattern: Seq<char>, at: int) -> bool {
    &&& occurs_at(text, pattern, at)
    &&& forall|earlier: int| 0 <= earlier < at ==> !occurs_at(text, pattern, earlier)
}

/// The index of the first occurrence of `pattern` in `text`, if there is one.
pub open spec fn first_occurrence(text: Seq<char>, pattern: Seq<char>) -> Option<int> {
    if exists|at: int| is_first_occurrence(text, pattern, at) {
        Some(choose|at: int| is_first_occurrence(text, pattern, at))
    } else {
        None
    }
}

/// The first index at or after `from` whose character is not `c`, or the
/// length of `text` if there is none.
pub open spec fn past_char(text: Seq<char>, c: char, from: int) -> int
    decreases text.len() - from,
{
    if 0 <= from < text.len() && text[from] == c {
        past_char(text, c, from + 1)
    } else {
        from
    }
}

/// Whether `c` has the Unicode property `White_Space`: the characters that
/// trimming a string removes.
pub open spec fn white_space(c: char) -> bool {
    let code = c as u32;
    ||| 0x0009 <= code <= 0x000D
    ||| code == 0x0020
    ||| code == 0x0085
    ||| code == 0x00A0
    ||| code == 0x1680
    ||| 0x2000 <= code <= 0x200A
    ||| code == 0x2028
    ||| code == 0x2029
    ||| code == 0x202F
    ||| code == 0x205F
    ||| code == 0x3000
}

/// The first index at or after `from` whose character is not white space, or
/// the length of `text` if there is none.
pub open spec fn past_white_space(text: Seq<char>, from: int) -> int
    decreases text.len() - from,
{
    if 0 <= from < text.len() && white_space(text[from]) {
        past_white_space(text, from + 1)
    } else {
        from
    }
}

/// An index that is a first occurrence is the first occurrence.
pub proof fn lemma_first_occurrence(text: Seq<char>, pattern: Seq<char>, at: int)
    requires
        is_first_occurrence(text, pattern, at),
    ensures
        first_occurrence(text, pattern) == Some(at),
{
    let chosen = choose|at: int| is_first_occurrence(text, pattern, at);
    assert(is_first_occurrence(text, pattern, chosen));
    if chosen < at {
        assert(!occurs_at(text, pattern, chosen));
    } else if at < chosen {
        assert(!occurs_at(text, pattern, at));
    }
}

/// A pattern that stands nowhere has no first occurrence.
pub proof fn lemma_no_occurrence(text: Seq<char>, pattern: Seq<char>)
    requires
        forall|at: int| !occurs_at(text, pattern, at),
    ensures
        first_occurrence(text, pattern) is None,
{
}

/// Where skipping `c` ends: at or after `from`, within `text`, with nothing
/// but `c` in between, and not on another `c`.
pub proof fn lemma_past_char(text: Seq<char>, c: char, from: int)
    requires
        0 <= from <= text.len(),
    ensures
        from <= past_char(text, c, from) <= text.len(),
        forall|i: int| from <= i < past_char(text, c, from) ==> text[i] == c,
        past_char(text, c, from) < text.len() ==> text[past_char(text, c, from)] != c,
    decreases text.len() - from,
{
    if from < text.len() && text[from] == c {
        lemma_past_char(text, c, from + 1);
    }
}

/// Where skipping white space ends: at or after `from`, within `text`, with
/// nothing but white space in between, and not on white space.
pub proof fn lemma_past_white_space(text: Seq<char>, from: int)
    requires
        0 <= from <= text.len(),
    ensures
        from <= past_white_space(text, from) <= text.len(),
        forall|i: int| from <= i < past_white_space(text, from) ==> white_space(text[i]),
        past_white_space(text, from) < text.len() ==> !white_space(
            text[past_white_space(text, from)],
        ),
    decreases text.len() - from,
{
    if from < text.len() && white_space(text[from]) {
        lemma_past_white_space(text, from + 1);
    }
}

/// Whether `c` is white space.
pub fn is_white_space(c: char) -> (white: bool)
    ensures
        white == white_space(c),
{
    let code: u32 = c as u32;
    (0x0009 <= code && code <= 0x000D) || code == 0x0020 || code == 0x0085 || code == 0x00A0
        || code == 0x1680 || (0x2000 <= code && code <= 0x200A) || code == 0x2028 || code
        == 0x2029 || code == 0x202F || code == 0x205F || code == 0x3000
}

/// The characters of `s`, in order.
pub fn chars_of(s: &str) -> (chars: Vec<char>)
    ensures
        chars@ == s@,
{
    broadcast use vstd::string::group_string_axioms;

    let mut chars: Vec<char> = Vec::new();
    let iter = s.chars();
    for c in it: iter
        invariant
            it.seq() == s@,
            chars@ == it.seq().take(it.index()),
    {
        chars.push(c);
    }
    chars
}

/// Whether `pattern` stands in `text` at index `at`.
pub fn matches_at(text: &Vec<char>, pattern: &Vec<char>, at: usize) -> (found: bool)
    ensures
        found == occurs_at(text@, pattern@, at as int),
{
    if at > text.len() || pattern.len() > text.len() - at {
        return false;
    }
    let mut k: usize = 0;
    while k < pattern.len()
        invariant
            k <= pattern.len(),
            at + pattern.len() <= text.len(),
            forall|i: int| 0 <= i < k ==> text@[at + i] == pattern@[i],
        decreases pattern.len() - k,
    {
        if text[at + k] != pattern[k] {
            assert(text@.subrange(at as int, at + pattern.len())[k as int] != pattern@[k as int]);
            return false;
        }
        k += 1;
    }
    assert(text@.subrange(at as int, at + pattern.len()) =~= pattern@);
    true
}

/// The index of the first occurrence of `pattern` in `text`, or nothing if
/// `pattern` stands nowhere in `text`.
pub fn find(text: &Vec<char>, pattern: &Vec<char>) -> (found: Option<usize>)
    ensures
        found matches Some(at) ==> is_first_occurrence(text@, pattern@, at as int),
        found is None ==> forall|at: int| !occurs_at(text@, pattern@, at),
        first_occurrence(text@, pattern@) == match found {
            Some(at) => Some(at as int),
            None => None,
        },
{
    let n: usize = text.len();
    let m: usize = pattern.len();
    if m > n {
        proof {
            lemma_no_occurrence(text@, pattern@);
        }
        return None;
    }
    if m == 0 {
        proof {
            assert(text@.subrange(0, 0) =~= pattern@);
            lemma_first_occurrence(text@, pattern@, 0);
        }
        return Some(0);
    }
    let end: usize = n - m + 1;
    let mut at: usize = 0;
    while at < end
        invariant
            n == text.len(),
            m == pattern.len(),
            0 < m <= n,
            end == n - m + 1,
            at <= end,
            forall|earlier: int| 0 <= earlier < at ==> !occurs_at(text@, pattern@, earlier),
        decreases end - at,
    {
        if matches_at(text, pattern, at) {
            proof {
                lemma_first_occurrence(text@, pattern@, at as int);
            }
            return Some(at);
        }
        at += 1;
    }
    proof {
        lemma_no_occurrence(text@, pattern@);
    }
    None
}

/// The first index at or after `from` whose character is not `c`, as
/// [`past_char`] says.
pub fn skip_char(text: &Vec<char>, c: char, from: usize) -> (to: usize)
    ensures
        to == past_char(text@, c, from as int),
{
    let mut to: usize = from;
    while to < text.len() && text[to] == c
        invariant
            from <= to,
            past_char(text@, c, to as int) == past_char(text@, c, from as int),
        decreases text.len() - to,
    {
        to += 1;
    }
    to
}

/// The first index at or after `from` whose character is not white space,
/// as [`past_white_space`] says.
pub fn skip_white_space(text: &Vec<char>, from: usize) -> (to: usize)
    ensures
        to == past_white_space(text@, from as int),
{
    let mut to: usize = from;
    while to < text.len() && is_white_space(text[to])
        invariant
            from <= to,
            past_white_space(text@, to as int) == past_white_space(text@, from as int),
        decreases text.len() - to,
    {
        to += 1;
    }
    to
}

/// Whether two strings hold the same characters.
pub fn same_text(a: &str, b: &str) -> (same: bool)
    ensures
        same == (a@ == b@),
{
    let left = chars_of(a);
    let right = chars_of(b);
    if left.len() != right.len() {
        return false;
    }
    let mut k: usize = 0;
    while k < left.len()
        invariant
            left@ == a@,
            right@ == b@,
            left.len() == right.len(),
            k <= left.len(),
            forall|i: int| 0 <= i < k ==> left@[i] == right@[i],
        decreases left.len() - k,
    {
        if left[k] != right[k] {
            return false;
        }
        k += 1;
    }
    assert(left@ =~= right@);
    true
}

} // verus!
