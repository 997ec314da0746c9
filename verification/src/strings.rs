//! Small verified helpers over `String` and `&str`: appending single
//! characters, character-wise equality, and decimal rendering of integers.

use vstd::prelude::*;
use vstd::string::StrSliceExecFns;

verus! {

/// Relies on `String::push`: appends one character at the end of the string.
#[verifier::external_body]
pub(crate) fn push_char(s: &mut String, c: char)
    ensures
        final(s)@ == old(s)@ + seq![c],
{
    s.push(c);
}

/// Character-wise string equality, proved against the views.
pub fn str_eq(a: &str, b: &str) -> (r: bool)
    ensures
        r == (a@ == b@),
{
    let alen = a.unicode_len();
    let blen = b.unicode_len();
    if alen != blen {
        assert(a@ != b@) by {
            assert(a@.len() != b@.len());
        }
        return false;
    }
    let mut i: usize = 0;
    while i < alen
        invariant
            i <= alen,
            alen == a@.len(),
            alen == b@.len(),
            forall|j: int| 0 <= j < i ==> a@[j] == b@[j],
        decreases alen - i,
    {
        if a.get_char(i) != b.get_char(i) {
            return false;
        }
        i += 1;
    }
    assert(a@ =~= b@);
    true
}

/// The decimal digit character for `d` (0 through 9).
pub open spec fn digit_char(d: int) -> char {
    ((48 + d) as u8) as char
}

/// The decimal rendering of a non-negative integer, most significant digit
/// first, with no leading zeros (a lone `0` for zero).
pub open spec fn dec_str(n: int) -> Seq<char>
    decreases n,
{
    if n < 10 {
        seq![digit_char(n)]
    } else {
        dec_str(n / 10) + seq![digit_char(n % 10)]
    }
}

/// Renders `n` in decimal.
pub fn u64_to_dec(n: u64) -> (r: String)
    ensures
        r@ == dec_str(n as int),
    decreases n,
{
    if n < 10 {
        let mut s = String::new();
        push_char(&mut s, (48 + (n as u8)) as char);
        assert(s@ =~= dec_str(n as int));
        s
    } else {
        let mut s = u64_to_dec(n / 10);
        push_char(&mut s, (48 + ((n % 10) as u8)) as char);
        assert(s@ =~= dec_str(n as int));
        s
    }
}

/// Renders a `usize` in decimal.
pub fn usize_to_dec(n: usize) -> (r: String)
    ensures
        r@ == dec_str(n as int),
{
    u64_to_dec(n as u64)
}

/// The lower-case form of a string: a fixed function of its characters
/// alone.
pub uninterp spec fn lower_of(s: Seq<char>) -> Seq<char>;

/// Relies on `str::to_lowercase`: the result depends on the characters of
/// the input alone.
#[verifier::external_body]
pub(crate) fn lowercase(s: &str) -> (r: String)
    ensures
        r@ == lower_of(s@),
{
    s.to_lowercase()
}

/// The length of the longest prefix of `s` without the character `stop`.
pub open spec fn prefix_until_len(s: Seq<char>, stop: char) -> int
    decreases s.len(),
{
    if s.len() == 0 {
        0
    } else if s[0] == stop {
        0
    } else {
        1 + prefix_until_len(s.drop_first(), stop)
    }
}

/// A position with no `stop` before it, holding `stop` or the end, is where
/// the prefix ends.
pub proof fn lemma_prefix_until_at(s: Seq<char>, stop: char, i: int)
    requires
        0 <= i <= s.len(),
        forall|j: int| 0 <= j < i ==> s[j] != stop,
        i == s.len() || s[i] == stop,
    ensures
        prefix_until_len(s, stop) == i,
    decreases i,
{
    if i == 0 {
    } else {
        assert(s[0] != stop);
        lemma_prefix_until_at(s.drop_first(), stop, i - 1);
    }
}

/// The longest prefix of `s` that holds no `stop` character.
pub fn take_until<'a>(s: &'a str, stop: char) -> (r: &'a str)
    ensures
        r@ == s@.subrange(0, prefix_until_len(s@, stop)),
{
    let len = s.unicode_len();
    let mut i: usize = 0;
    while i < len && s.get_char(i) != stop
        invariant
            i <= len,
            len == s@.len(),
            forall|j: int| 0 <= j < i ==> s@[j] != stop,
        decreases len - i,
    {
        i += 1;
    }
    proof {
        lemma_prefix_until_at(s@, stop, i as int);
    }
    s.substring_char(0, i)
}

} // verus!
