//! Character-level helpers for the phoneme symbols the prosody rules inspect.
//!
//! Phoneme symbols are ASCII strings ("a", "pau", "ky"); case mapping is
//! therefore plain ASCII case mapping, applied character by character.

use vstd::prelude::*;
use vstd::string::*;

verus! {

/// The ASCII uppercase image of one character; characters outside `a..=z` are
/// unchanged.
pub open spec fn upper_char(c: char) -> char {
    if 'a' <= c && c <= 'z' {
        ((c as u8) - 32) as char
    } else {
        c
    }
}

/// The ASCII uppercase image of a character sequence.
pub open spec fn ascii_upper(s: Seq<char>) -> Seq<char> {
    Seq::new(s.len(), |i: int| upper_char(s[i]))
}

/// Relies on `String`'s `FromIterator` impl: collecting characters yields the
/// string of exactly those characters in order.
#[verifier::external_body]
fn string_from_chars(chars: &Vec<char>) -> (r: String)
    ensures
        r@ == chars@,
{
    chars.iter().collect()
}

/// The ASCII uppercase image of one character, computed executably.
fn upper_char_exec(c: char) -> (r: char)
    ensures
        r == upper_char(c),
{
    let code = c as u32;
    if 97 <= code && code <= 122 {
        ((code - 32) as u8) as char
    } else {
        c
    }
}

/// The ASCII uppercase image of a string.
pub fn to_ascii_upper(s: &String) -> (r: String)
    ensures
        r@ == ascii_upper(s@),
{
    let str_ref = s.as_str();
    let n = str_ref.unicode_len();
    let mut out: Vec<char> = Vec::new();
    let mut i: usize = 0;
    while i < n
        invariant
            n == str_ref@.len(),
            str_ref@ == s@,
            i <= n,
            out@ == ascii_upper(s@).subrange(0, i as int),
        decreases n - i,
    {
        let c = str_ref.get_char(i);
        out.push(upper_char_exec(c));
        proof {
            assert(out@ =~= ascii_upper(s@).subrange(0, i + 1 as int));
        }
        i = i + 1;
    }
    proof {
        assert(out@ =~= ascii_upper(s@));
    }
    string_from_chars(&out)
}

} // verus!
