//! Percent-encoding of the authorization `code` and `state` values before
//! they are placed into the callback URL.

use vstd::prelude::*;
use vstd::string::*;

verus! {

/// The characters that percent-encoding leaves as they are: ASCII
/// alphanumerics and `-`, `.`, `_`, `~`.
pub open spec fn unreserved(c: char) -> bool {
    (48 <= c as u32 && c as u32 <= 57)  // '0' ..= '9'
    || (65 <= c as u32 && c as u32 <= 90)  // 'A' ..= 'Z'
    || (97 <= c as u32 && c as u32 <= 122)  // 'a' ..= 'z'
    || c == '-' || c == '.' || c == '_' || c == '~'
}

/// The sixteen upper-case hexadecimal digit characters, as a percent escape
/// uses them.
pub open spec fn upper_hex_digit(d: int) -> char {
    if d == 0 {
        '0'
    } else if d == 1 {
        '1'
    } else if d == 2 {
        '2'
    } else if d == 3 {
        '3'
    } else if d == 4 {
        '4'
    } else if d == 5 {
        '5'
    } else if d == 6 {
        '6'
    } else if d == 7 {
        '7'
    } else if d == 8 {
        '8'
    } else if d == 9 {
        '9'
    } else if d == 10 {
        'A'
    } else if d == 11 {
        'B'
    } else if d == 12 {
        'C'
    } else if d == 13 {
        'D'
    } else if d == 14 {
        'E'
    } else {
        'F'
    }
}

/// One character of an ASCII string under percent-encoding: unreserved
/// characters stand for themselves, every other byte becomes `%` and two
/// upper-case hexadecimal digits.
pub open spec fn pct_encode_char(c: char) -> Seq<char> {
    if unreserved(c) {
        seq![c]
    } else {
        seq!['%', upper_hex_digit(c as u32 as int / 16), upper_hex_digit(c as u32 as int % 16)]
    }
}

/// An ASCII string under percent-encoding, character by character.
pub open spec fn pct_encode(s: Seq<char>) -> Seq<char>
    decreases s.len(),
{
    if s.len() == 0 {
        Seq::empty()
    } else {
        pct_encode_char(s[0]) + pct_encode(s.skip(1))
    }
}

/// What `urlencoding::encode` returns for a given input; the result depends
/// on the input characters alone.
pub uninterp spec fn pct_encoded_of(s: Seq<char>) -> Seq<char>;

/// Relies on `urlencoding::encode`: it percent-encodes every byte of the
/// UTF-8 form of the input except ASCII alphanumerics and `-`, `.`, `_`,
/// `~`; on an ASCII string that is exactly `pct_encode` of its characters.
#[verifier::external_body]
pub fn percent_encode(s: &str) -> (r: String)
    ensures
        r@ == pct_encoded_of(s@),
        s.is_ascii() ==> r@ == pct_encode(s@),
{
    urlencoding::encode(s).into_owned()
}

} // verus!
