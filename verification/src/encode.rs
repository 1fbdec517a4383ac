//! Percent-encoding of the composed alert text, as the webhook URL's
//! `content` query parameter requires.
//!
//! The encoding itself is performed by the `urlencoding` crate; this
//! module pins down exactly what that encoding is, byte for byte, over
//! the UTF-8 form of the input.

use vstd::prelude::*;
use vstd::utf8::encode_utf8;

verus! {

/// The bytes `urlencoding` leaves as they are: ASCII alphanumerics and
/// `-`, `.`, `_`, `~`.
pub open spec fn unreserved_byte(b: u8) -> bool {
    (48 <= b && b <= 57)  // '0'..='9'
    || (65 <= b && b <= 90)  // 'A'..='Z'
    || (97 <= b && b <= 122)  // 'a'..='z'
    || b == 45  // '-'
    || b == 46  // '.'
    || b == 95  // '_'
    || b == 126  // '~'
}

/// The uppercase hexadecimal digit for `d` (meaningful for `d < 16`).
pub open spec fn hex_digit_byte(d: u8) -> u8
    recommends
        d < 16,
{
    if d < 10 {
        (48 + d) as u8  // '0' + d
    } else {
        (55 + d) as u8  // 'A' + (d - 10)
    }
}

/// One input byte's encoding: itself if unreserved, else `%` followed
/// by its two uppercase hex digits.
pub open spec fn encoded_byte(b: u8) -> Seq<u8> {
    if unreserved_byte(b) {
        seq![b]
    } else {
        seq![37u8, hex_digit_byte(b / 16), hex_digit_byte(b % 16)]
    }
}

/// The whole percent-encoded byte sequence.
pub open spec fn percent_encoded_bytes(bs: Seq<u8>) -> Seq<u8>
    decreases bs.len(),
{
    if bs.len() == 0 {
        Seq::empty()
    } else {
        encoded_byte(bs[0]) + percent_encoded_bytes(bs.drop_first())
    }
}

/// Reads an all-ASCII byte sequence back as characters.
pub open spec fn ascii_chars_of(bs: Seq<u8>) -> Seq<char> {
    bs.map_values(|b: u8| b as char)
}

/// What percent-encoding a string means: encode its UTF-8 bytes, every
/// one of which comes back as an ASCII character.
pub open spec fn percent_encoding_of(s: Seq<char>) -> Seq<char> {
    ascii_chars_of(percent_encoded_bytes(encode_utf8(s)))
}

/// Relies on `urlencoding::encode`: every byte of the argument's UTF-8
/// form other than ASCII alphanumerics and `-`, `.`, `_`, `~` becomes
/// `%` followed by its two uppercase hexadecimal digits; the rest pass
/// through unchanged, so the result is ASCII throughout.
#[verifier::external_body]
pub(crate) fn percent_encode(s: &str) -> (r: String)
    ensures
        r@ == percent_encoding_of(s@),
{
    urlencoding::encode(s).into_owned()
}

} // verus!
