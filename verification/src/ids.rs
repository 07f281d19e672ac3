//! Identifiers: the text form of a UUID, parsing one, and drawing a random one.
//! A UUID is held as its 128-bit value, most significant byte first, as
//! `uuid::Uuid::as_u128` gives it.

use std::str::FromStr;
use uuid::Uuid;
use vstd::prelude::*;

verus! {

/// Lower-case hexadecimal digit for `d < 16`.
pub open spec fn hex_digit_char(d: nat) -> char {
    if d < 10 {
        (48 + d) as char
    } else {
        (87 + d) as char
    }
}

/// The last `n` hexadecimal digits of `v`, most significant first.
pub open spec fn hex_digits(v: nat, n: nat) -> Seq<char>
    decreases n,
{
    if n == 0 {
        Seq::empty()
    } else {
        hex_digits(v / 16, (n - 1) as nat).push(hex_digit_char(v % 16))
    }
}

/// The hyphenated lower-case form `xxxxxxxx-xxxx-xxxx-xxxx-xxxxxxxxxxxx`.
pub open spec fn uuid_text(v: u128) -> Seq<char> {
    let h = hex_digits(v as nat, 32);
    h.subrange(0, 8) + seq!['-'] + h.subrange(8, 12) + seq!['-'] + h.subrange(12, 16) + seq!['-']
        + h.subrange(16, 20) + seq!['-'] + h.subrange(20, 32)
}

/// What `uuid::Uuid::from_str` gives for a text: the value, or the text of
/// its error.
pub uninterp spec fn uuid_parse(s: Seq<char>) -> Result<u128, Seq<char>>;

/// A result whose error is a `String`, with the error taken by its view.
pub open spec fn text_result<T>(r: Result<T, String>) -> Result<T, Seq<char>> {
    match r {
        Ok(v) => Ok(v),
        Err(e) => Err(e@),
    }
}

/// `Uuid::from_u128(id).to_string()`. uuid's `Display` writes the hyphenated
/// lower-case form, 32 hexadecimal digits of the big-endian value in groups of
/// 8-4-4-4-12.
#[verifier::external_body]
pub(crate) fn uuid_to_text(id: u128) -> (r: String)
    ensures
        r@ == uuid_text(id),
{
    Uuid::from_u128(id).to_string()
}

/// `Uuid::from_str(s)`, the value taken by `as_u128` and the error by its
/// `Display` text. Stated besides the name: the hyphenated form of a value
/// parses back to that value (the parser accepts every form the crate
/// writes), and only texts of 32, 36, 38 or 45 characters parse. The error
/// texts are not stated.
#[verifier::external_body]
pub(crate) fn parse_uuid(s: &str) -> (r: Result<u128, String>)
    ensures
        text_result(r) == uuid_parse(s@),
        forall|v: u128| s@ == uuid_text(v) ==> (r is Ok && r->Ok_0 == v),
        r is Ok ==> (s@.len() == 32 || s@.len() == 36 || s@.len() == 38 || s@.len() == 45),
{
    match Uuid::from_str(s) {
        Ok(u) => Ok(u.as_u128()),
        Err(e) => Err(e.to_string()),
    }
}

/// `Uuid::new_v4().as_u128()`: random, with the version nibble (bits 76..80)
/// set to 4 and the RFC 4122 variant bits (62..64) set to `0b10`. Nothing else
/// is promised of the value.
#[verifier::external_body]
pub(crate) fn new_random_id() -> (r: u128)
    ensures
        (r >> 76u128) & 0xfu128 == 4,
        (r >> 62u128) & 0x3u128 == 2,
{
    Uuid::new_v4().as_u128()
}

} // verus!
