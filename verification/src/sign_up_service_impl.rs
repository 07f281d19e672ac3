//! Sign-up checks.

use crate::text::is_digit;
use vstd::prelude::*;

verus! {

/// An E.164 phone number: `+` followed by 1 to 15 decimal digits, the first
/// of which is not zero.
pub open spec fn is_e164(s: Seq<char>) -> bool {
    &&& 2 <= s.len() <= 16
    &&& s[0] == '+'
    &&& '1' <= s[1] && s[1] <= '9'
    &&& forall|i: int| 1 <= i < s.len() ==> is_digit(#[trigger] s[i])
}

/// MSISDN validation using the E.164 format.
pub fn is_valid_msisdn(input: &str) -> (r: bool)
    ensures
        r == is_e164(input@),
        r ==> input@.len() >= 2 && input@[0] == '+',
        r ==> forall|i: int| 1 <= i < input@.len() ==> '0' <= #[trigger] input@[i] && input@[i] <= '9',
{
    let n = input.unicode_len();
    if n == 0 {
        return false;
    }
    if input.get_char(0) != '+' {
        return false;
    }
    if n < 2 || n > 16 {
        return false;
    }
    let first = input.get_char(1);
    if !(first >= '1' && first <= '9') {
        return false;
    }
    let mut i: usize = 1;
    while i < n
        invariant
            1 <= i <= n,
            n == input@.len(),
            forall|j: int| 1 <= j < i ==> is_digit(#[trigger] input@[j]),
        decreases n - i,
    {
        let c = input.get_char(i);
        if !(c >= '0' && c <= '9') {
            return false;
        }
        i = i + 1;
    }
    true
}

/// After the leading `+` an E.164 number holds nothing but the digits `0` to
/// `9`: a text with any other character there (a space, a dash, a letter)
/// is refused.
pub proof fn lemma_e164_rejects_non_digits(s: Seq<char>, i: int)
    requires
        1 <= i < s.len(),
        !('0' <= s[i] && s[i] <= '9'),
    ensures
        !is_e164(s),
{
}

/// An E.164 number is `+` and 1 to 15 characters, each one of `0` to `9`.
pub proof fn lemma_e164_is_plus_and_digits(s: Seq<char>)
    requires
        is_e164(s),
    ensures
        s[0] == '+',
        2 <= s.len() <= 16,
        forall|i: int| 1 <= i < s.len() ==> '0' <= #[trigger] s[i] && s[i] <= '9',
{
}

} // verus!
