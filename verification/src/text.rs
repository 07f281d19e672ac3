//! Plain text helpers: decimal rendering of integers and booleans, and the
//! decimal `u16` parser used for status codes.

use vstd::prelude::*;

verus! {

/// The ASCII character of a decimal digit `d < 10`.
pub open spec fn digit_char(d: nat) -> char {
    (48 + d) as char
}

/// `c` is one of the ASCII digits `'0'..='9'`.
pub open spec fn is_digit(c: char) -> bool {
    '0' <= c && c <= '9'
}

/// The value of an ASCII digit character.
pub open spec fn digit_value(c: char) -> nat {
    (c as int - 48) as nat
}

/// Shortest decimal rendering of a natural number, as `Display` prints it.
pub open spec fn nat_text(n: nat) -> Seq<char>
    decreases n,
{
    if n < 10 {
        seq![digit_char(n)]
    } else {
        nat_text(n / 10).push(digit_char(n % 10))
    }
}

/// Decimal rendering of an integer, with a leading `-` when negative.
pub open spec fn int_text(n: int) -> Seq<char> {
    if n < 0 {
        seq!['-'] + nat_text((-n) as nat)
    } else {
        nat_text(n as nat)
    }
}

/// How `Display` prints a `bool`.
pub open spec fn bool_text(b: bool) -> Seq<char> {
    if b {
        seq!['t', 'r', 'u', 'e']
    } else {
        seq!['f', 'a', 'l', 's', 'e']
    }
}

/// Every character of `s` is an ASCII digit.
pub open spec fn all_digits(s: Seq<char>) -> bool {
    forall|i: int| 0 <= i < s.len() ==> is_digit(#[trigger] s[i])
}

/// The value of a string of decimal digits (0 for the empty string).
pub open spec fn digits_value(s: Seq<char>) -> nat
    decreases s.len(),
{
    if s.len() == 0 {
        0
    } else {
        digits_value(s.drop_last()) * 10 + digit_value(s.last())
    }
}

/// The digits part of an unsigned number: a single leading `+` is allowed.
pub open spec fn unsigned_body(s: Seq<char>) -> Seq<char> {
    if s.len() > 0 && s[0] == '+' {
        s.drop_first()
    } else {
        s
    }
}

/// What `str::parse::<u16>` gives: an optional `+`, then one or more
/// decimal digits whose value fits in a `u16`.
pub open spec fn parse_u16_spec(s: Seq<char>) -> Option<u16> {
    let body = unsigned_body(s);
    if body.len() > 0 && all_digits(body) && digits_value(body) <= 65535 {
        Some(digits_value(body) as u16)
    } else {
        None
    }
}

/// Appends one character; `String::push`.
#[verifier::external_body]
pub(crate) fn push_char(s: &mut String, c: char)
    ensures
        final(s)@ == old(s)@.push(c),
{
    s.push(c);
}

fn digit_to_char(d: u64) -> (c: char)
    requires
        d < 10,
    ensures
        c == digit_char(d as nat),
{
    let b: u8 = 48u8 + (d as u8);
    b as char
}

/// Appends the decimal rendering of `n`.
pub fn write_nat(s: &mut String, n: u64)
    ensures
        final(s)@ == old(s)@ + nat_text(n as nat),
    decreases n,
{
    if n >= 10 {
        write_nat(s, n / 10);
    }
    let c = digit_to_char(n % 10);
    push_char(s, c);
    proof {
        if n >= 10 {
            assert(nat_text(n as nat) == nat_text((n / 10) as nat).push(digit_char((n % 10) as nat)));
        }
    }
    assert(final(s)@ =~= old(s)@ + nat_text(n as nat));
}

/// Decimal rendering of an unsigned integer.
pub fn u64_text(n: u64) -> (r: String)
    ensures
        r@ == nat_text(n as nat),
{
    let mut s = String::new();
    write_nat(&mut s, n);
    assert(s@ =~= nat_text(n as nat));
    s
}

/// Decimal rendering of a signed integer.
pub fn i64_text(n: i64) -> (r: String)
    ensures
        r@ == int_text(n as int),
{
    let mut s = String::new();
    if n < 0 {
        push_char(&mut s, '-');
        let m: u64 = if n == i64::MIN {
            9223372036854775808u64
        } else {
            (-n) as u64
        };
        write_nat(&mut s, m);
    } else {
        write_nat(&mut s, n as u64);
    }
    assert(s@ =~= int_text(n as int));
    s
}

/// How `Display` prints a `bool`.
pub fn bool_to_text(b: bool) -> (r: String)
    ensures
        r@ == bool_text(b),
{
    let mut s = String::new();
    if b {
        push_char(&mut s, 't');
        push_char(&mut s, 'r');
        push_char(&mut s, 'u');
        push_char(&mut s, 'e');
    } else {
        push_char(&mut s, 'f');
        push_char(&mut s, 'a');
        push_char(&mut s, 'l');
        push_char(&mut s, 's');
        push_char(&mut s, 'e');
    }
    assert(s@ =~= bool_text(b));
    s
}


/// A prefix of a digit string never has a larger value than the whole.
pub proof fn lemma_digits_prefix_le(s: Seq<char>, k: int)
    requires
        0 <= k <= s.len(),
    ensures
        digits_value(s.subrange(0, k)) <= digits_value(s),
    decreases s.len(),
{
    if k < s.len() {
        lemma_digits_prefix_le(s.drop_last(), k);
        assert(s.drop_last().subrange(0, k) =~= s.subrange(0, k));
    } else {
        assert(s.subrange(0, k) =~= s);
    }
}

/// Parses a status code the way `str::parse::<u16>` does.
pub fn parse_u16(s: &str) -> (r: Option<u16>)
    ensures
        r == parse_u16_spec(s@),
{
    let n = s.unicode_len();
    let mut start: usize = 0;
    if n > 0 && s.get_char(0) == '+' {
        start = 1;
    }
    let ghost body = unsigned_body(s@);
    assert(body =~= s@.subrange(start as int, n as int));
    if start == n {
        return None;
    }
    let mut i: usize = start;
    let mut acc: u32 = 0;
    while i < n
        invariant
            start <= i <= n,
            n == s@.len(),
            body == unsigned_body(s@),
            body.len() == n - start,
            body =~= s@.subrange(start as int, n as int),
            all_digits(body.subrange(0, i - start)),
            acc == digits_value(body.subrange(0, i - start)),
            acc <= 65535,
        decreases n - i,
    {
        let c = s.get_char(i);
        if !(c >= '0' && c <= '9') {
            assert(body[i - start] == c);
            assert(!all_digits(body));
            return None;
        }
        let ghost prev = body.subrange(0, i - start);
        let ghost next = body.subrange(0, i - start + 1);
        assert(next.drop_last() =~= prev);
        assert(next.last() == c);
        acc = acc * 10 + (c as u32 - 48);
        assert(acc == digits_value(next));
        if acc > 65535 {
            proof {
                if all_digits(body) {
                    lemma_digits_prefix_le(body, i - start + 1);
                    assert(body.subrange(0, i - start + 1) =~= next);
                }
            }
            return None;
        }
        i = i + 1;
        assert(all_digits(next)) by {
            assert forall|j: int| 0 <= j < next.len() implies is_digit(#[trigger] next[j]) by {
                if j < prev.len() {
                    assert(next[j] == prev[j]);
                }
            }
        }
    }
    assert(body.subrange(0, i - start) =~= body);
    Some(acc as u16)
}


/// A three-digit code parses to its value.
pub proof fn lemma_parse_three_digits(a: char, b: char, c: char)
    requires
        is_digit(a),
        is_digit(b),
        is_digit(c),
    ensures
        parse_u16_spec(seq![a, b, c]) == Some(
            (digit_value(a) * 100 + digit_value(b) * 10 + digit_value(c)) as u16,
        ),
{
    let s = seq![a, b, c];
    assert(unsigned_body(s) =~= s);
    assert(s.drop_last() =~= seq![a, b]);
    assert(s.drop_last().drop_last() =~= seq![a]);
    assert(s.drop_last().drop_last().drop_last() =~= Seq::<char>::empty());
    assert(all_digits(s));
    let e = Seq::<char>::empty();
    assert(digits_value(e) == 0);
    assert(seq![a].drop_last() =~= e);
    assert(seq![a].last() == a);
    assert(digits_value(seq![a]) == digit_value(a));
    assert(seq![a, b].drop_last() =~= seq![a]);
    assert(seq![a, b].last() == b);
    assert(digits_value(seq![a, b]) == digit_value(a) * 10 + digit_value(b));
    assert(s.drop_last() =~= seq![a, b]);
    assert(s.last() == c);
    assert(digits_value(s) == (digit_value(a) * 10 + digit_value(b)) * 10 + digit_value(c));
    assert(digits_value(s) <= 999) by (nonlinear_arith)
        requires
            digits_value(s) == (digit_value(a) * 10 + digit_value(b)) * 10 + digit_value(c),
            digit_value(a) <= 9,
            digit_value(b) <= 9,
            digit_value(c) <= 9,
    ;
}

} // verus!
