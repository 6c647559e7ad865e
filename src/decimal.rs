use vstd::prelude::*;
use vstd::string::StringExecFns;

use crate::hex_text::hex_digits;

verus! {

pub open spec fn is_decimal_digit(c: char) -> bool {
    '0' <= c <= '9'
}

pub open spec fn digit_value(c: char) -> nat {
    (c as int - '0' as int) as nat
}

/// The value of a run of decimal digits, most significant first.
pub open spec fn digits_value(s: Seq<char>) -> nat
    decreases s.len(),
{
    if s.len() == 0 {
        0
    } else {
        digits_value(s.drop_last()) * 10 + digit_value(s.last())
    }
}

/// The digits of a decimal number, after an optional leading `+`.
pub open spec fn unsigned_digits(s: Seq<char>) -> Seq<char> {
    if s.len() > 0 && s[0] == '+' {
        s.drop_first()
    } else {
        s
    }
}

/// `s` is an unsigned decimal number that fits in a `u64`: an optional `+`, then
/// at least one digit, and nothing else.
pub open spec fn is_u64_text(s: Seq<char>) -> bool {
    let d = unsigned_digits(s);
    &&& d.len() > 0
    &&& forall|i: int| 0 <= i < d.len() ==> is_decimal_digit(#[trigger] d[i])
    &&& digits_value(d) <= u64::MAX
}

proof fn lemma_digits_grow(d: Seq<char>, i: int)
    requires
        0 <= i <= d.len(),
        forall|k: int| 0 <= k < d.len() ==> is_decimal_digit(#[trigger] d[k]),
    ensures
        digits_value(d.take(i)) <= digits_value(d),
    decreases d.len() - i,
{
    if i < d.len() {
        lemma_digits_grow(d, i + 1);
        assert(d.take(i + 1).drop_last() =~= d.take(i));
    } else {
        assert(d.take(i) =~= d);
    }
}

/// Why a text is not a `u64`, in the order in which a left-to-right reading finds it.
#[derive(Clone, Copy, Debug, PartialEq, Eq)]
pub enum NumberFault {
    /// The text is empty.
    Empty,
    /// A character other than a digit, or a lone sign.
    InvalidDigit,
    /// The digits read so far already exceed the largest `u64`.
    Overflow,
}

/// Some prefix of `d` is made of digits and is already too large for a `u64`.
pub open spec fn has_overflowing_prefix(d: Seq<char>) -> bool {
    exists|j: int|
        0 < j <= d.len() && (forall|k: int| 0 <= k < j ==> is_decimal_digit(#[trigger] d[k]))
            && #[trigger] digits_value(d.take(j)) > u64::MAX
}

/// `d` is empty or holds a character that is not a digit.
pub open spec fn has_non_digit(d: Seq<char>) -> bool {
    d.len() == 0 || exists|i: int| 0 <= i < d.len() && !is_decimal_digit(#[trigger] d[i])
}

/// `f` is the reason why `s` is not a `u64`, as a left-to-right reading finds it: the
/// text is empty exactly for `Empty`, and a run of digits overflows before any other
/// character exactly for `Overflow`.
pub open spec fn explains(f: NumberFault, s: Seq<char>) -> bool {
    &&& (f == NumberFault::Empty <==> s.len() == 0)
    &&& (f == NumberFault::InvalidDigit ==> has_non_digit(unsigned_digits(s)))
    &&& (s.len() > 0 ==> (f == NumberFault::Overflow <==> has_overflowing_prefix(
        unsigned_digits(s),
    )))
}

proof fn lemma_no_overflow_before(d: Seq<char>, p: int)
    requires
        0 <= p <= d.len(),
        forall|k: int| 0 <= k < p ==> is_decimal_digit(#[trigger] d[k]),
        digits_value(d.take(p)) <= u64::MAX,
        p == d.len() || !is_decimal_digit(d[p]),
    ensures
        !has_overflowing_prefix(d),
{
    assert forall|j: int|
        0 < j <= d.len() && (forall|k: int| 0 <= k < j ==> is_decimal_digit(#[trigger] d[k]))
            implies #[trigger] digits_value(d.take(j)) <= u64::MAX by {
        if j > p {
            assert(is_decimal_digit(d[p]));
        }
        let q = d.take(p);
        assert forall|k: int| 0 <= k < q.len() implies is_decimal_digit(#[trigger] q[k]) by {
            assert(q[k] == d[k]);
        }
        lemma_digits_grow(q, j);
        assert(q.take(j) =~= d.take(j));
    }
}

/// Reads an unsigned decimal number (an optional `+`, then digits), or says why it is
/// not one that fits in a `u64`.
pub fn parse_u64(s: &Vec<char>) -> (r: Result<u64, NumberFault>)
    ensures
        r is Ok <==> is_u64_text(s@),
        r matches Ok(n) ==> n == digits_value(unsigned_digits(s@)),
        r matches Err(f) ==> explains(f, s@),
{
    if s.len() == 0 {
        return Err(NumberFault::Empty);
    }
    let start: usize = if s[0] == '+' {
        1
    } else {
        0
    };
    let ghost d = unsigned_digits(s@);
    assert(d =~= s@.subrange(start as int, s@.len() as int));
    if start >= s.len() {
        assert(d.len() == 0);
        return Err(NumberFault::InvalidDigit);
    }
    let mut value: u64 = 0;
    let mut i: usize = start;
    while i < s.len()
        invariant
            start <= i <= s@.len(),
            s@.len() > 0,
            d =~= s@.subrange(start as int, s@.len() as int),
            d == unsigned_digits(s@),
            forall|k: int| 0 <= k < i - start ==> is_decimal_digit(#[trigger] d[k]),
            value == digits_value(d.take(i - start)),
        decreases s.len() - i,
    {
        let c = s[i];
        assert(c == d[i - start]);
        if c < '0' || c > '9' {
            assert(!is_decimal_digit(d[i - start]));
            assert(!is_u64_text(s@));
            proof {
                lemma_no_overflow_before(d, i - start);
            }
            return Err(NumberFault::InvalidDigit);
        }
        let digit: u64 = (c as u32 - '0' as u32) as u64;
        assert(d.take(i - start + 1).drop_last() =~= d.take(i - start));
        if value > (u64::MAX - digit) / 10 {
            proof {
                assert(value * 10 + digit > u64::MAX) by (nonlinear_arith)
                    requires
                        value > (u64::MAX - digit) / 10,
                        digit <= 9,
                ;
                let j = i - start + 1;
                assert(forall|k: int| 0 <= k < j ==> is_decimal_digit(#[trigger] d[k]));
                assert(digits_value(d.take(j)) > u64::MAX);
                if forall|k: int| 0 <= k < d.len() ==> is_decimal_digit(#[trigger] d[k]) {
                    lemma_digits_grow(d, j);
                }
                assert(!is_u64_text(s@));
            }
            return Err(NumberFault::Overflow);
        }
        value = value * 10 + digit;
        i = i + 1;
    }
    assert(d.take(d.len() as int) =~= d);
    Ok(value)
}

/// The decimal digits of `n`, most significant first, without leading zeros.
pub open spec fn decimal_text_of(n: nat) -> Seq<char>
    decreases n,
{
    if n < 10 {
        seq![hex_digits()[n as int]]
    } else {
        decimal_text_of(n / 10).push(hex_digits()[(n % 10) as int])
    }
}

fn digit_text(d: u64) -> (r: &'static str)
    requires
        d < 10,
    ensures
        r@ == seq![hex_digits()[d as int]],
{
    proof {
        reveal_strlit("0");
        reveal_strlit("1");
        reveal_strlit("2");
        reveal_strlit("3");
        reveal_strlit("4");
        reveal_strlit("5");
        reveal_strlit("6");
        reveal_strlit("7");
        reveal_strlit("8");
        reveal_strlit("9");
    }
    if d == 0 {
        "0"
    } else if d == 1 {
        "1"
    } else if d == 2 {
        "2"
    } else if d == 3 {
        "3"
    } else if d == 4 {
        "4"
    } else if d == 5 {
        "5"
    } else if d == 6 {
        "6"
    } else if d == 7 {
        "7"
    } else if d == 8 {
        "8"
    } else {
        "9"
    }
}

/// `n` written in decimal.
pub fn decimal_text(n: u64) -> (r: String)
    ensures
        r@ == decimal_text_of(n as nat),
    decreases n,
{
    if n < 10 {
        String::from_str(digit_text(n))
    } else {
        let mut r = decimal_text(n / 10);
        r.append(digit_text(n % 10));
        r
    }
}

} // verus!
