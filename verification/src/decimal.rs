//! Base-ten text of integers.

use vstd::prelude::*;

verus! {

/// The character that writes the digit `d`, for `d` from 0 to 9.
pub open spec fn digit_char(d: int) -> char
    recommends
        0 <= d < 10,
{
    ('0' as int + d) as char
}

/// The base-ten text of `n`: most significant digit first, no leading zero
/// (zero itself is `"0"`).
pub open spec fn decimal(n: nat) -> Seq<char>
    decreases n,
{
    if n < 10 {
        seq![digit_char(n as int)]
    } else {
        decimal(n / 10).push(digit_char((n % 10) as int))
    }
}

/// The base-ten text of `i`: a `-` before the digits of a negative number,
/// no sign otherwise.
pub open spec fn signed_decimal(i: int) -> Seq<char> {
    if i < 0 {
        seq!['-'] + decimal((-i) as nat)
    } else {
        decimal(i as nat)
    }
}

/// Whether `c` is one of the ten digits.
pub open spec fn is_digit(c: char) -> bool {
    '0' <= c <= '9'
}

/// The number that the digits `s` write in base ten.
pub open spec fn digits_value(s: Seq<char>) -> int
    decreases s.len(),
{
    if s.len() == 0 {
        0
    } else {
        digits_value(s.drop_last()) * 10 + (s.last() as int - '0' as int)
    }
}

/// The text of a number is made of digits alone, at least one, and begins
/// with a zero only where the number is zero, whose text is `"0"`.
pub proof fn lemma_decimal_is_canonical(n: nat)
    ensures
        decimal(n).len() >= 1,
        forall|i: int| 0 <= i < decimal(n).len() ==> is_digit(#[trigger] decimal(n)[i]),
        decimal(n)[0] == '0' <==> n == 0,
        n == 0 ==> decimal(n) == seq!['0'],
    decreases n,
{
    if n >= 10 {
        lemma_decimal_is_canonical(n / 10);
    }
}

/// The text of a number writes that number: reading the digits back gives it.
pub proof fn lemma_decimal_denotes(n: nat)
    ensures
        digits_value(decimal(n)) == n,
    decreases n,
{
    if n < 10 {
        assert(digits_value(decimal(n).drop_last()) == 0);
    } else {
        lemma_decimal_denotes(n / 10);
        assert(decimal(n).drop_last() =~= decimal(n / 10));
    }
}

/// Different numbers have different texts.
pub proof fn lemma_decimal_injective(m: nat, n: nat)
    requires
        decimal(m) == decimal(n),
    ensures
        m == n,
{
    lemma_decimal_denotes(m);
    lemma_decimal_denotes(n);
}

/// The text of a negative number is a `-` and then the text of its
/// magnitude; the text of any other number begins with a digit, so never
/// with a sign.
pub proof fn lemma_signed_decimal_sign(i: int)
    ensures
        i < 0 ==> signed_decimal(i)[0] == '-' && signed_decimal(i).subrange(
            1,
            signed_decimal(i).len() as int,
        ) == decimal((-i) as nat),
        i >= 0 ==> is_digit(signed_decimal(i)[0]) && signed_decimal(i) == decimal(i as nat),
{
    if i >= 0 {
        lemma_decimal_is_canonical(i as nat);
    }
}

/// The character of one digit.
fn digit(d: u8) -> (c: char)
    requires
        d < 10,
    ensures
        c == digit_char(d as int),
{
    ('0' as u8 + d) as char
}

/// The digits of `n` in reverse: least significant first.
fn digits_low_first(n: u128) -> (low_first: Vec<char>)
    ensures
        low_first@.reverse() == decimal(n as nat),
{
    let mut low_first: Vec<char> = Vec::new();
    let mut rest: u128 = n;
    while rest >= 10
        invariant
            decimal(n as nat) == decimal(rest as nat) + low_first@.reverse(),
        decreases rest,
    {
        let d: u8 = (rest % 10) as u8;
        low_first.push(digit(d));
        rest = rest / 10;
    }
    low_first.push(digit(rest as u8));
    low_first
}

/// The base-ten text of `n`.
pub fn unsigned_chars(n: u128) -> (chars: Vec<char>)
    ensures
        chars@ == decimal(n as nat),
{
    let low_first = digits_low_first(n);
    let count: usize = low_first.len();
    let mut chars: Vec<char> = Vec::with_capacity(count);
    let mut left: usize = count;
    while left > 0
        invariant
            count == low_first@.len(),
            left <= count,
            chars@ == low_first@.reverse().subrange(0, count - left),
        decreases left,
    {
        left = left - 1;
        chars.push(low_first[left]);
    }
    chars
}

/// The base-ten text of `i`.
pub fn signed_chars(i: i128) -> (chars: Vec<char>)
    ensures
        chars@ == signed_decimal(i as int),
{
    if i < 0 {
        // -(i + 1) fits where -i would not for the least value
        let magnitude: u128 = (-(i + 1)) as u128 + 1;
        let mut chars: Vec<char> = Vec::new();
        chars.push('-');
        let mut digits = unsigned_chars(magnitude);
        chars.append(&mut digits);
        chars
    } else {
        unsigned_chars(i as u128)
    }
}

} // verus!
