//! Text building blocks: decimal numerals, fixed-point amounts and prefix
//! tests, each with the exact text it produces.

use vstd::prelude::*;
use vstd::string::*;

verus! {

/// The ten decimal digits, in order.
pub const DECIMAL_DIGITS: &'static str = "0123456789";

/// Number of smallest units in one whole unit of a currency.
pub const UNITS_PER_COIN: u64 = 1_000_000_000;

/// Number of fractional digits with which an amount is written.
pub const AMOUNT_DECIMALS: u64 = 9;

/// The character that stands for the decimal digit `d`.
pub open spec fn digit_char(d: int) -> char {
    DECIMAL_DIGITS@[d]
}

/// The decimal numeral of `n`, without leading zeros (`"0"` for zero).
pub open spec fn decimal(n: nat) -> Seq<char>
    decreases n,
{
    if n < 10 {
        seq![digit_char(n as int)]
    } else {
        decimal(n / 10).push(digit_char((n % 10) as int))
    }
}

/// The last `width` decimal digits of `n`, padded with zeros on the left.
pub open spec fn fixed_decimal(n: nat, width: nat) -> Seq<char>
    decreases width,
{
    if width == 0 {
        Seq::<char>::empty()
    } else {
        fixed_decimal(n / 10, (width - 1) as nat).push(digit_char((n % 10) as int))
    }
}

/// An amount of smallest units written in whole units: the integer part, a
/// point, and exactly nine fractional digits.
pub open spec fn amount_text(amount: nat) -> Seq<char> {
    decimal(amount / (UNITS_PER_COIN as nat)).push('.') + fixed_decimal(
        amount % (UNITS_PER_COIN as nat),
        AMOUNT_DECIMALS as nat,
    )
}

/// The text of a truth value: `true` or `false`.
pub open spec fn bool_text(b: bool) -> Seq<char> {
    if b {
        "true"@
    } else {
        "false"@
    }
}

/// Whether `text` begins with `count` zero characters.
pub open spec fn zero_prefixed(text: Seq<char>, count: nat) -> bool {
    &&& count <= text.len()
    &&& forall|i: int| 0 <= i < count ==> text[i] == '0'
}

/// The digits of `least_first`, most significant first.
pub open spec fn digits_text(least_first: Seq<u8>) -> Seq<char> {
    Seq::new(
        least_first.len(),
        |i: int| digit_char(least_first[least_first.len() - 1 - i] as int),
    )
}

/// Appends the decimal digit `d` to `out`.
pub fn push_digit(out: &mut String, d: u8)
    requires
        d < 10,
    ensures
        final(out)@ == old(out)@.push(digit_char(d as int)),
{
    proof {
        reveal_strlit("0123456789");
    }
    let piece = DECIMAL_DIGITS.substring_ascii(d as usize, d as usize + 1);
    assert(piece@ =~= seq![digit_char(d as int)]);
    out.append(piece);
    assert(out@ =~= old(out)@.push(digit_char(d as int)));
}

/// Appends the digits held in `least_first`, last element first.
fn push_digits_reversed(out: &mut String, least_first: &Vec<u8>)
    requires
        forall|i: int| 0 <= i < least_first@.len() ==> least_first@[i] < 10,
    ensures
        final(out)@ == old(out)@ + digits_text(least_first@),
{
    let total = least_first.len();
    let mut done: usize = 0;
    while done < total
        invariant
            total == least_first@.len(),
            done <= total,
            forall|i: int| 0 <= i < least_first@.len() ==> least_first@[i] < 10,
            out@ == old(out)@ + digits_text(least_first@).subrange(0, done as int),
        decreases total - done,
    {
        let d = least_first[total - 1 - done];
        push_digit(out, d);
        assert(out@ =~= old(out)@ + digits_text(least_first@).subrange(0, done as int + 1));
        done += 1;
    }
    assert(digits_text(least_first@).subrange(0, total as int) =~= digits_text(least_first@));
}

/// Appends the decimal numeral of `n` to `out`.
pub fn append_decimal(out: &mut String, n: u64)
    ensures
        final(out)@ == old(out)@ + decimal(n as nat),
{
    let mut least_first: Vec<u8> = Vec::new();
    let mut rest: u64 = n;
    while rest >= 10
        invariant
            forall|i: int| 0 <= i < least_first@.len() ==> least_first@[i] < 10,
            decimal(n as nat) == decimal(rest as nat) + digits_text(least_first@),
        decreases rest,
    {
        let ghost earlier = least_first@;
        let ghost whole = rest;
        least_first.push((rest % 10) as u8);
        rest = rest / 10;
        assert(decimal(whole as nat) == decimal(rest as nat).push(
            digit_char((whole % 10) as int),
        ));
        assert(decimal(rest as nat).push(digit_char((whole % 10) as int)) + digits_text(earlier)
            =~= decimal(rest as nat) + digits_text(least_first@));
    }
    push_digit(out, rest as u8);
    push_digits_reversed(out, &least_first);
    assert(out@ =~= old(out)@ + (decimal(rest as nat) + digits_text(least_first@)));
}

/// Appends the last `width` decimal digits of `n`, zero-padded, to `out`.
pub fn append_fixed_decimal(out: &mut String, n: u64, width: u64)
    ensures
        final(out)@ == old(out)@ + fixed_decimal(n as nat, width as nat),
{
    let mut least_first: Vec<u8> = Vec::new();
    let mut rest: u64 = n;
    let mut left: u64 = width;
    while left > 0
        invariant
            forall|i: int| 0 <= i < least_first@.len() ==> least_first@[i] < 10,
            fixed_decimal(n as nat, width as nat) == fixed_decimal(rest as nat, left as nat)
                + digits_text(least_first@),
        decreases left,
    {
        let ghost earlier = least_first@;
        let ghost whole = rest;
        least_first.push((rest % 10) as u8);
        rest = rest / 10;
        left = left - 1;
        assert(fixed_decimal(whole as nat, (left + 1) as nat) == fixed_decimal(
            rest as nat,
            left as nat,
        ).push(digit_char((whole % 10) as int)));
        assert(fixed_decimal(rest as nat, left as nat).push(digit_char((whole % 10) as int))
            + digits_text(earlier) =~= fixed_decimal(rest as nat, left as nat) + digits_text(
            least_first@,
        ));
    }
    push_digits_reversed(out, &least_first);
    assert(fixed_decimal(rest as nat, 0) + digits_text(least_first@) =~= digits_text(
        least_first@,
    ));
}

/// Appends `amount` written in whole units with nine fractional digits.
pub fn append_amount(out: &mut String, amount: u64)
    ensures
        final(out)@ == old(out)@ + amount_text(amount as nat),
{
    append_decimal(out, amount / UNITS_PER_COIN);
    let ghost whole = out@;
    proof {
        reveal_strlit(".");
    }
    out.append(".");
    assert(out@ =~= whole.push('.'));
    append_fixed_decimal(out, amount % UNITS_PER_COIN, AMOUNT_DECIMALS);
    assert(out@ =~= old(out)@ + amount_text(amount as nat));
}

/// Appends `true` or `false` to `out`.
pub fn append_bool(out: &mut String, b: bool)
    ensures
        final(out)@ == old(out)@ + bool_text(b),
{
    if b {
        out.append("true");
    } else {
        out.append("false");
    }
}

/// Tells whether two string slices hold the same characters.
pub fn same_text(left: &str, right: &str) -> (same: bool)
    ensures
        same == (left@ == right@),
{
    let one: String = left.to_owned();
    let other: String = right.to_owned();
    one == other
}

/// Tells whether `text` begins with `count` zero characters.
pub fn has_zero_prefix(text: &str, count: u64) -> (r: bool)
    ensures
        r == zero_prefixed(text@, count as nat),
{
    let length = text.unicode_len();
    if (length as u64) < count {
        return false;
    }
    let mut seen: u64 = 0;
    while seen < count
        invariant
            length == text@.len(),
            seen <= count <= length,
            forall|i: int| 0 <= i < seen ==> text@[i] == '0',
        decreases count - seen,
    {
        if text.get_char(seen as usize) != '0' {
            return false;
        }
        seen += 1;
    }
    true
}

} // verus!
