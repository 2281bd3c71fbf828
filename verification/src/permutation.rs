//! Why the generator's permutation has full period: a multiplier without a
//! factor 2 or 31 is invertible modulo a power of 62, so two counters less
//! than the code space apart never meet in the same number, and two numbers
//! of the code space never share a code.

use vstd::prelude::*;
use vstd::arithmetic::div_mod::lemma_fundamental_div_mod;
use vstd::arithmetic::div_mod::lemma_mod_equivalence;
use vstd::arithmetic::div_mod::lemma_mul_mod_noop;
use vstd::arithmetic::div_mod::lemma_small_mod;
use vstd::arithmetic::div_mod::lemma_truncate_middle;
use crate::address::base62;
use crate::address::code_char;
use crate::address::code_of;
use crate::address::coprime_to_modulus;
use crate::address::permuted;
use crate::address::GeneratorModel;
use crate::address::CODE_LEN;
use crate::address::MODULUS;

verus! {

/// 62 to the power `k`.
pub open spec fn pow62(k: nat) -> nat
    decreases k,
{
    if k == 0 {
        1
    } else {
        62 * pow62((k - 1) as nat)
    }
}

/// The code space has 62 to the power 7 members.
pub proof fn lemma_modulus_is_power()
    ensures
        MODULUS == pow62(CODE_LEN as nat),
{
    assert(pow62(0) == 1);
    assert(pow62(1) == 62);
    assert(pow62(2) == 3_844);
    assert(pow62(3) == 238_328);
    assert(pow62(4) == 14_776_336);
    assert(pow62(5) == 916_132_832);
    assert(pow62(6) == 56_800_235_584);
    assert(pow62(7) == 3_521_614_606_208);
}

/// A power of 62 is positive.
pub proof fn lemma_pow62_positive(k: nat)
    ensures
        pow62(k) > 0,
    decreases k,
{
    if k > 0 {
        lemma_pow62_positive((k - 1) as nat);
    }
}

/// Two remainders modulo 31 that are not zero have a product that is not a
/// multiple of 31.
proof fn lemma_no_zero_divisors_31(r: int, s: int)
    requires
        0 < r < 31,
        0 < s < 31,
    ensures
        (r * s) % 31 != 0,
{
    let x = r as u32;
    let y = s as u32;
    assert(0 < x < 31 && 0 < y < 31 ==> (x * y) % 31 != 0) by (bit_vector);
    assert(x * y == r * s) by (nonlinear_arith)
        requires
            x == r,
            y == s,
            0 < r < 31,
            0 < s < 31,
    ;
}

/// 31 divides a product only where it divides a factor.
pub proof fn lemma_prime_31(a: int, d: int)
    requires
        0 <= a,
        0 <= d,
        a % 31 != 0,
        (a * d) % 31 == 0,
    ensures
        d % 31 == 0,
{
    lemma_mul_mod_noop(a, d, 31);
    if d % 31 != 0 {
        lemma_no_zero_divisors_31(a % 31, d % 31);
    }
}

/// 2 divides a product with an odd factor only where it divides the other.
pub proof fn lemma_prime_2(a: int, d: int)
    requires
        0 <= a,
        0 <= d,
        a % 2 == 1,
        (a * d) % 2 == 0,
    ensures
        d % 2 == 0,
{
    lemma_mul_mod_noop(a, d, 2);
    if d % 2 != 0 {
        assert((a % 2) * (d % 2) == 1) by (nonlinear_arith)
            requires
                a % 2 == 1,
                d % 2 == 1,
        ;
    }
}

/// 62 divides a product with a multiplier free of 2 and 31 only where it
/// divides the other factor.
pub proof fn lemma_cancel_62(a: int, d: int)
    requires
        0 <= d,
        coprime_to_modulus(a as nat),
        0 <= a,
        (a * d) % 62 == 0,
    ensures
        d % 62 == 0,
{
    let p = a * d;
    assert(p >= 0) by (nonlinear_arith)
        requires
            p == a * d,
            a >= 0,
            d >= 0,
    ;
    lemma_fundamental_div_mod(p, 62);
    let q = p / 62;
    assert(p == 2 * (31 * q));
    assert(p == 31 * (2 * q));
    assert(p % 2 == 0);
    assert(p % 31 == 0);
    lemma_prime_2(a, d);
    lemma_prime_31(a, d);
    lemma_fundamental_div_mod(d, 2);
    let half = d / 2;
    assert(d == 2 * half);
    assert((2 * half) % 31 == 0);
    lemma_prime_31(2, half);
    lemma_fundamental_div_mod(half, 31);
    assert(d == 62 * (half / 31));
}

/// A power of 62 divides a product with a multiplier free of 2 and 31 only
/// where it divides the other factor.
pub proof fn lemma_cancel_power(a: int, d: int, k: nat)
    requires
        0 <= d,
        0 <= a,
        coprime_to_modulus(a as nat),
        (a * d) % (pow62(k) as int) == 0,
    ensures
        d % (pow62(k) as int) == 0,
    decreases k,
{
    if k > 0 {
        let smaller = pow62((k - 1) as nat) as int;
        let whole = pow62(k) as int;
        lemma_pow62_positive((k - 1) as nat);
        let p = a * d;
        assert(p >= 0) by (nonlinear_arith)
            requires
                p == a * d,
                a >= 0,
                d >= 0,
        ;
        lemma_fundamental_div_mod(p, whole);
        let q = p / whole;
        assert(p == 62 * (smaller * q)) by (nonlinear_arith)
            requires
                p == whole * q,
                whole == 62 * smaller,
        ;
        assert(p % 62 == 0);
        lemma_cancel_62(a, d);
        lemma_fundamental_div_mod(d, 62);
        let rest = d / 62;
        assert(d == 62 * rest);
        let inner = a * rest;
        assert(inner >= 0) by (nonlinear_arith)
            requires
                inner == a * rest,
                a >= 0,
                rest >= 0,
        ;
        assert(p == 62 * inner) by (nonlinear_arith)
            requires
                p == a * d,
                d == 62 * rest,
                inner == a * rest,
        ;
        lemma_truncate_middle(inner, 62, smaller);
        assert(62 * (inner % smaller) == 0);
        assert(inner % smaller == 0);
        lemma_cancel_power(a, rest, (k - 1) as nat);
        lemma_truncate_middle(rest, 62, smaller);
    }
}

/// Full period: two counters that are less than the size of the code space
/// apart are sent to different numbers.
pub proof fn lemma_permutation_injective(a: nat, b: nat, first: nat, second: nat)
    requires
        coprime_to_modulus(a),
        first < second,
        second - first < MODULUS,
    ensures
        permuted(a, b, first) != permuted(a, b, second),
{
    let m = MODULUS as int;
    let x = (a * first + b) as int;
    let y = (a * second + b) as int;
    if x % m == y % m {
        lemma_mod_equivalence(y, x, m);
        let d = (second - first) as int;
        assert(y - x == a * d) by (nonlinear_arith)
            requires
                x == a * first + b,
                y == a * second + b,
                d == second - first,
        ;
        lemma_modulus_is_power();
        lemma_cancel_power(a as int, d, CODE_LEN as nat);
        lemma_small_mod(d as nat, m as nat);
    }
}

/// The value of each character of the alphabet.
pub open spec fn char_value(d: int) -> int {
    if d < 10 {
        48 + d
    } else if d < 36 {
        87 + d
    } else {
        29 + d
    }
}

/// The alphabet holds the digits, then the small letters, then the capital
/// letters.
pub proof fn lemma_charset(d: int)
    requires
        0 <= d < 62,
    ensures
        code_char(d) as int == char_value(d),
{
    reveal_strlit("0123456789abcdefghijklmnopqrstuvwxyzABCDEFGHIJKLMNOPQRSTUVWXYZ");
    if d < 16 {
        if d < 8 {
            assert(code_char(d) as int == char_value(d));
        } else {
            assert(code_char(d) as int == char_value(d));
        }
    } else if d < 32 {
        if d < 24 {
            assert(code_char(d) as int == char_value(d));
        } else {
            assert(code_char(d) as int == char_value(d));
        }
    } else if d < 48 {
        if d < 40 {
            assert(code_char(d) as int == char_value(d));
        } else {
            assert(code_char(d) as int == char_value(d));
        }
    } else {
        if d < 56 {
            assert(code_char(d) as int == char_value(d));
        } else {
            assert(code_char(d) as int == char_value(d));
        }
    }
}

/// No character stands for two digits.
pub proof fn lemma_charset_injective(d: int, e: int)
    requires
        0 <= d < 62,
        0 <= e < 62,
        code_char(d) == code_char(e),
    ensures
        d == e,
{
    lemma_charset(d);
    lemma_charset(e);
}

/// Two numbers below 62 to the power `width` with the same `width` digits
/// are the same number.
pub proof fn lemma_base62_injective(x: nat, y: nat, width: nat)
    requires
        x < pow62(width),
        y < pow62(width),
        base62(x, width) == base62(y, width),
    ensures
        x == y,
    decreases width,
{
    if width > 0 {
        let shorter = (width - 1) as nat;
        let left = base62(x / 62, shorter);
        let right = base62(y / 62, shorter);
        let cx = code_char((x % 62) as int);
        let cy = code_char((y % 62) as int);
        assert(left.push(cx).last() == cx);
        assert(right.push(cy).last() == cy);
        assert(left.push(cx).drop_last() =~= left);
        assert(right.push(cy).drop_last() =~= right);
        lemma_charset_injective((x % 62) as int, (y % 62) as int);
        lemma_base62_injective(x / 62, y / 62, shorter);
    }
}

/// Address uniqueness: two different numbers of the code space have
/// different codes.
pub proof fn lemma_code_injective(x: nat, y: nat)
    requires
        x < MODULUS,
        y < MODULUS,
        x != y,
    ensures
        code_of(x) != code_of(y),
{
    lemma_modulus_is_power();
    if code_of(x) == code_of(y) {
        lemma_base62_injective(x, y, CODE_LEN as nat);
    }
}

/// Address permutation: two draws that are less than the size of the code
/// space apart propose different codes. A generator therefore runs through
/// the whole code space before it proposes a code for the second time.
pub proof fn lemma_candidates_differ(a: nat, b: nat, first: nat, second: nat)
    requires
        coprime_to_modulus(a),
        first != second,
        first - second < MODULUS,
        second - first < MODULUS,
    ensures
        code_of(permuted(a, b, first)) != code_of(permuted(a, b, second)),
{
    if first < second {
        lemma_permutation_injective(a, b, first, second);
    } else {
        lemma_permutation_injective(a, b, second, first);
    }
    lemma_code_injective(permuted(a, b, first), permuted(a, b, second));
}

/// The codes that the first `count` draws of a generator propose.
pub open spec fn proposed(a: nat, b: nat, count: nat) -> Set<Seq<char>> {
    Set::new(|code: Seq<char>| exists|k: nat| k < count && code == code_of(permuted(a, b, k)))
}

/// No retry: a generator that has issued what its first draws proposed, and
/// nothing else, issues the proposal of its next draw at once, as long as
/// fewer codes were drawn than the code space holds.
pub proof fn lemma_fresh_generator_never_retries(model: GeneratorModel, tries: nat)
    requires
        coprime_to_modulus(model.multiplier as nat),
        model.counter < MODULUS,
        model.used == proposed(model.multiplier as nat, model.offset as nat, model.counter as nat),
        tries > 0,
    ensures
        model.generate(tries).1 == Some(model.candidate()),
        model.generate(tries).0 == model.skip().reserve(model.candidate()),
        model.generate(tries).0.used == proposed(
            model.multiplier as nat,
            model.offset as nat,
            model.counter as nat + 1,
        ),
{
    let a = model.multiplier as nat;
    let b = model.offset as nat;
    let c = model.counter as nat;
    if model.used.contains(model.candidate()) {
        let k = choose|k: nat| k < c && model.candidate() == code_of(permuted(a, b, k));
        lemma_candidates_differ(a, b, k, c);
    }
    let after = model.used.insert(model.candidate());
    assert forall|code: Seq<char>| after.contains(code) <==> proposed(a, b, c + 1).contains(
        code,
    ) by {
        if after.contains(code) {
            if code == model.candidate() {
                assert(c < c + 1 && code == code_of(permuted(a, b, c)));
            } else {
                let k = choose|k: nat| k < c && code == code_of(permuted(a, b, k));
                assert(k < c + 1 && code == code_of(permuted(a, b, k)));
            }
        }
        if proposed(a, b, c + 1).contains(code) {
            let k = choose|k: nat| k < c + 1 && code == code_of(permuted(a, b, k));
            if k < c {
                assert(model.used.contains(code));
            }
        }
    }
    assert(after =~= proposed(a, b, c + 1));
}

} // verus!
