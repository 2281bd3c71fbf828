//! The sources of randomness, each behind one trusted call.

use rand::rngs::OsRng;
use rand::Rng;
use vstd::prelude::*;

verus! {

/// `Rng::fill` of rand on the operating system's generator (`OsRng`), for
/// eight bytes read as one big-endian number. Nothing is claimed of the
/// number: every value can come back.
#[verifier::external_body]
pub(crate) fn os_random_u64() -> u64 {
    let mut bytes = [0u8; 8];
    OsRng.fill(&mut bytes);
    u64::from_be_bytes(bytes)
}

/// `Rng::gen_ratio` of rand on the operating system's generator: `true`
/// with a chance of `numerator` in `denominator`. Only the two certain cases
/// are claimed.
#[verifier::external_body]
pub(crate) fn os_random_ratio(numerator: u32, denominator: u32) -> (hit: bool)
    requires
        0 < denominator,
        numerator <= denominator,
    ensures
        numerator == denominator ==> hit,
        numerator == 0 ==> !hit,
{
    OsRng.gen_ratio(numerator, denominator)
}

/// `Rng::gen_range` of rand on the operating system's generator, for a
/// half-open range of `u64`: the number lies in the range.
#[verifier::external_body]
pub(crate) fn os_random_range(low: u64, high: u64) -> (drawn: u64)
    requires
        low < high,
    ensures
        low <= drawn < high,
{
    OsRng.gen_range(low..high)
}

/// `Rng::gen_ratio` of rand on the thread-local generator: `true` with a
/// chance of `numerator` in `denominator`. Only the two certain cases are
/// claimed.
#[verifier::external_body]
pub(crate) fn thread_random_ratio(numerator: u32, denominator: u32) -> (hit: bool)
    requires
        0 < denominator,
        numerator <= denominator,
    ensures
        numerator == denominator ==> hit,
        numerator == 0 ==> !hit,
{
    rand::thread_rng().gen_ratio(numerator, denominator)
}

/// `Rng::gen_range` of rand on the thread-local generator, for a half-open
/// range of `u32`: the number lies in the range.
#[verifier::external_body]
pub(crate) fn thread_random_range(low: u32, high: u32) -> (drawn: u32)
    requires
        low < high,
    ensures
        low <= drawn < high,
{
    rand::thread_rng().gen_range(low..high)
}

} // verus!
