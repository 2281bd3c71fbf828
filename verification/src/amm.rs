//! The constant-product market maker: two reserves whose product never
//! shrinks, a fee kept inside the pool, a capped price history and rolling
//! windows of volume and price.
//!
//! All amounts are whole numbers of smallest units, and every division
//! rounds in the pool's favour.

use vstd::prelude::*;
use crate::agent::MAX_PRICE;
use crate::agent::MILLION;
use crate::clock::unix_time;
use crate::error::BlockchainError;
use crate::error::ValidationFault;
use crate::text::UNITS_PER_COIN;

verus! {

/// The smallest amount that a swap may pay out.
pub const MIN_OUTPUT: u64 = 1;

/// How many price points the history keeps.
pub const PRICE_HISTORY_LIMIT: usize = 1000;

/// Length of the trailing window of volume and price, in seconds.
pub const WINDOW_SECONDS: u64 = 5;

/// Structure to represent a price point with timestamp.
#[derive(Clone, Copy, Debug, PartialEq, Eq, Structural)]
pub struct PricePoint {
    /// Seconds since the Unix epoch.
    pub timestamp: u64,
    /// Smallest units of the quote currency for one whole unit of the base
    /// currency.
    pub price: u128,
}

/// The part of `input` that is priced, after the fee of `fee_ppm` millionths
/// was kept back.
pub open spec fn effective_input(input: nat, fee_ppm: nat) -> nat {
    input * ((MILLION - fee_ppm) as nat) / (MILLION as nat)
}

/// The constant-product answer: what `effective` more on the input side
/// frees on the output side, rounded down.
pub open spec fn output_for(input_reserve: nat, output_reserve: nat, effective: nat) -> nat {
    effective * output_reserve / (input_reserve + effective)
}

/// The price of the base currency: quote reserve for one whole unit of the
/// base reserve, rounded down.
pub open spec fn price_of(zux_reserve: nat, usd_reserve: nat) -> nat {
    usd_reserve * (UNITS_PER_COIN as nat) / zux_reserve
}

/// `x + y`, or the largest `u128` where the sum is larger.
pub open spec fn saturating_sum(x: u128, y: u128) -> u128 {
    if x + y > u128::MAX {
        u128::MAX
    } else {
        (x + y) as u128
    }
}

/// The history after `point` was appended: of more than the limit the oldest
/// point leaves.
pub open spec fn appended(history: Seq<PricePoint>, point: PricePoint) -> Seq<PricePoint> {
    if history.len() >= PRICE_HISTORY_LIMIT {
        history.push(point).subrange(1, history.len() as int + 1)
    } else {
        history.push(point)
    }
}

/// Whether a window that was opened at `opened` has run out at `now`.
pub open spec fn window_over(opened: u64, now: u64) -> bool {
    now >= opened + WINDOW_SECONDS
}

/// What a pool is, apart from how it stores it.
pub struct PoolModel {
    /// Reserve of the base currency.
    pub zux_reserve: u64,
    /// Reserve of the quote currency.
    pub usd_reserve: u64,
    /// Product of the two reserves.
    pub k_constant: u128,
    /// The fee, in millionths of the input.
    pub fee_ppm: u32,
    /// The latest prices, oldest first.
    pub price_history: Seq<PricePoint>,
    /// Volume since inception, in smallest units of the quote currency.
    pub total_volume_usd: u128,
    /// Volume of the current window.
    pub recent_volume_usd: u128,
    /// When the current volume window was opened.
    pub last_volume_reset: u64,
    /// Highest price of the current window.
    pub price_5s_high: u128,
    /// Lowest price of the current window.
    pub price_5s_low: u128,
    /// First price of the current window.
    pub price_5s_open: u128,
    /// Highest price since inception.
    pub price_inception_high: u128,
    /// Lowest price since inception.
    pub price_inception_low: u128,
    /// First price ever.
    pub price_inception_open: u128,
    /// When the current price window was opened.
    pub last_price_reset: u64,
}

impl PoolModel {
    /// Both reserves are positive, `k` is their product, the fee is at most
    /// the whole input, and the history holds between one point and the
    /// limit.
    pub open spec fn wf(self) -> bool {
        &&& self.zux_reserve > 0
        &&& self.usd_reserve > 0
        &&& self.k_constant == self.zux_reserve * self.usd_reserve
        &&& self.fee_ppm <= MILLION
        &&& 1 <= self.price_history.len() <= PRICE_HISTORY_LIMIT
    }

    /// The pool right after it was created at `now`.
    pub open spec fn initial(initial_zux: u64, initial_usd: u64, fee_ppm: u32, now: u64) -> PoolModel {
        let price = price_of(initial_zux as nat, initial_usd as nat) as u128;
        PoolModel {
            zux_reserve: initial_zux,
            usd_reserve: initial_usd,
            k_constant: (initial_zux * initial_usd) as u128,
            fee_ppm,
            price_history: seq![PricePoint { timestamp: now, price }],
            total_volume_usd: 0,
            recent_volume_usd: 0,
            last_volume_reset: now,
            price_5s_high: price,
            price_5s_low: price,
            price_5s_open: price,
            price_inception_high: price,
            price_inception_low: price,
            price_inception_open: price,
            last_price_reset: now,
        }
    }

    /// The current price of the base currency.
    pub open spec fn price(self) -> u128 {
        price_of(self.zux_reserve as nat, self.usd_reserve as nat) as u128
    }

    /// The reserve that a swap in the given direction pays into.
    pub open spec fn input_reserve(self, input_is_zux: bool) -> u64 {
        if input_is_zux {
            self.zux_reserve
        } else {
            self.usd_reserve
        }
    }

    /// The reserve that a swap in the given direction is paid from.
    pub open spec fn output_reserve(self, input_is_zux: bool) -> u64 {
        if input_is_zux {
            self.usd_reserve
        } else {
            self.zux_reserve
        }
    }

    /// What a swap of `input` would pay out.
    pub open spec fn quote(self, input: u64, input_is_zux: bool) -> u64 {
        output_for(
            self.input_reserve(input_is_zux) as nat,
            self.output_reserve(input_is_zux) as nat,
            effective_input(input as nat, self.fee_ppm as nat),
        ) as u64
    }

    /// The reason, if any, for which a swap of `input` is turned away.
    pub open spec fn swap_fault(self, input: u64, input_is_zux: bool) -> Option<BlockchainError> {
        if input == 0 {
            Some(BlockchainError::Validation(ValidationFault::NonPositiveAmount))
        } else if self.quote(input, input_is_zux) < MIN_OUTPUT {
            Some(BlockchainError::Pool)
        } else {
            None
        }
    }

    /// An amount of the base currency in the quote currency, at the current
    /// price.
    pub open spec fn zux_in_usd(self, zux: u64) -> u128 {
        (zux * self.usd_reserve / (self.zux_reserve as int)) as u128
    }

    /// What a swap pays in, valued in the quote currency before the swap.
    pub open spec fn input_value(self, input: u64, input_is_zux: bool) -> u128 {
        if input_is_zux {
            self.zux_in_usd(input)
        } else {
            input as u128
        }
    }

    /// What a swap pays out, valued in the quote currency before the swap.
    pub open spec fn output_value(self, input: u64, input_is_zux: bool) -> u128 {
        if input_is_zux {
            self.quote(input, input_is_zux) as u128
        } else {
            self.zux_in_usd(self.quote(input, input_is_zux))
        }
    }

    /// The pool after `input` went into one reserve and `output` left the
    /// other; `k` is the product of the new reserves.
    pub open spec fn moved(self, input: u64, output: u64, input_is_zux: bool) -> PoolModel {
        let zux = if input_is_zux {
            self.zux_reserve + input
        } else {
            self.zux_reserve - output
        };
        let usd = if input_is_zux {
            self.usd_reserve - output
        } else {
            self.usd_reserve + input
        };
        PoolModel {
            zux_reserve: zux as u64,
            usd_reserve: usd as u64,
            k_constant: (zux * usd) as u128,
            ..self
        }
    }

    /// The pool after its current price was appended to the history.
    pub open spec fn price_recorded(self, now: u64) -> PoolModel {
        PoolModel {
            price_history: appended(
                self.price_history,
                PricePoint { timestamp: now, price: self.price() },
            ),
            ..self
        }
    }

    /// The pool after a trade of the given values was counted at `now`: the
    /// volume grows by the mean of the two values, a window that has run
    /// out starts anew, and the extremes follow the current price.
    pub open spec fn volume_added(self, input_usd: u128, output_usd: u128, now: u64) -> PoolModel {
        let trade = ((input_usd + output_usd) / 2) as u128;
        let price = self.price();
        let fresh_volume = window_over(self.last_volume_reset, now);
        let fresh_price = window_over(self.last_price_reset, now);
        PoolModel {
            total_volume_usd: saturating_sum(self.total_volume_usd, trade),
            recent_volume_usd: if fresh_volume {
                trade
            } else {
                saturating_sum(self.recent_volume_usd, trade)
            },
            last_volume_reset: if fresh_volume {
                now
            } else {
                self.last_volume_reset
            },
            price_5s_high: if fresh_price || price > self.price_5s_high {
                price
            } else {
                self.price_5s_high
            },
            price_5s_low: if fresh_price || price < self.price_5s_low {
                price
            } else {
                self.price_5s_low
            },
            price_5s_open: if fresh_price {
                price
            } else {
                self.price_5s_open
            },
            last_price_reset: if fresh_price {
                now
            } else {
                self.last_price_reset
            },
            price_inception_high: if price > self.price_inception_high {
                price
            } else {
                self.price_inception_high
            },
            price_inception_low: if price < self.price_inception_low {
                price
            } else {
                self.price_inception_low
            },
            ..self
        }
    }

    /// The pool after a swap of `input` at `now` that was not turned away.
    pub open spec fn swapped(self, input: u64, input_is_zux: bool, now: u64) -> PoolModel {
        self.moved(input, self.quote(input, input_is_zux), input_is_zux).price_recorded(
            now,
        ).volume_added(
            self.input_value(input, input_is_zux),
            self.output_value(input, input_is_zux),
            now,
        )
    }
}

/// A product of two factors that fit in 64 bits fits in 128 bits.
pub proof fn lemma_product_fits(x: nat, y: nat)
    requires
        x <= u64::MAX,
        y <= u64::MAX,
    ensures
        x * y <= 0xffff_ffff_ffff_ffff * 0xffff_ffff_ffff_ffff,
        x * y <= u128::MAX,
{
    assert(x * y <= 0xffff_ffff_ffff_ffff * 0xffff_ffff_ffff_ffff) by (nonlinear_arith)
        requires
            x <= 0xffff_ffff_ffff_ffff,
            y <= 0xffff_ffff_ffff_ffff,
    ;
}

/// What is priced is no more than what is paid in.
pub proof fn lemma_effective_at_most_input(input: nat, fee_ppm: nat)
    requires
        fee_ppm <= MILLION,
    ensures
        effective_input(input, fee_ppm) <= input,
{
    let keep = (MILLION - fee_ppm) as nat;
    assert(input * keep <= input * 1_000_000) by (nonlinear_arith)
        requires
            keep <= 1_000_000,
    ;
    assert(input * keep / 1_000_000 <= input) by (nonlinear_arith)
        requires
            input * keep <= input * 1_000_000,
    ;
}

/// The output never empties the reserve it is paid from, and the product of
/// the reserves after the effective input is not below the product before;
/// one smallest unit more of output would push it below.
pub proof fn lemma_output_keeps_product(input_reserve: nat, output_reserve: nat, effective: nat)
    requires
        input_reserve > 0,
        output_reserve > 0,
    ensures
        output_for(input_reserve, output_reserve, effective) < output_reserve,
        (input_reserve + effective) * (output_reserve - output_for(
            input_reserve,
            output_reserve,
            effective,
        )) >= input_reserve * output_reserve,
        (input_reserve + effective) * (output_reserve - output_for(
            input_reserve,
            output_reserve,
            effective,
        ) - 1) < input_reserve * output_reserve,
{
    let d = input_reserve + effective;
    let n = effective * output_reserve;
    let q = n / d;
    assert(q == output_for(input_reserve, output_reserve, effective));
    assert(q * d <= n && n < (q + 1) * d) by (nonlinear_arith)
        requires
            d > 0,
            q == n / d,
            n >= 0,
    ;
    assert(d * output_reserve == input_reserve * output_reserve + n) by (nonlinear_arith)
        requires
            d == input_reserve + effective,
            n == effective * output_reserve,
    ;
    assert(q < output_reserve) by (nonlinear_arith)
        requires
            q * d <= n,
            d * output_reserve == input_reserve * output_reserve + n,
            input_reserve > 0,
            output_reserve > 0,
            d > 0,
            q >= 0,
    ;
    assert(d * (output_reserve - q) >= input_reserve * output_reserve) by (nonlinear_arith)
        requires
            q * d <= n,
            d * output_reserve == input_reserve * output_reserve + n,
    ;
    assert(d * (output_reserve - q - 1) < input_reserve * output_reserve) by (nonlinear_arith)
        requires
            n < (q + 1) * d,
            d * output_reserve == input_reserve * output_reserve + n,
    ;
}

/// `dividend` divided by `divisor`, rounded up.
pub open spec fn divided_up(dividend: nat, divisor: nat) -> nat {
    ((dividend + divisor - 1) / (divisor as int)) as nat
}

/// The output is the output reserve less the product of the reserves divided
/// by the input reserve after the effective input, where the division
/// rounds up: what the pool keeps is never rounded down.
pub proof fn lemma_output_is_reserve_less_quotient(
    input_reserve: nat,
    output_reserve: nat,
    effective: nat,
)
    requires
        input_reserve > 0,
        output_reserve > 0,
    ensures
        output_for(input_reserve, output_reserve, effective) == output_reserve - divided_up(
            input_reserve * output_reserve,
            input_reserve + effective,
        ),
{
    let d = (input_reserve + effective) as int;
    let k = (input_reserve * output_reserve) as int;
    let out = output_for(input_reserve, output_reserve, effective) as int;
    lemma_output_keeps_product(input_reserve, output_reserve, effective);
    let kept = output_reserve - out;
    assert(d * kept >= k);
    assert(d * (kept - 1) < k);
    assert((k + d - 1) / d == kept) by (nonlinear_arith)
        requires
            d > 0,
            d * kept >= k,
            d * (kept - 1) < k,
    ;
}

/// A swap that is not turned away leaves a well-formed pool whose product of
/// reserves is at least what it was: the fee stays inside the pool.
pub proof fn lemma_swap_grows_product(pool: PoolModel, input: u64, input_is_zux: bool, now: u64)
    requires
        pool.wf(),
        pool.input_reserve(input_is_zux) + input <= u64::MAX,
        pool.swap_fault(input, input_is_zux) is None,
    ensures
        pool.swapped(input, input_is_zux, now).wf(),
        pool.swapped(input, input_is_zux, now).k_constant >= pool.k_constant,
        pool.quote(input, input_is_zux) < pool.output_reserve(input_is_zux),
{
    let x = pool.input_reserve(input_is_zux) as nat;
    let y = pool.output_reserve(input_is_zux) as nat;
    let e = effective_input(input as nat, pool.fee_ppm as nat);
    let out = output_for(x, y, e);
    lemma_effective_at_most_input(input as nat, pool.fee_ppm as nat);
    lemma_output_keeps_product(x, y, e);
    assert(out == pool.quote(input, input_is_zux));
    let x2 = (x + input) as nat;
    let y2 = (y - out) as nat;
    assert(x2 * y2 >= (x + e) * y2) by (nonlinear_arith)
        requires
            x2 >= x + e,
            y2 >= 0,
    ;
    lemma_product_fits(x2, y2);
    assert(x * y == y * x) by (nonlinear_arith);
    assert(x2 * y2 == y2 * x2) by (nonlinear_arith);
    let after = pool.moved(input, out as u64, input_is_zux);
    assert(after.k_constant == x2 * y2);
    assert(pool.k_constant == x * y);
}

/// The price that a pool quotes is at most the largest price.
pub proof fn lemma_price_bounded(zux_reserve: nat, usd_reserve: nat)
    requires
        zux_reserve > 0,
        usd_reserve <= u64::MAX,
    ensures
        price_of(zux_reserve, usd_reserve) <= MAX_PRICE,
{
    let n = usd_reserve * 1_000_000_000;
    assert(n / zux_reserve <= n) by (nonlinear_arith)
        requires
            zux_reserve > 0,
            n >= 0,
    ;
}

/// AMM Pool structure implementing Constant Product Market Maker
/// (x * y = k).
#[derive(Clone, Debug)]
pub struct AmmPool {
    zux_reserve: u64,
    usd_reserve: u64,
    k_constant: u128,
    fee_ppm: u32,
    price_history: Vec<PricePoint>,
    total_volume_usd: u128,
    recent_volume_usd: u128,
    last_volume_reset: u64,
    price_5s_high: u128,
    price_5s_low: u128,
    price_5s_open: u128,
    price_inception_high: u128,
    price_inception_low: u128,
    price_inception_open: u128,
    last_price_reset: u64,
}

impl View for AmmPool {
    type V = PoolModel;

    closed spec fn view(&self) -> PoolModel {
        PoolModel {
            zux_reserve: self.zux_reserve,
            usd_reserve: self.usd_reserve,
            k_constant: self.k_constant,
            fee_ppm: self.fee_ppm,
            price_history: self.price_history@,
            total_volume_usd: self.total_volume_usd,
            recent_volume_usd: self.recent_volume_usd,
            last_volume_reset: self.last_volume_reset,
            price_5s_high: self.price_5s_high,
            price_5s_low: self.price_5s_low,
            price_5s_open: self.price_5s_open,
            price_inception_high: self.price_inception_high,
            price_inception_low: self.price_inception_low,
            price_inception_open: self.price_inception_open,
            last_price_reset: self.last_price_reset,
        }
    }
}

/// Tells whether a window that was opened at `opened` has run out at `now`.
fn is_window_over(opened: u64, now: u64) -> (over: bool)
    ensures
        over == window_over(opened, now),
{
    now >= opened && now - opened >= WINDOW_SECONDS
}

impl AmmPool {
    /// Whether the pool is well formed.
    pub open spec fn wf(&self) -> bool {
        self@.wf()
    }

    /// Create a new AMM pool with initial liquidity at `now`.
    pub fn new_at(initial_zux: u64, initial_usd: u64, fee_ppm: u32, now: u64) -> (pool: Self)
        requires
            initial_zux > 0,
            initial_usd > 0,
            fee_ppm <= MILLION,
        ensures
            pool.wf(),
            pool@ == PoolModel::initial(initial_zux, initial_usd, fee_ppm, now),
    {
        proof {
            lemma_product_fits(initial_zux as nat, initial_usd as nat);
            lemma_price_bounded(initial_zux as nat, initial_usd as nat);
        }
        let k_constant: u128 = initial_zux as u128 * initial_usd as u128;
        let initial_price: u128 = initial_usd as u128 * UNITS_PER_COIN as u128
            / initial_zux as u128;
        let mut price_history: Vec<PricePoint> = Vec::new();
        price_history.push(PricePoint { timestamp: now, price: initial_price });
        assert(price_history@ =~= seq![PricePoint { timestamp: now, price: initial_price }]);
        AmmPool {
            zux_reserve: initial_zux,
            usd_reserve: initial_usd,
            k_constant,
            fee_ppm,
            price_history,
            total_volume_usd: 0,
            recent_volume_usd: 0,
            last_volume_reset: now,
            price_5s_high: initial_price,
            price_5s_low: initial_price,
            price_5s_open: initial_price,
            price_inception_high: initial_price,
            price_inception_low: initial_price,
            price_inception_open: initial_price,
            last_price_reset: now,
        }
    }

    /// Create a new AMM pool with initial liquidity, at the time that the
    /// clock shows (zero where it stands before the Unix epoch).
    pub fn new(initial_zux: u64, initial_usd: u64, fee_ppm: u32) -> (pool: Self)
        requires
            initial_zux > 0,
            initial_usd > 0,
            fee_ppm <= MILLION,
        ensures
            pool.wf(),
            pool@ == PoolModel::initial(
                initial_zux,
                initial_usd,
                fee_ppm,
                pool@.last_volume_reset,
            ),
    {
        let now = match unix_time() {
            Some(seconds) => seconds,
            None => 0,
        };
        Self::new_at(initial_zux, initial_usd, fee_ppm, now)
    }

    /// Get the current ZUX price in USD.
    pub fn get_zux_price(&self) -> (price: u128)
        requires
            self.wf(),
        ensures
            price == self@.price(),
            price <= MAX_PRICE,
    {
        proof {
            lemma_price_bounded(self.zux_reserve as nat, self.usd_reserve as nat);
        }
        self.usd_reserve as u128 * UNITS_PER_COIN as u128 / self.zux_reserve as u128
    }

    /// Calculate the output amount for a swap based on constant product
    /// formula, after the fee.
    pub fn calculate_output_amount(&self, input_amount: u64, input_is_zux: bool) -> (output: u64)
        requires
            self.wf(),
        ensures
            output == self@.quote(input_amount, input_is_zux),
            output < self@.output_reserve(input_is_zux),
    {
        let (input_reserve, output_reserve) = if input_is_zux {
            (self.zux_reserve, self.usd_reserve)
        } else {
            (self.usd_reserve, self.zux_reserve)
        };
        let keep: u128 = (MILLION - self.fee_ppm as u64) as u128;
        proof {
            lemma_effective_at_most_input(input_amount as nat, self.fee_ppm as nat);
            assert(input_amount as nat * keep as nat <= 0xffff_ffff_ffff_ffff * 1_000_000)
                by (nonlinear_arith)
                requires
                    input_amount <= 0xffff_ffff_ffff_ffff,
                    keep <= 1_000_000,
            ;
        }
        let input_with_fee: u128 = input_amount as u128 * keep / (MILLION as u128);
        assert(input_with_fee == effective_input(input_amount as nat, self.fee_ppm as nat));
        proof {
            lemma_product_fits(input_with_fee as nat, output_reserve as nat);
            lemma_output_keeps_product(
                input_reserve as nat,
                output_reserve as nat,
                input_with_fee as nat,
            );
        }
        let numerator: u128 = input_with_fee * output_reserve as u128;
        let denominator: u128 = input_reserve as u128 + input_with_fee;
        (numerator / denominator) as u64
    }

    /// An amount of the base currency in the quote currency, at the current
    /// price.
    fn value_in_usd(&self, zux: u64) -> (value: u128)
        requires
            self.wf(),
        ensures
            value == self@.zux_in_usd(zux),
            value <= 0xffff_ffff_ffff_ffff * 0xffff_ffff_ffff_ffff,
    {
        proof {
            lemma_product_fits(zux as nat, self.usd_reserve as nat);
            let n = zux as nat * self.usd_reserve as nat;
            let d = self.zux_reserve as nat;
            assert(n / d <= n) by (nonlinear_arith)
                requires
                    d > 0,
                    n >= 0,
            ;
        }
        zux as u128 * self.usd_reserve as u128 / self.zux_reserve as u128
    }

    /// Swaps `input_amount` at `now`: in the base currency where
    /// `input_is_zux`, else in the quote currency. A swap that is turned
    /// away changes nothing.
    pub fn swap_at(&mut self, input_amount: u64, input_is_zux: bool, now: u64) -> (paid: Result<
        u64,
        BlockchainError,
    >)
        requires
            old(self).wf(),
            old(self)@.input_reserve(input_is_zux) + input_amount <= u64::MAX,
        ensures
            final(self).wf(),
            paid is Ok <==> old(self)@.swap_fault(input_amount, input_is_zux) is None,
            paid matches Ok(output) ==> output == old(self)@.quote(input_amount, input_is_zux)
                && final(self)@ == old(self)@.swapped(input_amount, input_is_zux, now),
            paid matches Err(e) ==> old(self)@.swap_fault(input_amount, input_is_zux) == Some(e)
                && final(self)@ == old(self)@,
    {
        if input_amount == 0 {
            return Err(BlockchainError::Validation(ValidationFault::NonPositiveAmount));
        }
        let output = self.calculate_output_amount(input_amount, input_is_zux);
        if output < MIN_OUTPUT {
            return Err(BlockchainError::Pool);
        }
        proof {
            lemma_swap_grows_product(self@, input_amount, input_is_zux, now);
        }
        let (input_amount_usd, output_amount_usd) = if input_is_zux {
            (self.value_in_usd(input_amount), output as u128)
        } else {
            (input_amount as u128, self.value_in_usd(output))
        };
        if input_is_zux {
            self.zux_reserve = self.zux_reserve + input_amount;
            self.usd_reserve = self.usd_reserve - output;
        } else {
            self.usd_reserve = self.usd_reserve + input_amount;
            self.zux_reserve = self.zux_reserve - output;
        }
        proof {
            lemma_product_fits(self.zux_reserve as nat, self.usd_reserve as nat);
        }
        self.k_constant = self.zux_reserve as u128 * self.usd_reserve as u128;
        assert(self@ == old(self)@.moved(input_amount, output, input_is_zux));
        let new_price = self.get_zux_price();
        self.price_history.push(PricePoint { timestamp: now, price: new_price });
        if self.price_history.len() > PRICE_HISTORY_LIMIT {
            self.price_history.remove(0);
        }
        assert(self.price_history@ =~= appended(
            old(self).price_history@,
            PricePoint { timestamp: now, price: new_price },
        ));
        assert(self@ == old(self)@.moved(input_amount, output, input_is_zux).price_recorded(now));
        self.add_volume_at(input_amount_usd, output_amount_usd, now);
        Ok(output)
    }

    /// Swap ZUX for USD, at the time that the clock shows.
    pub fn swap_zux_to_usd(&mut self, zux_amount: u64) -> (paid: Result<u64, BlockchainError>)
        requires
            old(self).wf(),
            old(self)@.zux_reserve + zux_amount <= u64::MAX,
        ensures
            final(self).wf(),
            paid is Ok <==> old(self)@.swap_fault(zux_amount, true) is None,
            paid matches Ok(output) ==> output == old(self)@.quote(zux_amount, true) && exists|
                now: u64,
            |
                final(self)@ == #[trigger] old(self)@.swapped(zux_amount, true, now),
            paid matches Err(e) ==> old(self)@.swap_fault(zux_amount, true) == Some(e) && final(self)@ == old(self)@,
    {
        let now = match unix_time() {
            Some(seconds) => seconds,
            None => 0,
        };
        self.swap_at(zux_amount, true, now)
    }

    /// Swap USD for ZUX, at the time that the clock shows.
    pub fn swap_usd_to_zux(&mut self, usd_amount: u64) -> (paid: Result<u64, BlockchainError>)
        requires
            old(self).wf(),
            old(self)@.usd_reserve + usd_amount <= u64::MAX,
        ensures
            final(self).wf(),
            paid is Ok <==> old(self)@.swap_fault(usd_amount, false) is None,
            paid matches Ok(output) ==> output == old(self)@.quote(usd_amount, false) && exists|
                now: u64,
            |
                final(self)@ == #[trigger] old(self)@.swapped(usd_amount, false, now),
            paid matches Err(e) ==> old(self)@.swap_fault(usd_amount, false) == Some(e) && final(self)@ == old(self)@,
    {
        let now = match unix_time() {
            Some(seconds) => seconds,
            None => 0,
        };
        self.swap_at(usd_amount, false, now)
    }

    /// Get recent price history for display: the last `count` points.
    pub fn get_recent_price_history(&self, count: usize) -> (recent: Vec<PricePoint>)
        ensures
            recent@ == self@.price_history.subrange(
                if self@.price_history.len() > count {
                    self@.price_history.len() - count
                } else {
                    0
                },
                self@.price_history.len() as int,
            ),
    {
        let total = self.price_history.len();
        let start_idx = if total > count {
            total - count
        } else {
            0
        };
        let mut recent: Vec<PricePoint> = Vec::new();
        let mut at = start_idx;
        while at < total
            invariant
                start_idx <= at <= total,
                total == self.price_history@.len(),
                recent@ == self.price_history@.subrange(start_idx as int, at as int),
            decreases total - at,
        {
            recent.push(self.price_history[at]);
            at += 1;
            assert(recent@ =~= self.price_history@.subrange(start_idx as int, at as int));
        }
        recent
    }

    /// Add trading volume and update price tracking, at `now`.
    pub fn add_volume_at(&mut self, input_amount_usd: u128, output_amount_usd: u128, now: u64)
        requires
            old(self).wf(),
            input_amount_usd + output_amount_usd <= u128::MAX,
        ensures
            final(self).wf(),
            final(self)@ == old(self)@.volume_added(input_amount_usd, output_amount_usd, now),
    {
        let trade_volume_usd = (input_amount_usd + output_amount_usd) / 2;
        self.total_volume_usd = self.total_volume_usd.saturating_add(trade_volume_usd);
        if is_window_over(self.last_volume_reset, now) {
            self.recent_volume_usd = 0;
            self.last_volume_reset = now;
        }
        self.recent_volume_usd = self.recent_volume_usd.saturating_add(trade_volume_usd);
        let current_price = self.get_zux_price();
        if is_window_over(self.last_price_reset, now) {
            self.price_5s_high = current_price;
            self.price_5s_low = current_price;
            self.price_5s_open = current_price;
            self.last_price_reset = now;
        } else {
            if current_price > self.price_5s_high {
                self.price_5s_high = current_price;
            }
            if current_price < self.price_5s_low {
                self.price_5s_low = current_price;
            }
        }
        if current_price > self.price_inception_high {
            self.price_inception_high = current_price;
        }
        if current_price < self.price_inception_low {
            self.price_inception_low = current_price;
        }
    }

    /// Add trading volume and update price tracking, at the time that the
    /// clock shows.
    pub fn add_volume(&mut self, input_amount_usd: u128, output_amount_usd: u128)
        requires
            old(self).wf(),
            input_amount_usd + output_amount_usd <= u128::MAX,
        ensures
            final(self).wf(),
            exists|now: u64|
                final(self)@ == #[trigger] old(self)@.volume_added(
                    input_amount_usd,
                    output_amount_usd,
                    now,
                ),
    {
        let now = match unix_time() {
            Some(seconds) => seconds,
            None => 0,
        };
        self.add_volume_at(input_amount_usd, output_amount_usd, now)
    }

    /// Reserve of the base currency.
    pub fn zux_reserve(&self) -> (r: u64)
        ensures
            r == self@.zux_reserve,
    {
        self.zux_reserve
    }

    /// Reserve of the quote currency.
    pub fn usd_reserve(&self) -> (r: u64)
        ensures
            r == self@.usd_reserve,
    {
        self.usd_reserve
    }

    /// Product of the two reserves.
    pub fn k_constant(&self) -> (r: u128)
        ensures
            r == self@.k_constant,
    {
        self.k_constant
    }

    /// The fee, in millionths of the input.
    pub fn fee_ppm(&self) -> (r: u32)
        ensures
            r == self@.fee_ppm,
    {
        self.fee_ppm
    }

    /// Volume since inception and volume of the current window.
    pub fn volumes(&self) -> (r: (u128, u128))
        ensures
            r == (self@.total_volume_usd, self@.recent_volume_usd),
    {
        (self.total_volume_usd, self.recent_volume_usd)
    }

    /// High, low and open of the current window.
    pub fn window_prices(&self) -> (r: (u128, u128, u128))
        ensures
            r == (self@.price_5s_high, self@.price_5s_low, self@.price_5s_open),
    {
        (self.price_5s_high, self.price_5s_low, self.price_5s_open)
    }

    /// High, low and open since inception.
    pub fn inception_prices(&self) -> (r: (u128, u128, u128))
        ensures
            r == (
                self@.price_inception_high,
                self@.price_inception_low,
                self@.price_inception_open,
            ),
    {
        (self.price_inception_high, self.price_inception_low, self.price_inception_open)
    }

    /// How many price points the history holds.
    pub fn history_len(&self) -> (r: usize)
        ensures
            r == self@.price_history.len(),
    {
        self.price_history.len()
    }
}

} // verus!
