//! Figures over a trailing period: traded volume, change of the price, and
//! its extremes.

use vstd::prelude::*;
use crate::agent::MAX_PRICE;
use crate::agent::MILLION;
use crate::amm::PricePoint;
use crate::clock::unix_time;

verus! {

/// Seconds in a day: how long a volume is remembered.
pub const DAY_SECONDS: u64 = 86_400;

/// A volume that was traded at some time.
#[derive(Clone, Copy, Debug, PartialEq, Eq, Structural)]
pub struct VolumePoint {
    /// Seconds since the Unix epoch.
    pub timestamp: u64,
    /// Smallest units of the quote currency.
    pub volume: u128,
}

/// The time `period` seconds before `now`, or zero where that lies before
/// the epoch.
pub open spec fn cutoff_of(now: u64, period: u64) -> u64 {
    if now >= period {
        (now - period) as u64
    } else {
        0
    }
}

/// The points that are not older than `cutoff`, in order.
pub open spec fn kept_since(points: Seq<VolumePoint>, cutoff: u64) -> Seq<VolumePoint>
    decreases points.len(),
{
    if points.len() == 0 {
        Seq::<VolumePoint>::empty()
    } else if points.last().timestamp >= cutoff {
        kept_since(points.drop_last(), cutoff).push(points.last())
    } else {
        kept_since(points.drop_last(), cutoff)
    }
}

/// The sum of the volumes that are not older than `cutoff`.
pub open spec fn volume_since(points: Seq<VolumePoint>, cutoff: u64) -> nat
    decreases points.len(),
{
    if points.len() == 0 {
        0
    } else if points.last().timestamp >= cutoff {
        volume_since(points.drop_last(), cutoff) + points.last().volume as nat
    } else {
        volume_since(points.drop_last(), cutoff)
    }
}

/// `value`, or the largest `u128` where `value` is larger.
pub open spec fn capped(value: nat) -> u128 {
    if value > u128::MAX {
        u128::MAX
    } else {
        value as u128
    }
}

/// The first price that is not older than `cutoff`, if any.
pub open spec fn first_since(prices: Seq<PricePoint>, cutoff: u64) -> Option<u128>
    decreases prices.len(),
{
    if prices.len() == 0 {
        None
    } else if prices[0].timestamp >= cutoff {
        Some(prices[0].price)
    } else {
        first_since(prices.drop_first(), cutoff)
    }
}

/// The change from `earlier` to `latest` in millionths of `earlier`, rounded
/// towards zero; zero where `earlier` is zero.
pub open spec fn change_ppm(earlier: u128, latest: u128) -> int {
    if earlier == 0 {
        0
    } else if latest >= earlier {
        (latest - earlier) * MILLION / (earlier as int)
    } else {
        -((earlier - latest) * MILLION / (earlier as int))
    }
}

/// The change of the price over the period that begins at `cutoff`: from the
/// first price of the period to the last price of all; zero where the
/// period holds no price.
pub open spec fn price_change(prices: Seq<PricePoint>, cutoff: u64) -> int {
    match first_since(prices, cutoff) {
        Some(earlier) => change_ppm(earlier, prices.last().price),
        None => 0,
    }
}

/// The highest and the lowest price that are not older than `cutoff`, if
/// there is any such price.
pub open spec fn extremes_since(prices: Seq<PricePoint>, cutoff: u64) -> Option<(u128, u128)>
    decreases prices.len(),
{
    if prices.len() == 0 {
        None
    } else if prices.last().timestamp >= cutoff {
        match extremes_since(prices.drop_last(), cutoff) {
            Some((high, low)) => Some(
                (
                    if prices.last().price > high {
                        prices.last().price
                    } else {
                        high
                    },
                    if prices.last().price < low {
                        prices.last().price
                    } else {
                        low
                    },
                ),
            ),
            None => Some((prices.last().price, prices.last().price)),
        }
    } else {
        extremes_since(prices.drop_last(), cutoff)
    }
}

/// What a tracker holds, apart from how it stores it.
pub struct TrackerModel {
    /// The volumes of the last day, oldest first.
    pub volume_points: Seq<VolumePoint>,
    /// How many updates there were.
    pub trades_count: u64,
}

/// Volume tracking utility for enhanced metrics.
#[derive(Clone, Debug)]
pub struct VolumeTracker {
    volume_points: Vec<VolumePoint>,
    trades_count: u64,
}

impl View for VolumeTracker {
    type V = TrackerModel;

    closed spec fn view(&self) -> TrackerModel {
        TrackerModel { volume_points: self.volume_points@, trades_count: self.trades_count }
    }
}

/// The time `period` seconds before `now`, or zero.
fn cutoff(now: u64, period: u64) -> (at: u64)
    ensures
        at == cutoff_of(now, period),
{
    now.saturating_sub(period)
}

impl VolumeTracker {
    /// A tracker that has seen nothing.
    pub fn new() -> (tracker: Self)
        ensures
            tracker@.volume_points.len() == 0,
            tracker@.trades_count == 0,
    {
        Self { volume_points: Vec::new(), trades_count: 0 }
    }

    /// Records `volume` at `timestamp`, counts it, and forgets what is more
    /// than a day older than `timestamp`.
    pub fn update(&mut self, timestamp: u64, volume: u128)
        requires
            old(self)@.trades_count < u64::MAX,
        ensures
            final(self)@.trades_count == old(self)@.trades_count + 1,
            final(self)@.volume_points == kept_since(
                old(self)@.volume_points.push(VolumePoint { timestamp, volume }),
                cutoff_of(timestamp, DAY_SECONDS),
            ),
    {
        self.volume_points.push(VolumePoint { timestamp, volume });
        self.trades_count += 1;
        let oldest = cutoff(timestamp, DAY_SECONDS);
        let mut kept: Vec<VolumePoint> = Vec::new();
        let mut at: usize = 0;
        assert(self.volume_points@.take(0) =~= Seq::<VolumePoint>::empty());
        while at < self.volume_points.len()
            invariant
                at <= self.volume_points@.len(),
                kept@ == kept_since(self.volume_points@.take(at as int), oldest),
            decreases self.volume_points@.len() - at,
        {
            let point = self.volume_points[at];
            assert(self.volume_points@.take(at as int + 1).drop_last()
                =~= self.volume_points@.take(at as int));
            if point.timestamp >= oldest {
                kept.push(point);
            }
            at += 1;
        }
        assert(self.volume_points@.take(at as int) =~= self.volume_points@);
        self.volume_points = kept;
    }

    /// The volume of the `period_secs` seconds before `current_time`, or
    /// the largest number where the sum is larger.
    pub fn get_volume_period(&self, current_time: u64, period_secs: u64) -> (volume: u128)
        ensures
            volume == capped(
                volume_since(self@.volume_points, cutoff_of(current_time, period_secs)),
            ),
    {
        let oldest = cutoff(current_time, period_secs);
        let mut sum: u128 = 0;
        let mut at: usize = 0;
        assert(self.volume_points@.take(0) =~= Seq::<VolumePoint>::empty());
        while at < self.volume_points.len()
            invariant
                at <= self.volume_points@.len(),
                sum == capped(volume_since(self.volume_points@.take(at as int), oldest)),
            decreases self.volume_points@.len() - at,
        {
            let point = self.volume_points[at];
            assert(self.volume_points@.take(at as int + 1).drop_last()
                =~= self.volume_points@.take(at as int));
            if point.timestamp >= oldest {
                sum = sum.saturating_add(point.volume);
            }
            at += 1;
        }
        assert(self.volume_points@.take(at as int) =~= self.volume_points@);
        sum
    }

    /// The volume of everything that is remembered.
    pub fn get_volume_24h(&self) -> (volume: u128)
        ensures
            volume == capped(volume_since(self@.volume_points, 0)),
    {
        self.get_volume_period(0, 0)
    }

    /// The volume of the `period_secs` seconds before the time that the
    /// clock shows (zero where it stands before the Unix epoch).
    pub fn get_volume_lately(&self, period_secs: u64) -> (volume: u128)
        ensures
            exists|now: u64|
                volume == capped(
                    #[trigger] volume_since(self@.volume_points, cutoff_of(now, period_secs)),
                ),
    {
        let now = match unix_time() {
            Some(seconds) => seconds,
            None => 0,
        };
        self.get_volume_period(now, period_secs)
    }

    /// The volume of the last hour.
    pub fn get_volume_1h(&self) -> (volume: u128)
        ensures
            exists|now: u64|
                volume == capped(#[trigger] volume_since(self@.volume_points, cutoff_of(now, 3600))),
    {
        self.get_volume_lately(3600)
    }

    /// The volume of the last five minutes.
    pub fn get_volume_5m(&self) -> (volume: u128)
        ensures
            exists|now: u64|
                volume == capped(#[trigger] volume_since(self@.volume_points, cutoff_of(now, 300))),
    {
        self.get_volume_lately(300)
    }

    /// The volume of the last minute.
    pub fn get_volume_1m(&self) -> (volume: u128)
        ensures
            exists|now: u64|
                volume == capped(#[trigger] volume_since(self@.volume_points, cutoff_of(now, 60))),
    {
        self.get_volume_lately(60)
    }

    /// The volume of the last ten seconds.
    pub fn get_volume_10s(&self) -> (volume: u128)
        ensures
            exists|now: u64|
                volume == capped(#[trigger] volume_since(self@.volume_points, cutoff_of(now, 10))),
    {
        self.get_volume_lately(10)
    }

    /// The volume of the last five seconds.
    pub fn get_volume_5s(&self) -> (volume: u128)
        ensures
            exists|now: u64|
                volume == capped(#[trigger] volume_since(self@.volume_points, cutoff_of(now, 5))),
    {
        self.get_volume_lately(5)
    }

    /// How many updates there were.
    pub fn get_trades_count(&self) -> (count: u64)
        ensures
            count == self@.trades_count,
    {
        self.trades_count
    }
}

/// The change from `earlier` to `latest` in millionths of `earlier`.
pub fn change_between(earlier: u128, latest: u128) -> (change: i128)
    requires
        earlier <= MAX_PRICE,
        latest <= MAX_PRICE,
    ensures
        change == change_ppm(earlier, latest),
{
    if earlier == 0 {
        return 0;
    }
    let gap: u128 = if latest >= earlier {
        latest - earlier
    } else {
        earlier - latest
    };
    assert(gap * MILLION <= MAX_PRICE * MILLION) by (nonlinear_arith)
        requires
            gap <= MAX_PRICE,
    ;
    let scaled: u128 = gap * (MILLION as u128);
    let size: u128 = scaled / earlier;
    assert(size <= scaled) by (nonlinear_arith)
        requires
            size == scaled / earlier,
            earlier > 0,
    ;
    if latest >= earlier {
        size as i128
    } else {
        -(size as i128)
    }
}

/// Calculate price change over a time period, in millionths: from the first
/// price of the period to the last price of all.
pub fn calculate_price_change(price_history: &[PricePoint], current_time: u64, period_secs: u64) -> (change:
    i128)
    requires
        forall|i: int|
            0 <= i < price_history@.len() ==> (#[trigger] price_history@[i]).price <= MAX_PRICE,
    ensures
        change == price_change(price_history@, cutoff_of(current_time, period_secs)),
{
    let oldest = cutoff(current_time, period_secs);
    let total = price_history.len();
    let mut at: usize = 0;
    assert(price_history@.skip(0) =~= price_history@);
    while at < total
        invariant
            at <= total,
            total == price_history@.len(),
            oldest == cutoff_of(current_time, period_secs),
            first_since(price_history@, oldest) == first_since(
                price_history@.skip(at as int),
                oldest,
            ),
            forall|i: int|
                0 <= i < price_history@.len() ==> (#[trigger] price_history@[i]).price
                    <= MAX_PRICE,
        decreases total - at,
    {
        let ghost rest = price_history@.skip(at as int);
        assert(rest[0] == price_history@[at as int]);
        assert(rest.drop_first() =~= price_history@.skip(at as int + 1));
        if price_history[at].timestamp >= oldest {
            return change_between(price_history[at].price, price_history[total - 1].price);
        }
        at += 1;
    }
    0
}

/// Calculate high and low prices over a time period; both zero where the
/// period holds no price.
pub fn calculate_high_low(price_history: &[PricePoint], current_time: u64, period_secs: u64) -> (found:
    (u128, u128))
    ensures
        found == (match extremes_since(price_history@, cutoff_of(current_time, period_secs)) {
            Some(extremes) => extremes,
            None => (0u128, 0u128),
        }),
{
    let oldest = cutoff(current_time, period_secs);
    let mut extremes: Option<(u128, u128)> = None;
    let mut at: usize = 0;
    assert(price_history@.take(0) =~= Seq::<PricePoint>::empty());
    while at < price_history.len()
        invariant
            at <= price_history@.len(),
            extremes == extremes_since(price_history@.take(at as int), oldest),
        decreases price_history@.len() - at,
    {
        let point = price_history[at];
        assert(price_history@.take(at as int + 1).drop_last() =~= price_history@.take(at as int));
        if point.timestamp >= oldest {
            extremes = match extremes {
                Some((high, low)) => Some(
                    (
                        if point.price > high {
                            point.price
                        } else {
                            high
                        },
                        if point.price < low {
                            point.price
                        } else {
                            low
                        },
                    ),
                ),
                None => Some((point.price, point.price)),
            };
        }
        at += 1;
    }
    assert(price_history@.take(at as int) =~= price_history@);
    match extremes {
        Some(found) => found,
        None => (0, 0),
    }
}

} // verus!
