//! The trading agent of a wallet: a fixed set of traits drawn once, a memory
//! of the last three prices, and a priority list that picks one action per
//! tick.

use vstd::prelude::*;
use crate::random::thread_random_range;
use crate::random::thread_random_ratio;

verus! {

/// Parts in a whole, for fractions and thresholds.
pub const MILLION: u64 = 1_000_000;

/// How many prices an agent remembers.
pub const PRICE_MEMORY: usize = 3;

/// The largest price that a pool can quote: the largest reserve against a
/// reserve of one smallest unit.
pub const MAX_PRICE: u128 = 0xffff_ffff_ffff_ffff * 1_000_000_000;

/// Lower end of the range of the fomo and panic thresholds, in millionths.
pub const THRESHOLD_LOW: u32 = 5_000;

/// Upper end (exclusive) of the range of the thresholds, in millionths.
pub const THRESHOLD_HIGH: u32 = 30_000;

/// Lower end of the share of a balance that a mega-whale commits.
pub const MEGA_SHARE_LOW: u32 = 950_000;

/// Lower end of the share that a fomo buy, a panic sale or a whale commits.
pub const STRONG_SHARE_LOW: u32 = 900_000;

/// Lower end of the share of an ordinary trade.
pub const PLAIN_SHARE_LOW: u32 = 700_000;

/// What an agent decides to do in one tick.
#[derive(Clone, Copy, Debug, PartialEq, Eq, Structural)]
pub enum TradeAction {
    /// Buy the base currency with the quote currency.
    Buy,
    /// Sell the base currency for the quote currency.
    Sell,
    /// Do nothing.
    Hold,
}

/// The direction in which an agent leans, fixed at its creation.
#[derive(Clone, Copy, Debug, PartialEq, Eq, Structural)]
pub enum Bias {
    /// Pushes the price down.
    Bearish,
    /// No lean.
    Neutral,
    /// Pushes the price up.
    Bullish,
}

/// The random values of one tick. Each is used by at most one branch of the
/// priority list.
#[derive(Clone, Copy, Debug)]
pub struct TickDraws {
    /// Whether the agent takes part in this tick at all.
    pub trade: bool,
    /// Whether a mega-whale acts on its bias.
    pub mega_acts: bool,
    /// Whether a rising price is followed.
    pub fomo_acts: bool,
    /// Whether a falling price is fled.
    pub panic_acts: bool,
    /// Whether a whale acts.
    pub whale_acts: bool,
    /// Whether an acting whale tries to buy first.
    pub whale_buys: bool,
    /// Whether an ordinary trade tries to buy first.
    pub plain_buys: bool,
    /// Share of the balance for a mega-whale's trade, in millionths.
    pub mega_share: u32,
    /// Share for a fomo buy, a panic sale or a whale's trade, in millionths.
    pub strong_share: u32,
    /// Share for an ordinary trade, in millionths.
    pub plain_share: u32,
}

impl TickDraws {
    /// Every share is at most the whole.
    pub open spec fn wf(self) -> bool {
        &&& self.mega_share <= MILLION
        &&& self.strong_share <= MILLION
        &&& self.plain_share <= MILLION
    }
}

/// The bias that the two draws at an agent's creation give.
pub open spec fn bias_of(leans: bool, bullish: bool) -> Bias {
    if !leans {
        Bias::Neutral
    } else if bullish {
        Bias::Bullish
    } else {
        Bias::Bearish
    }
}

/// `share` millionths of `balance`, rounded down.
pub open spec fn portion(balance: nat, share: nat) -> nat {
    balance * share / (MILLION as nat)
}

/// Whether the price rose from `previous` to `current` by more than
/// `threshold` millionths of `previous`.
pub open spec fn rose_beyond(current: nat, previous: nat, threshold: nat) -> bool {
    current > previous && (current - previous) * MILLION > threshold * previous
}

/// Whether the price fell from `previous` to `current` by more than
/// `threshold` millionths of `previous`.
pub open spec fn fell_beyond(current: nat, previous: nat, threshold: nat) -> bool {
    current < previous && (previous - current) * MILLION > threshold * previous
}

/// The memory after `price` was observed: `price` comes last, and the oldest
/// entry leaves once there are more than three.
pub open spec fn remember(history: Seq<u128>, price: u128) -> Seq<u128> {
    if history.len() >= PRICE_MEMORY {
        history.push(price).subrange(1, history.len() as int + 1)
    } else {
        history.push(price)
    }
}

/// What an agent is, apart from how it stores it.
pub struct AgentModel {
    /// The last prices observed, oldest first.
    pub price_history: Seq<u128>,
    /// When the agent last traded.
    pub last_trade_time: u64,
    /// Whether the agent is a whale.
    pub whale_mode: bool,
    /// Whether the agent is a mega-whale.
    pub mega_whale_mode: bool,
    /// Rise of the price, in millionths, beyond which the agent buys.
    pub fomo_threshold: u32,
    /// Fall of the price, in millionths, beyond which the agent sells.
    pub panic_threshold: u32,
    /// The direction in which the agent leans.
    pub manipulation_intent: Bias,
}

impl AgentModel {
    /// The price before the latest one, or the latest where there is no other.
    pub open spec fn previous_price(self) -> u128
        recommends
            self.price_history.len() >= 1,
    {
        if self.price_history.len() > 1 {
            self.price_history[self.price_history.len() - 2]
        } else {
            self.price_history.last()
        }
    }

    /// The action and amount that the priority list gives, for an agent whose
    /// memory already ends with the current price. Exactly one branch fires.
    pub open spec fn pick(self, zux: u64, usdz: u64, draws: TickDraws) -> (TradeAction, u64)
        recommends
            self.price_history.len() >= 1,
    {
        let current = self.price_history.last() as nat;
        let previous = self.previous_price() as nat;
        if !draws.trade {
            (TradeAction::Hold, 0)
        } else if self.mega_whale_mode && draws.mega_acts && self.manipulation_intent
            == Bias::Bullish && usdz > 0 {
            (TradeAction::Buy, portion(usdz as nat, draws.mega_share as nat) as u64)
        } else if self.mega_whale_mode && draws.mega_acts && self.manipulation_intent
            == Bias::Bearish && zux > 0 {
            (TradeAction::Sell, portion(zux as nat, draws.mega_share as nat) as u64)
        } else if rose_beyond(current, previous, self.fomo_threshold as nat) && draws.fomo_acts
            && usdz > 0 {
            (TradeAction::Buy, portion(usdz as nat, draws.strong_share as nat) as u64)
        } else if fell_beyond(current, previous, self.panic_threshold as nat) && draws.panic_acts
            && zux > 0 {
            (TradeAction::Sell, portion(zux as nat, draws.strong_share as nat) as u64)
        } else if self.whale_mode && draws.whale_acts && draws.whale_buys && usdz > 0 {
            (TradeAction::Buy, portion(usdz as nat, draws.strong_share as nat) as u64)
        } else if self.whale_mode && draws.whale_acts && zux > 0 {
            (TradeAction::Sell, portion(zux as nat, draws.strong_share as nat) as u64)
        } else if draws.plain_buys && usdz > 0 {
            (TradeAction::Buy, portion(usdz as nat, draws.plain_share as nat) as u64)
        } else if zux > 0 {
            (TradeAction::Sell, portion(zux as nat, draws.plain_share as nat) as u64)
        } else {
            (TradeAction::Hold, 0)
        }
    }

    /// Whether this is an agent as it is first made at `price`: it has seen
    /// `price` only, has never traded, and has both thresholds in their
    /// range.
    pub open spec fn is_new(self, price: u128) -> bool {
        &&& self.price_history == seq![price]
        &&& self.last_trade_time == 0
        &&& THRESHOLD_LOW <= self.fomo_threshold < THRESHOLD_HIGH
        &&& THRESHOLD_LOW <= self.panic_threshold < THRESHOLD_HIGH
    }

    /// The agent after it observed `price`.
    pub open spec fn observe(self, price: u128) -> AgentModel {
        AgentModel { price_history: remember(self.price_history, price), ..self }
    }
}

/// An agent without traits before a flat price trades exactly where it takes
/// part and has what the side that was drawn needs: it buys where buying
/// was drawn and it has quote currency, else it sells where it has base
/// currency, else it holds.
pub proof fn lemma_plain_agent(agent: AgentModel, zux: u64, usdz: u64, draws: TickDraws)
    requires
        agent.price_history.len() >= 1,
        !agent.whale_mode,
        !agent.mega_whale_mode,
        agent.price_history.last() == agent.previous_price(),
    ensures
        agent.pick(zux, usdz, draws).0 == (if !draws.trade {
            TradeAction::Hold
        } else if draws.plain_buys && usdz > 0 {
            TradeAction::Buy
        } else if zux > 0 {
            TradeAction::Sell
        } else {
            TradeAction::Hold
        }),
{
}

/// The decision policy of one wallet.
#[derive(Clone, Debug)]
pub struct TradingStrategy {
    price_history: Vec<u128>,
    last_trade_time: u64,
    whale_mode: bool,
    mega_whale_mode: bool,
    fomo_threshold: u32,
    panic_threshold: u32,
    manipulation_intent: Bias,
}

impl View for TradingStrategy {
    type V = AgentModel;

    closed spec fn view(&self) -> AgentModel {
        AgentModel {
            price_history: self.price_history@,
            last_trade_time: self.last_trade_time,
            whale_mode: self.whale_mode,
            mega_whale_mode: self.mega_whale_mode,
            fomo_threshold: self.fomo_threshold,
            panic_threshold: self.panic_threshold,
            manipulation_intent: self.manipulation_intent,
        }
    }
}

/// `share` millionths of `balance`, rounded down.
pub fn portion_of(balance: u64, share: u32) -> (part: u64)
    requires
        share <= MILLION,
    ensures
        part == portion(balance as nat, share as nat),
        part <= balance,
{
    assert(balance as nat * share as nat <= balance as nat * 1_000_000) by (nonlinear_arith)
        requires
            share <= 1_000_000,
    ;
    let product: u128 = balance as u128 * share as u128;
    let part: u128 = product / (MILLION as u128);
    assert(MILLION == 1_000_000);
    assert(part <= balance) by (nonlinear_arith)
        requires
            product <= balance * 1_000_000,
            part == product / 1_000_000,
    ;
    part as u64
}

/// Tells whether the price rose by more than `threshold` millionths.
pub fn has_risen(current: u128, previous: u128, threshold: u32) -> (r: bool)
    requires
        current <= MAX_PRICE,
        previous <= MAX_PRICE,
    ensures
        r == rose_beyond(current as nat, previous as nat, threshold as nat),
{
    if current <= previous {
        return false;
    }
    let gain: u128 = current - previous;
    assert(gain * MILLION <= MAX_PRICE * MILLION) by (nonlinear_arith)
        requires
            gain <= MAX_PRICE,
    ;
    assert(threshold as u128 * previous <= 0xffff_ffff * MAX_PRICE) by (nonlinear_arith)
        requires
            threshold <= 0xffff_ffff,
            previous <= MAX_PRICE,
    ;
    gain * (MILLION as u128) > threshold as u128 * previous
}

/// Tells whether the price fell by more than `threshold` millionths.
pub fn has_fallen(current: u128, previous: u128, threshold: u32) -> (r: bool)
    requires
        current <= MAX_PRICE,
        previous <= MAX_PRICE,
    ensures
        r == fell_beyond(current as nat, previous as nat, threshold as nat),
{
    if current >= previous {
        return false;
    }
    let loss: u128 = previous - current;
    assert(loss * MILLION <= MAX_PRICE * MILLION) by (nonlinear_arith)
        requires
            loss <= MAX_PRICE,
    ;
    assert(threshold as u128 * previous <= 0xffff_ffff * MAX_PRICE) by (nonlinear_arith)
        requires
            threshold <= 0xffff_ffff,
            previous <= MAX_PRICE,
    ;
    loss * (MILLION as u128) > threshold as u128 * previous
}

impl TradingStrategy {
    /// The memory holds between one and three prices, each one that a pool
    /// can quote.
    pub open spec fn wf(&self) -> bool {
        &&& 1 <= self@.price_history.len() <= PRICE_MEMORY
        &&& forall|i: int|
            0 <= i < self@.price_history.len() ==> #[trigger] self@.price_history[i] <= MAX_PRICE
    }

    /// An agent with the given traits that has seen `initial_price` only and
    /// has never traded.
    pub fn with_traits(
        initial_price: u128,
        whale_mode: bool,
        mega_whale_mode: bool,
        fomo_threshold: u32,
        panic_threshold: u32,
        manipulation_intent: Bias,
    ) -> (agent: Self)
        requires
            initial_price <= MAX_PRICE,
        ensures
            agent.wf(),
            agent@ == (AgentModel {
                price_history: seq![initial_price],
                last_trade_time: 0,
                whale_mode,
                mega_whale_mode,
                fomo_threshold,
                panic_threshold,
                manipulation_intent,
            }),
    {
        let mut price_history: Vec<u128> = Vec::new();
        price_history.push(initial_price);
        assert(price_history@ =~= seq![initial_price]);
        TradingStrategy {
            price_history,
            last_trade_time: 0,
            whale_mode,
            mega_whale_mode,
            fomo_threshold,
            panic_threshold,
            manipulation_intent,
        }
    }

    /// The bias that the two draws at an agent's creation give.
    pub fn bias_from_draws(leans: bool, bullish: bool) -> (bias: Bias)
        ensures
            bias == bias_of(leans, bullish),
    {
        if !leans {
            Bias::Neutral
        } else if bullish {
            Bias::Bullish
        } else {
            Bias::Bearish
        }
    }

    /// An agent with traits drawn at random: a whale with a chance of one in
    /// ten, a mega-whale with one in a hundred, a lean with three in ten
    /// (either way alike), and both thresholds from the fixed range.
    pub fn new(initial_price: u128) -> (agent: Self)
        requires
            initial_price <= MAX_PRICE,
        ensures
            agent.wf(),
            agent@.price_history == seq![initial_price],
            agent@.last_trade_time == 0,
            THRESHOLD_LOW <= agent@.fomo_threshold < THRESHOLD_HIGH,
            THRESHOLD_LOW <= agent@.panic_threshold < THRESHOLD_HIGH,
    {
        let whale_mode = thread_random_ratio(10, 100);
        let mega_whale_mode = thread_random_ratio(1, 100);
        let fomo_threshold = thread_random_range(THRESHOLD_LOW, THRESHOLD_HIGH);
        let panic_threshold = thread_random_range(THRESHOLD_LOW, THRESHOLD_HIGH);
        let leans = thread_random_ratio(30, 100);
        let bullish = thread_random_ratio(50, 100);
        Self::with_traits(
            initial_price,
            whale_mode,
            mega_whale_mode,
            fomo_threshold,
            panic_threshold,
            Self::bias_from_draws(leans, bullish),
        )
    }

    /// Records `current_price` as the latest observation; of more than three
    /// the oldest is dropped.
    pub fn update_price_history(&mut self, current_price: u128)
        requires
            old(self).wf(),
            current_price <= MAX_PRICE,
        ensures
            final(self).wf(),
            final(self)@ == old(self)@.observe(current_price),
    {
        self.price_history.push(current_price);
        if self.price_history.len() > PRICE_MEMORY {
            self.price_history.remove(0);
        }
        assert(self.price_history@ =~= remember(old(self).price_history@, current_price));
    }

    /// One tick with the random values given: observes the price, then walks
    /// the priority list.
    pub fn decide_with(
        &mut self,
        current_price: u128,
        wallet_zux: u64,
        wallet_usdz: u64,
        draws: &TickDraws,
    ) -> (decision: (TradeAction, u64))
        requires
            old(self).wf(),
            current_price <= MAX_PRICE,
            draws.wf(),
        ensures
            final(self).wf(),
            final(self)@ == old(self)@.observe(current_price),
            decision == final(self)@.pick(wallet_zux, wallet_usdz, *draws),
            decision.0 == TradeAction::Buy ==> decision.1 <= wallet_usdz,
            decision.0 == TradeAction::Sell ==> decision.1 <= wallet_zux,
            decision.0 == TradeAction::Hold ==> decision.1 == 0,
    {
        self.update_price_history(current_price);
        if !draws.trade {
            return (TradeAction::Hold, 0);
        }
        let count = self.price_history.len();
        let previous_price = if count > 1 {
            self.price_history[count - 2]
        } else {
            current_price
        };
        assert(previous_price == self@.previous_price());
        assert(current_price == self@.price_history.last());
        if self.mega_whale_mode && draws.mega_acts {
            match self.manipulation_intent {
                Bias::Bullish => {
                    if wallet_usdz > 0 {
                        return (TradeAction::Buy, portion_of(wallet_usdz, draws.mega_share));
                    }
                },
                Bias::Bearish => {
                    if wallet_zux > 0 {
                        return (TradeAction::Sell, portion_of(wallet_zux, draws.mega_share));
                    }
                },
                Bias::Neutral => {},
            }
        }
        if has_risen(current_price, previous_price, self.fomo_threshold) {
            if draws.fomo_acts && wallet_usdz > 0 {
                return (TradeAction::Buy, portion_of(wallet_usdz, draws.strong_share));
            }
        }
        if has_fallen(current_price, previous_price, self.panic_threshold) {
            if draws.panic_acts && wallet_zux > 0 {
                return (TradeAction::Sell, portion_of(wallet_zux, draws.strong_share));
            }
        }
        if self.whale_mode && draws.whale_acts {
            if draws.whale_buys && wallet_usdz > 0 {
                return (TradeAction::Buy, portion_of(wallet_usdz, draws.strong_share));
            } else if wallet_zux > 0 {
                return (TradeAction::Sell, portion_of(wallet_zux, draws.strong_share));
            }
        }
        if draws.plain_buys && wallet_usdz > 0 {
            (TradeAction::Buy, portion_of(wallet_usdz, draws.plain_share))
        } else if wallet_zux > 0 {
            (TradeAction::Sell, portion_of(wallet_zux, draws.plain_share))
        } else {
            (TradeAction::Hold, 0)
        }
    }

    /// The random values of one tick: takes part with 99 in 100, a mega-whale
    /// acts with 80 in 100, fomo and panic with 90 in 100 each, a whale with
    /// 50 in 100; either side is tried first alike.
    pub fn draw_tick() -> (draws: TickDraws)
        ensures
            draws.wf(),
            MEGA_SHARE_LOW <= draws.mega_share < MILLION,
            STRONG_SHARE_LOW <= draws.strong_share < MILLION,
            PLAIN_SHARE_LOW <= draws.plain_share < MILLION,
    {
        TickDraws {
            trade: thread_random_ratio(99, 100),
            mega_acts: thread_random_ratio(80, 100),
            fomo_acts: thread_random_ratio(90, 100),
            panic_acts: thread_random_ratio(90, 100),
            whale_acts: thread_random_ratio(50, 100),
            whale_buys: thread_random_ratio(50, 100),
            plain_buys: thread_random_ratio(50, 100),
            mega_share: thread_random_range(MEGA_SHARE_LOW, MILLION as u32),
            strong_share: thread_random_range(STRONG_SHARE_LOW, MILLION as u32),
            plain_share: thread_random_range(PLAIN_SHARE_LOW, MILLION as u32),
        }
    }

    /// One tick: draws the random values, observes the price and walks the
    /// priority list. `current_time` is not consulted.
    pub fn decide_action(
        &mut self,
        current_price: u128,
        current_time: u64,
        wallet_zux: u64,
        wallet_usdz: u64,
    ) -> (decision: (TradeAction, u64))
        requires
            old(self).wf(),
            current_price <= MAX_PRICE,
        ensures
            final(self).wf(),
            final(self)@ == old(self)@.observe(current_price),
            exists|draws: TickDraws|
                draws.wf() && decision == #[trigger] final(self)@.pick(
                    wallet_zux,
                    wallet_usdz,
                    draws,
                ),
            decision.0 == TradeAction::Buy ==> 0 < wallet_usdz && decision.1 <= wallet_usdz,
            decision.0 == TradeAction::Sell ==> 0 < wallet_zux && decision.1 <= wallet_zux,
            decision.0 == TradeAction::Hold ==> decision.1 == 0,
    {
        let draws = Self::draw_tick();
        self.decide_with(current_price, wallet_zux, wallet_usdz, &draws)
    }

    /// Records the time of a trade.
    pub fn mark_traded(&mut self, time: u64)
        ensures
            final(self)@ == (AgentModel { last_trade_time: time, ..old(self)@ }),
            final(self).wf() == old(self).wf(),
    {
        self.last_trade_time = time;
    }

    /// Whether the agent is a whale.
    pub fn is_whale(&self) -> (r: bool)
        ensures
            r == self@.whale_mode,
    {
        self.whale_mode
    }

    /// Whether the agent is a mega-whale.
    pub fn is_mega_whale(&self) -> (r: bool)
        ensures
            r == self@.mega_whale_mode,
    {
        self.mega_whale_mode
    }

    /// When the agent last traded.
    pub fn last_trade_time(&self) -> (r: u64)
        ensures
            r == self@.last_trade_time,
    {
        self.last_trade_time
    }

    /// How many prices the agent remembers at present.
    pub fn memory_len(&self) -> (r: usize)
        ensures
            r == self@.price_history.len(),
    {
        self.price_history.len()
    }
}

} // verus!
