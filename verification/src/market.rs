//! Swaps between wallets and the pool: one exchange, one attempt of an
//! agent, and the bounded search for a wallet that trades. The supply of
//! every currency is the same before and after each of them.

use vstd::prelude::*;
use vstd::string::*;
use crate::agent::portion;
use crate::agent::portion_of;
use crate::agent::AgentModel;
use crate::agent::TickDraws;
use crate::agent::TradeAction;
use crate::agent::TradingStrategy;
use crate::agent::MEGA_SHARE_LOW;
use crate::agent::MILLION;
use crate::agent::PLAIN_SHARE_LOW;
use crate::agent::STRONG_SHARE_LOW;
use crate::amm::AmmPool;
use crate::amm::PoolModel;
use crate::amm::MIN_OUTPUT;
use crate::clock::unix_time;
use crate::error::BlockchainError;
use crate::error::SignatureFault;
use crate::error::ValidationFault;
use crate::random::os_random_range;
use crate::random::os_random_ratio;
use crate::signing::KEY_LEN;
use crate::text::same_text;
use crate::text::UNITS_PER_COIN;
use crate::transaction::create_swap_transaction_at;
use crate::transaction::create_transaction_at;
use crate::transaction::input_currency;
use crate::transaction::output_currency;
use crate::transaction::transfer_fault;
use crate::transaction::transfer_made;
use crate::transaction::Transaction;
use crate::transaction::AMM_POOL_ADDRESS;
use crate::wallet::amount_in;
use crate::wallet::lemma_currencies_differ;
use crate::wallet::Wallet;
use crate::wallet::SYSTEM_WALLET_ADDRESS;
use crate::wallet::USDZ;
use crate::wallet::ZUX;

verus! {

/// The smallest balance and the smallest amount that an agent trades: a
/// millionth of a whole unit.
pub const DUST: u64 = 1_000;

/// How many wallets `create_intelligent_swap` tries before it gives up.
pub const MAX_SWAP_ATTEMPTS: u64 = 64;

/// The largest amount that a random swap pays in: a hundred whole units.
pub const RANDOM_SWAP_CAP: u64 = 100 * UNITS_PER_COIN;

/// Lower end of the share of a balance that a holding agent still trades.
pub const HOLD_SHARE_LOW: u32 = 100_000;

/// Upper end (exclusive) of that share.
pub const HOLD_SHARE_HIGH: u32 = 300_000;

/// What the pool holds of `currency`.
pub open spec fn reserve_of(pool: PoolModel, currency: Seq<char>) -> u64 {
    if currency == ZUX@ {
        pool.zux_reserve
    } else if currency == USDZ@ {
        pool.usd_reserve
    } else {
        0
    }
}

/// What the wallets hold of `currency`, all together.
pub open spec fn held_by(wallets: Seq<Wallet>, currency: Seq<char>) -> nat
    decreases wallets.len(),
{
    if wallets.len() == 0 {
        0
    } else {
        held_by(wallets.drop_last(), currency) + wallets.last().balance_of(currency) as nat
    }
}

/// Everything that exists of `currency`: what the wallets hold and what the
/// pool holds.
pub open spec fn supply(wallets: Seq<Wallet>, pool: PoolModel, currency: Seq<char>) -> nat {
    held_by(wallets, currency) + reserve_of(pool, currency) as nat
}

/// Whether the wallet and the pool together hold no more of either currency
/// than a balance can count.
pub open spec fn countable(wallet: &Wallet, pool: PoolModel) -> bool {
    &&& wallet.balance_of(ZUX@) + pool.zux_reserve <= u64::MAX
    &&& wallet.balance_of(USDZ@) + pool.usd_reserve <= u64::MAX
}

/// The first reason, if any, for which the wallet cannot swap `input` with
/// the pool: balance, amount, size of the output, signing key.
pub open spec fn exchange_fault(
    wallet: &Wallet,
    pool: PoolModel,
    is_zux_to_usd: bool,
    input: u64,
) -> Option<BlockchainError> {
    let available = wallet.balance_of(input_currency(is_zux_to_usd));
    if available < input {
        Some(BlockchainError::Balance { available, requested: input })
    } else if pool.swap_fault(input, is_zux_to_usd) is Some {
        pool.swap_fault(input, is_zux_to_usd)
    } else if wallet.private_key@.len() != KEY_LEN {
        Some(BlockchainError::Signature(SignatureFault::MalformedKey))
    } else {
        None
    }
}

/// The balances after `input` was paid in one currency and `output`
/// received in the other.
pub open spec fn exchanged(
    balances: Map<Seq<char>, u64>,
    is_zux_to_usd: bool,
    input: u64,
    output: u64,
) -> Map<Seq<char>, u64> {
    balances.insert(
        input_currency(is_zux_to_usd),
        (amount_in(balances, input_currency(is_zux_to_usd)) - input) as u64,
    ).insert(
        output_currency(is_zux_to_usd),
        (amount_in(balances, output_currency(is_zux_to_usd)) + output) as u64,
    )
}

/// A direction and an amount, unless the amount is dust.
pub open spec fn sized(is_zux_to_usd: bool, input: u64) -> Option<(bool, u64)> {
    if input < DUST {
        None
    } else {
        Some((is_zux_to_usd, input))
    }
}

/// The swap that follows from an agent's decision: a purchase pays in the
/// quote currency and a sale in the base currency, each capped by the
/// balance; an agent that holds still trades a small share on the side that
/// was drawn. A balance or an amount of dust gives no swap.
pub open spec fn trade_plan(
    decision: (TradeAction, u64),
    zux: u64,
    usdz: u64,
    hold_sells: bool,
    hold_share: u32,
) -> Option<(bool, u64)> {
    match decision.0 {
        TradeAction::Buy => if usdz < DUST {
            None
        } else if decision.1 < usdz {
            sized(false, decision.1)
        } else {
            sized(false, usdz)
        },
        TradeAction::Sell => if zux < DUST {
            None
        } else if decision.1 < zux {
            sized(true, decision.1)
        } else {
            sized(true, zux)
        },
        TradeAction::Hold => if hold_sells {
            if zux < DUST {
                None
            } else {
                sized(true, portion(zux as nat, hold_share as nat) as u64)
            }
        } else {
            if usdz < DUST {
                None
            } else {
                sized(false, portion(usdz as nat, hold_share as nat) as u64)
            }
        },
    }
}

/// The random values of one attempt.
#[derive(Clone, Copy, Debug)]
pub struct SwapDraws {
    /// The values for the agent's tick.
    pub tick: TickDraws,
    /// Whether an agent that holds sells (else it buys).
    pub hold_sells: bool,
    /// Share of the balance that an agent that holds trades, in millionths.
    pub hold_share: u32,
}

impl SwapDraws {
    /// Every share is at most the whole.
    pub open spec fn wf(self) -> bool {
        self.tick.wf() && self.hold_share <= MILLION
    }
}

/// What one wallet holds is part of what all hold.
pub proof fn lemma_balance_within_held(wallets: Seq<Wallet>, index: int, currency: Seq<char>)
    requires
        0 <= index < wallets.len(),
    ensures
        wallets[index].balance_of(currency) <= held_by(wallets, currency),
    decreases wallets.len(),
{
    if index < wallets.len() - 1 {
        lemma_balance_within_held(wallets.drop_last(), index, currency);
    }
}

/// Where one wallet changes, the holdings change by what that wallet's
/// balance changes.
pub proof fn lemma_held_by_update(
    wallets: Seq<Wallet>,
    index: int,
    changed: Wallet,
    currency: Seq<char>,
)
    requires
        0 <= index < wallets.len(),
    ensures
        held_by(wallets.update(index, changed), currency) + wallets[index].balance_of(currency)
            == held_by(wallets, currency) + changed.balance_of(currency),
    decreases wallets.len(),
{
    let after = wallets.update(index, changed);
    if index == wallets.len() - 1 {
        assert(after.drop_last() =~= wallets.drop_last());
    } else {
        lemma_held_by_update(wallets.drop_last(), index, changed, currency);
        assert(after.drop_last() =~= wallets.drop_last().update(index, changed));
    }
}

/// Wallets with the same balances hold the same.
pub proof fn lemma_held_by_same(before: Seq<Wallet>, after: Seq<Wallet>, currency: Seq<char>)
    requires
        before.len() == after.len(),
        forall|i: int|
            0 <= i < before.len() ==> #[trigger] after[i].balance_of(currency)
                == before[i].balance_of(currency),
    ensures
        held_by(after, currency) == held_by(before, currency),
    decreases before.len(),
{
    if before.len() > 0 {
        lemma_held_by_same(before.drop_last(), after.drop_last(), currency);
    }
}

/// Conservation: where one wallet and the pool change so that the two
/// together hold of a currency what they held before, the supply of that
/// currency is what it was.
pub proof fn lemma_exchange_conserves_supply(
    wallets: Seq<Wallet>,
    pool: PoolModel,
    index: int,
    changed: Wallet,
    after: PoolModel,
    currency: Seq<char>,
)
    requires
        0 <= index < wallets.len(),
        changed.balance_of(currency) + reserve_of(after, currency) == wallets[index].balance_of(
            currency,
        ) + reserve_of(pool, currency),
    ensures
        supply(wallets.update(index, changed), after, currency) == supply(wallets, pool, currency),
{
    lemma_held_by_update(wallets, index, changed, currency);
}

/// Executes a swap between a wallet and the pool at `now`: the wallet pays
/// `input_amount` in one currency and receives in the other what the pool
/// quotes. A swap that fails changes nothing.
pub fn execute_swap_at(
    wallet: &mut Wallet,
    amm_pool: &mut AmmPool,
    is_zux_to_usd: bool,
    input_amount: u64,
    now: u64,
) -> (made: Result<(u64, Transaction), BlockchainError>)
    requires
        old(amm_pool).wf(),
        countable(old(wallet), old(amm_pool)@),
    ensures
        final(amm_pool).wf(),
        final(wallet).same_owner(old(wallet)),
        made is Ok <==> exchange_fault(old(wallet), old(amm_pool)@, is_zux_to_usd, input_amount)
            is None,
        made matches Ok((output, tx)) ==> {
            &&& output == old(amm_pool)@.quote(input_amount, is_zux_to_usd)
            &&& output >= MIN_OUTPUT
            &&& final(amm_pool)@ == old(amm_pool)@.swapped(input_amount, is_zux_to_usd, now)
            &&& final(wallet).balances@ == exchanged(
                old(wallet).balances@,
                is_zux_to_usd,
                input_amount,
                output,
            )
            &&& tx@ == transfer_made(
                old(wallet),
                AMM_POOL_ADDRESS@,
                input_amount,
                input_currency(is_zux_to_usd),
                now,
            )
            &&& old(wallet).keys_match() ==> tx@.fault() is None
        },
        made matches Err(e) ==> {
            &&& exchange_fault(old(wallet), old(amm_pool)@, is_zux_to_usd, input_amount) == Some(e)
            &&& final(amm_pool)@ == old(amm_pool)@
            &&& final(wallet).balances@ == old(wallet).balances@
        },
        forall|currency: Seq<char>|
            final(wallet).balance_of(currency) + #[trigger] reserve_of(final(amm_pool)@, currency)
                == old(wallet).balance_of(currency) + reserve_of(old(amm_pool)@, currency),
        countable(final(wallet), final(amm_pool)@),
{
    proof {
        lemma_currencies_differ();
    }
    let (paid_in, paid_out) = if is_zux_to_usd {
        (ZUX, USDZ)
    } else {
        (USDZ, ZUX)
    };
    let wallet_balance = wallet.get_balance(paid_in);
    if wallet_balance < input_amount {
        return Err(
            BlockchainError::Balance { available: wallet_balance, requested: input_amount },
        );
    }
    if input_amount == 0 {
        return Err(BlockchainError::Validation(ValidationFault::NonPositiveAmount));
    }
    let quoted = amm_pool.calculate_output_amount(input_amount, is_zux_to_usd);
    if quoted < MIN_OUTPUT {
        return Err(BlockchainError::Pool);
    }
    let transaction = match create_swap_transaction_at(
        wallet,
        is_zux_to_usd,
        input_amount,
        quoted,
        now,
    ) {
        Ok(tx) => tx,
        Err(e) => {
            return Err(e);
        },
    };
    let output_amount = match amm_pool.swap_at(input_amount, is_zux_to_usd, now) {
        Ok(output) => output,
        Err(e) => {
            return Err(e);
        },
    };
    let paid = wallet.subtract_balance(paid_in, input_amount);
    assert(paid is Ok);
    let _ = wallet.add_balance(paid_out, output_amount);
    proof {
        assert(wallet.balances@ =~= exchanged(
            old(wallet).balances@,
            is_zux_to_usd,
            input_amount,
            output_amount,
        ));
        assert forall|currency: Seq<char>|
            wallet.balance_of(currency) + #[trigger] reserve_of(amm_pool@, currency) == old(wallet).balance_of(currency) + reserve_of(old(amm_pool)@, currency) by {
            if currency == paid_in@ {
            } else if currency == paid_out@ {
            } else {
            }
        }
    }
    Ok((output_amount, transaction))
}

/// Execute a swap between a wallet and the AMM pool, at the time that the
/// clock shows (zero where it stands before the Unix epoch).
pub fn execute_swap(
    wallet: &mut Wallet,
    amm_pool: &mut AmmPool,
    is_zux_to_usd: bool,
    input_amount: u64,
) -> (made: Result<(u64, Transaction), BlockchainError>)
    requires
        old(amm_pool).wf(),
        countable(old(wallet), old(amm_pool)@),
    ensures
        final(amm_pool).wf(),
        final(wallet).same_owner(old(wallet)),
        made is Ok <==> exchange_fault(old(wallet), old(amm_pool)@, is_zux_to_usd, input_amount)
            is None,
        made matches Ok((output, tx)) ==> {
            &&& output == old(amm_pool)@.quote(input_amount, is_zux_to_usd)
            &&& output >= MIN_OUTPUT
            &&& final(amm_pool)@ == old(amm_pool)@.swapped(
                input_amount,
                is_zux_to_usd,
                tx.timestamp,
            )
            &&& final(wallet).balances@ == exchanged(
                old(wallet).balances@,
                is_zux_to_usd,
                input_amount,
                output,
            )
            &&& tx@ == transfer_made(
                old(wallet),
                AMM_POOL_ADDRESS@,
                input_amount,
                input_currency(is_zux_to_usd),
                tx.timestamp,
            )
            &&& old(wallet).keys_match() ==> tx@.fault() is None
        },
        made matches Err(e) ==> {
            &&& exchange_fault(old(wallet), old(amm_pool)@, is_zux_to_usd, input_amount) == Some(e)
            &&& final(amm_pool)@ == old(amm_pool)@
            &&& final(wallet).balances@ == old(wallet).balances@
        },
        forall|currency: Seq<char>|
            final(wallet).balance_of(currency) + #[trigger] reserve_of(final(amm_pool)@, currency)
                == old(wallet).balance_of(currency) + reserve_of(old(amm_pool)@, currency),
        countable(final(wallet), final(amm_pool)@),
{
    let now = match unix_time() {
        Some(seconds) => seconds,
        None => 0,
    };
    execute_swap_at(wallet, amm_pool, is_zux_to_usd, input_amount, now)
}

/// The swap that follows from an agent's decision, if any.
pub fn plan_trade(
    decision: (TradeAction, u64),
    zux: u64,
    usdz: u64,
    hold_sells: bool,
    hold_share: u32,
) -> (plan: Option<(bool, u64)>)
    requires
        hold_share <= MILLION,
    ensures
        plan == trade_plan(decision, zux, usdz, hold_sells, hold_share),
        plan matches Some((is_zux_to_usd, input)) ==> input >= DUST && input <= (if is_zux_to_usd {
            zux
        } else {
            usdz
        }),
{
    let (is_zux_to_usd, balance, wanted) = match decision.0 {
        TradeAction::Buy => (false, usdz, decision.1),
        TradeAction::Sell => (true, zux, decision.1),
        TradeAction::Hold => if hold_sells {
            (true, zux, portion_of(zux, hold_share))
        } else {
            (false, usdz, portion_of(usdz, hold_share))
        },
    };
    if balance < DUST {
        return None;
    }
    let input = if wanted < balance {
        wanted
    } else {
        balance
    };
    if input < DUST {
        return None;
    }
    Some((is_zux_to_usd, input))
}

/// One attempt at `now` with the random values given: the agent of the
/// wallet at `index` observes the pool's price and decides, and the swap
/// that follows from its decision is executed. An attempt that fails leaves
/// every balance and the pool as they were.
pub fn attempt_swap_at(
    wallets: &mut Vec<Wallet>,
    amm_pool: &mut AmmPool,
    index: usize,
    draws: &SwapDraws,
    now: u64,
) -> (made: Result<(bool, u64, u64, Transaction), BlockchainError>)
    requires
        index < old(wallets)@.len(),
        old(wallets)@[index as int].trading_strategy matches Some(agent) && agent.wf(),
        old(amm_pool).wf(),
        countable(&old(wallets)@[index as int], old(amm_pool)@),
        draws.wf(),
    ensures
        final(wallets)@.len() == old(wallets)@.len(),
        forall|j: int|
            0 <= j < old(wallets)@.len() && j != index ==> final(wallets)@[j] == old(wallets)@[j],
        final(amm_pool).wf(),
        final(wallets)@[index as int].wf(),
        final(wallets)@[index as int].private_key == old(wallets)@[index as int].private_key,
        final(wallets)@[index as int].public_key == old(wallets)@[index as int].public_key,
        final(wallets)@[index as int].address == old(wallets)@[index as int].address,
        ({
            let before = old(wallets)@[index as int];
            let after = final(wallets)@[index as int];
            let pool = old(amm_pool)@;
            let agent = before.trading_strategy->0@.observe(pool.price());
            let zux = before.balance_of(ZUX@);
            let usdz = before.balance_of(USDZ@);
            let plan = trade_plan(
                agent.pick(zux, usdz, draws.tick),
                zux,
                usdz,
                draws.hold_sells,
                draws.hold_share,
            );
            &&& after.trading_strategy matches Some(seen) && seen@ == (if made is Ok {
                AgentModel { last_trade_time: now, ..agent }
            } else {
                agent
            })
            &&& made matches Ok((is_zux_to_usd, input, output, tx)) ==> {
                &&& plan == Some((is_zux_to_usd, input))
                &&& exchange_fault(&before, pool, is_zux_to_usd, input) is None
                &&& output == pool.quote(input, is_zux_to_usd)
                &&& final(amm_pool)@ == pool.swapped(input, is_zux_to_usd, now)
                &&& after.balances@ == exchanged(before.balances@, is_zux_to_usd, input, output)
                &&& tx@ == transfer_made(
                    &before,
                    AMM_POOL_ADDRESS@,
                    input,
                    input_currency(is_zux_to_usd),
                    now,
                )
                &&& before.keys_match() ==> tx@.fault() is None
            }
            &&& made matches Err(e) ==> {
                &&& final(amm_pool)@ == pool
                &&& after.balances@ == before.balances@
                &&& match plan {
                    None => e == BlockchainError::Validation(ValidationFault::AmountTooSmall),
                    Some((is_zux_to_usd, input)) => exchange_fault(
                        &before,
                        pool,
                        is_zux_to_usd,
                        input,
                    ) == Some(e),
                }
            }
        }),
        forall|currency: Seq<char>|
            #[trigger] supply(final(wallets)@, final(amm_pool)@, currency) == supply(
                old(wallets)@,
                old(amm_pool)@,
                currency,
            ),
{
    let price = amm_pool.get_zux_price();
    let ghost before = wallets@[index as int];
    let ghost pool = amm_pool@;
    let wallet = &mut wallets[index];
    let zux = wallet.get_balance(ZUX);
    let usdz = wallet.get_balance(USDZ);
    let decision = match &mut wallet.trading_strategy {
        Some(agent) => agent.decide_with(price, zux, usdz, &draws.tick),
        None => (TradeAction::Hold, 0),
    };
    let made = match plan_trade(decision, zux, usdz, draws.hold_sells, draws.hold_share) {
        None => Err(BlockchainError::Validation(ValidationFault::AmountTooSmall)),
        Some((is_zux_to_usd, input)) => {
            match execute_swap_at(wallet, amm_pool, is_zux_to_usd, input, now) {
                Ok((output, tx)) => {
                    match &mut wallet.trading_strategy {
                        Some(agent) => {
                            agent.mark_traded(now);
                        },
                        None => {},
                    }
                    Ok((is_zux_to_usd, input, output, tx))
                },
                Err(e) => Err(e),
            }
        },
    };
    proof {
        let after = wallets@[index as int];
        assert(wallets@ =~= old(wallets)@.update(index as int, after));
        assert forall|currency: Seq<char>|
            #[trigger] supply(wallets@, amm_pool@, currency) == supply(
                old(wallets)@,
                old(amm_pool)@,
                currency,
            ) by {
            assert(after.balance_of(currency) + reserve_of(amm_pool@, currency)
                == before.balance_of(currency) + reserve_of(pool, currency));
            lemma_exchange_conserves_supply(
                old(wallets)@,
                pool,
                index as int,
                after,
                amm_pool@,
                currency,
            );
        }
    }
    made
}

/// Whether the values are such as `draw_swap` can give: every share lies in
/// its range.
pub open spec fn drawable(draws: SwapDraws) -> bool {
    &&& MEGA_SHARE_LOW <= draws.tick.mega_share < MILLION
    &&& STRONG_SHARE_LOW <= draws.tick.strong_share < MILLION
    &&& PLAIN_SHARE_LOW <= draws.tick.plain_share < MILLION
    &&& HOLD_SHARE_LOW <= draws.hold_share < HOLD_SHARE_HIGH
}

/// Whether `agent` can be the agent with which the wallet at `index` goes
/// into its first attempt at `price`: the wallet's own agent, or, where it
/// has none, a new one.
pub open spec fn agent_drawn(wallets: Seq<Wallet>, index: int, price: u128, agent: AgentModel) -> bool {
    match wallets[index].trading_strategy {
        Some(own) => agent == own@,
        None => agent.is_new(price),
    }
}

/// The failure, if any, of the attempt in which the wallet at `index`, with
/// `agent` as its agent, observes the pool's price and decides with `draws`:
/// an amount too small where its decision gives no swap, else what stands
/// against the swap.
pub open spec fn attempt_fault(
    wallets: Seq<Wallet>,
    pool: PoolModel,
    index: int,
    agent: AgentModel,
    draws: SwapDraws,
) -> Option<BlockchainError> {
    let zux = wallets[index].balance_of(ZUX@);
    let usdz = wallets[index].balance_of(USDZ@);
    match trade_plan(
        agent.observe(pool.price()).pick(zux, usdz, draws.tick),
        zux,
        usdz,
        draws.hold_sells,
        draws.hold_share,
    ) {
        None => Some(BlockchainError::Validation(ValidationFault::AmountTooSmall)),
        Some((is_zux_to_usd, input)) => exchange_fault(
            &wallets[index],
            pool,
            is_zux_to_usd,
            input,
        ),
    }
}

/// Whether the first attempt of an intelligent swap can come to be this: a
/// wallet that may trade, with an agent that it can have, and values that
/// can be drawn.
pub open spec fn may_attempt(
    wallets: Seq<Wallet>,
    pool: PoolModel,
    index: int,
    agent: AgentModel,
    draws: SwapDraws,
) -> bool {
    &&& is_trader(wallets, index)
    &&& agent_drawn(wallets, index, pool.price(), agent)
    &&& drawable(draws)
}

/// The random values of one attempt: those of the agent's tick, the side of
/// an agent that holds (either alike), and its share between a tenth and
/// three tenths.
pub fn draw_swap() -> (draws: SwapDraws)
    ensures
        draws.wf(),
        drawable(draws),
{
    SwapDraws {
        tick: TradingStrategy::draw_tick(),
        hold_sells: os_random_ratio(50, 100),
        hold_share: os_random_range(HOLD_SHARE_LOW as u64, HOLD_SHARE_HIGH as u64) as u32,
    }
}

/// The positions of the wallets that may trade: all but the system wallet.
pub fn trader_positions(wallets: &Vec<Wallet>) -> (traders: Vec<usize>)
    ensures
        forall|k: int|
            0 <= k < traders@.len() ==> (#[trigger] traders@[k]) < wallets@.len() && wallets@[traders@[k] as int].address@
                != SYSTEM_WALLET_ADDRESS@,
        forall|k: int, l: int| 0 <= k < l < traders@.len() ==> traders@[k] < traders@[l],
        forall|i: int|
            0 <= i < wallets@.len() && wallets@[i].address@ != SYSTEM_WALLET_ADDRESS@
                ==> traders@.contains(i as usize),
{
    let mut traders: Vec<usize> = Vec::new();
    let mut at: usize = 0;
    while at < wallets.len()
        invariant
            at <= wallets@.len(),
            forall|k: int|
                0 <= k < traders@.len() ==> (#[trigger] traders@[k]) < at && wallets@[traders@[k] as int].address@
                    != SYSTEM_WALLET_ADDRESS@,
            forall|k: int, l: int| 0 <= k < l < traders@.len() ==> traders@[k] < traders@[l],
            forall|i: int|
                0 <= i < at && wallets@[i].address@ != SYSTEM_WALLET_ADDRESS@ ==> traders@.contains(
                    i as usize,
                ),
        decreases wallets@.len() - at,
    {
        let ghost earlier = traders@;
        if !same_text(wallets[at].address.as_str(), SYSTEM_WALLET_ADDRESS) {
            traders.push(at);
            assert(traders@[traders@.len() - 1] == at);
        }
        assert forall|i: int|
            0 <= i < at + 1 && wallets@[i].address@ != SYSTEM_WALLET_ADDRESS@ implies traders@.contains(
            i as usize,
        ) by {
            if i < at {
                let k = choose|k: int| 0 <= k < earlier.len() && earlier[k] == i as usize;
                assert(traders@[k] == i as usize);
            }
        }
        at += 1;
    }
    traders
}

/// One attempt at `now` of the wallet at `index`: where the wallet has no
/// agent it gets a new one, made at the pool's price; then its agent decides
/// with `draws`, and the swap that follows is executed. An attempt that
/// fails leaves every balance and the pool as they were.
pub fn attempt_with_agent_at(
    wallets: &mut Vec<Wallet>,
    amm_pool: &mut AmmPool,
    index: usize,
    draws: &SwapDraws,
    now: u64,
) -> (made: Result<(bool, u64, u64, Transaction), BlockchainError>)
    requires
        index < old(wallets)@.len(),
        old(wallets)@[index as int].wf(),
        old(amm_pool).wf(),
        countable(&old(wallets)@[index as int], old(amm_pool)@),
        draws.wf(),
    ensures
        final(wallets)@.len() == old(wallets)@.len(),
        forall|j: int|
            0 <= j < old(wallets)@.len() && j != index ==> final(wallets)@[j] == old(wallets)@[j],
        final(amm_pool).wf(),
        final(wallets)@[index as int].wf(),
        final(wallets)@[index as int].private_key == old(wallets)@[index as int].private_key,
        final(wallets)@[index as int].public_key == old(wallets)@[index as int].public_key,
        final(wallets)@[index as int].address == old(wallets)@[index as int].address,
        exists|agent: AgentModel|
            {
                &&& #[trigger] agent_drawn(
                    old(wallets)@,
                    index as int,
                    old(amm_pool)@.price(),
                    agent,
                )
                &&& made is Ok <==> attempt_fault(
                    old(wallets)@,
                    old(amm_pool)@,
                    index as int,
                    agent,
                    *draws,
                ) is None
                &&& made matches Err(e) ==> attempt_fault(
                    old(wallets)@,
                    old(amm_pool)@,
                    index as int,
                    agent,
                    *draws,
                ) == Some(e)
            },
        made matches Err(e) ==> {
            &&& final(amm_pool)@ == old(amm_pool)@
            &&& final(wallets)@[index as int].balances@ == old(wallets)@[index as int].balances@
        },
        made matches Ok((is_zux_to_usd, input, output, tx)) ==> {
            &&& input >= DUST
            &&& exchange_fault(
                &old(wallets)@[index as int],
                old(amm_pool)@,
                is_zux_to_usd,
                input,
            ) is None
            &&& output == old(amm_pool)@.quote(input, is_zux_to_usd)
            &&& final(amm_pool)@ == old(amm_pool)@.swapped(input, is_zux_to_usd, now)
            &&& final(wallets)@[index as int].balances@ == exchanged(
                old(wallets)@[index as int].balances@,
                is_zux_to_usd,
                input,
                output,
            )
            &&& tx@ == transfer_made(
                &old(wallets)@[index as int],
                AMM_POOL_ADDRESS@,
                input,
                input_currency(is_zux_to_usd),
                now,
            )
        },
        forall|currency: Seq<char>|
            #[trigger] supply(final(wallets)@, final(amm_pool)@, currency) == supply(
                old(wallets)@,
                old(amm_pool)@,
                currency,
            ),
{
    let current_price = amm_pool.get_zux_price();
    if wallets[index].trading_strategy.is_none() {
        let wallet = &mut wallets[index];
        wallet.initialize_trading_strategy(current_price);
    }
    let ghost tried = wallets@;
    let ghost agent = tried[index as int].trading_strategy->0@;
    proof {
        assert(tried =~= old(wallets)@.update(index as int, tried[index as int]));
        assert(agent_drawn(old(wallets)@, index as int, old(amm_pool)@.price(), agent));
        assert forall|currency: Seq<char>|
            #[trigger] held_by(tried, currency) == held_by(old(wallets)@, currency) by {
            lemma_held_by_same(old(wallets)@, tried, currency);
        }
    }
    let made = attempt_swap_at(wallets, amm_pool, index, draws, now);
    proof {
        assert(attempt_fault(tried, old(amm_pool)@, index as int, agent, *draws) == attempt_fault(
            old(wallets)@,
            old(amm_pool)@,
            index as int,
            agent,
            *draws,
        ));
        assert forall|currency: Seq<char>|
            #[trigger] supply(wallets@, amm_pool@, currency) == supply(
                old(wallets)@,
                old(amm_pool)@,
                currency,
            ) by {
            assert(supply(wallets@, amm_pool@, currency) == supply(
                tried,
                old(amm_pool)@,
                currency,
            ));
        }
        match made {
            Ok((is_zux_to_usd, input, _, _)) => {
                assert(exchange_fault(&tried[index as int], old(amm_pool)@, is_zux_to_usd, input)
                    == exchange_fault(
                    &old(wallets)@[index as int],
                    old(amm_pool)@,
                    is_zux_to_usd,
                    input,
                ));
                assert(transfer_made(
                    &tried[index as int],
                    AMM_POOL_ADDRESS@,
                    input,
                    input_currency(is_zux_to_usd),
                    now,
                ) == transfer_made(
                    &old(wallets)@[index as int],
                    AMM_POOL_ADDRESS@,
                    input,
                    input_currency(is_zux_to_usd),
                    now,
                ));
            },
            Err(_) => {},
        }
    }
    made
}

/// Create an intelligent swap transaction based on trading strategy: a
/// wallet other than the system wallet is drawn, its agent decides, and the
/// swap is executed at the time that the clock shows. An attempt that fails
/// is followed by another, at most `MAX_SWAP_ATTEMPTS` in all. Returned are
/// the wallet's address, the direction, the amounts paid in and out, and the
/// signed transaction.
pub fn create_intelligent_swap(wallets: &mut Vec<Wallet>, amm_pool: &mut AmmPool) -> (made: Result<
    (String, bool, u64, u64, Transaction),
    BlockchainError,
>)
    requires
        forall|i: int| 0 <= i < old(wallets)@.len() ==> (#[trigger] old(wallets)@[i]).wf(),
        old(amm_pool).wf(),
        supply(old(wallets)@, old(amm_pool)@, ZUX@) <= u64::MAX,
        supply(old(wallets)@, old(amm_pool)@, USDZ@) <= u64::MAX,
    ensures
        final(wallets)@.len() == old(wallets)@.len(),
        final(amm_pool).wf(),
        forall|i: int|
            0 <= i < old(wallets)@.len() ==> {
                &&& (#[trigger] final(wallets)@[i]).wf()
                &&& final(wallets)@[i].address == old(wallets)@[i].address
                &&& final(wallets)@[i].private_key == old(wallets)@[i].private_key
                &&& final(wallets)@[i].public_key == old(wallets)@[i].public_key
            },
        forall|currency: Seq<char>|
            #[trigger] supply(final(wallets)@, final(amm_pool)@, currency) == supply(
                old(wallets)@,
                old(amm_pool)@,
                currency,
            ),
        (forall|i: int|
            0 <= i < old(wallets)@.len() ==> (#[trigger] old(wallets)@[i]).address@
                == SYSTEM_WALLET_ADDRESS@) ==> made is Err,
        ({
            &&& exists|index: int| #[trigger] is_trader(old(wallets)@, index)
            &&& forall|index: int, agent: AgentModel, draws: SwapDraws| #[trigger]
                may_attempt(old(wallets)@, old(amm_pool)@, index, agent, draws) ==> attempt_fault(
                    old(wallets)@,
                    old(amm_pool)@,
                    index,
                    agent,
                    draws,
                ) is None
        }) ==> made is Ok,
        made matches Err(e) ==> {
            &&& e == BlockchainError::Validation(ValidationFault::NoTrader)
            &&& final(amm_pool)@ == old(amm_pool)@
            &&& forall|i: int|
                0 <= i < old(wallets)@.len() ==> (#[trigger] final(wallets)@[i]).balances@
                    == old(wallets)@[i].balances@
            &&& {
                ||| forall|index: int| !#[trigger] is_trader(old(wallets)@, index)
                ||| exists|index: int, agent: AgentModel, draws: SwapDraws| #[trigger]
                    may_attempt(old(wallets)@, old(amm_pool)@, index, agent, draws)
                        && attempt_fault(old(wallets)@, old(amm_pool)@, index, agent, draws)
                        is Some
            }
        },
        made matches Ok((address, is_zux_to_usd, input, output, tx)) ==> exists|index: int|
            {
                &&& 0 <= index < old(wallets)@.len()
                &&& #[trigger] old(wallets)@[index].address@ == address@
                &&& address@ != SYSTEM_WALLET_ADDRESS@
                &&& input >= DUST
                &&& exchange_fault(&old(wallets)@[index], old(amm_pool)@, is_zux_to_usd, input)
                    is None
                &&& output == old(amm_pool)@.quote(input, is_zux_to_usd)
                &&& final(amm_pool)@ == old(amm_pool)@.swapped(input, is_zux_to_usd, tx.timestamp)
                &&& final(wallets)@[index].balances@ == exchanged(
                    old(wallets)@[index].balances@,
                    is_zux_to_usd,
                    input,
                    output,
                )
                &&& forall|j: int|
                    0 <= j < old(wallets)@.len() && j != index ==> (#[trigger] final(wallets)@[j]).balances@ == old(wallets)@[j].balances@
                &&& tx@ == transfer_made(
                    &old(wallets)@[index],
                    AMM_POOL_ADDRESS@,
                    input,
                    input_currency(is_zux_to_usd),
                    tx.timestamp,
                )
            },
{
    let traders = trader_positions(wallets);
    if traders.len() == 0 {
        proof {
            assert forall|index: int| !#[trigger] is_trader(old(wallets)@, index) by {
                if is_trader(old(wallets)@, index) {
                    assert(traders@.contains(index as usize));
                }
            }
        }
        return Err(BlockchainError::Validation(ValidationFault::NoTrader));
    }
    let mut attempts: u64 = 0;
    while attempts < MAX_SWAP_ATTEMPTS
        invariant
            attempts <= MAX_SWAP_ATTEMPTS,
            traders@.len() > 0,
            wallets@.len() == old(wallets)@.len(),
            attempts == 0 ==> wallets@ == old(wallets)@,
            attempts > 0 ==> exists|index: int, agent: AgentModel, draws: SwapDraws| #[trigger]
                may_attempt(old(wallets)@, old(amm_pool)@, index, agent, draws) && attempt_fault(
                    old(wallets)@,
                    old(amm_pool)@,
                    index,
                    agent,
                    draws,
                ) is Some,
            amm_pool.wf(),
            amm_pool@ == old(amm_pool)@,
            supply(old(wallets)@, old(amm_pool)@, ZUX@) <= u64::MAX,
            supply(old(wallets)@, old(amm_pool)@, USDZ@) <= u64::MAX,
            forall|k: int|
                0 <= k < traders@.len() ==> (#[trigger] traders@[k]) < wallets@.len() && old(wallets)@[traders@[k] as int].address@ != SYSTEM_WALLET_ADDRESS@,
            forall|i: int|
                0 <= i < old(wallets)@.len() ==> {
                    &&& (#[trigger] wallets@[i]).wf()
                    &&& wallets@[i].address == old(wallets)@[i].address
                    &&& wallets@[i].private_key == old(wallets)@[i].private_key
                    &&& wallets@[i].public_key == old(wallets)@[i].public_key
                    &&& wallets@[i].balances@ == old(wallets)@[i].balances@
                },
        decreases MAX_SWAP_ATTEMPTS - attempts,
    {
        let index = traders[os_random_range(0, traders.len() as u64) as usize];
        let now = match unix_time() {
            Some(seconds) => seconds,
            None => 0,
        };
        let draws = draw_swap();
        let ghost tried = wallets@;
        proof {
            assert(tried[index as int].wf());
            assert forall|currency: Seq<char>|
                #[trigger] held_by(tried, currency) == held_by(old(wallets)@, currency) by {
                lemma_held_by_same(old(wallets)@, tried, currency);
            }
            lemma_balance_within_held(tried, index as int, ZUX@);
            lemma_balance_within_held(tried, index as int, USDZ@);
            lemma_currencies_differ();
        }
        match attempt_with_agent_at(wallets, amm_pool, index, &draws, now) {
            Ok((is_zux_to_usd, input, output, tx)) => {
                let address = wallets[index].address.clone();
                proof {
                    assert forall|currency: Seq<char>|
                        #[trigger] supply(wallets@, amm_pool@, currency) == supply(
                            old(wallets)@,
                            old(amm_pool)@,
                            currency,
                        ) by {
                        assert(supply(wallets@, amm_pool@, currency) == supply(
                            tried,
                            old(amm_pool)@,
                            currency,
                        ));
                    }
                    assert(exchange_fault(&tried[index as int], old(amm_pool)@, is_zux_to_usd, input)
                        == exchange_fault(
                        &old(wallets)@[index as int],
                        old(amm_pool)@,
                        is_zux_to_usd,
                        input,
                    ));
                    assert(transfer_made(
                        &tried[index as int],
                        AMM_POOL_ADDRESS@,
                        input,
                        input_currency(is_zux_to_usd),
                        now,
                    ) == transfer_made(
                        &old(wallets)@[index as int],
                        AMM_POOL_ADDRESS@,
                        input,
                        input_currency(is_zux_to_usd),
                        now,
                    ));
                    assert(old(wallets)@[index as int].address@ == address@);
                }
                return Ok((address, is_zux_to_usd, input, output, tx));
            },
            Err(_) => {
                proof {
                    if attempts == 0 {
                        let agent = choose|agent: AgentModel|
                            {
                                &&& #[trigger] agent_drawn(
                                    tried,
                                    index as int,
                                    old(amm_pool)@.price(),
                                    agent,
                                )
                                &&& attempt_fault(
                                    tried,
                                    old(amm_pool)@,
                                    index as int,
                                    agent,
                                    draws,
                                ) is Some
                            };
                        assert(may_attempt(
                            old(wallets)@,
                            old(amm_pool)@,
                            index as int,
                            agent,
                            draws,
                        ));
                    }
                }
            },
        }
        attempts += 1;
    }
    proof {
        assert forall|currency: Seq<char>|
            #[trigger] supply(wallets@, amm_pool@, currency) == supply(
                old(wallets)@,
                old(amm_pool)@,
                currency,
            ) by {
            lemma_held_by_same(old(wallets)@, wallets@, currency);
        }
    }
    Err(BlockchainError::Validation(ValidationFault::NoTrader))
}

/// What two different wallets hold is part of what all hold.
pub proof fn lemma_two_balances_within_held(
    wallets: Seq<Wallet>,
    first: int,
    second: int,
    currency: Seq<char>,
)
    requires
        0 <= first < wallets.len(),
        0 <= second < wallets.len(),
        first != second,
    ensures
        wallets[first].balance_of(currency) + wallets[second].balance_of(currency) <= held_by(
            wallets,
            currency,
        ),
    decreases wallets.len(),
{
    let last = wallets.len() - 1;
    if first == last {
        lemma_balance_within_held(wallets.drop_last(), second, currency);
    } else if second == last {
        lemma_balance_within_held(wallets.drop_last(), first, currency);
    } else {
        lemma_two_balances_within_held(wallets.drop_last(), first, second, currency);
    }
}

/// Moves `amount` of `currency` from the wallet at `from` to the wallet at
/// `to` at `now`, and returns the signed transaction that says so. A
/// transfer that fails changes nothing. What the wallets hold all together
/// is the same before and after.
pub fn transfer_at(
    wallets: &mut Vec<Wallet>,
    from: usize,
    to: usize,
    amount: u64,
    currency: &str,
    now: u64,
) -> (made: Result<Transaction, BlockchainError>)
    requires
        from < old(wallets)@.len(),
        to < old(wallets)@.len(),
        from != to,
        held_by(old(wallets)@, currency@) <= u64::MAX,
    ensures
        final(wallets)@.len() == old(wallets)@.len(),
        forall|j: int|
            0 <= j < old(wallets)@.len() && j != from && j != to ==> final(wallets)@[j] == old(wallets)@[j],
        final(wallets)@[from as int].same_owner(&old(wallets)@[from as int]),
        final(wallets)@[to as int].same_owner(&old(wallets)@[to as int]),
        made is Ok <==> transfer_fault(&old(wallets)@[from as int], amount, currency@) is None,
        made matches Err(e) ==> {
            &&& transfer_fault(&old(wallets)@[from as int], amount, currency@) == Some(e)
            &&& final(wallets)@[from as int].balances@ == old(wallets)@[from as int].balances@
            &&& final(wallets)@[to as int].balances@ == old(wallets)@[to as int].balances@
        },
        made matches Ok(tx) ==> {
            &&& tx@ == transfer_made(
                &old(wallets)@[from as int],
                old(wallets)@[to as int].address@,
                amount,
                currency@,
                now,
            )
            &&& old(wallets)@[from as int].keys_match() ==> tx@.fault() is None
            &&& final(wallets)@[from as int].balances@ == old(wallets)@[from as int].balances@.insert(
                currency@,
                (old(wallets)@[from as int].balance_of(currency@) - amount) as u64,
            )
            &&& final(wallets)@[to as int].balances@ == old(wallets)@[to as int].balances@.insert(
                currency@,
                (old(wallets)@[to as int].balance_of(currency@) + amount) as u64,
            )
        },
        forall|any: Seq<char>|
            #[trigger] held_by(final(wallets)@, any) == held_by(old(wallets)@, any),
{
    let recipient = wallets[to].address.clone();
    let made = create_transaction_at(&wallets[from], recipient.as_str(), amount, currency, now);
    let transaction = match made {
        Ok(tx) => tx,
        Err(e) => {
            proof {
                assert(wallets@ =~= old(wallets)@);
            }
            return Err(e);
        },
    };
    proof {
        lemma_two_balances_within_held(old(wallets)@, from as int, to as int, currency@);
    }
    let payer = &mut wallets[from];
    let _ = payer.subtract_balance(currency, amount);
    let ghost halfway = wallets@;
    let payee = &mut wallets[to];
    let _ = payee.add_balance(currency, amount);
    proof {
        let paying = halfway[from as int];
        let receiving = wallets@[to as int];
        assert(halfway =~= old(wallets)@.update(from as int, paying));
        assert(wallets@ =~= halfway.update(to as int, receiving));
        assert forall|any: Seq<char>| #[trigger]
            held_by(wallets@, any) == held_by(old(wallets)@, any) by {
            lemma_held_by_update(old(wallets)@, from as int, paying, any);
            lemma_held_by_update(halfway, to as int, receiving, any);
        }
    }
    Ok(transaction)
}

/// Creates the pool from what the wallet at `from` pays in at `now`: the
/// wallet pays `zux_amount` and `usd_amount`, which become the reserves.
/// Returned are the pool and the two signed transactions. A failure changes
/// nothing. The supply of every currency, pool included, is what the
/// wallets held before.
pub fn fund_pool_at(
    wallets: &mut Vec<Wallet>,
    from: usize,
    zux_amount: u64,
    usd_amount: u64,
    fee_ppm: u32,
    now: u64,
) -> (made: Result<(AmmPool, Transaction, Transaction), BlockchainError>)
    requires
        from < old(wallets)@.len(),
        fee_ppm <= MILLION,
    ensures
        final(wallets)@.len() == old(wallets)@.len(),
        forall|j: int|
            0 <= j < old(wallets)@.len() && j != from ==> final(wallets)@[j] == old(wallets)@[j],
        final(wallets)@[from as int].same_owner(&old(wallets)@[from as int]),
        made is Ok <==> transfer_fault(&old(wallets)@[from as int], zux_amount, ZUX@) is None
            && transfer_fault(&old(wallets)@[from as int], usd_amount, USDZ@) is None,
        made matches Err(e) ==> {
            &&& final(wallets)@[from as int].balances@ == old(wallets)@[from as int].balances@
            &&& if transfer_fault(&old(wallets)@[from as int], zux_amount, ZUX@) is Some {
                transfer_fault(&old(wallets)@[from as int], zux_amount, ZUX@) == Some(e)
            } else {
                transfer_fault(&old(wallets)@[from as int], usd_amount, USDZ@) == Some(e)
            }
        },
        made matches Ok((pool, zux_tx, usd_tx)) ==> {
            &&& pool.wf()
            &&& pool@ == PoolModel::initial(zux_amount, usd_amount, fee_ppm, now)
            &&& zux_tx@ == transfer_made(
                &old(wallets)@[from as int],
                AMM_POOL_ADDRESS@,
                zux_amount,
                ZUX@,
                now,
            )
            &&& usd_tx@ == transfer_made(
                &old(wallets)@[from as int],
                AMM_POOL_ADDRESS@,
                usd_amount,
                USDZ@,
                now,
            )
            &&& final(wallets)@[from as int].balances@ == old(wallets)@[from as int].balances@.insert(
                ZUX@,
                (old(wallets)@[from as int].balance_of(ZUX@) - zux_amount) as u64,
            ).insert(USDZ@, (old(wallets)@[from as int].balance_of(USDZ@) - usd_amount) as u64)
            &&& forall|currency: Seq<char>|
                #[trigger] supply(final(wallets)@, pool@, currency) == held_by(
                    old(wallets)@,
                    currency,
                )
        },
{
    proof {
        lemma_currencies_differ();
    }
    let zux_tx = match create_transaction_at(&wallets[from], AMM_POOL_ADDRESS, zux_amount, ZUX, now) {
        Ok(tx) => tx,
        Err(e) => {
            proof {
                assert(wallets@ =~= old(wallets)@);
            }
            return Err(e);
        },
    };
    let usd_tx = match create_transaction_at(&wallets[from], AMM_POOL_ADDRESS, usd_amount, USDZ, now) {
        Ok(tx) => tx,
        Err(e) => {
            proof {
                assert(wallets@ =~= old(wallets)@);
            }
            return Err(e);
        },
    };
    let payer = &mut wallets[from];
    let _ = payer.subtract_balance(ZUX, zux_amount);
    let _ = payer.subtract_balance(USDZ, usd_amount);
    let pool = AmmPool::new_at(zux_amount, usd_amount, fee_ppm, now);
    proof {
        let paying = wallets@[from as int];
        assert(wallets@ =~= old(wallets)@.update(from as int, paying));
        assert forall|currency: Seq<char>| #[trigger]
            supply(wallets@, pool@, currency) == held_by(old(wallets)@, currency) by {
            lemma_held_by_update(old(wallets)@, from as int, paying, currency);
        }
    }
    Ok((pool, zux_tx, usd_tx))
}

/// Whether the wallet at `index` may trade: it is there and is not the
/// system wallet.
pub open spec fn is_trader(wallets: Seq<Wallet>, index: int) -> bool {
    0 <= index < wallets.len() && wallets[index].address@ != SYSTEM_WALLET_ADDRESS@
}

/// The most that the wallet at `index` pays into a random swap in the given
/// direction: what it holds of the currency that is paid in, but no more
/// than the cap.
pub open spec fn draw_limit(wallets: Seq<Wallet>, index: int, is_zux_to_usd: bool) -> u64 {
    if wallets[index].balance_of(input_currency(is_zux_to_usd)) < RANDOM_SWAP_CAP {
        wallets[index].balance_of(input_currency(is_zux_to_usd))
    } else {
        RANDOM_SWAP_CAP
    }
}

/// Whether a random swap can come to draw this: a wallet that may trade, a
/// direction in which it holds more than one smallest unit, and an amount
/// between one smallest unit and the wallet's limit.
pub open spec fn may_draw(wallets: Seq<Wallet>, index: int, is_zux_to_usd: bool, input: u64) -> bool {
    &&& is_trader(wallets, index)
    &&& draw_limit(wallets, index, is_zux_to_usd) > 1
    &&& 1 <= input <= draw_limit(wallets, index, is_zux_to_usd)
}

/// The most that `wallet` pays into a random swap in the given direction.
pub fn random_swap_limit(wallets: &Vec<Wallet>, index: usize, is_zux_to_usd: bool) -> (limit: u64)
    requires
        index < wallets@.len(),
    ensures
        limit == draw_limit(wallets@, index as int, is_zux_to_usd),
{
    let wallet_balance = if is_zux_to_usd {
        wallets[index].get_balance(ZUX)
    } else {
        wallets[index].get_balance(USDZ)
    };
    if wallet_balance < RANDOM_SWAP_CAP {
        wallet_balance
    } else {
        RANDOM_SWAP_CAP
    }
}

/// The swap of `input_amount` between the wallet at `index` and the pool at
/// `now`, with the wallet's address in front of what the swap returns. A
/// swap that fails changes nothing.
pub fn random_swap_at(
    wallets: &mut Vec<Wallet>,
    amm_pool: &mut AmmPool,
    index: usize,
    is_zux_to_usd: bool,
    input_amount: u64,
    now: u64,
) -> (made: Result<(String, bool, u64, u64, Transaction), BlockchainError>)
    requires
        index < old(wallets)@.len(),
        old(amm_pool).wf(),
        countable(&old(wallets)@[index as int], old(amm_pool)@),
    ensures
        final(wallets)@.len() == old(wallets)@.len(),
        final(amm_pool).wf(),
        forall|j: int|
            0 <= j < old(wallets)@.len() && j != index ==> final(wallets)@[j] == old(wallets)@[j],
        final(wallets)@[index as int].same_owner(&old(wallets)@[index as int]),
        made is Ok <==> exchange_fault(
            &old(wallets)@[index as int],
            old(amm_pool)@,
            is_zux_to_usd,
            input_amount,
        ) is None,
        made matches Err(e) ==> {
            &&& exchange_fault(
                &old(wallets)@[index as int],
                old(amm_pool)@,
                is_zux_to_usd,
                input_amount,
            ) == Some(e)
            &&& final(amm_pool)@ == old(amm_pool)@
            &&& final(wallets)@[index as int].balances@ == old(wallets)@[index as int].balances@
        },
        made matches Ok((address, direction, input, output, tx)) ==> {
            &&& address@ == old(wallets)@[index as int].address@
            &&& direction == is_zux_to_usd
            &&& input == input_amount
            &&& output == old(amm_pool)@.quote(input_amount, is_zux_to_usd)
            &&& final(amm_pool)@ == old(amm_pool)@.swapped(input_amount, is_zux_to_usd, now)
            &&& final(wallets)@[index as int].balances@ == exchanged(
                old(wallets)@[index as int].balances@,
                is_zux_to_usd,
                input_amount,
                output,
            )
            &&& tx@ == transfer_made(
                &old(wallets)@[index as int],
                AMM_POOL_ADDRESS@,
                input_amount,
                input_currency(is_zux_to_usd),
                now,
            )
            &&& old(wallets)@[index as int].keys_match() ==> tx@.fault() is None
        },
        forall|currency: Seq<char>|
            #[trigger] supply(final(wallets)@, final(amm_pool)@, currency) == supply(
                old(wallets)@,
                old(amm_pool)@,
                currency,
            ),
{
    let ghost before = wallets@[index as int];
    let ghost pool = amm_pool@;
    let wallet = &mut wallets[index];
    let swapped = execute_swap_at(wallet, amm_pool, is_zux_to_usd, input_amount, now);
    proof {
        let after = wallets@[index as int];
        assert(wallets@ =~= old(wallets)@.update(index as int, after));
        assert forall|currency: Seq<char>| #[trigger]
            supply(wallets@, amm_pool@, currency) == supply(
                old(wallets)@,
                old(amm_pool)@,
                currency,
            ) by {
            assert(after.balance_of(currency) + reserve_of(amm_pool@, currency)
                == before.balance_of(currency) + reserve_of(pool, currency));
            lemma_exchange_conserves_supply(
                old(wallets)@,
                pool,
                index as int,
                after,
                amm_pool@,
                currency,
            );
        }
    }
    match swapped {
        Ok((output_amount, transaction)) => {
            let address = wallets[index].address.clone();
            Ok((address, is_zux_to_usd, input_amount, output_amount, transaction))
        },
        Err(e) => Err(e),
    }
}

/// Create a random swap transaction for simulation: a wallet other than the
/// system wallet and a direction are drawn, and an amount between one
/// smallest unit and the wallet's limit is swapped at the time that the
/// clock shows. A wallet that holds no more than one smallest unit of what
/// it would pay in is followed by another draw, at most `MAX_SWAP_ATTEMPTS`
/// in all; a swap that fails ends the search with its failure.
///
/// The draws decide: what comes back is the outcome of one draw that could
/// be made. So the search fails wherever every such draw would fail, and it
/// finds no trader wherever no wallet that may trade holds more than one
/// smallest unit of either currency. The smallest amount can always be
/// drawn, so there is no pool with a fee before which success is certain.
pub fn create_random_swap(wallets: &mut Vec<Wallet>, amm_pool: &mut AmmPool) -> (made: Result<
    (String, bool, u64, u64, Transaction),
    BlockchainError,
>)
    requires
        old(amm_pool).wf(),
        supply(old(wallets)@, old(amm_pool)@, ZUX@) <= u64::MAX,
        supply(old(wallets)@, old(amm_pool)@, USDZ@) <= u64::MAX,
    ensures
        final(wallets)@.len() == old(wallets)@.len(),
        final(amm_pool).wf(),
        forall|i: int|
            0 <= i < old(wallets)@.len() ==> (#[trigger] final(wallets)@[i]).same_owner(
                &old(wallets)@[i],
            ),
        forall|currency: Seq<char>|
            #[trigger] supply(final(wallets)@, final(amm_pool)@, currency) == supply(
                old(wallets)@,
                old(amm_pool)@,
                currency,
            ),
        (forall|i: int|
            0 <= i < old(wallets)@.len() ==> (#[trigger] old(wallets)@[i]).address@
                == SYSTEM_WALLET_ADDRESS@) ==> made == Err::<
            (String, bool, u64, u64, Transaction),
            BlockchainError,
        >(BlockchainError::Validation(ValidationFault::NoTrader)),
        (forall|index: int, is_zux_to_usd: bool|
            is_trader(old(wallets)@, index) ==> #[trigger] draw_limit(
                old(wallets)@,
                index,
                is_zux_to_usd,
            ) <= 1) ==> made == Err::<(String, bool, u64, u64, Transaction), BlockchainError>(
            BlockchainError::Validation(ValidationFault::NoTrader),
        ),
        (forall|index: int, is_zux_to_usd: bool, input: u64| #[trigger]
            may_draw(old(wallets)@, index, is_zux_to_usd, input) ==> exchange_fault(
                &old(wallets)@[index],
                old(amm_pool)@,
                is_zux_to_usd,
                input,
            ) is Some) ==> made is Err,
        made matches Err(e) ==> {
            &&& final(amm_pool)@ == old(amm_pool)@
            &&& forall|i: int|
                0 <= i < old(wallets)@.len() ==> (#[trigger] final(wallets)@[i]).balances@
                    == old(wallets)@[i].balances@
            &&& {
                ||| e == BlockchainError::Validation(ValidationFault::NoTrader) && forall|
                    index: int,
                | !#[trigger] is_trader(old(wallets)@, index)
                ||| e == BlockchainError::Validation(ValidationFault::NoTrader) && exists|
                    index: int,
                    is_zux_to_usd: bool,
                |
                    is_trader(old(wallets)@, index) && #[trigger] draw_limit(
                        old(wallets)@,
                        index,
                        is_zux_to_usd,
                    ) <= 1
                ||| exists|index: int, is_zux_to_usd: bool, input: u64| #[trigger]
                    may_draw(old(wallets)@, index, is_zux_to_usd, input) && exchange_fault(
                        &old(wallets)@[index],
                        old(amm_pool)@,
                        is_zux_to_usd,
                        input,
                    ) == Some(e)
            }
        },
        made matches Ok((address, is_zux_to_usd, input, output, tx)) ==> exists|index: int|
            {
                &&& #[trigger] may_draw(old(wallets)@, index, is_zux_to_usd, input)
                &&& old(wallets)@[index].address@ == address@
                &&& input <= RANDOM_SWAP_CAP
                &&& exchange_fault(&old(wallets)@[index], old(amm_pool)@, is_zux_to_usd, input)
                    is None
                &&& output == old(amm_pool)@.quote(input, is_zux_to_usd)
                &&& final(amm_pool)@ == old(amm_pool)@.swapped(input, is_zux_to_usd, tx.timestamp)
                &&& final(wallets)@[index].balances@ == exchanged(
                    old(wallets)@[index].balances@,
                    is_zux_to_usd,
                    input,
                    output,
                )
                &&& forall|j: int|
                    0 <= j < old(wallets)@.len() && j != index ==> (#[trigger] final(wallets)@[j])
                        == old(wallets)@[j]
                &&& tx@ == transfer_made(
                    &old(wallets)@[index],
                    AMM_POOL_ADDRESS@,
                    input,
                    input_currency(is_zux_to_usd),
                    tx.timestamp,
                )
            },
{
    let traders = trader_positions(wallets);
    if traders.len() == 0 {
        proof {
            assert forall|index: int| !#[trigger] is_trader(old(wallets)@, index) by {
                if is_trader(old(wallets)@, index) {
                    assert(traders@.contains(index as usize));
                }
            }
        }
        return Err(BlockchainError::Validation(ValidationFault::NoTrader));
    }
    proof {
        assert(is_trader(old(wallets)@, traders@[0] as int));
    }
    let mut attempts: u64 = 0;
    while attempts < MAX_SWAP_ATTEMPTS
        invariant
            attempts <= MAX_SWAP_ATTEMPTS,
            traders@.len() > 0,
            wallets@ == old(wallets)@,
            amm_pool.wf(),
            amm_pool@ == old(amm_pool)@,
            supply(old(wallets)@, old(amm_pool)@, ZUX@) <= u64::MAX,
            supply(old(wallets)@, old(amm_pool)@, USDZ@) <= u64::MAX,
            forall|k: int|
                0 <= k < traders@.len() ==> is_trader(old(wallets)@, (#[trigger] traders@[k]) as int),
            attempts > 0 ==> exists|index: int, is_zux_to_usd: bool|
                is_trader(old(wallets)@, index) && #[trigger] draw_limit(
                    old(wallets)@,
                    index,
                    is_zux_to_usd,
                ) <= 1,
        decreases MAX_SWAP_ATTEMPTS - attempts,
    {
        let index = traders[os_random_range(0, traders.len() as u64) as usize];
        let is_zux_to_usd = os_random_ratio(50, 100);
        let max_amount = random_swap_limit(wallets, index, is_zux_to_usd);
        if max_amount > 1 {
            let input_amount = os_random_range(1, max_amount + 1);
            let now = match unix_time() {
                Some(seconds) => seconds,
                None => 0,
            };
            proof {
                lemma_balance_within_held(wallets@, index as int, ZUX@);
                lemma_balance_within_held(wallets@, index as int, USDZ@);
                lemma_currencies_differ();
                assert(may_draw(old(wallets)@, index as int, is_zux_to_usd, input_amount));
            }
            return random_swap_at(wallets, amm_pool, index, is_zux_to_usd, input_amount, now);
        }
        proof {
            assert(is_trader(old(wallets)@, index as int) && draw_limit(
                old(wallets)@,
                index as int,
                is_zux_to_usd,
            ) <= 1);
        }
        attempts += 1;
    }
    Err(BlockchainError::Validation(ValidationFault::NoTrader))
}

} // verus!
