use zux_chain::address::UniqueCodeGenerator;
use zux_chain::agent::Bias;
use zux_chain::agent::TickDraws;
use zux_chain::agent::TradeAction;
use zux_chain::agent::TradingStrategy;
use zux_chain::amm::AmmPool;
use zux_chain::error::BlockchainError;
use zux_chain::error::SignatureFault;
use zux_chain::error::ValidationFault;
use zux_chain::market::attempt_swap_at;
use zux_chain::market::attempt_with_agent_at;
use zux_chain::market::create_intelligent_swap;
use zux_chain::market::create_random_swap;
use zux_chain::market::draw_swap;
use zux_chain::market::execute_swap;
use zux_chain::market::execute_swap_at;
use zux_chain::market::fund_pool_at;
use zux_chain::market::plan_trade;
use zux_chain::market::random_swap_at;
use zux_chain::market::random_swap_limit;
use zux_chain::market::trader_positions;
use zux_chain::market::transfer_at;
use zux_chain::market::SwapDraws;
use zux_chain::market::DUST;
use zux_chain::wallet::create_system_wallet;
use zux_chain::wallet::create_wallet_without_balance;
use zux_chain::wallet::Wallet;
use zux_chain::wallet::SYSTEM_USDZ;
use zux_chain::wallet::SYSTEM_ZUX;

const COIN: u64 = 1_000_000_000;

fn keyed(seed: u8, address: &str, zux: u64, usdz: u64) -> Wallet {
    let secret = [seed; 32];
    let public = ed25519_dalek::SigningKey::from_bytes(&secret).verifying_key().to_bytes();
    let mut wallet = Wallet::new(secret.to_vec(), public.to_vec(), address.to_string());
    wallet.set_balance("ZUX", zux);
    wallet.set_balance("USDZ", usdz);
    wallet
}

fn pool() -> AmmPool {
    AmmPool::new_at(1000 * COIN, 1000 * COIN, 3000, 100)
}

fn total(wallets: &[Wallet], pool: &AmmPool, currency: &str) -> u128 {
    let held: u128 = wallets.iter().map(|w| w.get_balance(currency) as u128).sum();
    let reserve = if currency == "ZUX" {
        pool.zux_reserve()
    } else if currency == "USDZ" {
        pool.usd_reserve()
    } else {
        0
    };
    held + reserve as u128
}

fn quiet() -> SwapDraws {
    SwapDraws {
        tick: TickDraws {
            trade: true,
            mega_acts: false,
            fomo_acts: false,
            panic_acts: false,
            whale_acts: false,
            whale_buys: false,
            plain_buys: false,
            mega_share: 960_000,
            strong_share: 910_000,
            plain_share: 750_000,
        },
        hold_sells: false,
        hold_share: 200_000,
    }
}

fn with_plain_agent(mut wallet: Wallet) -> Wallet {
    wallet.trading_strategy =
        Some(TradingStrategy::with_traits(1_000_000_000, false, false, 10_000, 20_000, Bias::Neutral));
    wallet
}

#[test]
fn swap_moves_value_between_wallet_and_pool() {
    let mut wallet = keyed(1, "alice", 50 * COIN, 0);
    let mut pool = pool();
    let (output, tx) = execute_swap_at(&mut wallet, &mut pool, true, 10 * COIN, 102).unwrap();
    assert_eq!(output, 9_871_580_343);
    assert_eq!(wallet.get_balance("ZUX"), 40 * COIN);
    assert_eq!(wallet.get_balance("USDZ"), 9_871_580_343);
    assert_eq!(pool.zux_reserve(), 1010 * COIN);
    assert_eq!(pool.usd_reserve(), 990_128_419_657);
    assert_eq!(tx.sender, "alice");
    assert_eq!(tx.recipient, "AMM_POOL_ZUX_USDZ");
    assert_eq!(tx.amount, 10 * COIN);
    assert_eq!(tx.currency, "ZUX");
    assert_eq!(tx.timestamp, 102);
    assert_eq!(tx.verify(), Ok(()));
}

#[test]
fn swap_conserves_both_currencies() {
    let mut wallets = vec![keyed(1, "alice", 50 * COIN, 70 * COIN)];
    let mut pool = pool();
    let zux = total(&wallets, &pool, "ZUX");
    let usdz = total(&wallets, &pool, "USDZ");
    execute_swap_at(&mut wallets[0], &mut pool, true, 10 * COIN, 102).unwrap();
    assert_eq!(total(&wallets, &pool, "ZUX"), zux);
    assert_eq!(total(&wallets, &pool, "USDZ"), usdz);
    execute_swap_at(&mut wallets[0], &mut pool, false, 33 * COIN, 103).unwrap();
    assert_eq!(total(&wallets, &pool, "ZUX"), zux);
    assert_eq!(total(&wallets, &pool, "USDZ"), usdz);
}

#[test]
fn swap_beyond_the_balance_changes_nothing() {
    let mut wallet = keyed(1, "alice", 5 * COIN, 0);
    let mut pool = pool();
    assert_eq!(
        execute_swap_at(&mut wallet, &mut pool, true, 5 * COIN + 1, 102).err(),
        Some(BlockchainError::Balance { available: 5 * COIN, requested: 5 * COIN + 1 })
    );
    assert_eq!(
        execute_swap_at(&mut wallet, &mut pool, false, 1, 102).err(),
        Some(BlockchainError::Balance { available: 0, requested: 1 })
    );
    assert_eq!(wallet.get_balance("ZUX"), 5 * COIN);
    assert_eq!(pool.zux_reserve(), 1000 * COIN);
    assert_eq!(pool.history_len(), 1);
}

#[test]
fn swap_of_nothing_or_of_too_little_changes_nothing() {
    let mut wallet = keyed(1, "alice", 5 * COIN, 0);
    let mut pool = pool();
    assert_eq!(
        execute_swap_at(&mut wallet, &mut pool, true, 0, 102).err(),
        Some(BlockchainError::Validation(ValidationFault::NonPositiveAmount))
    );
    assert_eq!(
        execute_swap_at(&mut wallet, &mut pool, true, 1, 102).err(),
        Some(BlockchainError::Pool)
    );
    assert_eq!(wallet.get_balance("ZUX"), 5 * COIN);
    assert_eq!(pool.zux_reserve(), 1000 * COIN);
    assert_eq!(pool.usd_reserve(), 1000 * COIN);
}

#[test]
fn swap_with_a_malformed_key_changes_nothing() {
    let mut wallet = Wallet::new(vec![1u8; 5], vec![2u8; 32], "mallory".to_string());
    wallet.set_balance("ZUX", 5 * COIN);
    let mut pool = pool();
    assert_eq!(
        execute_swap_at(&mut wallet, &mut pool, true, COIN, 102).err(),
        Some(BlockchainError::Signature(SignatureFault::MalformedKey))
    );
    assert_eq!(wallet.get_balance("ZUX"), 5 * COIN);
    assert_eq!(wallet.get_balance("USDZ"), 0);
    assert_eq!(pool.zux_reserve(), 1000 * COIN);
    assert_eq!(pool.usd_reserve(), 1000 * COIN);
    assert_eq!(pool.history_len(), 1);
}

#[test]
fn swap_at_the_present_time() {
    let mut wallet = keyed(1, "alice", 50 * COIN, 0);
    let mut pool = pool();
    let (output, tx) = execute_swap(&mut wallet, &mut pool, true, 10 * COIN).unwrap();
    assert_eq!(output, 9_871_580_343);
    assert!(tx.timestamp > 1_600_000_000);
    assert_eq!(pool.get_recent_price_history(1)[0].timestamp, tx.timestamp);
    assert_eq!(tx.verify(), Ok(()));
}

#[test]
fn plan_follows_the_decision() {
    assert_eq!(plan_trade((TradeAction::Buy, 5_000), 9_000, 8_000, true, 200_000), Some((false, 5_000)));
    assert_eq!(plan_trade((TradeAction::Sell, 5_000), 9_000, 8_000, false, 200_000), Some((true, 5_000)));
    assert_eq!(plan_trade((TradeAction::Buy, 9_999), 9_000, 8_000, true, 200_000), Some((false, 8_000)));
    assert_eq!(plan_trade((TradeAction::Sell, 9_999), 9_000, 8_000, true, 200_000), Some((true, 9_000)));
}

#[test]
fn plan_of_a_holding_agent_trades_a_small_share() {
    assert_eq!(plan_trade((TradeAction::Hold, 0), 10_000, 20_000, true, 200_000), Some((true, 2_000)));
    assert_eq!(plan_trade((TradeAction::Hold, 0), 10_000, 20_000, false, 200_000), Some((false, 4_000)));
    assert_eq!(plan_trade((TradeAction::Hold, 0), 10_000, 20_000, false, 100_000), Some((false, 2_000)));
}

#[test]
fn plan_skips_dust() {
    assert_eq!(DUST, 1_000);
    assert_eq!(plan_trade((TradeAction::Buy, 5_000), 9_000, 999, true, 200_000), None);
    assert_eq!(plan_trade((TradeAction::Buy, 999), 9_000, 8_000, true, 200_000), None);
    assert_eq!(plan_trade((TradeAction::Buy, 1_000), 9_000, 1_000, true, 200_000), Some((false, 1_000)));
    assert_eq!(plan_trade((TradeAction::Sell, 5_000), 999, 9_000, true, 200_000), None);
    assert_eq!(plan_trade((TradeAction::Sell, 0), 9_000, 9_000, true, 200_000), None);
    assert_eq!(plan_trade((TradeAction::Hold, 0), 4_999, 9_000, true, 200_000), None);
    assert_eq!(plan_trade((TradeAction::Hold, 0), 5_000, 9_000, true, 200_000), Some((true, 1_000)));
    assert_eq!(plan_trade((TradeAction::Hold, 0), 5_000, 0, false, 200_000), None);
}

#[test]
fn attempt_executes_what_the_agent_decides() {
    let mut wallets = vec![
        keyed(1, "SYSTEM", 0, 0),
        with_plain_agent(keyed(2, "alice", 40 * COIN, 0)),
    ];
    let mut pool = pool();
    let made = attempt_swap_at(&mut wallets, &mut pool, 1, &quiet(), 102).unwrap();
    assert_eq!(made.0, true);
    assert_eq!(made.1, 30 * COIN);
    assert_eq!(made.2, pool.usd_reserve().abs_diff(1000 * COIN));
    assert_eq!(wallets[1].get_balance("ZUX"), 10 * COIN);
    assert_eq!(wallets[1].get_balance("USDZ"), made.2);
    assert_eq!(pool.zux_reserve(), 1030 * COIN);
    assert_eq!(made.3.verify(), Ok(()));
    assert_eq!(made.3.timestamp, 102);
    let agent = wallets[1].trading_strategy.as_ref().unwrap();
    assert_eq!(agent.last_trade_time(), 102);
    assert_eq!(agent.memory_len(), 2);
}

#[test]
fn attempt_of_a_holding_agent_trades_a_small_share() {
    let mut wallets = vec![with_plain_agent(keyed(2, "alice", 0, 40 * COIN))];
    let mut pool = pool();
    let made = attempt_swap_at(&mut wallets, &mut pool, 0, &quiet(), 102).unwrap();
    assert_eq!((made.0, made.1), (false, 8 * COIN));
    assert_eq!(wallets[0].get_balance("USDZ"), 32 * COIN);
    assert_eq!(wallets[0].get_balance("ZUX"), made.2);
}

#[test]
fn attempt_that_is_skipped_changes_no_balance() {
    let mut wallets = vec![with_plain_agent(keyed(2, "alice", 999, 0))];
    let mut pool = pool();
    assert_eq!(
        attempt_swap_at(&mut wallets, &mut pool, 0, &quiet(), 102).err(),
        Some(BlockchainError::Validation(ValidationFault::AmountTooSmall))
    );
    assert_eq!(wallets[0].get_balance("ZUX"), 999);
    assert_eq!(pool.zux_reserve(), 1000 * COIN);
    let agent = wallets[0].trading_strategy.as_ref().unwrap();
    assert_eq!(agent.last_trade_time(), 0);
    assert_eq!(agent.memory_len(), 2);
}

#[test]
fn attempt_that_fails_in_the_pool_changes_no_balance() {
    let mut wallets = vec![with_plain_agent(keyed(2, "alice", 2_000, 0))];
    let mut pool = AmmPool::new_at(1_000_000 * COIN, 1, 3000, 100);
    assert_eq!(
        attempt_swap_at(&mut wallets, &mut pool, 0, &quiet(), 102).err(),
        Some(BlockchainError::Pool)
    );
    assert_eq!(wallets[0].get_balance("ZUX"), 2_000);
    assert_eq!(pool.usd_reserve(), 1);
}

#[test]
fn system_wallet_does_not_trade() {
    let wallets = vec![
        keyed(1, "a", 0, 0),
        keyed(2, "SYSTEM", 0, 0),
        keyed(3, "b", 0, 0),
        keyed(4, "SYSTEM", 0, 0),
    ];
    assert_eq!(trader_positions(&wallets), vec![0, 2]);
    assert_eq!(trader_positions(&Vec::new()), Vec::<usize>::new());
}

#[test]
fn no_trader_no_swap() {
    let mut pool = pool();
    let mut nobody: Vec<Wallet> = Vec::new();
    assert_eq!(
        create_intelligent_swap(&mut nobody, &mut pool).err(),
        Some(BlockchainError::Validation(ValidationFault::NoTrader))
    );
    let mut only_system = vec![keyed(1, "SYSTEM", 50 * COIN, 50 * COIN)];
    assert_eq!(
        create_intelligent_swap(&mut only_system, &mut pool).err(),
        Some(BlockchainError::Validation(ValidationFault::NoTrader))
    );
    assert_eq!(
        create_random_swap(&mut only_system, &mut pool).err(),
        Some(BlockchainError::Validation(ValidationFault::NoTrader))
    );
    assert_eq!(only_system[0].get_balance("ZUX"), 50 * COIN);
    assert_eq!(pool.history_len(), 1);
}

#[test]
fn traders_without_money_give_no_swap() {
    let mut pool = pool();
    let mut wallets = vec![keyed(1, "SYSTEM", 50 * COIN, 50 * COIN), keyed(2, "a", 0, 0), keyed(3, "b", 10, 10)];
    assert_eq!(
        create_intelligent_swap(&mut wallets, &mut pool).err(),
        Some(BlockchainError::Validation(ValidationFault::NoTrader))
    );
    assert_eq!(wallets[2].get_balance("ZUX"), 10);
    assert_eq!(pool.zux_reserve(), 1000 * COIN);
    assert_eq!(pool.history_len(), 1);
    let mut poor = vec![keyed(2, "a", 1, 1)];
    assert_eq!(
        create_random_swap(&mut poor, &mut pool).err(),
        Some(BlockchainError::Validation(ValidationFault::NoTrader))
    );
}

#[test]
fn intelligent_swaps_conserve_the_supply() {
    let mut wallets = vec![keyed(0, "SYSTEM", 1_000 * COIN, 5_000 * COIN)];
    for seed in 1..=12u8 {
        wallets.push(keyed(seed, &format!("w{}", seed), 100 * COIN, 500 * COIN));
    }
    let mut pool = AmmPool::new_at(1_000 * COIN, 10 * COIN, 3000, 100);
    let zux = total(&wallets, &pool, "ZUX");
    let usdz = total(&wallets, &pool, "USDZ");
    let mut k = pool.k_constant();
    let mut swaps = 0;
    for _ in 0..300 {
        let before: Vec<(u64, u64)> =
            wallets.iter().map(|w| (w.get_balance("ZUX"), w.get_balance("USDZ"))).collect();
        match create_intelligent_swap(&mut wallets, &mut pool) {
            Ok((address, is_zux_to_usd, input, output, tx)) => {
                swaps += 1;
                assert_ne!(address, "SYSTEM");
                assert!(input >= DUST);
                assert!(output >= 1);
                assert_eq!(tx.sender, address);
                assert_eq!(tx.amount, input);
                assert_eq!(tx.currency, if is_zux_to_usd { "ZUX" } else { "USDZ" });
                assert_eq!(tx.verify(), Ok(()));
                for (position, wallet) in wallets.iter().enumerate() {
                    let now = (wallet.get_balance("ZUX"), wallet.get_balance("USDZ"));
                    if wallet.address == address {
                        let expected = if is_zux_to_usd {
                            (before[position].0 - input, before[position].1 + output)
                        } else {
                            (before[position].0 + output, before[position].1 - input)
                        };
                        assert_eq!(now, expected);
                    } else {
                        assert_eq!(now, before[position]);
                    }
                }
            }
            Err(e) => assert_eq!(e, BlockchainError::Validation(ValidationFault::NoTrader)),
        }
        assert_eq!(total(&wallets, &pool, "ZUX"), zux);
        assert_eq!(total(&wallets, &pool, "USDZ"), usdz);
        assert!(pool.k_constant() >= k);
        k = pool.k_constant();
    }
    assert!(swaps > 250);
    assert_eq!(wallets[0].get_balance("ZUX"), 1_000 * COIN);
    assert!(wallets[0].trading_strategy.is_none());
}

#[test]
fn random_swaps_conserve_the_supply() {
    let mut wallets = vec![keyed(0, "SYSTEM", 1_000 * COIN, 5_000 * COIN)];
    for seed in 1..=6u8 {
        wallets.push(keyed(seed, &format!("w{}", seed), 100 * COIN, 500 * COIN));
    }
    let mut pool = AmmPool::new_at(10_000 * COIN, 10_000 * COIN, 3000, 100);
    let zux = total(&wallets, &pool, "ZUX");
    let usdz = total(&wallets, &pool, "USDZ");
    let mut swaps = 0;
    for _ in 0..200 {
        match create_random_swap(&mut wallets, &mut pool) {
            Ok((address, _, input, output, tx)) => {
                swaps += 1;
                assert_ne!(address, "SYSTEM");
                assert!(input >= 1 && input <= 100 * COIN);
                assert!(output >= 1);
                assert_eq!(tx.verify(), Ok(()));
            }
            Err(e) => assert_eq!(e, BlockchainError::Pool),
        }
        assert_eq!(total(&wallets, &pool, "ZUX"), zux);
        assert_eq!(total(&wallets, &pool, "USDZ"), usdz);
    }
    assert!(swaps > 150);
}

#[test]
fn drawn_hold_share_lies_in_its_range() {
    for _ in 0..1_000 {
        let draws = draw_swap();
        assert!(draws.hold_share >= 100_000 && draws.hold_share < 300_000);
    }
}

#[test]
fn transfer_moves_the_amount_and_signs_it() {
    let mut wallets = vec![keyed(1, "SYSTEM", 1_000, 5_000), keyed(2, "alice", 7, 0)];
    let tx = transfer_at(&mut wallets, 0, 1, 100, "ZUX", 55).unwrap();
    assert_eq!(wallets[0].get_balance("ZUX"), 900);
    assert_eq!(wallets[1].get_balance("ZUX"), 107);
    assert_eq!(wallets[0].get_balance("USDZ"), 5_000);
    assert_eq!(wallets[1].get_balance("USDZ"), 0);
    assert_eq!(tx.sender, "SYSTEM");
    assert_eq!(tx.recipient, "alice");
    assert_eq!(tx.amount, 100);
    assert_eq!(tx.currency, "ZUX");
    assert_eq!(tx.timestamp, 55);
    assert_eq!(tx.verify(), Ok(()));
}

#[test]
fn transfer_that_fails_moves_nothing() {
    let mut wallets = vec![keyed(1, "SYSTEM", 1_000, 5_000), keyed(2, "alice", 7, 0)];
    assert_eq!(
        transfer_at(&mut wallets, 1, 0, 8, "ZUX", 55).err(),
        Some(BlockchainError::Balance { available: 7, requested: 8 })
    );
    assert_eq!(
        transfer_at(&mut wallets, 0, 1, 0, "ZUX", 55).err(),
        Some(BlockchainError::Validation(ValidationFault::NonPositiveAmount))
    );
    assert_eq!(
        transfer_at(&mut wallets, 0, 1, 5, "EUR", 55).err(),
        Some(BlockchainError::Validation(ValidationFault::UnsupportedCurrency))
    );
    assert_eq!(wallets[0].get_balance("ZUX"), 1_000);
    assert_eq!(wallets[1].get_balance("ZUX"), 7);
}

#[test]
fn pool_is_funded_from_a_wallet() {
    let mut wallets = vec![keyed(1, "SYSTEM", 1_000 * COIN, 5_000 * COIN), keyed(2, "alice", 7, 0)];
    let (pool, zux_tx, usd_tx) = fund_pool_at(&mut wallets, 0, 100 * COIN, COIN, 3000, 60).unwrap();
    assert_eq!(pool.zux_reserve(), 100 * COIN);
    assert_eq!(pool.usd_reserve(), COIN);
    assert_eq!(pool.fee_ppm(), 3000);
    assert_eq!(pool.get_zux_price(), 10_000_000);
    assert_eq!(pool.get_recent_price_history(1)[0].timestamp, 60);
    assert_eq!(wallets[0].get_balance("ZUX"), 900 * COIN);
    assert_eq!(wallets[0].get_balance("USDZ"), 4_999 * COIN);
    assert_eq!(total(&wallets, &pool, "ZUX"), 1_000 * COIN as u128 + 7);
    assert_eq!(total(&wallets, &pool, "USDZ"), 5_000 * COIN as u128);
    assert_eq!(zux_tx.recipient, "AMM_POOL_ZUX_USDZ");
    assert_eq!((zux_tx.amount, zux_tx.currency.as_str()), (100 * COIN, "ZUX"));
    assert_eq!((usd_tx.amount, usd_tx.currency.as_str()), (COIN, "USDZ"));
    assert_eq!(zux_tx.verify(), Ok(()));
    assert_eq!(usd_tx.verify(), Ok(()));
}

#[test]
fn pool_funding_that_fails_moves_nothing() {
    let mut wallets = vec![keyed(1, "SYSTEM", 10, 20)];
    assert_eq!(
        fund_pool_at(&mut wallets, 0, 11, 5, 3000, 60).err(),
        Some(BlockchainError::Balance { available: 10, requested: 11 })
    );
    assert_eq!(
        fund_pool_at(&mut wallets, 0, 5, 21, 3000, 60).err(),
        Some(BlockchainError::Balance { available: 20, requested: 21 })
    );
    assert_eq!(
        fund_pool_at(&mut wallets, 0, 5, 0, 3000, 60).err(),
        Some(BlockchainError::Validation(ValidationFault::NonPositiveAmount))
    );
    assert_eq!(wallets[0].get_balance("ZUX"), 10);
    assert_eq!(wallets[0].get_balance("USDZ"), 20);
}

#[test]
fn whole_setup_conserves_the_issue() {
    let mut generator = UniqueCodeGenerator::with_constants(11, 3).unwrap();
    let mut wallets = vec![create_system_wallet(&mut generator).ok().unwrap()];
    for _ in 0..8 {
        wallets.push(create_wallet_without_balance(&mut generator).ok().unwrap());
    }
    for position in 1..wallets.len() {
        transfer_at(&mut wallets, 0, position, 100 * COIN, "ZUX", 10).unwrap();
        transfer_at(&mut wallets, 0, position, 500 * COIN, "USDZ", 10).unwrap();
        let zux: u128 = wallets.iter().map(|w| w.get_balance("ZUX") as u128).sum();
        let usdz: u128 = wallets.iter().map(|w| w.get_balance("USDZ") as u128).sum();
        assert_eq!(zux, SYSTEM_ZUX as u128);
        assert_eq!(usdz, SYSTEM_USDZ as u128);
    }
    let zux_in = wallets[0].get_balance("ZUX") / 10_000;
    let (mut pool, _, _) = fund_pool_at(&mut wallets, 0, zux_in, zux_in / 100, 3000, 11).unwrap();
    assert_eq!(pool.get_zux_price(), 10_000_000);
    for _ in 0..100 {
        let _ = create_intelligent_swap(&mut wallets, &mut pool);
        assert_eq!(total(&wallets, &pool, "ZUX"), SYSTEM_ZUX as u128);
        assert_eq!(total(&wallets, &pool, "USDZ"), SYSTEM_USDZ as u128);
    }
}

#[test]
fn random_swap_is_limited_by_balance_and_cap() {
    let wallets = vec![keyed(1, "a", 5 * COIN, 250 * COIN), keyed(2, "b", 100 * COIN, 0)];
    assert_eq!(random_swap_limit(&wallets, 0, true), 5 * COIN);
    assert_eq!(random_swap_limit(&wallets, 0, false), 100 * COIN);
    assert_eq!(random_swap_limit(&wallets, 1, true), 100 * COIN);
    assert_eq!(random_swap_limit(&wallets, 1, false), 0);
}

#[test]
fn random_swap_of_a_given_draw() {
    let mut wallets = vec![keyed(1, "SYSTEM", 0, 0), keyed(2, "alice", 50 * COIN, 0)];
    let mut pool = pool();
    let (address, is_zux_to_usd, input, output, tx) =
        random_swap_at(&mut wallets, &mut pool, 1, true, 10 * COIN, 102).unwrap();
    assert_eq!(address, "alice");
    assert!(is_zux_to_usd);
    assert_eq!(input, 10 * COIN);
    assert_eq!(output, 9_871_580_343);
    assert_eq!(wallets[1].get_balance("ZUX"), 40 * COIN);
    assert_eq!(wallets[1].get_balance("USDZ"), 9_871_580_343);
    assert_eq!(pool.zux_reserve(), 1010 * COIN);
    assert_eq!(tx.timestamp, 102);
    assert_eq!(tx.verify(), Ok(()));
}

#[test]
fn random_swap_of_a_draw_that_fails_changes_nothing() {
    let mut wallets = vec![keyed(2, "alice", 50 * COIN, 0)];
    let mut pool = pool();
    assert_eq!(
        random_swap_at(&mut wallets, &mut pool, 0, true, 1, 102).err(),
        Some(BlockchainError::Pool)
    );
    assert_eq!(
        random_swap_at(&mut wallets, &mut pool, 0, false, 1, 102).err(),
        Some(BlockchainError::Balance { available: 0, requested: 1 })
    );
    assert_eq!(wallets[0].get_balance("ZUX"), 50 * COIN);
    assert_eq!(pool.zux_reserve(), 1000 * COIN);
    assert_eq!(pool.history_len(), 1);
}

#[test]
fn random_swap_fails_where_every_draw_fails() {
    let mut wallets = vec![Wallet::new(vec![1u8; 5], vec![2u8; 32], "mallory".to_string())];
    wallets[0].set_balance("ZUX", 50 * COIN);
    wallets[0].set_balance("USDZ", 50 * COIN);
    let mut pool = pool();
    for _ in 0..50 {
        let failure = create_random_swap(&mut wallets, &mut pool).err().unwrap();
        assert!(
            failure == BlockchainError::Pool
                || failure == BlockchainError::Signature(SignatureFault::MalformedKey)
        );
    }
    assert_eq!(wallets[0].get_balance("ZUX"), 50 * COIN);
    assert_eq!(pool.history_len(), 1);
}

#[test]
fn attempt_gives_a_wallet_without_agent_a_new_one() {
    let mut wallets = vec![keyed(2, "alice", 40 * COIN, 40 * COIN)];
    let mut pool = pool();
    let made = attempt_with_agent_at(&mut wallets, &mut pool, 0, &quiet(), 102).unwrap();
    assert_eq!((made.0, made.1), (true, 30 * COIN));
    let agent = wallets[0].trading_strategy.as_ref().unwrap();
    assert_eq!(agent.memory_len(), 2);
    assert_eq!(agent.last_trade_time(), 102);
    assert_eq!(wallets[0].get_balance("ZUX"), 10 * COIN);
}

#[test]
fn attempt_keeps_the_agent_that_a_wallet_has() {
    let mut wallets = vec![with_plain_agent(keyed(2, "alice", 999, 0))];
    let mut pool = pool();
    assert_eq!(
        attempt_with_agent_at(&mut wallets, &mut pool, 0, &quiet(), 102).err(),
        Some(BlockchainError::Validation(ValidationFault::AmountTooSmall))
    );
    assert_eq!(wallets[0].trading_strategy.as_ref().unwrap().memory_len(), 2);
    assert_eq!(wallets[0].get_balance("ZUX"), 999);
}

#[test]
fn intelligent_swap_succeeds_where_every_attempt_would() {
    for round in 0..50u8 {
        let mut wallets = vec![
            keyed(0, "SYSTEM", 0, 0),
            keyed(round + 1, "rich", 100 * COIN, 100 * COIN),
            with_plain_agent(keyed(round + 2, "richer", 200 * COIN, 200 * COIN)),
        ];
        let mut pool = pool();
        let (address, _, input, output, tx) = create_intelligent_swap(&mut wallets, &mut pool).unwrap();
        assert!(address == "rich" || address == "richer");
        assert!(input >= 10 * COIN);
        assert!(output >= 1);
        assert_eq!(tx.verify(), Ok(()));
    }
}
