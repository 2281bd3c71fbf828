use zux_chain::amm::AmmPool;
use zux_chain::amm::PricePoint;
use zux_chain::amm::PRICE_HISTORY_LIMIT;
use zux_chain::error::BlockchainError;
use zux_chain::error::ValidationFault;

const COIN: u64 = 1_000_000_000;

fn pool() -> AmmPool {
    AmmPool::new_at(1000 * COIN, 1000 * COIN, 3000, 100)
}

#[test]
fn new_pool_has_the_given_reserves() {
    let pool = pool();
    assert_eq!(pool.zux_reserve(), 1000 * COIN);
    assert_eq!(pool.usd_reserve(), 1000 * COIN);
    assert_eq!(pool.k_constant(), 1_000_000_000_000_000_000_000_000);
    assert_eq!(pool.fee_ppm(), 3000);
    assert_eq!(pool.get_zux_price(), 1_000_000_000);
    assert_eq!(pool.volumes(), (0, 0));
    assert_eq!(pool.window_prices(), (1_000_000_000, 1_000_000_000, 1_000_000_000));
    assert_eq!(pool.inception_prices(), (1_000_000_000, 1_000_000_000, 1_000_000_000));
    assert_eq!(pool.history_len(), 1);
    assert_eq!(
        pool.get_recent_price_history(10),
        vec![PricePoint { timestamp: 100, price: 1_000_000_000 }]
    );
}

#[test]
fn price_is_quote_reserve_per_whole_base_unit() {
    assert_eq!(AmmPool::new_at(100_000 * COIN, 1000 * COIN, 3000, 0).get_zux_price(), 10_000_000);
    assert_eq!(AmmPool::new_at(3, 1, 0, 0).get_zux_price(), 333_333_333);
    assert_eq!(AmmPool::new_at(1, u64::MAX, 0, 0).get_zux_price(), 18_446_744_073_709_551_615_000_000_000);
    assert_eq!(AmmPool::new_at(u64::MAX, 1, 0, 0).get_zux_price(), 0);
}

#[test]
fn ten_in_pays_about_nine_point_eight_seven_out() {
    let pool = pool();
    assert_eq!(pool.calculate_output_amount(10 * COIN, true), 9_871_580_343);
    assert_eq!(pool.calculate_output_amount(10 * COIN, false), 9_871_580_343);
}

#[test]
fn swap_moves_the_reserves_and_recomputes_k() {
    let mut pool = pool();
    assert_eq!(pool.swap_at(10 * COIN, true, 102), Ok(9_871_580_343));
    assert_eq!(pool.zux_reserve(), 1_010_000_000_000);
    assert_eq!(pool.usd_reserve(), 990_128_419_657);
    assert_eq!(pool.k_constant(), 1_000_029_703_853_570_000_000_000);
    assert_eq!(pool.get_zux_price(), 980_325_167);
}

#[test]
fn swap_keeps_the_fee_adjusted_product() {
    let mut pool = pool();
    let before = pool.k_constant();
    let output = pool.swap_at(10 * COIN, true, 102).unwrap();
    let effective: u128 = 9_970_000_000;
    let priced = (1000 * COIN as u128 + effective) * (1000 * COIN as u128 - output as u128);
    assert!(priced >= before);
    let one_more = (1000 * COIN as u128 + effective) * (1000 * COIN as u128 - output as u128 - 1);
    assert!(one_more < before);
    assert!(pool.k_constant() >= before);
}

#[test]
fn swap_in_the_other_direction() {
    let mut pool = pool();
    assert_eq!(pool.swap_at(5 * COIN, false, 101), Ok(4_960_273_038));
    assert_eq!(pool.usd_reserve(), 1005 * COIN);
    assert_eq!(pool.zux_reserve(), 1000 * COIN - 4_960_273_038);
}

#[test]
fn swap_records_price_and_volume() {
    let mut pool = pool();
    pool.swap_at(10 * COIN, true, 102).unwrap();
    assert_eq!(pool.history_len(), 2);
    assert_eq!(
        pool.get_recent_price_history(1),
        vec![PricePoint { timestamp: 102, price: 980_325_167 }]
    );
    assert_eq!(pool.volumes(), (9_935_790_171, 9_935_790_171));
    assert_eq!(pool.window_prices(), (1_000_000_000, 980_325_167, 1_000_000_000));
    assert_eq!(pool.inception_prices(), (1_000_000_000, 980_325_167, 1_000_000_000));
}

#[test]
fn window_starts_anew_after_five_seconds() {
    let mut pool = pool();
    pool.swap_at(10 * COIN, true, 104).unwrap();
    assert_eq!(pool.volumes(), (9_935_790_171, 9_935_790_171));
    assert_eq!(pool.swap_at(20 * COIN, false, 105), Ok(19_938_649_311));
    assert_eq!(pool.zux_reserve(), 990_061_350_689);
    assert_eq!(pool.usd_reserve(), 1_010_128_419_657);
    assert_eq!(pool.get_zux_price(), 1_020_268_510);
    assert_eq!(pool.volumes(), (9_935_790_171 + 19_773_179_867, 19_773_179_867));
    assert_eq!(pool.window_prices(), (1_020_268_510, 1_020_268_510, 1_020_268_510));
    assert_eq!(pool.inception_prices(), (1_020_268_510, 980_325_167, 1_000_000_000));
}

#[test]
fn window_goes_on_within_five_seconds() {
    let mut pool = pool();
    pool.swap_at(10 * COIN, true, 102).unwrap();
    pool.swap_at(20 * COIN, false, 104).unwrap();
    assert_eq!(pool.volumes(), (9_935_790_171 + 19_773_179_867, 9_935_790_171 + 19_773_179_867));
    assert_eq!(pool.window_prices(), (1_020_268_510, 980_325_167, 1_000_000_000));
}

#[test]
fn clock_that_runs_backwards_does_not_open_a_window() {
    let mut pool = pool();
    pool.swap_at(10 * COIN, true, 50).unwrap();
    assert_eq!(pool.window_prices(), (1_000_000_000, 980_325_167, 1_000_000_000));
    assert_eq!(pool.volumes(), (9_935_790_171, 9_935_790_171));
}

#[test]
fn swap_of_nothing_is_a_validation_error() {
    let mut pool = pool();
    assert_eq!(
        pool.swap_at(0, true, 101),
        Err(BlockchainError::Validation(ValidationFault::NonPositiveAmount))
    );
    assert_eq!(pool.zux_reserve(), 1000 * COIN);
    assert_eq!(pool.history_len(), 1);
}

#[test]
fn swap_that_pays_out_nothing_is_a_pool_error() {
    let mut pool = pool();
    assert_eq!(pool.calculate_output_amount(1, true), 0);
    assert_eq!(pool.swap_at(1, true, 101), Err(BlockchainError::Pool));
    assert_eq!(pool.swap_at(2, false, 101), Err(BlockchainError::Pool));
    assert_eq!(pool.zux_reserve(), 1000 * COIN);
    assert_eq!(pool.usd_reserve(), 1000 * COIN);
    assert_eq!(pool.k_constant(), 1_000_000_000_000_000_000_000_000);
    assert_eq!(pool.history_len(), 1);
    assert_eq!(pool.volumes(), (0, 0));
}

#[test]
fn smallest_swap_that_pays_out() {
    let mut pool = AmmPool::new_at(1, 1_000_000_000_000_000_000, 3000, 0);
    assert_eq!(pool.swap_at(1, true, 1), Err(BlockchainError::Pool));
    assert_eq!(pool.swap_at(2, true, 1), Ok(500_000_000_000_000_000));
    assert_eq!(pool.zux_reserve(), 3);
    assert_eq!(pool.usd_reserve(), 500_000_000_000_000_000);
}

#[test]
fn pool_without_fee_prices_the_whole_input() {
    let pool = AmmPool::new_at(1, 1_000_000_000_000_000_000, 0, 0);
    assert_eq!(pool.calculate_output_amount(1, true), 500_000_000_000_000_000);
}

#[test]
fn pool_that_keeps_everything_pays_out_nothing() {
    let mut pool = AmmPool::new_at(1000, 1000, 1_000_000, 0);
    assert_eq!(pool.calculate_output_amount(500, true), 0);
    assert_eq!(pool.swap_at(500, true, 1), Err(BlockchainError::Pool));
}

#[test]
fn output_never_empties_the_reserve() {
    let pool = AmmPool::new_at(1, 7, 0, 0);
    assert_eq!(pool.calculate_output_amount(u64::MAX - 1, true), 6);
    let pool = AmmPool::new_at(5, 1, 0, 0);
    assert_eq!(pool.calculate_output_amount(u64::MAX - 5, true), 0);
}

#[test]
fn product_never_shrinks_over_many_swaps() {
    let mut pool = AmmPool::new_at(1000 * COIN, 10 * COIN, 3000, 0);
    let mut k = pool.k_constant();
    let mut amount = 1_234_567u64;
    for round in 0..500u64 {
        let input_is_zux = round % 3 != 0;
        amount = amount.wrapping_mul(6_364_136_223_846_793_005).wrapping_add(1_442_695_040_888_963_407)
            % (5 * COIN)
            + 1;
        let zux = pool.zux_reserve();
        let usd = pool.usd_reserve();
        match pool.swap_at(amount, input_is_zux, round) {
            Ok(output) => {
                assert!(output >= 1);
                if input_is_zux {
                    assert_eq!(pool.zux_reserve(), zux + amount);
                    assert_eq!(pool.usd_reserve(), usd - output);
                } else {
                    assert_eq!(pool.usd_reserve(), usd + amount);
                    assert_eq!(pool.zux_reserve(), zux - output);
                }
            }
            Err(e) => {
                assert_eq!(e, BlockchainError::Pool);
                assert_eq!(pool.zux_reserve(), zux);
                assert_eq!(pool.usd_reserve(), usd);
            }
        }
        assert_eq!(pool.k_constant(), pool.zux_reserve() as u128 * pool.usd_reserve() as u128);
        assert!(pool.k_constant() >= k);
        assert!(pool.zux_reserve() > 0 && pool.usd_reserve() > 0);
        k = pool.k_constant();
    }
}

#[test]
fn history_is_capped_and_drops_the_oldest() {
    let mut pool = pool();
    for round in 0..1004u64 {
        pool.swap_at(COIN, round % 2 == 0, 1000 + round).unwrap();
    }
    assert_eq!(pool.history_len(), PRICE_HISTORY_LIMIT);
    assert_eq!(PRICE_HISTORY_LIMIT, 1000);
    let all = pool.get_recent_price_history(5000);
    assert_eq!(all.len(), 1000);
    assert_eq!(all[0].timestamp, 1004);
    assert_eq!(all[999].timestamp, 2003);
    assert_eq!(all[999].price, pool.get_zux_price());
}

#[test]
fn recent_history_returns_the_last_points() {
    let mut pool = pool();
    pool.swap_at(COIN, true, 101).unwrap();
    pool.swap_at(COIN, true, 102).unwrap();
    let last_two = pool.get_recent_price_history(2);
    assert_eq!(last_two.len(), 2);
    assert_eq!(last_two[0].timestamp, 101);
    assert_eq!(last_two[1].timestamp, 102);
    assert_eq!(pool.get_recent_price_history(0), Vec::new());
    assert_eq!(pool.get_recent_price_history(3).len(), 3);
    assert_eq!(pool.get_recent_price_history(4).len(), 3);
}

#[test]
fn volume_is_the_mean_of_both_sides() {
    let mut pool = pool();
    pool.add_volume_at(10, 5, 101);
    assert_eq!(pool.volumes(), (7, 7));
    pool.add_volume_at(1, 0, 102);
    assert_eq!(pool.volumes(), (7, 7));
    pool.add_volume_at(100, 100, 105);
    assert_eq!(pool.volumes(), (107, 100));
}

#[test]
fn volume_stops_at_the_largest_number() {
    let mut pool = pool();
    pool.add_volume_at(u128::MAX, 0, 101);
    pool.add_volume_at(u128::MAX, 0, 101);
    pool.add_volume_at(u128::MAX, 0, 101);
    assert_eq!(pool.volumes(), (u128::MAX, u128::MAX));
}

#[test]
fn swaps_at_the_present_time() {
    let mut pool = AmmPool::new(1000 * COIN, 1000 * COIN, 3000);
    let created = pool.get_recent_price_history(1)[0].timestamp;
    assert!(created > 1_600_000_000);
    assert_eq!(pool.swap_zux_to_usd(10 * COIN), Ok(9_871_580_343));
    assert_eq!(pool.zux_reserve(), 1010 * COIN);
    assert_eq!(pool.swap_usd_to_zux(0), Err(BlockchainError::Validation(ValidationFault::NonPositiveAmount)));
    assert_eq!(pool.swap_usd_to_zux(20 * COIN), Ok(19_938_649_311));
    assert_eq!(pool.history_len(), 3);
    assert!(pool.get_recent_price_history(1)[0].timestamp >= created);
    pool.add_volume(4, 4);
    assert_eq!(pool.volumes().0, 9_935_790_171 + 19_773_179_867 + 4);
}
