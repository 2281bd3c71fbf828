use zux_chain::amm::PricePoint;
use zux_chain::error::BlockFault;
use zux_chain::error::BlockchainError;
use zux_chain::error::SignatureFault;
use zux_chain::error::ValidationFault;
use zux_chain::monitor::calculate_high_low;
use zux_chain::monitor::calculate_price_change;
use zux_chain::monitor::change_between;
use zux_chain::monitor::VolumeTracker;

fn prices() -> Vec<PricePoint> {
    vec![
        PricePoint { timestamp: 100, price: 1_000 },
        PricePoint { timestamp: 110, price: 1_500 },
        PricePoint { timestamp: 120, price: 800 },
        PricePoint { timestamp: 130, price: 1_200 },
    ]
}

#[test]
fn tracker_counts_and_sums() {
    let mut tracker = VolumeTracker::new();
    assert_eq!(tracker.get_trades_count(), 0);
    assert_eq!(tracker.get_volume_24h(), 0);
    tracker.update(1_000, 5);
    tracker.update(1_010, 7);
    tracker.update(1_020, 11);
    assert_eq!(tracker.get_trades_count(), 3);
    assert_eq!(tracker.get_volume_24h(), 23);
}

#[test]
fn tracker_sums_a_period() {
    let mut tracker = VolumeTracker::new();
    tracker.update(1_000, 5);
    tracker.update(1_010, 7);
    tracker.update(1_020, 11);
    assert_eq!(tracker.get_volume_period(1_020, 10), 18);
    assert_eq!(tracker.get_volume_period(1_020, 9), 11);
    assert_eq!(tracker.get_volume_period(1_020, 20), 23);
    assert_eq!(tracker.get_volume_period(1_030, 9), 0);
    assert_eq!(tracker.get_volume_period(5, 10), 23);
    assert_eq!(tracker.get_volume_period(u64::MAX, 0), 0);
}

#[test]
fn tracker_forgets_after_a_day() {
    let mut tracker = VolumeTracker::new();
    tracker.update(1_000, 5);
    tracker.update(50_000, 7);
    tracker.update(87_400, 11);
    assert_eq!(tracker.get_volume_24h(), 23);
    tracker.update(87_401, 13);
    assert_eq!(tracker.get_volume_24h(), 31);
    assert_eq!(tracker.get_trades_count(), 4);
    tracker.update(200_000, 1);
    assert_eq!(tracker.get_volume_24h(), 1);
    assert_eq!(tracker.get_trades_count(), 5);
}

#[test]
fn tracker_sum_stops_at_the_largest_number() {
    let mut tracker = VolumeTracker::new();
    tracker.update(1_000, u128::MAX - 1);
    tracker.update(1_000, 1);
    assert_eq!(tracker.get_volume_24h(), u128::MAX);
    tracker.update(1_000, 5);
    assert_eq!(tracker.get_volume_24h(), u128::MAX);
}

#[test]
fn tracker_at_the_present_time() {
    let now = std::time::SystemTime::now()
        .duration_since(std::time::UNIX_EPOCH)
        .unwrap()
        .as_secs();
    let mut tracker = VolumeTracker::new();
    tracker.update(now - 4_000, 1);
    tracker.update(now - 1_000, 2);
    tracker.update(now - 100, 4);
    tracker.update(now, 8);
    assert_eq!(tracker.get_volume_1h(), 14);
    assert_eq!(tracker.get_volume_5m(), 12);
    assert_eq!(tracker.get_volume_1m(), 8);
    assert_eq!(tracker.get_volume_lately(2_000), 14);
    assert!(tracker.get_volume_10s() <= 8);
    assert!(tracker.get_volume_5s() <= 8);
}

#[test]
fn change_is_in_millionths_of_the_earlier_price() {
    assert_eq!(change_between(1_000, 1_200), 200_000);
    assert_eq!(change_between(1_000, 800), -200_000);
    assert_eq!(change_between(1_000, 1_000), 0);
    assert_eq!(change_between(3, 4), 333_333);
    assert_eq!(change_between(3, 2), -333_333);
    assert_eq!(change_between(0, 5), 0);
    assert_eq!(change_between(5, 0), -1_000_000);
    assert_eq!(
        change_between(1, 18_446_744_073_709_551_615_000_000_000),
        18_446_744_073_709_551_614_999_999_999_000_000
    );
}

#[test]
fn price_change_runs_from_the_first_price_of_the_period() {
    assert_eq!(calculate_price_change(&prices(), 130, 30), 200_000);
    assert_eq!(calculate_price_change(&prices(), 130, 20), -200_000);
    assert_eq!(calculate_price_change(&prices(), 130, 10), 500_000);
    assert_eq!(calculate_price_change(&prices(), 130, 0), 0);
    assert_eq!(calculate_price_change(&prices(), 131, 0), 0);
    assert_eq!(calculate_price_change(&prices(), 10, 60), 200_000);
    assert_eq!(calculate_price_change(&[], 130, 60), 0);
}

#[test]
fn price_change_from_zero_is_zero() {
    let history = vec![PricePoint { timestamp: 1, price: 0 }, PricePoint { timestamp: 2, price: 9 }];
    assert_eq!(calculate_price_change(&history, 2, 5), 0);
}

#[test]
fn high_and_low_of_a_period() {
    assert_eq!(calculate_high_low(&prices(), 130, 30), (1_500, 800));
    assert_eq!(calculate_high_low(&prices(), 130, 10), (1_200, 800));
    assert_eq!(calculate_high_low(&prices(), 130, 0), (1_200, 1_200));
    assert_eq!(calculate_high_low(&prices(), 131, 0), (0, 0));
    assert_eq!(calculate_high_low(&prices(), 115, 10), (1_500, 800));
    assert_eq!(calculate_high_low(&[], 130, 30), (0, 0));
}

#[test]
fn failures_are_put_in_words() {
    assert_eq!(
        BlockchainError::Validation(ValidationFault::NonPositiveAmount).message(),
        "Amount must be greater than zero"
    );
    assert_eq!(
        BlockchainError::Validation(ValidationFault::UnsupportedCurrency).message(),
        "Unsupported currency"
    );
    assert_eq!(
        BlockchainError::Validation(ValidationFault::AmountTooSmall).message(),
        "Amount is too small to trade"
    );
    assert_eq!(
        BlockchainError::Validation(ValidationFault::NoTrader).message(),
        "No wallets available for swap"
    );
    assert_eq!(
        BlockchainError::Balance { available: 1_500_000_000, requested: 2_000_000_001 }.message(),
        "Insufficient balance: 1.500000000 (needed: 2.000000001)"
    );
    assert_eq!(BlockchainError::Signature(SignatureFault::MalformedKey).message(), "Invalid key");
    assert_eq!(
        BlockchainError::Signature(SignatureFault::MalformedSignature).message(),
        "Invalid signature length"
    );
    assert_eq!(
        BlockchainError::Signature(SignatureFault::VerificationFailed).message(),
        "Signature verification failed"
    );
    assert_eq!(
        BlockchainError::MiningExhausted.message(),
        "Failed to mine block: no valid nonce within the limit"
    );
    assert_eq!(BlockchainError::Pool.message(), "Swap would result in too small output");
    assert_eq!(
        BlockchainError::GenerationExhausted.message(),
        "Failed to generate unique wallet address"
    );
    assert_eq!(BlockchainError::Block(BlockFault::HashMismatch).message(), "Invalid block hash");
    assert_eq!(
        BlockchainError::Block(BlockFault::DifficultyNotMet).message(),
        "Block hash does not meet difficulty target"
    );
    assert_eq!(BlockchainError::Time.message(), "Invalid timestamp");
}
