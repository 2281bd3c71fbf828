use zux_chain::hashing::hash_text;
use zux_chain::text::append_amount;
use zux_chain::text::append_bool;
use zux_chain::text::append_decimal;
use zux_chain::text::append_fixed_decimal;
use zux_chain::text::has_zero_prefix;
use zux_chain::text::push_digit;

fn decimal(n: u64) -> String {
    let mut out = String::new();
    append_decimal(&mut out, n);
    out
}

fn fixed(n: u64, width: u64) -> String {
    let mut out = String::new();
    append_fixed_decimal(&mut out, n, width);
    out
}

fn amount(a: u64) -> String {
    let mut out = String::new();
    append_amount(&mut out, a);
    out
}

#[test]
fn decimal_of_small_numbers() {
    assert_eq!(decimal(0), "0");
    assert_eq!(decimal(7), "7");
    assert_eq!(decimal(10), "10");
    assert_eq!(decimal(1_234_567_890), "1234567890");
}

#[test]
fn decimal_of_the_largest_number() {
    assert_eq!(decimal(u64::MAX), "18446744073709551615");
}

#[test]
fn decimal_agrees_with_the_standard_library() {
    let mut n: u64 = 1;
    for _ in 0..64 {
        assert_eq!(decimal(n), n.to_string());
        assert_eq!(decimal(n - 1), (n - 1).to_string());
        n = n.wrapping_mul(3).wrapping_add(11);
    }
}

#[test]
fn decimal_is_appended_to_what_is_there() {
    let mut out = String::from("id=");
    append_decimal(&mut out, 42);
    assert_eq!(out, "id=42");
}

#[test]
fn fixed_decimal_pads_with_zeros() {
    assert_eq!(fixed(42, 5), "00042");
    assert_eq!(fixed(0, 3), "000");
    assert_eq!(fixed(7, 1), "7");
}

#[test]
fn fixed_decimal_of_width_zero_is_empty() {
    assert_eq!(fixed(12345, 0), "");
}

#[test]
fn fixed_decimal_keeps_the_last_digits() {
    assert_eq!(fixed(12345, 3), "345");
    assert_eq!(fixed(u64::MAX, 25), "0000018446744073709551615");
}

#[test]
fn amount_has_nine_fractional_digits() {
    assert_eq!(amount(0), "0.000000000");
    assert_eq!(amount(1), "0.000000001");
    assert_eq!(amount(1_500_000_000), "1.500000000");
    assert_eq!(amount(100_000_000_000), "100.000000000");
    assert_eq!(amount(9_871_580_343), "9.871580343");
    assert_eq!(amount(u64::MAX), "18446744073.709551615");
}

#[test]
fn truth_values_are_written_in_words() {
    let mut out = String::from("x:");
    append_bool(&mut out, true);
    out.push(':');
    append_bool(&mut out, false);
    assert_eq!(out, "x:true:false");
}

#[test]
fn digits_are_pushed_one_by_one() {
    let mut out = String::new();
    for d in 0..10u8 {
        push_digit(&mut out, d);
    }
    assert_eq!(out, "0123456789");
}

#[test]
fn zero_prefix_is_counted_exactly() {
    assert!(has_zero_prefix("000abc", 0));
    assert!(has_zero_prefix("000abc", 3));
    assert!(!has_zero_prefix("000abc", 4));
    assert!(!has_zero_prefix("00abc", 3));
    assert!(!has_zero_prefix("a000", 1));
}

#[test]
fn zero_prefix_cannot_be_longer_than_the_text() {
    assert!(has_zero_prefix("", 0));
    assert!(!has_zero_prefix("", 1));
    assert!(has_zero_prefix("00", 2));
    assert!(!has_zero_prefix("00", 3));
    assert!(!has_zero_prefix("00", u64::MAX));
}

#[test]
fn zero_prefix_counts_characters_not_bytes() {
    assert!(!has_zero_prefix("é0", 1));
    assert!(has_zero_prefix("0é", 1));
    assert!(!has_zero_prefix("0é", 2));
}

#[test]
fn hash_of_the_empty_text() {
    assert_eq!(
        hash_text(""),
        "e3b0c44298fc1c149afbf4c8996fb92427ae41e4649b934ca495991b7852b855"
    );
}

#[test]
fn hash_of_abc() {
    assert_eq!(
        hash_text("abc"),
        "ba7816bf8f01cfea414140de5dae2223b00361a396177a9cb410ff61f20015ad"
    );
}

#[test]
fn hash_is_sixty_four_small_hex_digits() {
    let hash = hash_text("wallet_creation:0000005");
    assert_eq!(hash, "8cf218f0534b713b68740d87bea47b296d3248c7550e3d5ec3e53ce302d4d5ed");
    assert_eq!(hash.len(), 64);
    assert!(hash.chars().all(|c| c.is_ascii_digit() || ('a'..='f').contains(&c)));
}

#[test]
fn hash_is_taken_over_the_bytes_of_the_text() {
    let text = "héllo ✓";
    let expected = hex::encode(<sha2::Sha256 as sha2::Digest>::digest(text.as_bytes()));
    assert_eq!(hash_text(text), expected);
}

#[test]
fn texts_are_compared_character_by_character() {
    assert!(zux_chain::text::same_text("", ""));
    assert!(zux_chain::text::same_text("ZUX", "ZUX"));
    assert!(!zux_chain::text::same_text("ZUX", "ZUx"));
    assert!(!zux_chain::text::same_text("ZUX", "ZUXX"));
    assert!(!zux_chain::text::same_text("é", "e"));
}
