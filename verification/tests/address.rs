use zux_chain::address::to_code;
use zux_chain::address::UniqueCodeGenerator;
use zux_chain::address::CODE_LEN;
use zux_chain::address::MODULUS;
use zux_chain::error::BlockchainError;

#[test]
fn code_of_zero_is_seven_zeros() {
    assert_eq!(to_code(0), "0000000");
}

#[test]
fn code_digits_follow_the_alphabet() {
    assert_eq!(to_code(9), "0000009");
    assert_eq!(to_code(10), "000000a");
    assert_eq!(to_code(35), "000000z");
    assert_eq!(to_code(36), "000000A");
    assert_eq!(to_code(61), "000000Z");
    assert_eq!(to_code(62), "0000010");
    assert_eq!(to_code(62 * 62 + 1), "0000101");
}

#[test]
fn largest_code_is_seven_capital_z() {
    assert_eq!(to_code(MODULUS - 1), "ZZZZZZZ");
}

#[test]
fn code_keeps_the_last_seven_digits() {
    assert_eq!(to_code(MODULUS), "0000000");
    assert_eq!(to_code(MODULUS + 63), "0000011");
    assert_eq!(to_code(u64::MAX).len(), CODE_LEN);
}

#[test]
fn multiplier_must_be_coprime_with_the_code_space() {
    assert!(UniqueCodeGenerator::with_constants(0, 5).is_none());
    assert!(UniqueCodeGenerator::with_constants(2, 5).is_none());
    assert!(UniqueCodeGenerator::with_constants(31, 5).is_none());
    assert!(UniqueCodeGenerator::with_constants(62, 5).is_none());
    assert!(UniqueCodeGenerator::with_constants(93, 5).is_none());
    assert!(UniqueCodeGenerator::with_constants(1, 5).is_some());
    assert!(UniqueCodeGenerator::with_constants(3, 5).is_some());
    assert!(UniqueCodeGenerator::with_constants(u64::MAX, 5).is_some());
}

#[test]
fn generate_follows_the_permutation() {
    let mut generator = UniqueCodeGenerator::with_constants(3, 5).unwrap();
    assert_eq!(generator.generate(), Ok("0000005".to_string()));
    assert_eq!(generator.generate(), Ok("0000008".to_string()));
    assert_eq!(generator.generate(), Ok("000000b".to_string()));
}

#[test]
fn offset_is_reduced_into_the_code_space() {
    let mut generator = UniqueCodeGenerator::with_constants(1, MODULUS + 7).unwrap();
    assert_eq!(generator.generate(), Ok("0000007".to_string()));
}

#[test]
fn permutation_wraps_at_the_modulus() {
    let mut generator = UniqueCodeGenerator::with_constants(MODULUS - 1, 0).unwrap();
    assert_eq!(generator.generate(), Ok("0000000".to_string()));
    assert_eq!(generator.generate(), Ok("ZZZZZZZ".to_string()));
    assert_eq!(generator.generate(), Ok("ZZZZZZY".to_string()));
}

#[test]
fn reserved_code_is_skipped() {
    let mut generator = UniqueCodeGenerator::with_constants(1, 0).unwrap();
    generator.reserve_code("0000000");
    generator.reserve_code("0000001");
    assert!(generator.is_used("0000000"));
    assert_eq!(generator.generate(), Ok("0000002".to_string()));
    assert!(generator.is_used("0000002"));
    assert!(!generator.is_used("0000003"));
}

#[test]
fn reserved_code_is_never_issued() {
    let mut generator = UniqueCodeGenerator::with_constants(1, 0).unwrap();
    generator.reserve_code("0000004");
    for _ in 0..50 {
        let code = generator.generate().unwrap();
        assert_ne!(code, "0000004");
    }
}

#[test]
fn ten_collisions_exhaust_the_generator() {
    let mut generator = UniqueCodeGenerator::with_constants(1, 0).unwrap();
    for x in 0..10 {
        generator.reserve_code(&to_code(x));
    }
    assert_eq!(generator.generate(), Err(BlockchainError::GenerationExhausted));
    assert_eq!(generator.generate(), Ok("000000a".to_string()));
}

#[test]
fn nine_collisions_do_not_exhaust_the_generator() {
    let mut generator = UniqueCodeGenerator::with_constants(1, 0).unwrap();
    for x in 0..9 {
        generator.reserve_code(&to_code(x));
    }
    assert_eq!(generator.generate(), Ok("0000009".to_string()));
}

#[test]
fn generated_codes_do_not_repeat() {
    let mut generator = UniqueCodeGenerator::with_constants(2_862_933_555_777_941_757, 3_037_000_493)
        .unwrap();
    let mut seen = std::collections::HashSet::new();
    for _ in 0..20_000 {
        let code = generator.generate().unwrap();
        assert_eq!(code.len(), CODE_LEN);
        assert!(seen.insert(code));
    }
}

#[test]
fn new_generator_issues_distinct_codes() {
    let mut generator = UniqueCodeGenerator::new().unwrap();
    generator.reserve_code("SYSTEM");
    let mut seen = std::collections::HashSet::new();
    for _ in 0..1_000 {
        let code = generator.generate().unwrap();
        assert_ne!(code, "SYSTEM");
        assert!(seen.insert(code));
    }
}
