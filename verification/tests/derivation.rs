use lottery_token::amount::RANGE_WIDTH;
use lottery_token::uint256::Uint256;

fn of_u128(x: u128) -> Uint256 {
    Uint256::from_u128(x)
}

#[test]
fn derive_zero_gives_one() {
    assert_eq!(lottery_token::amount::derive(&of_u128(0)), 1);
}

#[test]
fn derive_range_width_wraps_to_one() {
    assert_eq!(lottery_token::amount::derive(&of_u128(RANGE_WIDTH)), 1);
}

#[test]
fn derive_range_width_plus_five_gives_six() {
    assert_eq!(lottery_token::amount::derive(&of_u128(RANGE_WIDTH + 5)), 6);
}

#[test]
fn derive_small_value_shifts_by_one() {
    assert_eq!(lottery_token::amount::derive(&of_u128(12345)), 12346);
}

#[test]
fn derive_top_of_range() {
    assert_eq!(lottery_token::amount::derive(&of_u128(RANGE_WIDTH - 1)), RANGE_WIDTH);
}

#[test]
fn derive_second_limb() {
    // 2^64 mod 10^21 is 2^64 itself.
    let raw = Uint256 { limb0: 0, limb1: 1, limb2: 0, limb3: 0 };
    assert_eq!(lottery_token::amount::derive(&raw), 18_446_744_073_709_551_617);
}

#[test]
fn derive_third_limb() {
    // 2^128 mod 10^21 = 463374607431768211456.
    let raw = Uint256 { limb0: 0, limb1: 0, limb2: 1, limb3: 0 };
    assert_eq!(lottery_token::amount::derive(&raw), 463_374_607_431_768_211_457);
}

#[test]
fn derive_fourth_limb() {
    // 2^192 mod 10^21 = 102355444464034512896.
    let raw = Uint256 { limb0: 0, limb1: 0, limb2: 0, limb3: 1 };
    assert_eq!(lottery_token::amount::derive(&raw), 102_355_444_464_034_512_897);
}

#[test]
fn derive_all_four_limbs() {
    // (2*2^192 + 3*2^128 + 4*2^64 + 5) mod 10^21 + 1.
    let raw = Uint256 { limb0: 5, limb1: 4, limb2: 3, limb3: 2 };
    assert_eq!(lottery_token::amount::derive(&raw), 668_621_687_518_211_866_630);
}

#[test]
fn derive_u128_max() {
    assert_eq!(lottery_token::amount::derive(&of_u128(u128::MAX)), 463_374_607_431_768_211_456);
}

#[test]
fn derive_always_in_range() {
    let samples: Vec<Uint256> = vec![
        of_u128(0),
        of_u128(1),
        of_u128(RANGE_WIDTH),
        of_u128(u128::MAX),
        Uint256 { limb0: u64::MAX, limb1: u64::MAX, limb2: u64::MAX, limb3: u64::MAX },
        Uint256 { limb0: 9, limb1: 0, limb2: 0, limb3: u64::MAX },
    ];
    for raw in samples {
        let amount = lottery_token::amount::derive(&raw);
        assert!(1 <= amount && amount <= RANGE_WIDTH);
    }
}

#[test]
fn reduce_matches_small_moduli() {
    assert_eq!(of_u128(100).reduce(7), 2);
    assert_eq!(of_u128(0).reduce(1), 0);
    let raw = Uint256 { limb0: 1, limb1: 0, limb2: 1, limb3: 0 };
    // (2^128 + 1) mod 2^96 = 1.
    assert_eq!(raw.reduce(1 << 96), 1);
}
