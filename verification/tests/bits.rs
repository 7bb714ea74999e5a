use conc_map_bench::bits::{
    is_countable, is_not_below_zero, scale, INFINITY_BITS, NEGATIVE_ZERO_BITS, ONE_FIFTH_BITS,
    THREE_HALVES_BITS,
};

#[test]
fn named_bits_are_those_of_the_numbers() {
    assert_eq!(INFINITY_BITS, f64::INFINITY.to_bits());
    assert_eq!(NEGATIVE_ZERO_BITS, (-0.0f64).to_bits());
    assert_eq!(ONE_FIFTH_BITS, 0.2f64.to_bits());
    assert_eq!(THREE_HALVES_BITS, 1.5f64.to_bits());
}

#[test]
fn not_below_zero_is_what_the_comparison_says() {
    let numbers = [
        0.0,
        -0.0,
        1.0,
        0.2,
        f64::MIN_POSITIVE,
        5e-324,
        f64::MAX,
        f64::INFINITY,
        -5e-324,
        -1.0,
        f64::NEG_INFINITY,
        f64::NAN,
        -f64::NAN,
    ];
    for number in numbers {
        assert_eq!(is_not_below_zero(number.to_bits()), number >= 0.0, "{}", number);
        assert_eq!(
            is_countable(number.to_bits()),
            number >= 0.0 && number.is_finite(),
            "{}",
            number
        );
    }
}

#[test]
fn scale_multiplies_by_a_power_of_two_and_rounds_down() {
    assert_eq!(scale(1.0f64.to_bits(), 10), Some(1024));
    assert_eq!(scale(0.75f64.to_bits(), 25), Some(25_165_824));
    assert_eq!(scale(0.2f64.to_bits(), 24), Some(3_355_443));
    assert_eq!(scale(1.5f64.to_bits(), 24), Some(25_165_824));
    assert_eq!(scale(1.5f64.to_bits(), 0), Some(1));
    assert_eq!(scale(0.999f64.to_bits(), 0), Some(0));
    assert_eq!(scale(0.3f64.to_bits(), 10), Some(307));
    assert_eq!(scale(0.0f64.to_bits(), 63), Some(0));
    assert_eq!(scale((-0.0f64).to_bits(), 63), Some(0));
    assert_eq!(scale(5e-324f64.to_bits(), 255), Some(0));
    assert_eq!(scale(f64::MIN_POSITIVE.to_bits(), 255), Some(0));
}

#[test]
fn scale_gives_nothing_beyond_64_bits() {
    let half_way = 9_223_372_036_854_775_808.0f64;
    assert_eq!(scale(half_way.to_bits(), 0), Some(1 << 63));
    assert_eq!(scale(half_way.to_bits(), 1), None);
    assert_eq!(scale(1.0f64.to_bits(), 63), Some(1 << 63));
    assert_eq!(scale(1.0f64.to_bits(), 64), None);
    assert_eq!(scale(1e300f64.to_bits(), 0), None);
    assert_eq!(scale(f64::MAX.to_bits(), 255), None);
    assert_eq!(scale(18_446_744_073_709_549_568.0f64.to_bits(), 0), Some(18_446_744_073_709_549_568));
}

#[test]
fn scale_agrees_with_floating_point_where_that_is_exact() {
    let numbers = [0.0f64, 0.1, 0.2, 0.25, 0.5, 0.75, 0.8, 1.0, 1.5, 2.0, 3.7, 100.0, 12345.678];
    for number in numbers {
        for shift in 0..=30u8 {
            let expected = (number * (1u64 << shift) as f64) as u64;
            assert_eq!(scale(number.to_bits(), shift), Some(expected), "{} {}", number, shift);
        }
    }
}
