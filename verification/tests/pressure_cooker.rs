use kiln::log_scale::{size_factor_of, SIZE_THRESHOLDS};
use kiln::pressure_cooker::{
    calculate_optimal_pressure, prepare_feedstock, rolling_checksum, validate_purity,
};

const EMPTY_DIGEST: [u8; 32] = [
    0xaf, 0x13, 0x49, 0xb9, 0xf5, 0xf9, 0xa1, 0xa6, 0xa0, 0x40, 0x4d, 0xea, 0x36, 0xdc, 0xc9, 0x49,
    0x9b, 0xcb, 0x25, 0xc9, 0xad, 0xc1, 0x12, 0xb7, 0xcc, 0x9a, 0x93, 0xca, 0xe4, 0x1f, 0x32, 0x62,
];

#[test]
fn test_prepare_feedstock() {
    let data = b"test data for sintering";
    let result = prepare_feedstock(data);
    assert_eq!(result.original_size, data.len() as u64);
}

#[test]
fn test_validate_purity() {
    assert!(validate_purity(b"valid data"));
    assert!(!validate_purity(b""));
}

#[test]
fn purity_limits() {
    assert!(!validate_purity(b""));
    assert!(validate_purity(&[0u8]));
    let at_limit = vec![0u8; 10_485_760];
    assert!(validate_purity(&at_limit));
    let over_limit = vec![0u8; 10_485_761];
    assert!(!validate_purity(&over_limit));
}

#[test]
fn digest_of_empty_input_is_the_known_value() {
    assert_eq!(prepare_feedstock(b"").hash, EMPTY_DIGEST);
}

#[test]
fn digest_is_that_of_blake3() {
    let short = b"test data for sintering";
    assert_eq!(&prepare_feedstock(short).hash, blake3::hash(short).as_bytes());
    let long: Vec<u8> = (0..100_000u32).map(|i| (i % 251) as u8).collect();
    assert_eq!(&prepare_feedstock(&long).hash, blake3::hash(&long).as_bytes());
}

#[test]
fn digest_is_not_the_input() {
    let data = [7u8; 32];
    assert_ne!(prepare_feedstock(&data).hash, data);
}

#[test]
fn digest_is_deterministic() {
    let data = b"the same bytes twice";
    let first = prepare_feedstock(data);
    let second = prepare_feedstock(&data.to_vec());
    assert_eq!(first.hash, second.hash);
    assert_eq!(first, second);
}

#[test]
fn digest_changes_with_one_bit() {
    let data = *b"feedstock for the avalanche test";
    let base = prepare_feedstock(&data).hash;
    for position in 0..data.len() {
        for bit in 0..8 {
            let mut flipped = data;
            flipped[position] ^= 1 << bit;
            let hash = prepare_feedstock(&flipped).hash;
            assert_ne!(hash, base);
            let differing: u32 = hash.iter().zip(base.iter()).map(|(a, b)| (a ^ b).count_ones()).sum();
            assert!(differing > 64, "only {} bits differ", differing);
        }
    }
}

#[test]
fn prepared_feedstock_is_not_compressed() {
    let result = prepare_feedstock(b"abc");
    assert_eq!(result.compression_ratio_permille, 1000);
    assert_eq!(result.original_size, 3);
    assert_eq!(result.checksum, 294);
}

#[test]
fn checksum_adds_bytes() {
    assert_eq!(rolling_checksum(b""), 0);
    assert_eq!(rolling_checksum(b"abc"), 97 + 98 + 99);
    assert_eq!(rolling_checksum(&[255u8; 1000]), 255_000);
}

#[test]
fn checksum_wraps_at_32_bits() {
    // 16_843_010 * 255 = 2^32 + 254
    let data = vec![255u8; 16_843_010];
    assert_eq!(rolling_checksum(&data), 254);
    assert_eq!(prepare_feedstock(&data).checksum, 254);
}

#[test]
fn size_factor_of_small_sizes() {
    assert_eq!(size_factor_of(0), 0);
    assert_eq!(size_factor_of(1), 0);
    assert_eq!(size_factor_of(2), 5);
    assert_eq!(size_factor_of(3), 8);
    assert_eq!(size_factor_of(4), 10);
    assert_eq!(size_factor_of(5), 12);
    assert_eq!(size_factor_of(6), 13);
    assert_eq!(size_factor_of(7), 14);
    assert_eq!(size_factor_of(1024), 50);
}

#[test]
fn size_factor_is_capped() {
    assert_eq!(size_factor_of(978_356), 99);
    assert_eq!(size_factor_of(978_357), 100);
    assert_eq!(size_factor_of(1 << 20), 100);
    assert_eq!(size_factor_of(10_485_760), 100);
    assert_eq!(size_factor_of(u64::MAX), 100);
}

#[test]
fn size_factor_agrees_with_float_formula() {
    let mut sizes: Vec<u64> = (1..200_000).collect();
    let mut n: u64 = 200_000;
    while n < 2_000_000 {
        sizes.push(n);
        sizes.push(n + 1);
        n += n / 97 + 1;
    }
    for &threshold in SIZE_THRESHOLDS.iter() {
        sizes.push(threshold - 1);
        sizes.push(threshold);
        sizes.push(threshold + 1);
    }
    for &size in &sizes {
        let expected = ((size as f64).log2() * 5.0).round().min(100.0) as u8;
        assert_eq!(size_factor_of(size), expected, "size {}", size);
    }
}

#[test]
fn optimal_pressure_values() {
    assert_eq!(calculate_optimal_pressure(0, 0), 90);
    assert_eq!(calculate_optimal_pressure(1, 0), 90);
    assert_eq!(calculate_optimal_pressure(2, 0), 95);
    assert_eq!(calculate_optimal_pressure(1024, 0), 140);
    assert_eq!(calculate_optimal_pressure(1024, 10), 160);
    assert_eq!(calculate_optimal_pressure(10_485_760, 0), 190);
    assert_eq!(calculate_optimal_pressure(10_485_760, 32), 254);
}

#[test]
fn optimal_pressure_saturates() {
    assert_eq!(calculate_optimal_pressure(10_485_760, 33), 255);
    assert_eq!(calculate_optimal_pressure(1024, 58), 255);
    assert_eq!(calculate_optimal_pressure(0, 127), 255);
    assert_eq!(calculate_optimal_pressure(0, 128), 255);
    assert_eq!(calculate_optimal_pressure(0, 82), 254);
    assert_eq!(calculate_optimal_pressure(u64::MAX, 255), 255);
}

#[test]
fn optimal_pressure_stays_in_range() {
    for urgency in 0..=255u8 {
        for size in [0u64, 1, 2, 100, 65_536, 978_357, u64::MAX] {
            let pressure = calculate_optimal_pressure(size, urgency);
            assert!(pressure >= 90);
        }
    }
}
