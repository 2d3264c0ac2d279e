use atha::format_bytes;

#[test]
fn bytes_below_one_kib_are_whole() {
    assert_eq!(format_bytes(0), "0 B");
    assert_eq!(format_bytes(1), "1 B");
    assert_eq!(format_bytes(1023), "1023 B");
}

#[test]
fn one_kib_has_two_decimals() {
    assert_eq!(format_bytes(1024), "1.00 KiB");
    assert_eq!(format_bytes(1536), "1.50 KiB");
}

#[test]
fn halves_round_to_even() {
    // 1152 / 1024 = 1.125, written with two decimals as 1.12
    assert_eq!(format_bytes(1152), "1.12 KiB");
    // 1408 / 1024 = 1.375 -> 1.38
    assert_eq!(format_bytes(1408), "1.38 KiB");
}

#[test]
fn values_round_up_into_the_next_hundredth() {
    // 1048575 / 1024 = 1023.999..., shown in KiB
    assert_eq!(format_bytes(1_048_575), "1024.00 KiB");
    assert_eq!(format_bytes(1_048_576), "1.00 MiB");
}

#[test]
fn larger_units() {
    assert_eq!(format_bytes(5 * 1024 * 1024 * 1024), "5.00 GiB");
    assert_eq!(format_bytes(3 * 1024 * 1024 * 1024 * 1024), "3.00 TiB");
    assert_eq!(format_bytes(2 * 1024 * 1024 * 1024 * 1024 * 1024), "2048.00 TiB");
}

#[test]
fn largest_value() {
    // u64::MAX becomes 2^64 as a float, which is 16777216 TiB.
    assert_eq!(format_bytes(u64::MAX), "16777216.00 TiB");
}

#[test]
fn formatting_matches_float_arithmetic() {
    let samples: [u64; 12] = [
        1025, 2047, 10_000, 123_456, 999_999, 5_242_879, 7_340_032, 1_000_000_000,
        9_876_543_210, 1_099_511_627_775, 123_456_789_012_345, 18_000_000_000_000_000_000,
    ];
    for b in samples {
        let units = ["B", "KiB", "MiB", "GiB", "TiB"];
        let mut val = b as f64;
        let mut i = 0usize;
        while val >= 1024.0 && i < units.len() - 1 {
            val /= 1024.0;
            i += 1;
        }
        let expected = if i == 0 {
            format!("{} {}", val as u64, units[i])
        } else {
            format!("{:.2} {}", val, units[i])
        };
        assert_eq!(format_bytes(b), expected, "bytes = {b}");
    }
}
