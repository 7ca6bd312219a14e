use finalunlock::filesize::{rounded_quotient, to_nearest_double};
use finalunlock::utils::{calculate_uptime, format_file_size, format_uptime, uptime_since};

/// The same size by way of double precision arithmetic and the standard
/// formatter.
fn by_floats(bytes: u64) -> String {
    let units = ["B", "KB", "MB", "GB", "TB"];
    let mut size = bytes as f64;
    let mut unit_index = 0;
    while size >= 1024.0 && unit_index < units.len() - 1 {
        size /= 1024.0;
        unit_index += 1;
    }
    if unit_index == 0 {
        format!("{} {}", bytes, units[unit_index])
    } else {
        format!("{:.1} {}", size, units[unit_index])
    }
}

#[test]
fn test_format_file_size() {
    assert_eq!(format_file_size(1024), "1.0 KB");
    assert_eq!(format_file_size(1048576), "1.0 MB");
    assert_eq!(format_file_size(500), "500 B");
}

#[test]
fn test_calculate_uptime() {
    let start_time = std::time::SystemTime::now()
        .duration_since(std::time::UNIX_EPOCH)
        .unwrap()
        .as_secs()
        - 3661;

    let uptime = calculate_uptime(start_time).unwrap();
    assert!(uptime.contains("01:01:01"));
}

#[test]
fn file_size_units_and_edges() {
    assert_eq!(format_file_size(0), "0 B");
    assert_eq!(format_file_size(1), "1 B");
    assert_eq!(format_file_size(1023), "1023 B");
    assert_eq!(format_file_size(1536), "1.5 KB");
    assert_eq!(format_file_size(1048575), "1024.0 KB");
    assert_eq!(format_file_size(1073741824), "1.0 GB");
    assert_eq!(format_file_size(1099511627776), "1.0 TB");
    assert_eq!(format_file_size(5 * 1099511627776), "5.0 TB");
    assert_eq!(format_file_size(u64::MAX), "16777216.0 TB");
}

#[test]
fn file_size_ties_go_to_the_even_tenth() {
    // 1.25, 1.35 (below the tie as a fraction of 1024), 1.75
    assert_eq!(format_file_size(1280), "1.2 KB");
    assert_eq!(format_file_size(1792), "1.8 KB");
    assert_eq!(format_file_size(1280 * 1024), "1.2 MB");
    assert_eq!(format_file_size(1331), "1.3 KB");
    assert_eq!(format_file_size(1332), "1.3 KB");
}

#[test]
fn file_size_agrees_with_double_precision() {
    let mut samples: Vec<u64> = Vec::new();
    for n in 0..5000u64 {
        samples.push(n);
    }
    for shift in 10..64u32 {
        let p = 1u64 << shift;
        for d in 0..40u64 {
            samples.push(p - 1 - d);
            samples.push(p.wrapping_add(d));
            samples.push((p / 20).wrapping_mul(2 * d + 1));
            samples.push(p + p / 4 + d * (p / 1024));
        }
    }
    for d in 0..5000u64 {
        samples.push(u64::MAX - d);
        samples.push((1u64 << 53) + d);
        samples.push((1u64 << 60) + d * 64 + 128);
    }
    let mut x: u64 = 0x9E3779B97F4A7C15;
    for _ in 0..20000 {
        x ^= x << 13;
        x ^= x >> 7;
        x ^= x << 17;
        samples.push(x);
        samples.push(x >> (x % 64));
    }
    for bytes in samples {
        assert_eq!(format_file_size(bytes), by_floats(bytes), "for {} bytes", bytes);
    }
}

#[test]
fn nearest_double_is_the_float_cast() {
    for bytes in [0u64, 1, (1 << 53) - 1, 1 << 53, (1 << 53) + 1, (1 << 53) + 2, (1 << 53) + 3,
        (1 << 54) + 2, (1 << 54) + 6, u64::MAX, u64::MAX - 1023, u64::MAX - 1024, 1 << 63,
        (1 << 63) + 1024, (1 << 63) + 1025, (1 << 63) + 3072]
    {
        assert_eq!(to_nearest_double(bytes), (bytes as f64) as u128, "for {}", bytes);
    }
}

#[test]
fn rounded_quotient_takes_the_even_neighbour() {
    assert_eq!(rounded_quotient(0, 4), 0);
    assert_eq!(rounded_quotient(1, 4), 0);
    assert_eq!(rounded_quotient(2, 4), 0);
    assert_eq!(rounded_quotient(3, 4), 1);
    assert_eq!(rounded_quotient(6, 4), 2);
    assert_eq!(rounded_quotient(10, 4), 2);
    assert_eq!(rounded_quotient(14, 4), 4);
    assert_eq!(rounded_quotient(7, 1), 7);
    assert_eq!(rounded_quotient(7, 3), 2);
    assert_eq!(rounded_quotient(8, 3), 3);
}

#[test]
fn uptime_text() {
    assert_eq!(format_uptime(0), "00:00:00");
    assert_eq!(format_uptime(59), "00:00:59");
    assert_eq!(format_uptime(60), "00:01:00");
    assert_eq!(format_uptime(3661), "01:01:01");
    assert_eq!(format_uptime(86399), "23:59:59");
    assert_eq!(format_uptime(86400), "1 days, 00:00:00");
    assert_eq!(format_uptime(90061), "1 days, 01:01:01");
    assert_eq!(format_uptime(12 * 86400 + 45296), "12 days, 12:34:56");
    assert_eq!(format_uptime(u64::MAX), "213503982334601 days, 07:00:15");
}

#[test]
fn uptime_needs_a_start_in_the_past() {
    assert_eq!(uptime_since(100, 3761), Some("01:01:01".to_string()));
    assert_eq!(uptime_since(100, 100), Some("00:00:00".to_string()));
    assert_eq!(uptime_since(101, 100), None);
    assert_eq!(calculate_uptime(u64::MAX), None);
    assert_eq!(calculate_uptime(0).map(|t| t.contains(" days, ")), Some(true));
}
