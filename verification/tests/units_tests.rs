use zfstop::units::{format_bytes, format_eta};

#[test]
fn format_bytes_units() {
    assert_eq!(format_bytes(0), "0 B");
    assert_eq!(format_bytes(512), "512 B");
    assert_eq!(format_bytes(1024), "1.0 KiB");
    assert_eq!(format_bytes(1536), "1.5 KiB");
    assert_eq!(format_bytes(1048576), "1.0 MiB");
    assert_eq!(format_bytes(1073741824), "1.0 GiB");
    assert_eq!(format_bytes(1099511627776), "1.0 TiB");
}

/// `format_bytes` as `{:.1}` of the byte count over the unit, in `f64`.
fn reference(bytes: u64) -> String {
    const KIB: f64 = 1024.0;
    const MIB: f64 = KIB * 1024.0;
    const GIB: f64 = MIB * 1024.0;
    const TIB: f64 = GIB * 1024.0;
    let b = bytes as f64;
    if b >= TIB {
        format!("{:.1} TiB", b / TIB)
    } else if b >= GIB {
        format!("{:.1} GiB", b / GIB)
    } else if b >= MIB {
        format!("{:.1} MiB", b / MIB)
    } else if b >= KIB {
        format!("{:.1} KiB", b / KIB)
    } else {
        format!("{bytes} B")
    }
}

#[test]
fn format_bytes_matches_float_formatting() {
    let samples: Vec<u64> = vec![1280, 1792, 2304, 3328, 1024 * 1024 + 256 * 1024, u64::MAX, u64::MAX - 1,
        (1u64 << 53) + 1, (1u64 << 53) + 3, 9007199254740993 * 16 + 8, 1099511627776 * 3 / 2 + 1];
    let mut bad = vec![];
    for s in samples {
        if format_bytes(s) != reference(s) {
            bad.push((s, format_bytes(s), reference(s)));
        }
    }
    let mut x: u64 = 12345;
    for _ in 0..200000 {
        x = x.wrapping_mul(6364136223846793005).wrapping_add(1442695040888963407);
        let s = x >> (x % 64);
        if format_bytes(s) != reference(s) {
            bad.push((s, format_bytes(s), reference(s)));
        }
    }
    assert!(bad.is_empty(), "{:?}", &bad[..bad.len().min(10)]);
}

#[test]
fn format_eta_shows_seconds_for_sub_minute_times() {
    assert_eq!(format_eta(0), "0s");
    assert_eq!(format_eta(1), "1s");
    assert_eq!(format_eta(45), "45s");
    assert_eq!(format_eta(59), "59s");
}

#[test]
fn format_eta_uses_minute_second_below_an_hour() {
    assert_eq!(format_eta(60), "1m00s");
    assert_eq!(format_eta(153), "2m33s");
    assert_eq!(format_eta(1800), "30m00s");
    assert_eq!(format_eta(3599), "59m59s");
}

#[test]
fn format_eta_uses_hour_minute_above_an_hour() {
    assert_eq!(format_eta(3600), "1h00m");
    assert_eq!(format_eta(3720), "1h02m");
    assert_eq!(format_eta(5 * 3600 + 30 * 60), "5h30m");
    assert_eq!(format_eta(86_399), "23h59m");
}

#[test]
fn format_eta_uses_day_hour_for_multi_day_jobs() {
    assert_eq!(format_eta(86_400), "1d 0h");
    assert_eq!(format_eta(2 * 86_400 + 5 * 3600), "2d 5h");
}

#[test]
fn format_bytes_rounds_to_one_decimal() {
    assert_eq!(format_bytes(1023), "1023 B");
    assert_eq!(format_bytes(1075), "1.0 KiB");
    assert_eq!(format_bytes(1126), "1.1 KiB");
    assert_eq!(format_bytes(1048575), "1024.0 KiB");
    assert_eq!(format_bytes(5 * 1099511627776), "5.0 TiB");
}
