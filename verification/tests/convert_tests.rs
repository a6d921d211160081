use aht20_monitor::convert::{humidity_milli_percent, temperature_milli_celsius, RAW_FULL_SCALE};

#[test]
fn humidity_endpoints() {
    // humidity% = raw / 2^20 * 100: zero at zero, exactly 100 at full scale.
    assert_eq!(humidity_milli_percent(0), 0);
    assert_eq!(humidity_milli_percent(RAW_FULL_SCALE), 100_000);
}

#[test]
fn temperature_endpoints() {
    // tempC = raw / 2^20 * 200 - 50: -50 at zero, 150 at full scale.
    assert_eq!(temperature_milli_celsius(0), -50_000);
    assert_eq!(temperature_milli_celsius(RAW_FULL_SCALE), 150_000);
}

#[test]
fn humidity_midpoint() {
    assert_eq!(humidity_milli_percent(0x80000), 50_000);
}

#[test]
fn temperature_midpoint() {
    assert_eq!(temperature_milli_celsius(0x80000), 50_000);
}

#[test]
fn humidity_tracks_float_formula() {
    let samples: [u32; 7] = [0, 1, 0x12345, 0x7FFFF, 0x80000, 0xFFFFF, RAW_FULL_SCALE];
    for raw in samples {
        let exact = raw as f64 / 1_048_576.0 * 100.0;
        let carried = humidity_milli_percent(raw) as f64 / 1000.0;
        assert!((exact - carried).abs() < 1e-3 + 1e-9, "raw {}", raw);
    }
}

#[test]
fn temperature_tracks_float_formula() {
    let samples: [u32; 7] = [0, 1, 0x12345, 0x7FFFF, 0x80000, 0xFFFFF, RAW_FULL_SCALE];
    for raw in samples {
        let exact = raw as f64 / 1_048_576.0 * 200.0 - 50.0;
        let carried = temperature_milli_celsius(raw) as f64 / 1000.0;
        assert!((exact - carried).abs() < 1e-3 + 1e-9, "raw {}", raw);
    }
}

#[test]
fn conversions_monotone_over_samples() {
    let samples: [u32; 9] =
        [0, 1, 7, 0x1000, 0x12345, 0x7FFFF, 0x80000, 0xFFFFF, RAW_FULL_SCALE];
    let mut last_h = humidity_milli_percent(samples[0]);
    let mut last_t = temperature_milli_celsius(samples[0]);
    for raw in samples {
        let h = humidity_milli_percent(raw);
        let t = temperature_milli_celsius(raw);
        assert!(h >= last_h);
        assert!(t >= last_t);
        last_h = h;
        last_t = t;
    }
}
