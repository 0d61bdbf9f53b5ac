use onboard_controller::normalizer::{normalize, raw_bytes, raw_value, scale, Ratio, FULL_SCALE};

fn value(r: Ratio) -> f64 {
    r.num as f64 / r.den as f64
}

#[test]
fn positive_full_scale_is_one() {
    let r = normalize(0x7F, 0xFF);
    assert_eq!(r, Ratio { num: 32767, den: 32767 });
    assert_eq!(value(r), 1.0);
}

#[test]
fn negative_full_scale_is_just_below_minus_one() {
    let r = normalize(0x80, 0x00);
    assert_eq!(r, Ratio { num: -32768, den: 32767 });
    assert!((value(r) - (-1.0000305)).abs() < 1e-7);
    assert!(value(r) < -1.0);
}

#[test]
fn zero_bytes_are_zero() {
    let r = normalize(0x00, 0x00);
    assert_eq!(r, Ratio { num: 0, den: 32767 });
    assert_eq!(value(r), 0.0);
}

#[test]
fn minus_one_count() {
    assert_eq!(raw_value(0xFF, 0xFF), -1);
    assert_eq!(normalize(0xFF, 0xFF).num, -1);
}

#[test]
fn bytes_are_big_endian() {
    assert_eq!(raw_value(0x01, 0x00), 256);
    assert_eq!(raw_value(0x00, 0x01), 1);
    assert_eq!(raw_value(0x12, 0x34), 0x1234);
    assert_eq!(raw_value(0x40, 0x00), 16384);
    assert_eq!(raw_value(0xC0, 0x00), -16384);
}

#[test]
fn raw_value_agrees_with_std_on_every_pair() {
    for high in 0..=255u8 {
        for low in 0..=255u8 {
            assert_eq!(raw_value(high, low), i16::from_be_bytes([high, low]));
        }
    }
}

#[test]
fn raw_bytes_agree_with_std_on_every_count() {
    for count in i16::MIN..=i16::MAX {
        let (high, low) = raw_bytes(count);
        assert_eq!([high, low], count.to_be_bytes());
    }
}

#[test]
fn every_reading_lies_in_range() {
    for high in 0..=255u8 {
        for low in 0..=255u8 {
            let r = normalize(high, low);
            assert_eq!(r.den, FULL_SCALE);
            assert!(-32768 <= r.num && r.num <= 32767);
            let v = value(r);
            assert!(-1.0000306 < v && v <= 1.0);
        }
    }
}

#[test]
fn count_round_trip() {
    for count in [i16::MIN, -16384, -2, -1, 0, 1, 2, 100, 16384, i16::MAX] {
        let (high, low) = raw_bytes(count);
        assert_eq!(raw_value(high, low), count);
    }
}

#[test]
fn bytes_round_trip() {
    for high in 0..=255u8 {
        for low in 0..=255u8 {
            assert_eq!(raw_bytes(raw_value(high, low)), (high, low));
        }
    }
}

#[test]
fn scale_keeps_the_count() {
    assert_eq!(scale(-5), Ratio { num: -5, den: 32767 });
    assert_eq!(scale(16384), Ratio { num: 16384, den: 32767 });
    assert_eq!(scale(i16::MIN), Ratio { num: -32768, den: 32767 });
}

#[test]
fn normalize_is_pure() {
    assert_eq!(normalize(0x12, 0x34), normalize(0x12, 0x34));
    assert_ne!(normalize(0x12, 0x34), normalize(0x34, 0x12));
}
