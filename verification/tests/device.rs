use onboard_controller::error::ImuError;
use onboard_controller::frame::{Counts, RawFrame, RawVector};
use onboard_controller::mpu9250::{Mpu9250, SensorData};
use onboard_controller::normalizer::Ratio;
use onboard_controller::sample::{
    placeholder, sample_from_counts, scale_accel, scale_vector, Vector, ACCEL_SCALE,
};
use onboard_controller::variant::Variant;

fn reading(count: i32) -> Ratio {
    Ratio { num: count, den: 32767 }
}

fn response_for(counts: &Counts) -> Vec<u8> {
    let mut response = vec![0u8];
    response.extend(RawFrame::encode(counts).bytes);
    response
}

fn known_counts() -> Counts {
    Counts {
        accel: RawVector { x: 0, y: 0, z: 16384 },
        temp: 340,
        gyro: RawVector { x: 7, y: -8, z: 9 },
        mag: RawVector { x: 100, y: 0, z: 0 },
    }
}

#[test]
fn identity_0x71_has_a_magnetometer() {
    let handle = Mpu9250::new(0x71).unwrap();
    assert_eq!(handle.variant(), Variant::MagCapable);
    assert_eq!(handle.id(), 0x71);
    assert!(handle.variant().has_magnetometer());
}

#[test]
fn identity_0x70_has_no_magnetometer() {
    let handle = Mpu9250::new(0x70).unwrap();
    assert_eq!(handle.variant(), Variant::GyroOnly);
    assert_eq!(handle.id(), 0x70);
    assert!(!handle.variant().has_magnetometer());
}

#[test]
fn every_other_identity_is_refused() {
    for id in 0..=255u8 {
        if id == 0x70 || id == 0x71 {
            continue;
        }
        assert_eq!(Mpu9250::new(id), Err(ImuError::UnsupportedDevice { id }));
        assert_eq!(Variant::identify(id), Err(ImuError::UnsupportedDevice { id }));
    }
}

#[test]
fn identify_names_the_variant() {
    assert_eq!(Variant::identify(0x71), Ok(Variant::MagCapable));
    assert_eq!(Variant::identify(0x70), Ok(Variant::GyroOnly));
    assert_eq!(Variant::MagCapable.id(), 0x71);
    assert_eq!(Variant::GyroOnly.id(), 0x70);
}

#[test]
fn read_command_is_the_burst_read() {
    let handle = Mpu9250::new(0x71).unwrap();
    let command = handle.read_command();
    assert_eq!(command.len(), 21);
    assert_eq!(command[0], 0x3B | 0x80);
    assert!(command[1..].iter().all(|b| *b == 0));
}

#[test]
fn read_data_with_magnetometer() {
    let handle = Mpu9250::new(0x71).unwrap();
    let sample = handle.read_data(&response_for(&known_counts())).unwrap();
    assert_eq!(
        sample,
        SensorData {
            temp: reading(340),
            gyro_d: Vector { x: reading(7), y: reading(-8), z: reading(9) },
            accel_d: Vector { x: reading(0), y: reading(0), z: reading(32768) },
            mag_d: Vector { x: reading(100), y: reading(0), z: reading(0) },
        }
    );
}

#[test]
fn read_data_without_magnetometer_reports_the_placeholder() {
    let handle = Mpu9250::new(0x70).unwrap();
    let sample = handle.read_data(&response_for(&known_counts())).unwrap();
    let half = Vector {
        x: Ratio { num: 1, den: 2 },
        y: Ratio { num: 0, den: 2 },
        z: Ratio { num: 0, den: 2 },
    };
    assert_eq!(sample.mag_d, half);
    assert_eq!(sample.mag_d, placeholder());
    assert_eq!(sample.accel_d, Vector { x: reading(0), y: reading(0), z: reading(32768) });
    assert_eq!(sample.gyro_d, Vector { x: reading(7), y: reading(-8), z: reading(9) });
    assert_eq!(sample.temp, reading(340));
}

#[test]
fn placeholder_does_not_depend_on_the_bytes() {
    let handle = Mpu9250::new(0x70).unwrap();
    for fill in [0x00u8, 0x01, 0x7F, 0x80, 0xC0, 0xFF] {
        let sample = handle.read_data(&[fill; 21]).unwrap();
        assert_eq!(sample.mag_d, placeholder());
        assert!(!sample.mag_d.is_zero());
    }
}

#[test]
fn placeholder_is_one_half_on_the_first_axis() {
    let mag = placeholder();
    assert_eq!(mag.x.num as f64 / mag.x.den as f64, 0.5);
    assert_eq!(mag.y.num as f64 / mag.y.den as f64, 0.0);
    assert_eq!(mag.z.num as f64 / mag.z.den as f64, 0.0);
    assert!(!mag.is_zero());
}

#[test]
fn read_data_of_wrong_length_is_a_transport_failure() {
    for variant_id in [0x70u8, 0x71] {
        let handle = Mpu9250::new(variant_id).unwrap();
        assert_eq!(handle.read_data(&[0; 20]), Err(ImuError::Transport));
        assert_eq!(handle.read_data(&[0; 22]), Err(ImuError::Transport));
        assert_eq!(handle.read_data(&[]), Err(ImuError::Transport));
    }
}

#[test]
fn first_response_byte_is_ignored() {
    let handle = Mpu9250::new(0x71).unwrap();
    let mut a = response_for(&known_counts());
    let mut b = a.clone();
    a[0] = 0x00;
    b[0] = 0xFF;
    assert_eq!(handle.read_data(&a), handle.read_data(&b));
}

#[test]
fn sample_from_counts_scales_every_count() {
    let counts = Counts {
        accel: RawVector { x: i16::MIN, y: -1, z: i16::MAX },
        temp: -340,
        gyro: RawVector { x: 1, y: 2, z: 3 },
        mag: RawVector { x: -4, y: -5, z: -6 },
    };
    let sample = sample_from_counts(&counts, Variant::MagCapable);
    assert_eq!(sample.accel_d, Vector { x: reading(-65536), y: reading(-2), z: reading(65534) });
    assert_eq!(scale_accel(&counts.accel), sample.accel_d);
    assert_eq!(sample.temp, reading(-340));
    assert_eq!(sample.gyro_d, Vector { x: reading(1), y: reading(2), z: reading(3) });
    assert_eq!(sample.mag_d, Vector { x: reading(-4), y: reading(-5), z: reading(-6) });
    assert_eq!(scale_vector(&counts.mag), sample.mag_d);
    assert_eq!(sample_from_counts(&counts, Variant::GyroOnly).mag_d, placeholder());
}

#[test]
fn decoded_values_are_the_encoded_values() {
    let counts = known_counts();
    let handle = Mpu9250::new(0x71).unwrap();
    let sample = handle.read_data(&response_for(&counts)).unwrap();
    let value = |r: Ratio| r.num as f64 / r.den as f64;
    let physical = |count: i16| count as f64 / 32767.0;
    let pi = std::f64::consts::PI;
    assert_eq!(ACCEL_SCALE, 2);
    assert!((value(sample.accel_d.z) * pi - physical(16384) * 2.0 * pi).abs() < 1e-12);
    assert!((value(sample.accel_d.z) * pi - 3.1416885).abs() < 1e-6);
    assert_eq!(value(sample.accel_d.z) * pi, physical(16384) * 2.0 * pi);
    assert!((value(sample.mag_d.x) - physical(100)).abs() < 1e-12);
    assert!((value(sample.gyro_d.y) - physical(-8)).abs() < 1e-12);
    assert!((value(sample.temp) - physical(340)).abs() < 1e-12);
}
