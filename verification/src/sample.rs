//! Normalized samples: every count of a motion data block as an exact
//! reading, the scaling of the acceleration, and the fixed magnetic field
//! that stands in where the part has no magnetometer.

use vstd::prelude::*;
use crate::frame::{Counts, RawVector};
use crate::normalizer::{reading_of, scale, Ratio, FULL_SCALE};
use crate::variant::Variant;

verus! {

/// Three readings, one for each axis.
#[derive(Clone, Copy, Debug, PartialEq, Eq, Structural)]
pub struct Vector {
    pub x: Ratio,
    pub y: Ratio,
    pub z: Ratio,
}

/// The factor on the acceleration, in multiples of pi. The acceleration is
/// handed on as the normalized reading times two pi. The factor is a
/// convention of this driver: a normalized count is no angle, and nothing
/// physical is claimed for it.
pub const ACCEL_SCALE: i32 = 2;

/// One normalized sample.
#[derive(Clone, Copy, Debug, PartialEq, Eq, Structural)]
pub struct SensorData {
    /// Temperature, as a fraction of full scale.
    pub temp: Ratio,
    /// Angular rate, as fractions of full scale.
    pub gyro_d: Vector,
    /// Acceleration, in multiples of pi: the fraction of full scale times
    /// `ACCEL_SCALE`.
    pub accel_d: Vector,
    /// Magnetic field, as fractions of full scale.
    pub mag_d: Vector,
}

impl Vector {
    /// Every component is a well-formed fraction.
    pub open spec fn wf(self) -> bool {
        self.x.wf() && self.y.wf() && self.z.wf()
    }

    /// Whether this is the zero vector.
    pub open spec fn is_zero_spec(&self) -> bool {
        self.x.is_zero() && self.y.is_zero() && self.z.is_zero()
    }

    /// The denominator that the three components share once each is
    /// extended by the denominators of the other two.
    pub open spec fn common_den(self) -> int {
        self.x.den * self.y.den * self.z.den
    }

    /// The numerators of the three components over `common_den`.
    pub open spec fn extended(self) -> (int, int, int) {
        (
            self.x.num * self.y.den * self.z.den,
            self.y.num * self.x.den * self.z.den,
            self.z.num * self.x.den * self.y.den,
        )
    }

    /// The numerator of the squared norm, over the denominator
    /// `norm_sq_den`.
    pub open spec fn norm_sq_num(self) -> int {
        let (a, b, c) = self.extended();
        a * a + b * b + c * c
    }

    /// The denominator of the squared norm.
    pub open spec fn norm_sq_den(self) -> int {
        self.common_den() * self.common_den()
    }

    /// Whether the norm of the vector is zero.
    pub open spec fn has_zero_norm(self) -> bool {
        self.norm_sq_num() == 0
    }

    /// Whether this is the zero vector.
    #[verifier::when_used_as_spec(is_zero_spec)]
    pub fn is_zero(&self) -> (zero: bool)
        ensures
            zero == self.is_zero_spec(),
    {
        self.x.num == 0 && self.y.num == 0 && self.z.num == 0
    }
}

impl SensorData {
    /// Every reading is a well-formed fraction.
    pub open spec fn wf(self) -> bool {
        self.temp.wf() && self.gyro_d.wf() && self.accel_d.wf() && self.mag_d.wf()
    }
}

/// The readings that three counts stand for.
pub open spec fn readings_of(v: RawVector) -> Vector {
    Vector { x: reading_of(v.x), y: reading_of(v.y), z: reading_of(v.z) }
}

/// The scaled acceleration that `count` stands for, in multiples of pi.
pub open spec fn accel_reading_of(count: i16) -> Ratio {
    Ratio { num: (ACCEL_SCALE * count) as i32, den: FULL_SCALE }
}

/// The scaled acceleration that three counts stand for, in multiples of pi.
pub open spec fn accel_of(v: RawVector) -> Vector {
    Vector { x: accel_reading_of(v.x), y: accel_reading_of(v.y), z: accel_reading_of(v.z) }
}

/// The magnetic field reported for a part without a magnetometer: one half
/// along the first axis, nothing along the others.
pub open spec fn placeholder_mag() -> Vector {
    Vector {
        x: Ratio { num: 1, den: 2 },
        y: Ratio { num: 0, den: 2 },
        z: Ratio { num: 0, den: 2 },
    }
}

/// The sample that `counts` stand for on a part of the given variant. The
/// magnetic counts of a part without a magnetometer mean nothing and are
/// replaced by the placeholder.
pub open spec fn sample_of(counts: Counts, variant: Variant) -> SensorData {
    SensorData {
        temp: reading_of(counts.temp),
        gyro_d: readings_of(counts.gyro),
        accel_d: accel_of(counts.accel),
        mag_d: match variant {
            Variant::MagCapable => readings_of(counts.mag),
            Variant::GyroOnly => placeholder_mag(),
        },
    }
}

/// Scales three counts.
pub fn scale_vector(v: &RawVector) -> (readings: Vector)
    ensures
        readings == readings_of(*v),
        readings.wf(),
{
    Vector { x: scale(v.x), y: scale(v.y), z: scale(v.z) }
}

/// Scales one count of acceleration.
fn scale_accel_count(count: i16) -> (reading: Ratio)
    ensures
        reading == accel_reading_of(count),
        reading.wf(),
{
    Ratio { num: ACCEL_SCALE * (count as i32), den: FULL_SCALE }
}

/// Scales three counts of acceleration.
pub fn scale_accel(v: &RawVector) -> (accel: Vector)
    ensures
        accel == accel_of(*v),
        accel.wf(),
        accel.is_zero_spec() <==> (v.x == 0 && v.y == 0 && v.z == 0),
{
    Vector { x: scale_accel_count(v.x), y: scale_accel_count(v.y), z: scale_accel_count(v.z) }
}

/// The magnetic field reported for a part without a magnetometer.
pub fn placeholder() -> (mag: Vector)
    ensures
        mag == placeholder_mag(),
        mag.wf(),
        !mag.is_zero_spec(),
{
    Vector {
        x: Ratio { num: 1, den: 2 },
        y: Ratio { num: 0, den: 2 },
        z: Ratio { num: 0, den: 2 },
    }
}

/// Turns the counts of one motion data block into a sample.
pub fn sample_from_counts(counts: &Counts, variant: Variant) -> (sample: SensorData)
    ensures
        sample == sample_of(*counts, variant),
        sample.wf(),
        variant == Variant::GyroOnly ==> sample.mag_d == placeholder_mag(),
{
    let mag_d = match variant {
        Variant::MagCapable => scale_vector(&counts.mag),
        Variant::GyroOnly => placeholder(),
    };
    SensorData {
        temp: scale(counts.temp),
        gyro_d: scale_vector(&counts.gyro),
        accel_d: scale_accel(&counts.accel),
        mag_d,
    }
}

/// A well-formed vector has zero norm exactly when it is the zero vector.
pub proof fn lemma_zero_norm_is_zero_vector(v: Vector)
    requires
        v.wf(),
    ensures
        v.has_zero_norm() <==> v.is_zero_spec(),
        v.norm_sq_den() > 0,
        v.norm_sq_num() >= 0,
{
    let (a, b, c) = v.extended();
    lemma_scaled_zero(v.x.num as int, v.y.den as int, v.z.den as int);
    lemma_scaled_zero(v.y.num as int, v.x.den as int, v.z.den as int);
    lemma_scaled_zero(v.z.num as int, v.x.den as int, v.y.den as int);
    lemma_square(a);
    lemma_square(b);
    lemma_square(c);
    lemma_scaled_zero(v.x.den as int, v.y.den as int, v.z.den as int);
    lemma_square(v.common_den());
}

/// On a part without a magnetometer the reported magnetic field is the
/// placeholder, whatever the counts, and the norm of the placeholder is not
/// zero.
pub proof fn lemma_gyro_only_reports_placeholder(counts: Counts)
    ensures
        sample_of(counts, Variant::GyroOnly).mag_d == placeholder_mag(),
        placeholder_mag().wf(),
        !placeholder_mag().is_zero_spec(),
        !placeholder_mag().has_zero_norm(),
{
    lemma_zero_norm_is_zero_vector(placeholder_mag());
}

/// Counts that give the same sample on a part with a magnetometer are the
/// same counts: normalizing loses nothing.
pub proof fn lemma_sample_determines_counts(c1: Counts, c2: Counts)
    requires
        sample_of(c1, Variant::MagCapable) == sample_of(c2, Variant::MagCapable),
    ensures
        c1 == c2,
{
    assert(reading_of(c1.temp) == reading_of(c2.temp));
    assert(accel_of(c1.accel) == accel_of(c2.accel));
    assert(readings_of(c1.gyro) == readings_of(c2.gyro));
    assert(readings_of(c1.mag) == readings_of(c2.mag));
}

/// A product with two positive factors is zero exactly when the third
/// factor is.
proof fn lemma_scaled_zero(n: int, p: int, q: int)
    requires
        p > 0,
        q > 0,
    ensures
        (n * p * q == 0) <==> n == 0,
{
    assert((n * p * q == 0) <==> n == 0) by (nonlinear_arith)
        requires
            p > 0,
            q > 0,
    ;
}

/// A square is not negative, and is zero only for zero.
proof fn lemma_square(a: int)
    ensures
        a * a >= 0,
        (a * a == 0) <==> a == 0,
{
    assert(a * a >= 0 && ((a * a == 0) <==> a == 0)) by (nonlinear_arith);
}

} // verus!
