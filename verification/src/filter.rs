//! The guard in front of the orientation filter. The filter divides the
//! acceleration and the magnetic field by their norms, so a sample in which
//! either has zero norm is refused before the filter sees it, and the
//! filter's state stays as it was.

use vstd::prelude::*;
use crate::error::ImuError;
use crate::sample::{lemma_zero_norm_is_zero_vector, SensorData, Vector};

verus! {

/// What the orientation filter is updated with.
#[derive(Clone, Copy, Debug, PartialEq, Eq, Structural)]
pub struct FilterInput {
    /// Angular rate, as fractions of full scale.
    pub gyro: Vector,
    /// Acceleration, in multiples of pi.
    pub accel: Vector,
    /// Magnetic field, as fractions of full scale.
    pub mag: Vector,
}

impl FilterInput {
    /// The filter can normalize the acceleration and the magnetic field:
    /// neither is the zero vector.
    pub open spec fn wf(self) -> bool {
        &&& self.gyro.wf()
        &&& self.accel.wf()
        &&& self.mag.wf()
        &&& !self.accel.is_zero_spec()
        &&& !self.mag.is_zero_spec()
    }
}

/// Whether the filter cannot take `sample`: the acceleration or the
/// magnetic field is the zero vector.
pub open spec fn singular(sample: SensorData) -> bool {
    sample.accel_d.is_zero_spec() || sample.mag_d.is_zero_spec()
}

/// The three vectors of `sample` that the filter is updated with.
pub open spec fn input_of(sample: SensorData) -> FilterInput {
    FilterInput { gyro: sample.gyro_d, accel: sample.accel_d, mag: sample.mag_d }
}

/// Decides whether the orientation filter may be updated with `sample`, and
/// with what. A sample whose acceleration or magnetic field is the zero
/// vector is refused; every other sample passes, with its three vectors
/// unchanged. The angular rate is free.
pub fn check_input(sample: &SensorData) -> (verdict: Result<FilterInput, ImuError>)
    ensures
        singular(*sample) ==> verdict == Err::<FilterInput, ImuError>(ImuError::SingularInput),
        !singular(*sample) ==> verdict == Ok::<FilterInput, ImuError>(input_of(*sample)),
        sample.wf() && verdict is Ok ==> verdict->Ok_0.wf(),
{
    if sample.accel_d.is_zero() || sample.mag_d.is_zero() {
        Err(ImuError::SingularInput)
    } else {
        Ok(FilterInput { gyro: sample.gyro_d, accel: sample.accel_d, mag: sample.mag_d })
    }
}

/// A well-formed sample is refused exactly when its acceleration or its
/// magnetic field has zero norm.
pub proof fn lemma_singular_is_zero_norm(sample: SensorData)
    requires
        sample.wf(),
    ensures
        singular(sample) <==> sample.accel_d.has_zero_norm() || sample.mag_d.has_zero_norm(),
{
    lemma_zero_norm_is_zero_vector(sample.accel_d);
    lemma_zero_norm_is_zero_vector(sample.mag_d);
}

} // verus!
