//! The two supported parts, told apart by the identity register.

use vstd::prelude::*;
use crate::error::ImuError;
use crate::registers::{ID_GYRO_ONLY, ID_MAG_CAPABLE};

verus! {

/// Which part answers on the bus.
#[derive(Clone, Copy, Debug, PartialEq, Eq, Structural)]
pub enum Variant {
    /// Gyroscope, accelerometer and magnetometer.
    MagCapable,
    /// Gyroscope and accelerometer only.
    GyroOnly,
}

/// The part that the identity byte `id` names, if it names one.
pub open spec fn variant_of(id: u8) -> Option<Variant> {
    if id == ID_MAG_CAPABLE {
        Some(Variant::MagCapable)
    } else if id == ID_GYRO_ONLY {
        Some(Variant::GyroOnly)
    } else {
        None
    }
}

impl Variant {
    /// The identity byte of the part.
    pub open spec fn id_spec(self) -> u8 {
        match self {
            Variant::MagCapable => ID_MAG_CAPABLE,
            Variant::GyroOnly => ID_GYRO_ONLY,
        }
    }

    /// Tells the part from its identity byte. A byte that names neither
    /// part is refused.
    pub fn identify(id: u8) -> (found: Result<Variant, ImuError>)
        ensures
            variant_of(id) matches Some(v) ==> found == Ok::<Variant, ImuError>(v),
            variant_of(id) is None ==> found == Err::<Variant, ImuError>(
                ImuError::UnsupportedDevice { id },
            ),
    {
        if id == ID_MAG_CAPABLE {
            Ok(Variant::MagCapable)
        } else if id == ID_GYRO_ONLY {
            Ok(Variant::GyroOnly)
        } else {
            Err(ImuError::UnsupportedDevice { id })
        }
    }

    /// The identity byte of the part.
    #[verifier::when_used_as_spec(id_spec)]
    pub fn id(self) -> (id: u8)
        ensures
            id == self.id_spec(),
            variant_of(id) == Some(self),
    {
        match self {
            Variant::MagCapable => ID_MAG_CAPABLE,
            Variant::GyroOnly => ID_GYRO_ONLY,
        }
    }

    /// Whether the part measures the magnetic field.
    pub fn has_magnetometer(self) -> (yes: bool)
        ensures
            yes == (self == Variant::MagCapable),
    {
        match self {
            Variant::MagCapable => true,
            Variant::GyroOnly => false,
        }
    }
}

} // verus!
