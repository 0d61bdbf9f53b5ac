//! The failures that the driver core reports.

use vstd::prelude::*;

verus! {

/// Why an operation of the driver core was refused.
#[derive(Clone, Copy, Debug, PartialEq, Eq, Structural)]
pub enum ImuError {
    /// The bus exchange failed, or its response has not the length of its
    /// command.
    Transport,
    /// The identity register holds a byte that names no supported part.
    UnsupportedDevice { id: u8 },
    /// The acceleration or the magnetic-field vector has zero norm, so the
    /// orientation filter cannot normalize it.
    SingularInput,
}

impl ImuError {
    /// A one-line diagnostic that tells the three failures apart.
    pub fn describe(&self) -> (text: &'static str)
        ensures
            *self is Transport ==> text@ == "bus transaction failed"@,
            *self is UnsupportedDevice ==> text@ == "identity register names no supported sensor"@,
            *self is SingularInput ==> text@ == "acceleration or magnetic field has zero norm"@,
    {
        match self {
            ImuError::Transport => "bus transaction failed",
            ImuError::UnsupportedDevice { .. } => "identity register names no supported sensor",
            ImuError::SingularInput => "acceleration or magnetic field has zero norm",
        }
    }
}

} // verus!
