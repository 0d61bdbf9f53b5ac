//! The device handle: the variant that was detected, and the data read
//! operation on a part of that variant.

use vstd::prelude::*;
use crate::error::ImuError;
use crate::frame::{counts_of, lemma_counts_round_trip, payload_for, Counts, RawFrame};
use crate::registers::{answers, motion_command, motion_request, payload_of, MOTION_PAYLOAD_LEN};
use crate::sample::{placeholder_mag, sample_from_counts, sample_of};
pub use crate::sample::SensorData;
use crate::variant::{variant_of, Variant};

verus! {

/// A sensor that has been identified. The handle stands for the one device
/// behind a chip-select line, so it is neither copied nor cloned.
#[derive(Debug, PartialEq, Eq)]
pub struct Mpu9250 {
    variant: Variant,
}

impl View for Mpu9250 {
    type V = Variant;

    /// The variant of the sensor.
    closed spec fn view(&self) -> Variant {
        self.variant
    }
}

/// The sample that the response to a burst read of the motion data block
/// holds, on a part of the given variant.
pub open spec fn sample_in(response: Seq<u8>, variant: Variant) -> SensorData
    recommends
        answers((MOTION_PAYLOAD_LEN + 1) as nat, response),
{
    sample_of(counts_of(payload_of(response)), variant)
}

impl Mpu9250 {
    /// Makes the handle for the sensor whose identity register holds `id`.
    /// No handle is made for a byte that names no supported part. The handle
    /// records the variant only: whether the magnetometer has been enabled
    /// is the probe's business, which hands out its handle after it has.
    pub fn new(id: u8) -> (handle: Result<Mpu9250, ImuError>)
        ensures
            variant_of(id) matches Some(v) ==> handle is Ok && handle->Ok_0@ == v,
            variant_of(id) is None ==> handle is Err && handle->Err_0
                == (ImuError::UnsupportedDevice { id }),
    {
        match Variant::identify(id) {
            Ok(variant) => Ok(Mpu9250::of_variant(variant)),
            Err(e) => Err(e),
        }
    }

    /// Makes the handle for a sensor of a known variant.
    pub(crate) fn of_variant(variant: Variant) -> (handle: Mpu9250)
        ensures
            handle@ == variant,
    {
        Mpu9250 { variant }
    }

    /// The variant of the sensor.
    pub fn variant(&self) -> (variant: Variant)
        ensures
            variant == self@,
    {
        self.variant
    }

    /// The byte that the identity register of the sensor holds.
    pub fn id(&self) -> (id: u8)
        ensures
            id == self@.id_spec(),
            variant_of(id) == Some(self@),
    {
        self.variant.id()
    }

    /// The command of the data read operation: the burst read of the motion
    /// data block.
    pub fn read_command(&self) -> (command: Vec<u8>)
        ensures
            command@ == motion_command(),
            command@.len() == MOTION_PAYLOAD_LEN + 1,
    {
        motion_request()
    }

    /// Decodes the response to the data read command into a sample. A
    /// response that has not the length of the command is a failed exchange,
    /// and gives no sample. On a part without a magnetometer the magnetic
    /// field of the sample is the placeholder.
    pub fn read_data(&self, response: &[u8]) -> (sample: Result<SensorData, ImuError>)
        ensures
            answers((MOTION_PAYLOAD_LEN + 1) as nat, response@) ==> sample is Ok && sample->Ok_0
                == sample_in(response@, self@) && sample->Ok_0.wf(),
            !answers((MOTION_PAYLOAD_LEN + 1) as nat, response@) ==> sample is Err
                && sample->Err_0 == ImuError::Transport,
            sample is Ok && self@ == Variant::GyroOnly ==> sample->Ok_0.mag_d == placeholder_mag(),
    {
        match RawFrame::from_response(response) {
            Ok(frame) => {
                let counts = frame.decode();
                Ok(sample_from_counts(&counts, self.variant))
            },
            Err(e) => Err(e),
        }
    }
}

/// Round trip: the frame that holds ten counts, read back behind any first
/// byte, gives the sample of exactly those counts.
pub proof fn lemma_encoded_counts_are_read_back(counts: Counts, first: u8, variant: Variant)
    ensures
        answers((MOTION_PAYLOAD_LEN + 1) as nat, seq![first] + payload_for(counts)),
        sample_in(seq![first] + payload_for(counts), variant) == sample_of(counts, variant),
{
    lemma_counts_round_trip(counts);
    assert(payload_of(seq![first] + payload_for(counts)) =~= payload_for(counts));
}

} // verus!
