//! The motion data block: twenty payload bytes that hold ten big-endian
//! counts, in the order acceleration, temperature, angular rate, magnetic
//! field.

use vstd::prelude::*;
use crate::error::ImuError;
use crate::normalizer::{count_of, high_byte_of, low_byte_of, raw_bytes, raw_value};
use crate::normalizer::{lemma_bytes_round_trip, lemma_count_round_trip};
use crate::registers::{answers, payload_of, MOTION_PAYLOAD_LEN};

verus! {

/// Where the acceleration counts start in the payload.
pub const ACCEL_OFFSET: usize = 0;

/// Where the temperature count starts in the payload.
pub const TEMP_OFFSET: usize = 6;

/// Where the angular-rate counts start in the payload.
pub const GYRO_OFFSET: usize = 8;

/// Where the magnetic-field counts start in the payload.
pub const MAG_OFFSET: usize = 14;

/// The counts of one sensor along its three axes.
#[derive(Clone, Copy, Debug, PartialEq, Eq, Structural)]
pub struct RawVector {
    pub x: i16,
    pub y: i16,
    pub z: i16,
}

/// The ten counts of one motion data block.
#[derive(Clone, Copy, Debug, PartialEq, Eq, Structural)]
pub struct Counts {
    pub accel: RawVector,
    pub temp: i16,
    pub gyro: RawVector,
    pub mag: RawVector,
}

/// The payload of one burst read of the motion data block, as received.
#[derive(Clone, Copy, Debug, PartialEq, Eq)]
pub struct RawFrame {
    pub bytes: [u8; 20],
}

/// The count that `payload` holds at `offset`.
pub open spec fn count_at(payload: Seq<u8>, offset: int) -> i16 {
    count_of(payload[offset], payload[offset + 1]) as i16
}

/// The three counts that `payload` holds from `offset` on.
pub open spec fn vector_at(payload: Seq<u8>, offset: int) -> RawVector {
    RawVector {
        x: count_at(payload, offset),
        y: count_at(payload, offset + 2),
        z: count_at(payload, offset + 4),
    }
}

/// The ten counts that a payload of twenty bytes holds.
pub open spec fn counts_of(payload: Seq<u8>) -> Counts
    recommends
        payload.len() == MOTION_PAYLOAD_LEN,
{
    Counts {
        accel: vector_at(payload, ACCEL_OFFSET as int),
        temp: count_at(payload, TEMP_OFFSET as int),
        gyro: vector_at(payload, GYRO_OFFSET as int),
        mag: vector_at(payload, MAG_OFFSET as int),
    }
}

/// The two bytes of one count.
pub open spec fn bytes_of_count(count: i16) -> Seq<u8> {
    seq![high_byte_of(count as int) as u8, low_byte_of(count as int) as u8]
}

/// The six bytes of three counts.
pub open spec fn bytes_of_vector(v: RawVector) -> Seq<u8> {
    bytes_of_count(v.x) + bytes_of_count(v.y) + bytes_of_count(v.z)
}

/// The twenty payload bytes that hold `counts`.
pub open spec fn payload_for(counts: Counts) -> Seq<u8> {
    bytes_of_vector(counts.accel) + bytes_of_count(counts.temp) + bytes_of_vector(counts.gyro)
        + bytes_of_vector(counts.mag)
}

impl View for RawFrame {
    type V = Seq<u8>;

    /// The twenty bytes of the frame.
    open spec fn view(&self) -> Seq<u8> {
        self.bytes@
    }
}

impl RawFrame {
    /// Takes a frame from a payload. Anything but twenty bytes is a failed
    /// exchange.
    pub fn from_payload(payload: &[u8]) -> (frame: Result<RawFrame, ImuError>)
        ensures
            payload@.len() == MOTION_PAYLOAD_LEN ==> frame is Ok && frame->Ok_0@ == payload@,
            payload@.len() != MOTION_PAYLOAD_LEN ==> frame is Err && frame->Err_0
                == ImuError::Transport,
    {
        if payload.len() != MOTION_PAYLOAD_LEN {
            return Err(ImuError::Transport);
        }
        let mut bytes: [u8; 20] = [0u8; 20];
        let mut copied: usize = 0;
        while copied < MOTION_PAYLOAD_LEN
            invariant
                copied <= MOTION_PAYLOAD_LEN,
                payload@.len() == MOTION_PAYLOAD_LEN,
                forall|i: int| 0 <= i < copied ==> bytes@[i] == payload@[i],
            decreases MOTION_PAYLOAD_LEN - copied,
        {
            bytes[copied] = payload[copied];
            copied = copied + 1;
        }
        let frame = RawFrame { bytes };
        assert(frame@ =~= payload@);
        Ok(frame)
    }

    /// Takes a frame from the response to the burst read of the motion data
    /// block: twenty-one bytes, of which the first is no data.
    pub fn from_response(response: &[u8]) -> (frame: Result<RawFrame, ImuError>)
        ensures
            answers((MOTION_PAYLOAD_LEN + 1) as nat, response@) ==> frame is Ok && frame->Ok_0@
                == payload_of(response@),
            !answers((MOTION_PAYLOAD_LEN + 1) as nat, response@) ==> frame is Err && frame->Err_0
                == ImuError::Transport,
    {
        match crate::registers::response_payload(MOTION_PAYLOAD_LEN + 1, response) {
            Ok(payload) => RawFrame::from_payload(payload),
            Err(e) => Err(e),
        }
    }

    /// Reads the count at `offset`.
    fn count(&self, offset: usize) -> (count: i16)
        requires
            offset + 1 < MOTION_PAYLOAD_LEN,
        ensures
            count == count_at(self@, offset as int),
    {
        raw_value(self.bytes[offset], self.bytes[offset + 1])
    }

    /// Reads the three counts from `offset` on.
    fn vector(&self, offset: usize) -> (v: RawVector)
        requires
            offset + 5 < MOTION_PAYLOAD_LEN,
        ensures
            v == vector_at(self@, offset as int),
    {
        RawVector {
            x: self.count(offset),
            y: self.count(offset + 2),
            z: self.count(offset + 4),
        }
    }

    /// Decodes the ten counts of the frame.
    pub fn decode(&self) -> (counts: Counts)
        ensures
            counts == counts_of(self@),
    {
        Counts {
            accel: self.vector(ACCEL_OFFSET),
            temp: self.count(TEMP_OFFSET),
            gyro: self.vector(GYRO_OFFSET),
            mag: self.vector(MAG_OFFSET),
        }
    }

    /// Writes the two bytes of `count` at `offset`.
    fn put_count(&mut self, offset: usize, count: i16)
        requires
            offset + 1 < MOTION_PAYLOAD_LEN,
        ensures
            final(self)@ == old(self)@.update(offset as int, bytes_of_count(count)[0]).update(
                offset + 1,
                bytes_of_count(count)[1],
            ),
    {
        let (high, low) = raw_bytes(count);
        proof {
            lemma_count_round_trip(count);
        }
        self.bytes[offset] = high;
        self.bytes[offset + 1] = low;
    }

    /// Writes the six bytes of `v` at `offset`.
    fn put_vector(&mut self, offset: usize, v: RawVector)
        requires
            offset + 5 < MOTION_PAYLOAD_LEN,
        ensures
            final(self)@.len() == 20,
            final(self)@.subrange(offset as int, offset + 6) == bytes_of_vector(v),
            forall|i: int|
                0 <= i < 20 && !(offset <= i < offset + 6) ==> final(self)@[i] == old(self)@[i],
    {
        self.put_count(offset, v.x);
        self.put_count(offset + 2, v.y);
        self.put_count(offset + 4, v.z);
    }

    /// Encodes ten counts as a frame.
    pub fn encode(counts: &Counts) -> (frame: RawFrame)
        ensures
            frame@ == payload_for(*counts),
    {
        let mut frame = RawFrame { bytes: [0u8; 20] };
        frame.put_vector(ACCEL_OFFSET, counts.accel);
        frame.put_count(TEMP_OFFSET, counts.temp);
        frame.put_vector(GYRO_OFFSET, counts.gyro);
        frame.put_vector(MAG_OFFSET, counts.mag);
        frame
    }
}

/// Encoding ten counts and decoding the frame gives the counts back.
pub proof fn lemma_counts_round_trip(counts: Counts)
    ensures
        payload_for(counts).len() == MOTION_PAYLOAD_LEN,
        counts_of(payload_for(counts)) == counts,
{
    lemma_vector_round_trip(counts.accel);
    lemma_count_round_trip(counts.temp);
    lemma_vector_round_trip(counts.gyro);
    lemma_vector_round_trip(counts.mag);
}

/// Decoding a payload of twenty bytes and encoding the counts gives the
/// payload back.
pub proof fn lemma_payload_round_trip(payload: Seq<u8>)
    requires
        payload.len() == MOTION_PAYLOAD_LEN,
    ensures
        payload_for(counts_of(payload)) == payload,
{
    assert forall|i: int| 0 <= i < 19 implies {
        &&& high_byte_of(#[trigger] count_at(payload, i) as int) == payload[i]
        &&& low_byte_of(count_at(payload, i) as int) == payload[i + 1]
    } by {
        lemma_bytes_round_trip(payload[i], payload[i + 1]);
    }
    assert(payload_for(counts_of(payload)) =~= payload);
}

/// The bytes of three counts decode to the three counts.
proof fn lemma_vector_round_trip(v: RawVector)
    ensures
        bytes_of_vector(v).len() == 6,
        vector_at(bytes_of_vector(v), 0) == v,
{
    lemma_count_round_trip(v.x);
    lemma_count_round_trip(v.y);
    lemma_count_round_trip(v.z);
}

} // verus!
