//! Conversion between register byte pairs and signed 16-bit counts, and
//! the scaling of a count against the largest positive count.

use vstd::prelude::*;

verus! {

/// The largest positive count, against which every reading is scaled.
pub const FULL_SCALE: i32 = 32767;

/// A reading as the exact fraction `num / den`.
#[derive(Clone, Copy, Debug, PartialEq, Eq, Structural)]
pub struct Ratio {
    pub num: i32,
    pub den: i32,
}

impl Ratio {
    /// A fraction is well formed when its denominator is positive.
    pub open spec fn wf(self) -> bool {
        self.den > 0
    }

    /// Whether the fraction is zero.
    pub open spec fn is_zero(self) -> bool {
        self.num == 0
    }
}

/// The signed count that the byte pair `high`, `low` denotes: the two bytes
/// read as one big-endian number, in two's complement.
pub open spec fn count_of(high: u8, low: u8) -> int {
    if high < 128 {
        high * 256 + low
    } else {
        high * 256 + low - 65536
    }
}

/// The more significant byte of the big-endian two's-complement form of `count`.
pub open spec fn high_byte_of(count: int) -> int {
    if count >= 0 {
        count / 256
    } else {
        (count + 65536) / 256
    }
}

/// The less significant byte of the big-endian two's-complement form of `count`.
pub open spec fn low_byte_of(count: int) -> int {
    if count >= 0 {
        count % 256
    } else {
        (count + 65536) % 256
    }
}

/// Reads two bytes as a big-endian two's-complement count.
pub fn raw_value(high: u8, low: u8) -> (count: i16)
    ensures
        count == count_of(high, low),
{
    let unsigned: i32 = (high as i32) * 256 + (low as i32);
    if unsigned >= 32768 {
        (unsigned - 65536) as i16
    } else {
        unsigned as i16
    }
}

/// Writes a count as its two big-endian two's-complement bytes, the more
/// significant first.
pub fn raw_bytes(count: i16) -> (bytes: (u8, u8))
    ensures
        bytes.0 == high_byte_of(count as int),
        bytes.1 == low_byte_of(count as int),
{
    let unsigned: i32 = if count >= 0 {
        count as i32
    } else {
        count as i32 + 65536
    };
    ((unsigned / 256) as u8, (unsigned % 256) as u8)
}

/// The reading that `count` stands for: the count over the largest positive
/// count.
pub open spec fn reading_of(count: i16) -> Ratio {
    Ratio { num: count as i32, den: FULL_SCALE }
}

/// Scales a count against the largest positive count. The result is exact.
pub fn scale(count: i16) -> (reading: Ratio)
    ensures
        reading == reading_of(count),
        reading.wf(),
{
    Ratio { num: count as i32, den: FULL_SCALE }
}

/// Scales the count that `high`, `low` denote against the largest positive
/// count. The result is exact: the count over 32767. Its value lies between
/// -32768/32767, just below minus one, and one.
pub fn normalize(high: u8, low: u8) -> (reading: Ratio)
    ensures
        reading.num == count_of(high, low),
        reading.den == FULL_SCALE,
        reading.wf(),
        -(reading.den + 1) <= reading.num <= reading.den,
{
    scale(raw_value(high, low))
}

/// Decoding the bytes of a count gives the count back.
pub proof fn lemma_count_round_trip(count: i16)
    ensures
        0 <= high_byte_of(count as int) < 256,
        0 <= low_byte_of(count as int) < 256,
        count_of(high_byte_of(count as int) as u8, low_byte_of(count as int) as u8) == count,
{
}

/// Encoding the count of a byte pair gives the byte pair back.
pub proof fn lemma_bytes_round_trip(high: u8, low: u8)
    ensures
        -32768 <= count_of(high, low) <= 32767,
        high_byte_of(count_of(high, low)) == high,
        low_byte_of(count_of(high, low)) == low,
{
}

} // verus!
