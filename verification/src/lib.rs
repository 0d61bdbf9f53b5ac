//! Verified core of a driver for the MPU-9250 family of inertial
//! measurement units: the register protocol, the decoding of raw frames
//! into exact readings, the probe that tells the variants apart, and the
//! guard in front of the orientation filter.
//!
//! The library performs no bus transfer and no floating-point arithmetic.
//! Commands are handed out as bytes, responses are taken in as bytes, and
//! every reading is an exact fraction.

pub mod error;
pub mod filter;
pub mod frame;
pub mod mpu9250;
pub mod normalizer;
pub mod probe;
pub mod registers;
pub mod sample;
pub mod variant;
