//! The register protocol: how a register address and a payload become the
//! bytes of one bus transaction.
//!
//! A transaction shifts out as many bytes as it shifts in. Its first byte is
//! the command byte: the 7-bit register address, with the top bit set for a
//! read and clear for a write. What follows is the payload of a write, or
//! one zero byte for every byte that a read is to bring back.

use vstd::prelude::*;
use crate::error::ImuError;

verus! {

/// The bit of the command byte that marks a read.
pub const READ_FLAG: u8 = 0x80;

/// The bits of the command byte that hold the register address.
pub const ADDRESS_MASK: u8 = 0x7F;

/// The identity register.
pub const REG_IDENTITY: u8 = 0x75;

/// The register that switches the auxiliary bus from pass-through to master mode.
pub const REG_AUX_MASTER: u8 = 0x6A;

/// The first of the four registers that configure how the external
/// magnetometer is read.
pub const REG_AUX_MAG_CONFIG: u8 = 0x24;

/// The first register of the motion data block.
pub const REG_MOTION_DATA: u8 = 0x3B;

/// The number of payload bytes in the motion data block.
pub const MOTION_PAYLOAD_LEN: usize = 20;

/// The identity of a part with a magnetometer.
pub const ID_MAG_CAPABLE: u8 = 0x71;

/// The identity of a part without a magnetometer.
pub const ID_GYRO_ONLY: u8 = 0x70;

/// The command byte that reads `register`.
pub open spec fn read_byte_of(register: u8) -> u8 {
    (register % 128 + 128) as u8
}

/// The command byte that writes `register`.
pub open spec fn write_byte_of(register: u8) -> u8 {
    register % 128
}

/// The command that reads `payload_len` bytes starting at `register`.
pub open spec fn read_request_of(register: u8, payload_len: nat) -> Seq<u8> {
    seq![read_byte_of(register)] + Seq::new(payload_len, |i: int| 0u8)
}

/// The command that writes `payload` starting at `register`.
pub open spec fn write_request_of(register: u8, payload: Seq<u8>) -> Seq<u8> {
    seq![write_byte_of(register)] + payload
}

/// Whether `command` asks for a read.
pub open spec fn is_read_request(command: Seq<u8>) -> bool {
    command.len() > 0 && command[0] >= 128
}

/// Whether `command` asks for a write.
pub open spec fn is_write_request(command: Seq<u8>) -> bool {
    command.len() > 0 && command[0] < 128
}

/// The register that `command` addresses.
pub open spec fn register_of(command: Seq<u8>) -> u8
    recommends
        command.len() > 0,
{
    command[0] % 128
}

/// The identity read: one payload byte from the identity register.
pub open spec fn identity_command() -> Seq<u8> {
    seq![0xF5u8, 0x00u8]
}

/// The first step of enabling the magnetometer: the auxiliary bus leaves
/// pass-through mode.
pub open spec fn aux_master_command() -> Seq<u8> {
    seq![0x6Au8, 0x20u8]
}

/// The second step of enabling the magnetometer: the external magnetometer
/// is read continuously into the motion data block.
pub open spec fn mag_config_command() -> Seq<u8> {
    seq![0x24u8, 0x0Du8, 0x8Cu8, 0x02u8, 0x88u8]
}

/// The burst read of the motion data block.
pub open spec fn motion_command() -> Seq<u8> {
    read_request_of(REG_MOTION_DATA, MOTION_PAYLOAD_LEN as nat)
}

/// What a response carries behind the byte that was shifted in while the
/// command byte went out.
pub open spec fn payload_of(response: Seq<u8>) -> Seq<u8> {
    response.subrange(1, response.len() as int)
}

/// Sets the read flag on a register address.
pub fn read_address(register: u8) -> (command: u8)
    ensures
        command == read_byte_of(register),
        command >= 128,
{
    assert((register | 0x80u8) == (register % 128 + 128) as u8) by (bit_vector);
    register | READ_FLAG
}

/// Clears the read flag on a register address.
pub fn write_address(register: u8) -> (command: u8)
    ensures
        command == write_byte_of(register),
        command < 128,
{
    assert((register & 0x7Fu8) == register % 128) by (bit_vector);
    register & ADDRESS_MASK
}

/// Builds the command that reads `payload_len` bytes starting at `register`.
pub fn read_request(register: u8, payload_len: usize) -> (command: Vec<u8>)
    ensures
        command@ == read_request_of(register, payload_len as nat),
        command@.len() == payload_len + 1,
        is_read_request(command@),
        register_of(command@) == register % 128,
{
    let mut command: Vec<u8> = Vec::new();
    command.push(read_address(register));
    let mut sent: usize = 0;
    while sent < payload_len
        invariant
            sent <= payload_len,
            command@ == read_request_of(register, sent as nat),
        decreases payload_len - sent,
    {
        command.push(0u8);
        sent = sent + 1;
    }
    command
}

/// Builds the command that writes `payload` starting at `register`.
pub fn write_request(register: u8, payload: &[u8]) -> (command: Vec<u8>)
    ensures
        command@ == write_request_of(register, payload@),
        command@.len() == payload@.len() + 1,
        is_write_request(command@),
        register_of(command@) == register % 128,
{
    let mut command: Vec<u8> = Vec::new();
    command.push(write_address(register));
    let mut copied: usize = 0;
    while copied < payload.len()
        invariant
            copied <= payload@.len(),
            command@ == write_request_of(register, payload@.subrange(0, copied as int)),
        decreases payload@.len() - copied,
    {
        command.push(payload[copied]);
        copied = copied + 1;
    }
    assert(payload@.subrange(0, copied as int) == payload@);
    command
}

/// The identity read.
pub fn identity_request() -> (command: Vec<u8>)
    ensures
        command@ == identity_command(),
        command@ == read_request_of(REG_IDENTITY, 1),
{
    read_request(REG_IDENTITY, 1)
}

/// The first write of the magnetometer-enable sequence.
pub fn aux_master_request() -> (command: Vec<u8>)
    ensures
        command@ == aux_master_command(),
        command@ == write_request_of(REG_AUX_MASTER, seq![0x20u8]),
{
    let payload: [u8; 1] = [0x20];
    write_request(REG_AUX_MASTER, payload.as_slice())
}

/// The second write of the magnetometer-enable sequence.
pub fn mag_config_request() -> (command: Vec<u8>)
    ensures
        command@ == mag_config_command(),
        command@ == write_request_of(REG_AUX_MAG_CONFIG, seq![0x0Du8, 0x8Cu8, 0x02u8, 0x88u8]),
{
    let payload: [u8; 4] = [0x0D, 0x8C, 0x02, 0x88];
    write_request(REG_AUX_MAG_CONFIG, payload.as_slice())
}

/// The burst read of the motion data block.
pub fn motion_request() -> (command: Vec<u8>)
    ensures
        command@ == motion_command(),
        command@.len() == MOTION_PAYLOAD_LEN + 1,
        command@[0] == 0xBBu8,
{
    read_request(REG_MOTION_DATA, MOTION_PAYLOAD_LEN)
}

/// Whether `response` has the length that a command of `command_len` bytes
/// brings back.
pub open spec fn answers(command_len: nat, response: Seq<u8>) -> bool {
    command_len >= 1 && response.len() == command_len
}

/// Takes the payload out of the response to a command of `command_len`
/// bytes. A response of any other length is a failed exchange.
pub fn response_payload(command_len: usize, response: &[u8]) -> (payload: Result<&[u8], ImuError>)
    ensures
        answers(command_len as nat, response@) ==> payload is Ok && payload->Ok_0@ == payload_of(
            response@,
        ),
        !answers(command_len as nat, response@) ==> payload is Err && payload->Err_0
            == ImuError::Transport,
{
    if command_len >= 1 && response.len() == command_len {
        Ok(vstd::slice::slice_subrange(response, 1, response.len()))
    } else {
        Err(ImuError::Transport)
    }
}

} // verus!
