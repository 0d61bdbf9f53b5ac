use onboard_controller::error::ImuError;
use onboard_controller::registers::{
    aux_master_request, identity_request, mag_config_request, motion_request, read_address,
    read_request, response_payload, write_address, write_request, ADDRESS_MASK, ID_GYRO_ONLY,
    ID_MAG_CAPABLE, MOTION_PAYLOAD_LEN, READ_FLAG, REG_AUX_MAG_CONFIG, REG_AUX_MASTER,
    REG_IDENTITY, REG_MOTION_DATA,
};

#[test]
fn register_map() {
    assert_eq!(REG_IDENTITY, 0x75);
    assert_eq!(REG_AUX_MASTER, 0x6A);
    assert_eq!(REG_AUX_MAG_CONFIG, 0x24);
    assert_eq!(REG_MOTION_DATA, 0x3B);
    assert_eq!(MOTION_PAYLOAD_LEN, 20);
    assert_eq!(ID_MAG_CAPABLE, 0x71);
    assert_eq!(ID_GYRO_ONLY, 0x70);
    assert_eq!(READ_FLAG, 0x80);
    assert_eq!(ADDRESS_MASK, 0x7F);
}

#[test]
fn read_sets_the_top_bit() {
    assert_eq!(read_address(0x75), 0xF5);
    assert_eq!(read_address(0x3B), 0xBB);
    assert_eq!(read_address(0x00), 0x80);
    assert_eq!(read_address(0xF5), 0xF5);
}

#[test]
fn write_clears_the_top_bit() {
    assert_eq!(write_address(0x6A), 0x6A);
    assert_eq!(write_address(0x24), 0x24);
    assert_eq!(write_address(0xEA), 0x6A);
    assert_eq!(write_address(0x80), 0x00);
}

#[test]
fn every_address_keeps_its_low_bits() {
    for register in 0..=255u8 {
        assert_eq!(read_address(register), register | 0x80);
        assert_eq!(write_address(register), register & 0x7F);
        assert_eq!(read_address(register) & 0x7F, write_address(register));
    }
}

#[test]
fn identity_read_bytes() {
    assert_eq!(identity_request(), vec![0xF5, 0x00]);
}

#[test]
fn aux_master_write_bytes() {
    assert_eq!(aux_master_request(), vec![0x6A, 0x20]);
}

#[test]
fn mag_config_write_bytes() {
    assert_eq!(mag_config_request(), vec![0x24, 0x0D, 0x8C, 0x02, 0x88]);
}

#[test]
fn motion_read_bytes() {
    let command = motion_request();
    assert_eq!(command.len(), 21);
    assert_eq!(command[0], 0xBB);
    assert!(command[1..].iter().all(|b| *b == 0));
}

#[test]
fn read_request_is_padded_with_zeros() {
    assert_eq!(read_request(0x10, 0), vec![0x90]);
    assert_eq!(read_request(0x10, 3), vec![0x90, 0, 0, 0]);
}

#[test]
fn write_request_carries_the_payload() {
    assert_eq!(write_request(0x90, &[]), vec![0x10]);
    assert_eq!(write_request(0x10, &[1, 2, 3]), vec![0x10, 1, 2, 3]);
}

#[test]
fn payload_drops_the_first_byte() {
    assert_eq!(response_payload(3, &[9, 1, 2]), Ok(&[1u8, 2][..]));
    assert_eq!(response_payload(1, &[9]), Ok(&[][..]));
}

#[test]
fn payload_of_wrong_length_is_a_transport_failure() {
    assert_eq!(response_payload(3, &[9, 1]), Err(ImuError::Transport));
    assert_eq!(response_payload(3, &[9, 1, 2, 3]), Err(ImuError::Transport));
    assert_eq!(response_payload(0, &[]), Err(ImuError::Transport));
}

#[test]
fn error_descriptions_differ() {
    let a = ImuError::Transport.describe();
    let b = ImuError::UnsupportedDevice { id: 0x12 }.describe();
    let c = ImuError::SingularInput.describe();
    assert_eq!(a, "bus transaction failed");
    assert_eq!(b, "identity register names no supported sensor");
    assert_eq!(c, "acceleration or magnetic field has zero norm");
}
