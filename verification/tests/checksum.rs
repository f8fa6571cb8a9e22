use tensorboard_writer::masked_crc::checksum;
use tensorboard_writer::MaskedCrc;

#[test]
fn crc32c_of_check_string() {
    assert_eq!(checksum(b"123456789"), 0xe306_9283);
}

#[test]
fn crc32c_of_nothing_is_zero() {
    assert_eq!(checksum(b""), 0);
}

#[test]
fn crc32c_of_known_blocks() {
    assert_eq!(checksum(&[0u8; 32]), 0x8a91_36aa);
    assert_eq!(checksum(&[0xffu8; 32]), 0x62a8_ab43);
    let ascending: Vec<u8> = (0u8..32).collect();
    assert_eq!(checksum(&ascending), 0x46dd_794e);
    let descending: Vec<u8> = (0u8..32).rev().collect();
    assert_eq!(checksum(&descending), 0x113f_db5c);
}

#[test]
fn mask_rotates_then_adds() {
    assert_eq!(MaskedCrc::from_crc(0), MaskedCrc(0xa282_ead8));
    assert_eq!(MaskedCrc::from_crc(1), MaskedCrc(0xa284_ead8));
    assert_eq!(MaskedCrc::from_crc(0x8000), MaskedCrc(0xa282_ead9));
}

#[test]
fn mask_wraps_around() {
    // rotating all ones gives all ones; adding the offset wraps past zero
    assert_eq!(MaskedCrc::from_crc(0xffff_ffff), MaskedCrc(0xa282_ead7));
}

#[test]
fn masked_crc_of_empty_buffer() {
    assert_eq!(MaskedCrc::compute(b""), MaskedCrc(0xa282_ead8));
}

#[test]
fn masked_crc_is_deterministic() {
    let data = b"tensorboard";
    assert_eq!(MaskedCrc::compute(data), MaskedCrc::compute(&data.to_vec()));
}

#[test]
fn masked_crc_tells_trivial_inputs_apart() {
    let empty = MaskedCrc::compute(b"");
    assert_ne!(empty, MaskedCrc::compute(&[0]));
    assert_ne!(empty, MaskedCrc::compute(&[0, 0]));
    assert_ne!(MaskedCrc::compute(&[0]), MaskedCrc::compute(&[0, 0]));
    assert_ne!(MaskedCrc::compute(b"a"), MaskedCrc::compute(b"b"));
}

#[test]
fn masked_crc_differs_from_raw_crc() {
    let data = b"123456789";
    assert_ne!(MaskedCrc::compute(data).0, checksum(data));
    assert_eq!(MaskedCrc::compute(data), MaskedCrc::from_crc(0xe306_9283));
}
