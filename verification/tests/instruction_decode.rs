use hello_counter::error::DecodeError;
use hello_counter::instruction::HelloInstruction;

#[test]
fn empty_buffer_is_missing_tag() {
    assert_eq!(HelloInstruction::unpack(&[]), Err(DecodeError::MissingTag));
}

#[test]
fn tag_zero_is_increment() {
    assert_eq!(HelloInstruction::unpack(&[0]), Ok(HelloInstruction::Increment));
}

#[test]
fn tag_zero_ignores_trailing_bytes() {
    assert_eq!(HelloInstruction::unpack(&[0, 1, 2, 3]), Ok(HelloInstruction::Increment));
    assert_eq!(
        HelloInstruction::unpack(&[0, 255, 255, 255, 255]),
        Ok(HelloInstruction::Increment)
    );
}

#[test]
fn tag_one_is_decrement() {
    assert_eq!(HelloInstruction::unpack(&[1]), Ok(HelloInstruction::Decrement));
}

#[test]
fn tag_one_ignores_trailing_bytes() {
    assert_eq!(HelloInstruction::unpack(&[1, 9, 9]), Ok(HelloInstruction::Decrement));
}

#[test]
fn set_age_reads_four_little_endian_bytes() {
    assert_eq!(
        HelloInstruction::unpack(&[2, 5, 0, 0, 0]),
        Ok(HelloInstruction::SetAge(5))
    );
    assert_eq!(
        HelloInstruction::unpack(&[2, 0x01, 0x00, 0x00, 0x00]),
        Ok(HelloInstruction::SetAge(1))
    );
    assert_eq!(
        HelloInstruction::unpack(&[2, 0xFF, 0xFF, 0xFF, 0xFF]),
        Ok(HelloInstruction::SetAge(4294967295))
    );
    assert_eq!(
        HelloInstruction::unpack(&[2, 0x78, 0x56, 0x34, 0x12]),
        Ok(HelloInstruction::SetAge(0x12345678))
    );
}

#[test]
fn set_age_payload_too_short() {
    assert_eq!(
        HelloInstruction::unpack(&[2]),
        Err(DecodeError::InvalidPayloadLength)
    );
    assert_eq!(
        HelloInstruction::unpack(&[2, 5, 0]),
        Err(DecodeError::InvalidPayloadLength)
    );
}

#[test]
fn set_age_payload_too_long() {
    assert_eq!(
        HelloInstruction::unpack(&[2, 5, 0, 0, 0, 0]),
        Err(DecodeError::InvalidPayloadLength)
    );
}

#[test]
fn unknown_tags_are_rejected() {
    assert_eq!(HelloInstruction::unpack(&[3]), Err(DecodeError::UnrecognizedTag));
    assert_eq!(HelloInstruction::unpack(&[4]), Err(DecodeError::UnrecognizedTag));
    assert_eq!(HelloInstruction::unpack(&[255]), Err(DecodeError::UnrecognizedTag));
    assert_eq!(
        HelloInstruction::unpack(&[7, 1, 2, 3, 4]),
        Err(DecodeError::UnrecognizedTag)
    );
}
