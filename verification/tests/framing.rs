use usb_pd::ucsi::{
    check_frame, frame, u16_of_le, u16_to_le, DecodeError, PaddingCheck, COMMAND_ARGS_LEN,
    COMMAND_HEADER_LEN, COMMAND_LEN,
};

#[test]
fn slot_lengths() {
    assert_eq!(COMMAND_LEN, 8);
    assert_eq!(COMMAND_HEADER_LEN, 2);
    assert_eq!(COMMAND_ARGS_LEN, 6);
    assert_eq!(COMMAND_ARGS_LEN, COMMAND_LEN - COMMAND_HEADER_LEN);
}

#[test]
fn padding_check_defaults_to_lenient() {
    assert_eq!(PaddingCheck::default(), PaddingCheck::Lenient);
}

#[test]
fn frame_of_nothing_is_all_zero() {
    assert_eq!(frame(&[]), [0u8; 6]);
}

#[test]
fn frame_puts_payload_first_and_zeros_after() {
    assert_eq!(frame(&[0xAB]), [0xAB, 0, 0, 0, 0, 0]);
    assert_eq!(frame(&[0x01, 0x02, 0x03]), [0x01, 0x02, 0x03, 0, 0, 0]);
    assert_eq!(frame(&[0xFF, 0xFF, 0xFF, 0xFF, 0xFF]), [0xFF, 0xFF, 0xFF, 0xFF, 0xFF, 0]);
}

#[test]
fn frame_of_a_full_payload_has_no_padding() {
    assert_eq!(frame(&[1, 2, 3, 4, 5, 6]), [1, 2, 3, 4, 5, 6]);
}

#[test]
fn check_frame_truncated_below_slot_length() {
    for len in 0..COMMAND_ARGS_LEN {
        let src = vec![0u8; len];
        for check in [PaddingCheck::Lenient, PaddingCheck::Strict] {
            for payload_len in 0..=COMMAND_ARGS_LEN {
                assert_eq!(
                    check_frame(&src, payload_len, check),
                    Err(DecodeError::TruncatedInput)
                );
            }
        }
    }
}

#[test]
fn check_frame_lenient_accepts_any_padding() {
    assert_eq!(check_frame(&[1, 2, 3, 4, 5, 6], 1, PaddingCheck::Lenient), Ok(()));
    assert_eq!(check_frame(&[0xFF; 6], 0, PaddingCheck::Lenient), Ok(()));
    assert_eq!(check_frame(&[0xFF; 9], 2, PaddingCheck::Lenient), Ok(()));
}

#[test]
fn check_frame_strict_wants_zero_padding() {
    assert_eq!(check_frame(&[9, 0, 0, 0, 0, 0], 1, PaddingCheck::Strict), Ok(()));
    assert_eq!(
        check_frame(&[9, 1, 0, 0, 0, 0], 1, PaddingCheck::Strict),
        Err(DecodeError::NonZeroPadding)
    );
    assert_eq!(
        check_frame(&[9, 0, 0, 0, 0, 1], 1, PaddingCheck::Strict),
        Err(DecodeError::NonZeroPadding)
    );
    // The payload itself is never held to zero.
    assert_eq!(check_frame(&[9, 9, 0, 0, 0, 0], 2, PaddingCheck::Strict), Ok(()));
    assert_eq!(check_frame(&[9, 9, 9, 9, 9, 9], 6, PaddingCheck::Strict), Ok(()));
}

#[test]
fn check_frame_strict_looks_at_the_slot_only() {
    // Bytes past the slot belong to whatever follows it.
    assert_eq!(check_frame(&[9, 0, 0, 0, 0, 0, 7, 7], 1, PaddingCheck::Strict), Ok(()));
}

#[test]
fn check_frame_truncation_comes_before_padding() {
    assert_eq!(
        check_frame(&[9, 1, 1], 1, PaddingCheck::Strict),
        Err(DecodeError::TruncatedInput)
    );
}

#[test]
fn u16_to_le_puts_low_byte_first() {
    assert_eq!(u16_to_le(0x0000), [0x00, 0x00]);
    assert_eq!(u16_to_le(0x0001), [0x01, 0x00]);
    assert_eq!(u16_to_le(0x0100), [0x00, 0x01]);
    assert_eq!(u16_to_le(0xC000), [0x00, 0xC0]);
    assert_eq!(u16_to_le(0x1234), [0x34, 0x12]);
    assert_eq!(u16_to_le(0xFFFF), [0xFF, 0xFF]);
}

#[test]
fn u16_of_le_joins_low_byte_first() {
    assert_eq!(u16_of_le(0x00, 0x00), 0x0000);
    assert_eq!(u16_of_le(0x34, 0x12), 0x1234);
    assert_eq!(u16_of_le(0x00, 0xC0), 0xC000);
    assert_eq!(u16_of_le(0xFF, 0x00), 0x00FF);
    assert_eq!(u16_of_le(0xFF, 0xFF), 0xFFFF);
}

#[test]
fn u16_le_round_trips_every_value() {
    for value in 0..=u16::MAX {
        let bytes = u16_to_le(value);
        assert_eq!(u16_of_le(bytes[0], bytes[1]), value);
        assert_eq!(bytes, value.to_le_bytes());
    }
}
