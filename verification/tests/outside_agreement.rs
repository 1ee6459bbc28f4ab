//! The layout written here, held against the crates that define the same
//! things for other code: bincode's fixed-width little-endian encoding and
//! bitfield's single-bit accessors.
use bitfield::{Bit, BitMut};
use usb_pd::bits::{get_bit_u16, get_bit_u8, set_bit_u16, set_bit_u8};
use usb_pd::ucsi::ppm::{ack_cc_ci, set_notification_enable};
use usb_pd::ucsi::COMMAND_ARGS_LEN;

#[test]
fn bits_agree_with_bitfield_on_u8() {
    for raw in 0..=255u8 {
        for index in 0..8u8 {
            assert_eq!(get_bit_u8(raw, index), raw.bit(usize::from(index)));
            for value in [false, true] {
                let mut expected = raw;
                expected.set_bit(usize::from(index), value);
                assert_eq!(set_bit_u8(raw, index, value), expected);
            }
        }
    }
}

#[test]
fn bits_agree_with_bitfield_on_u16() {
    for raw in 0..=u16::MAX {
        for index in 0..16u16 {
            assert_eq!(get_bit_u16(raw, index), raw.bit(usize::from(index)));
            for value in [false, true] {
                let mut expected = raw;
                expected.set_bit(usize::from(index), value);
                assert_eq!(set_bit_u16(raw, index, value), expected);
            }
        }
    }
}

#[test]
fn ack_args_agree_with_bincode() {
    let config = bincode::config::legacy();
    for raw in 0..=255u8 {
        let args = ack_cc_ci::Args { ack: ack_cc_ci::Ack::from(raw) };
        let expected =
            bincode::encode_to_vec((raw, [0u8; ack_cc_ci::COMMAND_PADDING]), config).unwrap();
        assert_eq!(args.encode().to_vec(), expected);
        assert_eq!(expected.len(), COMMAND_ARGS_LEN);

        let ((flags, _padding), read): ((u8, [u8; ack_cc_ci::COMMAND_PADDING]), usize) =
            bincode::decode_from_slice(&args.encode(), config).unwrap();
        assert_eq!(read, COMMAND_ARGS_LEN);
        assert_eq!(ack_cc_ci::Args::decode(&args.encode()).unwrap().ack, ack_cc_ci::Ack::from(flags));
    }
}

#[test]
fn notification_args_agree_with_bincode() {
    let config = bincode::config::legacy();
    for raw in 0..=u16::MAX {
        let args = set_notification_enable::Args {
            notification_enable: set_notification_enable::NotificationEnable::from(raw),
        };
        let expected =
            bincode::encode_to_vec((raw, [0u8; set_notification_enable::COMMAND_PADDING]), config)
                .unwrap();
        assert_eq!(args.encode().to_vec(), expected);
        assert_eq!(expected.len(), COMMAND_ARGS_LEN);

        let ((flags, _padding), read): ((u16, [u8; set_notification_enable::COMMAND_PADDING]), usize) =
            bincode::decode_from_slice(&args.encode(), config).unwrap();
        assert_eq!(read, COMMAND_ARGS_LEN);
        assert_eq!(
            u16::from(
                set_notification_enable::Args::decode(&args.encode()).unwrap().notification_enable
            ),
            flags
        );
    }
}

#[test]
fn truncated_input_agrees_with_bincode() {
    let config = bincode::config::legacy();
    let whole = [0x34u8, 0x12, 0, 0, 0, 0];
    for len in 0..=whole.len() {
        let ours = set_notification_enable::Args::decode(&whole[..len]);
        let theirs: Result<((u16, [u8; set_notification_enable::COMMAND_PADDING]), usize), _> =
            bincode::decode_from_slice(&whole[..len], config);
        assert_eq!(ours.is_ok(), theirs.is_ok());
        assert_eq!(ours.is_ok(), len == whole.len());
    }
}
