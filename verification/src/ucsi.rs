//! The UCSI command slot and the framing shared by all command arguments.
//!
//! A command occupies one slot of [`COMMAND_LEN`] bytes: a header of
//! [`COMMAND_HEADER_LEN`] bytes, then the command's arguments, then zero bytes
//! up to the end of the slot. The functions here write and check everything
//! that follows the header; the argument types in [`ppm`] supply the payload.
use vstd::prelude::*;
use crate::bits::{bit_u16, bit_u8};

pub mod ppm;

verus! {

/// Length in bytes of one command slot: header, arguments and padding.
pub const COMMAND_LEN: usize = 8;

/// Length in bytes of the header that opens a command slot.
pub const COMMAND_HEADER_LEN: usize = 2;

/// Length in bytes of what follows the header: arguments and padding.
pub const COMMAND_ARGS_LEN: usize = COMMAND_LEN - COMMAND_HEADER_LEN;

/// Why a buffer could not be decoded.
#[derive(Copy, Clone, Debug, PartialEq, Eq, Structural)]
pub enum DecodeError {
    /// The buffer ends before the payload and its padding do.
    TruncatedInput,
    /// A padding byte is not zero, and the caller asked for that to be checked.
    NonZeroPadding,
}

/// What decoding does with the padding bytes that follow a payload.
#[derive(Copy, Clone, Debug, PartialEq, Eq, Structural)]
pub enum PaddingCheck {
    /// Padding bytes are read and discarded, whatever they hold.
    Lenient,
    /// Every padding byte must be zero.
    Strict,
}

impl Default for PaddingCheck {
    fn default() -> (check: Self)
        ensures
            check == PaddingCheck::Lenient,
    {
        PaddingCheck::Lenient
    }
}

/// A run of `count` zero bytes.
pub open spec fn zeros(count: nat) -> Seq<u8> {
    Seq::new(count, |i: int| 0u8)
}

/// Whether every byte of `bytes` is zero.
pub open spec fn all_zero(bytes: Seq<u8>) -> bool {
    forall|i: int| 0 <= i < bytes.len() ==> bytes[i] == 0
}

/// Bit `position` of a byte string, counted from the low bit of the first byte.
pub open spec fn wire_bit(bytes: Seq<u8>, position: nat) -> bool
    recommends
        position < 8 * bytes.len(),
{
    bit_u8(bytes[position as int / 8], (position % 8) as u8)
}

/// A 16-bit integer as two bytes, low byte first.
pub open spec fn u16_le_bytes(value: u16) -> Seq<u8> {
    seq![(value & 0xff) as u8, (value >> 8) as u8]
}

/// The 16-bit integer whose low byte is `low` and whose high byte is `high`.
pub open spec fn u16_from_le(low: u8, high: u8) -> u16 {
    (low as u16) | ((high as u16) << 8)
}

/// The bytes that follow the header for a given payload: the payload itself,
/// then zero bytes up to the end of the slot.
pub open spec fn framed(payload: Seq<u8>) -> Seq<u8>
    recommends
        payload.len() <= COMMAND_ARGS_LEN,
{
    payload + zeros((COMMAND_ARGS_LEN - payload.len()) as nat)
}

/// What a check of the frame around a payload of `payload_len` bytes finds in
/// `src`: too few bytes, padding that is not zero where that matters, or
/// nothing to object to.
pub open spec fn frame_verdict(src: Seq<u8>, payload_len: nat, check: PaddingCheck) -> Result<
    (),
    DecodeError,
>
    recommends
        payload_len <= COMMAND_ARGS_LEN,
{
    if src.len() < COMMAND_ARGS_LEN {
        Err(DecodeError::TruncatedInput)
    } else if check == PaddingCheck::Strict && !all_zero(
        src.subrange(payload_len as int, COMMAND_ARGS_LEN as int),
    ) {
        Err(DecodeError::NonZeroPadding)
    } else {
        Ok(())
    }
}

/// Splits a 16-bit integer into two bytes, low byte first.
pub fn u16_to_le(value: u16) -> (bytes: [u8; 2])
    ensures
        bytes@ == u16_le_bytes(value),
{
    let bytes = [(value & 0xff) as u8, (value >> 8) as u8];
    assert(bytes@ =~= u16_le_bytes(value));
    bytes
}

/// Joins two bytes, low byte first, into a 16-bit integer.
pub fn u16_of_le(low: u8, high: u8) -> (value: u16)
    ensures
        value == u16_from_le(low, high),
{
    (low as u16) | ((high as u16) << 8)
}

/// Lays a payload out for the slot: the payload first, zero bytes after it.
pub fn frame(payload: &[u8]) -> (slot: [u8; COMMAND_ARGS_LEN])
    requires
        payload@.len() <= COMMAND_ARGS_LEN,
    ensures
        slot@ == framed(payload@),
{
    let mut slot = [0u8; COMMAND_ARGS_LEN];
    let mut i: usize = 0;
    while i < payload.len()
        invariant
            i <= payload@.len() <= COMMAND_ARGS_LEN,
            forall|k: int| 0 <= k < i ==> slot@[k] == payload@[k],
            forall|k: int| i <= k < COMMAND_ARGS_LEN ==> slot@[k] == 0,
        decreases payload@.len() - i,
    {
        slot[i] = payload[i];
        i += 1;
    }
    assert(slot@ =~= framed(payload@));
    slot
}

/// Checks that `src` holds a whole frame around a payload of `payload_len`
/// bytes, and, where `check` is strict, that the padding is zero.
pub fn check_frame(src: &[u8], payload_len: usize, check: PaddingCheck) -> (verdict: Result<
    (),
    DecodeError,
>)
    requires
        payload_len <= COMMAND_ARGS_LEN,
    ensures
        verdict == frame_verdict(src@, payload_len as nat, check),
{
    if src.len() < COMMAND_ARGS_LEN {
        return Err(DecodeError::TruncatedInput);
    }
    if check == PaddingCheck::Strict {
        let ghost padding = src@.subrange(payload_len as int, COMMAND_ARGS_LEN as int);
        let mut i: usize = payload_len;
        while i < COMMAND_ARGS_LEN
            invariant
                check == PaddingCheck::Strict,
                payload_len <= i <= COMMAND_ARGS_LEN <= src@.len(),
                padding == src@.subrange(payload_len as int, COMMAND_ARGS_LEN as int),
                forall|k: int| payload_len <= k < i ==> src@[k] == 0,
            decreases COMMAND_ARGS_LEN - i,
        {
            if src[i] != 0 {
                assert(padding[i - payload_len] != 0);
                return Err(DecodeError::NonZeroPadding);
            }
            i += 1;
        }
        assert(all_zero(padding));
    }
    Ok(())
}

/// A frame always fills what the slot leaves after the header.
pub proof fn lemma_framed_len(payload: Seq<u8>)
    requires
        payload.len() <= COMMAND_ARGS_LEN,
    ensures
        framed(payload).len() == COMMAND_LEN - COMMAND_HEADER_LEN,
{
}

/// A frame opens with its payload, and every byte after the payload is zero.
pub proof fn lemma_framed_bytes(payload: Seq<u8>)
    requires
        payload.len() <= COMMAND_ARGS_LEN,
    ensures
        framed(payload).subrange(0, payload.len() as int) == payload,
        all_zero(framed(payload).subrange(payload.len() as int, COMMAND_ARGS_LEN as int)),
{
    assert(framed(payload).subrange(0, payload.len() as int) =~= payload);
}

/// A frame that was written here passes the check, strict or lenient.
pub proof fn lemma_framed_passes(payload: Seq<u8>, check: PaddingCheck)
    requires
        payload.len() <= COMMAND_ARGS_LEN,
    ensures
        frame_verdict(framed(payload), payload.len(), check) == Ok::<(), DecodeError>(()),
{
    lemma_framed_bytes(payload);
}

/// Two bytes joined and split again are the integer they came from.
pub proof fn lemma_u16_le_round_trip(value: u16)
    ensures
        u16_le_bytes(value).len() == 2,
        u16_from_le(u16_le_bytes(value)[0], u16_le_bytes(value)[1]) == value,
{
    assert((((value & 0xff) as u8) as u16) | ((((value >> 8) as u8) as u16) << 8) == value)
        by (bit_vector);
}

/// An integer split and joined again gives back the two bytes.
pub proof fn lemma_u16_le_bytes_of_joined(low: u8, high: u8)
    ensures
        u16_le_bytes(u16_from_le(low, high)) == seq![low, high],
{
    let value = u16_from_le(low, high);
    assert((value & 0xff) as u8 == low && (value >> 8) as u8 == high) by (bit_vector)
        requires
            value == (low as u16) | ((high as u16) << 8),
    ;
}

/// Bit `position` of the two bytes is bit `position` of the integer.
pub proof fn lemma_u16_le_bits(value: u16, position: nat)
    requires
        position < 16,
    ensures
        wire_bit(u16_le_bytes(value), position) == bit_u16(value, position as u16),
{
    let shift = (position % 8) as u8;
    let index = position as u16;
    if position < 8 {
        assert(position as int / 8 == 0);
        assert(((((value & 0xff) as u8) >> shift) & 1u8 == 1u8) == ((value >> index) & 1u16
            == 1u16)) by (bit_vector)
            requires
                shift < 8,
                index == shift as u16,
        ;
    } else {
        assert(position as int / 8 == 1);
        assert(((((value >> 8) as u8) >> shift) & 1u8 == 1u8) == ((value >> index) & 1u16 == 1u16))
            by (bit_vector)
            requires
                shift < 8,
                index == shift as u16 + 8,
        ;
    }
}

} // verus!
