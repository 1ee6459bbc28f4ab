//! Types for the ACK_CC_CI command.
use vstd::prelude::*;
use vstd::std_specs::convert::FromSpecImpl;
use crate::bits::{bit_u8, get_bit_u8, set_bit_u8, writes_bit_u8};
use crate::ucsi::{
    all_zero, check_frame, frame, frame_verdict, lemma_framed_bytes, lemma_framed_passes,
    wire_bit, zeros, DecodeError, PaddingCheck, COMMAND_ARGS_LEN, COMMAND_HEADER_LEN, COMMAND_LEN,
};

verus! {

/// Position of the flag that acknowledges a connector change.
pub const CONNECTOR_CHANGE_BIT: u8 = 0;

/// Position of the flag that acknowledges a completed command.
pub const COMMAND_COMPLETE_BIT: u8 = 1;

/// Data length for the ACK_CC_CI command response.
pub const RESPONSE_DATA_LEN: u8 = 0;

/// Length in bytes of the encoded flags.
pub const PAYLOAD_LEN: usize = 1;

/// Command padding: the zero bytes between the flags and the end of the slot.
pub const COMMAND_PADDING: usize = COMMAND_LEN - COMMAND_HEADER_LEN - PAYLOAD_LEN;

/// Raw ack flags (UCSI, section 6.5.4).
///
/// Every bit pattern is a valid value; bits without a name are kept as they
/// are.
#[derive(Copy, Clone, Debug, PartialEq, Eq, Structural)]
pub struct AckRaw(pub u8);

impl AckRaw {
    /// Takes a raw byte as a flag set.
    pub fn from_raw(value: u8) -> (flags: Self)
        ensures
            flags.0 == value,
    {
        AckRaw(value)
    }

    /// Returns the flag set as a raw byte.
    pub fn to_raw(&self) -> (value: u8)
        ensures
            value == self.0,
    {
        self.0
    }

    /// Reads the bit at `index`.
    pub fn get_bit(&self, index: u8) -> (set: bool)
        requires
            index < 8,
        ensures
            set == bit_u8(self.0, index),
    {
        get_bit_u8(self.0, index)
    }

    /// Writes the bit at `index` and leaves the others as they are.
    pub fn set_bit(&mut self, index: u8, value: bool) -> (ret: &mut Self)
        requires
            index < 8,
        ensures
            writes_bit_u8(old(self).0, index, value, ret.0),
            *final(self) == *final(ret),
    {
        self.0 = set_bit_u8(self.0, index, value);
        self
    }

    /// Ack connector change.
    pub fn connector_change(&self) -> (set: bool)
        ensures
            set == bit_u8(self.0, CONNECTOR_CHANGE_BIT),
    {
        self.get_bit(CONNECTOR_CHANGE_BIT)
    }

    /// Set ack connector change.
    pub fn set_connector_change(&mut self, value: bool)
        ensures
            writes_bit_u8(old(self).0, CONNECTOR_CHANGE_BIT, value, final(self).0),
    {
        self.set_bit(CONNECTOR_CHANGE_BIT, value);
    }

    /// Ack command complete.
    pub fn command_complete(&self) -> (set: bool)
        ensures
            set == bit_u8(self.0, COMMAND_COMPLETE_BIT),
    {
        self.get_bit(COMMAND_COMPLETE_BIT)
    }

    /// Set ack command complete.
    pub fn set_command_complete(&mut self, value: bool)
        ensures
            writes_bit_u8(old(self).0, COMMAND_COMPLETE_BIT, value, final(self).0),
    {
        self.set_bit(COMMAND_COMPLETE_BIT, value);
    }
}

/// Higher-level wrapper around [`AckRaw`].
#[derive(Copy, Clone, Debug, PartialEq, Eq, Structural)]
pub struct Ack(AckRaw);

impl View for Ack {
    type V = u8;

    /// The flags as a raw byte.
    closed spec fn view(&self) -> u8 {
        self.0.0
    }
}

impl Ack {
    /// The flags whose raw byte is `raw`.
    pub closed spec fn spec_from(raw: u8) -> Ack {
        Ack(AckRaw(raw))
    }

    /// The flags made from a raw byte hold that byte.
    pub proof fn lemma_view_of_from(raw: u8)
        ensures
            Ack::spec_from(raw)@ == raw,
    {
    }

    /// Flags are what is made from their raw byte, so two values with the
    /// same raw byte are equal.
    pub proof fn lemma_from_of_view(self)
        ensures
            Ack::spec_from(self@) == self,
    {
    }

    /// Two values are equal exactly when their raw bytes are.
    pub proof fn lemma_equal_iff_same_raw(self, other: Ack)
        ensures
            (self == other) <==> (self@ == other@),
    {
    }

    /// Returns connector change ack status.
    pub fn connector_change(&self) -> (set: bool)
        ensures
            set == bit_u8(self@, CONNECTOR_CHANGE_BIT),
    {
        self.0.connector_change()
    }

    /// Set connector change ack status.
    pub fn set_connector_change(&mut self, ack: bool) -> (ret: &mut Self)
        ensures
            writes_bit_u8(old(self)@, CONNECTOR_CHANGE_BIT, ack, ret@),
            *final(self) == *final(ret),
    {
        self.0.set_connector_change(ack);
        self
    }

    /// Returns command complete ack status.
    pub fn command_complete(&self) -> (set: bool)
        ensures
            set == bit_u8(self@, COMMAND_COMPLETE_BIT),
    {
        self.0.command_complete()
    }

    /// Set command complete ack status.
    pub fn set_command_complete(&mut self, ack: bool) -> (ret: &mut Self)
        ensures
            writes_bit_u8(old(self)@, COMMAND_COMPLETE_BIT, ack, ret@),
            *final(self) == *final(ret),
    {
        self.0.set_command_complete(ack);
        self
    }

    /// The encoded flags: their raw byte.
    pub open spec fn encoded(self) -> Seq<u8> {
        seq![self@]
    }

    /// What decoding finds at the front of `src`.
    pub open spec fn spec_decode(src: Seq<u8>) -> Result<Ack, DecodeError> {
        if src.len() < PAYLOAD_LEN {
            Err(DecodeError::TruncatedInput)
        } else {
            Ok(Ack::spec_from(src[0]))
        }
    }

    /// Encodes the flags as their raw byte.
    pub fn encode(&self) -> (bytes: [u8; PAYLOAD_LEN])
        ensures
            bytes@ == self.encoded(),
    {
        let bytes = [self.0.to_raw()];
        assert(bytes@ =~= self.encoded());
        bytes
    }

    /// Decodes the flags from the first byte of `src`. Any byte is valid.
    pub fn decode(src: &[u8]) -> (decoded: Result<Ack, DecodeError>)
        ensures
            decoded == Ack::spec_decode(src@),
            decoded matches Ok(ack) ==> ack@ == src@[0],
    {
        if src.len() < PAYLOAD_LEN {
            return Err(DecodeError::TruncatedInput);
        }
        Ok(Ack(AckRaw::from_raw(src[0])))
    }
}

impl From<u8> for Ack {
    fn from(raw: u8) -> (ack: Self)
        ensures
            ack@ == raw,
    {
        Ack(AckRaw::from_raw(raw))
    }
}

impl FromSpecImpl<u8> for Ack {
    open spec fn obeys_from_spec() -> bool {
        true
    }

    open spec fn from_spec(raw: u8) -> Self {
        Ack::spec_from(raw)
    }
}

impl Default for Ack {
    fn default() -> (ack: Self)
        ensures
            ack == Ack::spec_from(0),
            ack@ == 0,
    {
        Ack(AckRaw::from_raw(0))
    }
}

/// ACK_CC_CI command structure.
#[derive(Copy, Clone, Debug, PartialEq, Eq, Structural)]
pub struct Args {
    /// Ack flags.
    pub ack: Ack,
}

impl Default for Args {
    fn default() -> (args: Self)
        ensures
            args.ack == Ack::spec_from(0),
            args.ack@ == 0,
    {
        Args { ack: Ack::default() }
    }
}

impl Args {
    /// The encoded arguments: the flags, then zero bytes up to the end of the
    /// slot.
    pub open spec fn encoded(self) -> Seq<u8> {
        self.ack.encoded() + zeros(COMMAND_PADDING as nat)
    }

    /// What decoding finds in `src`: the arguments, or the reason why there
    /// are none.
    pub open spec fn spec_decode(src: Seq<u8>, check: PaddingCheck) -> Result<Args, DecodeError> {
        match frame_verdict(src, PAYLOAD_LEN as nat, check) {
            Err(e) => Err(e),
            Ok(_) => Ok(Args { ack: Ack::spec_from(src[0]) }),
        }
    }

    /// Encodes the arguments for the slot: always [`COMMAND_ARGS_LEN`] bytes,
    /// of which the last [`COMMAND_PADDING`] are zero.
    pub fn encode(&self) -> (slot: [u8; COMMAND_ARGS_LEN])
        ensures
            slot@ == self.encoded(),
            slot@.len() == COMMAND_LEN - COMMAND_HEADER_LEN,
            slot@.subrange(0, PAYLOAD_LEN as int) == self.ack.encoded(),
            all_zero(slot@.subrange(PAYLOAD_LEN as int, COMMAND_ARGS_LEN as int)),
    {
        let payload = self.ack.encode();
        proof {
            lemma_framed_bytes(payload@);
        }
        frame(payload.as_slice())
    }

    /// Decodes the arguments from the front of `src` and discards the
    /// padding, whatever it holds.
    pub fn decode(src: &[u8]) -> (decoded: Result<Args, DecodeError>)
        ensures
            decoded == Args::spec_decode(src@, PaddingCheck::Lenient),
            src@.len() < PAYLOAD_LEN + COMMAND_PADDING <==> decoded == Err::<Args, DecodeError>(
                DecodeError::TruncatedInput,
            ),
            src@.len() >= PAYLOAD_LEN + COMMAND_PADDING <==> decoded is Ok,
            decoded matches Ok(args) ==> args.ack@ == src@[0],
    {
        Args::decode_with(src, PaddingCheck::Lenient)
    }

    /// Decodes the arguments from the front of `src`. Under a strict check a
    /// padding byte that is not zero is an error.
    pub fn decode_with(src: &[u8], check: PaddingCheck) -> (decoded: Result<Args, DecodeError>)
        ensures
            decoded == Args::spec_decode(src@, check),
            src@.len() < PAYLOAD_LEN + COMMAND_PADDING <==> decoded == Err::<Args, DecodeError>(
                DecodeError::TruncatedInput,
            ),
            decoded matches Ok(args) ==> args.ack@ == src@[0],
    {
        match check_frame(src, PAYLOAD_LEN, check) {
            Err(e) => Err(e),
            Ok(_) => match Ack::decode(src) {
                Err(e) => Err(e),
                Ok(ack) => Ok(Args { ack }),
            },
        }
    }

    /// What was encoded decodes to the same arguments, whether the padding is
    /// checked or not.
    pub proof fn lemma_decode_encode(self, check: PaddingCheck)
        ensures
            Args::spec_decode(self.encoded(), check) == Ok::<Args, DecodeError>(self),
    {
        lemma_framed_passes(self.ack.encoded(), check);
        self.ack.lemma_from_of_view();
    }

    /// A frame with zero padding decodes, and what it decodes to encodes to
    /// that same frame.
    pub proof fn lemma_encode_decode(src: Seq<u8>, check: PaddingCheck)
        requires
            src.len() == COMMAND_ARGS_LEN,
            all_zero(src.subrange(PAYLOAD_LEN as int, COMMAND_ARGS_LEN as int)),
        ensures
            Args::spec_decode(src, check) matches Ok(args) && args.encoded() == src,
    {
        let args = Args { ack: Ack::spec_from(src[0]) };
        Ack::lemma_view_of_from(src[0]);
        let padding = src.subrange(PAYLOAD_LEN as int, COMMAND_ARGS_LEN as int);
        assert forall|i: int| 0 <= i < COMMAND_ARGS_LEN implies args.encoded()[i] == src[i] by {
            if i >= PAYLOAD_LEN {
                assert(src[i] == padding[i - PAYLOAD_LEN]);
            }
        }
        assert(args.encoded() =~= src);
    }

    /// The encoding fills what the slot leaves after the header, whichever
    /// flags are set.
    pub proof fn lemma_encoded_len(self)
        ensures
            self.encoded().len() == COMMAND_LEN - COMMAND_HEADER_LEN,
    {
    }

    /// Lenient decoding reads the flags and nothing else: two buffers that
    /// hold a whole frame and agree on the payload decode alike.
    pub proof fn lemma_padding_ignored(a: Seq<u8>, b: Seq<u8>)
        requires
            a.len() >= COMMAND_ARGS_LEN,
            b.len() >= COMMAND_ARGS_LEN,
            a[0] == b[0],
        ensures
            Args::spec_decode(a, PaddingCheck::Lenient) == Args::spec_decode(
                b,
                PaddingCheck::Lenient,
            ),
    {
    }

    /// Bit `position` of the encoding is the flag at that position, and zero
    /// past the flags. So two encodings differ in exactly the positions in
    /// which the flags differ, reserved ones included, and never in the
    /// padding.
    pub proof fn lemma_encoded_bits(self, other: Args, position: nat)
        requires
            position < 8 * COMMAND_ARGS_LEN,
        ensures
            position < 8 ==> wire_bit(self.encoded(), position) == bit_u8(
                self.ack@,
                position as u8,
            ),
            position >= 8 ==> !wire_bit(self.encoded(), position),
            wire_bit(self.encoded(), position) != wire_bit(other.encoded(), position) <==> position
                < 8 && bit_u8(self.ack@, position as u8) != bit_u8(other.ack@, position as u8),
    {
        lemma_framed_bytes(self.ack.encoded());
        lemma_framed_bytes(other.ack.encoded());
        let index = position as int / 8;
        let shift = (position % 8) as u8;
        if position >= 8 {
            assert(self.encoded()[index] == 0);
            assert(other.encoded()[index] == 0);
            assert(!bit_u8(0u8, shift)) by (bit_vector);
        } else {
            assert(index == 0);
            assert(self.encoded()[0] == self.ack@);
            assert(other.encoded()[0] == other.ack@);
        }
    }
}

} // verus!
