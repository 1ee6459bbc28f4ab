//! Types for the SET_NOTIFICATION_ENABLE command.
use vstd::prelude::*;
use vstd::std_specs::convert::FromSpecImpl;
use crate::bits::{
    bit_u16, bit_u8, get_bit_u16, lemma_bit_of_and_u16, lemma_bit_of_or_u16, set_bit_u16,
    writes_bit_u16,
};
use crate::ucsi::{
    all_zero, check_frame, frame, frame_verdict, lemma_framed_bytes, lemma_framed_passes,
    lemma_u16_le_bits, lemma_u16_le_bytes_of_joined, lemma_u16_le_round_trip, u16_from_le,
    u16_le_bytes, u16_of_le, u16_to_le, wire_bit, zeros, DecodeError, PaddingCheck,
    COMMAND_ARGS_LEN, COMMAND_HEADER_LEN, COMMAND_LEN,
};

verus! {

/// Position of the flag that asks for a notification on command complete.
pub const CMD_COMPLETE_BIT: u16 = 0;

/// Position of the flag that asks for a notification on external supply change.
pub const EXTERNAL_SUPPLY_CHANGE_BIT: u16 = 1;

/// Position of the flag that asks for a notification on power operation mode change.
pub const POWER_OP_MODE_CHANGE_BIT: u16 = 2;

/// Position of the flag that asks for a notification on provider capabilities change.
pub const PROVIDER_CAPS_CHANGE_BIT: u16 = 5;

/// Position of the flag that asks for a notification on power level change.
pub const POWER_LVL_CHANGE_BIT: u16 = 6;

/// Position of the flag that asks for a notification on PD reset complete.
pub const PD_RESET_COMPLETE_BIT: u16 = 7;

/// Position of the flag that asks for a notification on connector alternate mode change.
pub const CAM_CHANGE_BIT: u16 = 8;

/// Position of the flag that asks for a notification on battery charge change.
pub const BATTERY_CHARGE_CHANGE_BIT: u16 = 9;

/// Position of the flag that asks for a notification on connector partner change.
pub const CONNECTOR_PARTNER_CHANGE_BIT: u16 = 11;

/// Position of the flag that asks for a notification on power direction change.
pub const POWER_DIR_CHANGE_BIT: u16 = 12;

/// Position of the flag that asks for a notification on connect change.
pub const CONNECT_CHANGE_BIT: u16 = 14;

/// Position of the flag that asks for a notification on error.
pub const ERROR_BIT: u16 = 15;

/// Data length for the SET_NOTIFICATION_ENABLE command response.
pub const RESPONSE_DATA_LEN: u8 = 0;

/// Length in bytes of the encoded flags.
pub const PAYLOAD_LEN: usize = 2;

/// Command padding: the zero bytes between the flags and the end of the slot.
pub const COMMAND_PADDING: usize = COMMAND_LEN - COMMAND_HEADER_LEN - PAYLOAD_LEN;

/// Raw notification enable flags (UCSI, section 6.5.5).
///
/// Every bit pattern is a valid value; bits without a name are kept as they
/// are.
#[derive(Copy, Clone, Debug, PartialEq, Eq, Structural)]
pub struct NotificationEnableRaw(pub u16);

impl NotificationEnableRaw {
    /// Takes a raw integer as a flag set.
    pub fn from_raw(value: u16) -> (flags: Self)
        ensures
            flags.0 == value,
    {
        NotificationEnableRaw(value)
    }

    /// Returns the flag set as a raw integer.
    pub fn to_raw(&self) -> (value: u16)
        ensures
            value == self.0,
    {
        self.0
    }

    /// Reads the bit at `index`.
    pub fn get_bit(&self, index: u16) -> (set: bool)
        requires
            index < 16,
        ensures
            set == bit_u16(self.0, index),
    {
        get_bit_u16(self.0, index)
    }

    /// Writes the bit at `index` and leaves the others as they are.
    pub fn set_bit(&mut self, index: u16, value: bool) -> (ret: &mut Self)
        requires
            index < 16,
        ensures
            writes_bit_u16(old(self).0, index, value, ret.0),
            *final(self) == *final(ret),
    {
        self.0 = set_bit_u16(self.0, index, value);
        self
    }

    /// Notify on command complete.
    pub fn cmd_complete(&self) -> (set: bool)
        ensures
            set == bit_u16(self.0, CMD_COMPLETE_BIT),
    {
        self.get_bit(CMD_COMPLETE_BIT)
    }

    /// Set notify on command complete.
    pub fn set_cmd_complete(&mut self, value: bool)
        ensures
            writes_bit_u16(old(self).0, CMD_COMPLETE_BIT, value, final(self).0),
    {
        self.set_bit(CMD_COMPLETE_BIT, value);
    }

    /// Notify on external supply change.
    pub fn external_supply_change(&self) -> (set: bool)
        ensures
            set == bit_u16(self.0, EXTERNAL_SUPPLY_CHANGE_BIT),
    {
        self.get_bit(EXTERNAL_SUPPLY_CHANGE_BIT)
    }

    /// Set notify on external supply change.
    pub fn set_external_supply_change(&mut self, value: bool)
        ensures
            writes_bit_u16(old(self).0, EXTERNAL_SUPPLY_CHANGE_BIT, value, final(self).0),
    {
        self.set_bit(EXTERNAL_SUPPLY_CHANGE_BIT, value);
    }

    /// Notify on power operation mode change.
    pub fn power_op_mode_change(&self) -> (set: bool)
        ensures
            set == bit_u16(self.0, POWER_OP_MODE_CHANGE_BIT),
    {
        self.get_bit(POWER_OP_MODE_CHANGE_BIT)
    }

    /// Set notify on power operation mode change.
    pub fn set_power_op_mode_change(&mut self, value: bool)
        ensures
            writes_bit_u16(old(self).0, POWER_OP_MODE_CHANGE_BIT, value, final(self).0),
    {
        self.set_bit(POWER_OP_MODE_CHANGE_BIT, value);
    }

    /// Notify on provider capabilities change.
    pub fn provider_caps_change(&self) -> (set: bool)
        ensures
            set == bit_u16(self.0, PROVIDER_CAPS_CHANGE_BIT),
    {
        self.get_bit(PROVIDER_CAPS_CHANGE_BIT)
    }

    /// Set notify on provider capabilities change.
    pub fn set_provider_caps_change(&mut self, value: bool)
        ensures
            writes_bit_u16(old(self).0, PROVIDER_CAPS_CHANGE_BIT, value, final(self).0),
    {
        self.set_bit(PROVIDER_CAPS_CHANGE_BIT, value);
    }

    /// Notify on power level change.
    pub fn power_lvl_change(&self) -> (set: bool)
        ensures
            set == bit_u16(self.0, POWER_LVL_CHANGE_BIT),
    {
        self.get_bit(POWER_LVL_CHANGE_BIT)
    }

    /// Set notify on power level change.
    pub fn set_power_lvl_change(&mut self, value: bool)
        ensures
            writes_bit_u16(old(self).0, POWER_LVL_CHANGE_BIT, value, final(self).0),
    {
        self.set_bit(POWER_LVL_CHANGE_BIT, value);
    }

    /// Notify on PD reset complete.
    pub fn pd_reset_complete(&self) -> (set: bool)
        ensures
            set == bit_u16(self.0, PD_RESET_COMPLETE_BIT),
    {
        self.get_bit(PD_RESET_COMPLETE_BIT)
    }

    /// Set notify on PD reset complete.
    pub fn set_pd_reset_complete(&mut self, value: bool)
        ensures
            writes_bit_u16(old(self).0, PD_RESET_COMPLETE_BIT, value, final(self).0),
    {
        self.set_bit(PD_RESET_COMPLETE_BIT, value);
    }

    /// Notify on connector alternate mode change.
    pub fn cam_change(&self) -> (set: bool)
        ensures
            set == bit_u16(self.0, CAM_CHANGE_BIT),
    {
        self.get_bit(CAM_CHANGE_BIT)
    }

    /// Set notify on connector alternate mode change.
    pub fn set_cam_change(&mut self, value: bool)
        ensures
            writes_bit_u16(old(self).0, CAM_CHANGE_BIT, value, final(self).0),
    {
        self.set_bit(CAM_CHANGE_BIT, value);
    }

    /// Notify on battery charge change.
    pub fn battery_charge_change(&self) -> (set: bool)
        ensures
            set == bit_u16(self.0, BATTERY_CHARGE_CHANGE_BIT),
    {
        self.get_bit(BATTERY_CHARGE_CHANGE_BIT)
    }

    /// Set notify on battery charge change.
    pub fn set_battery_charge_change(&mut self, value: bool)
        ensures
            writes_bit_u16(old(self).0, BATTERY_CHARGE_CHANGE_BIT, value, final(self).0),
    {
        self.set_bit(BATTERY_CHARGE_CHANGE_BIT, value);
    }

    /// Notify on connector partner change.
    pub fn connector_partner_change(&self) -> (set: bool)
        ensures
            set == bit_u16(self.0, CONNECTOR_PARTNER_CHANGE_BIT),
    {
        self.get_bit(CONNECTOR_PARTNER_CHANGE_BIT)
    }

    /// Set notify on connector partner change.
    pub fn set_connector_partner_change(&mut self, value: bool)
        ensures
            writes_bit_u16(old(self).0, CONNECTOR_PARTNER_CHANGE_BIT, value, final(self).0),
    {
        self.set_bit(CONNECTOR_PARTNER_CHANGE_BIT, value);
    }

    /// Notify on power direction change.
    pub fn power_dir_change(&self) -> (set: bool)
        ensures
            set == bit_u16(self.0, POWER_DIR_CHANGE_BIT),
    {
        self.get_bit(POWER_DIR_CHANGE_BIT)
    }

    /// Set notify on power direction change.
    pub fn set_power_dir_change(&mut self, value: bool)
        ensures
            writes_bit_u16(old(self).0, POWER_DIR_CHANGE_BIT, value, final(self).0),
    {
        self.set_bit(POWER_DIR_CHANGE_BIT, value);
    }

    /// Notify on connect change.
    pub fn connect_change(&self) -> (set: bool)
        ensures
            set == bit_u16(self.0, CONNECT_CHANGE_BIT),
    {
        self.get_bit(CONNECT_CHANGE_BIT)
    }

    /// Set notify on connect change.
    pub fn set_connect_change(&mut self, value: bool)
        ensures
            writes_bit_u16(old(self).0, CONNECT_CHANGE_BIT, value, final(self).0),
    {
        self.set_bit(CONNECT_CHANGE_BIT, value);
    }

    /// Notify on error.
    pub fn error(&self) -> (set: bool)
        ensures
            set == bit_u16(self.0, ERROR_BIT),
    {
        self.get_bit(ERROR_BIT)
    }

    /// Set notify on error.
    pub fn set_error(&mut self, value: bool)
        ensures
            writes_bit_u16(old(self).0, ERROR_BIT, value, final(self).0),
    {
        self.set_bit(ERROR_BIT, value);
    }

}

/// Higher-level wrapper around [`NotificationEnableRaw`].
#[derive(Copy, Clone, Debug, PartialEq, Eq, Structural)]
pub struct NotificationEnable(NotificationEnableRaw);

impl View for NotificationEnable {
    type V = u16;

    /// The flags as a raw integer.
    closed spec fn view(&self) -> u16 {
        self.0.0
    }
}

impl NotificationEnable {
    /// The flags whose raw integer is `raw`.
    pub closed spec fn spec_from(raw: u16) -> NotificationEnable {
        NotificationEnable(NotificationEnableRaw(raw))
    }

    /// The union of two flag sets: a flag is set where either has it set.
    pub open spec fn spec_union(self, other: NotificationEnable) -> NotificationEnable {
        NotificationEnable::spec_from(self@ | other@)
    }

    /// The intersection of two flag sets: a flag is set where both have it
    /// set.
    pub open spec fn spec_intersection(self, other: NotificationEnable) -> NotificationEnable {
        NotificationEnable::spec_from(self@ & other@)
    }

    /// The flags made from a raw integer hold that integer.
    pub proof fn lemma_view_of_from(raw: u16)
        ensures
            NotificationEnable::spec_from(raw)@ == raw,
    {
    }

    /// Flags are what is made from their raw integer, so two values with the
    /// same raw integer are equal.
    pub proof fn lemma_from_of_view(self)
        ensures
            NotificationEnable::spec_from(self@) == self,
    {
    }

    /// Two values are equal exactly when their raw integers are.
    pub proof fn lemma_equal_iff_same_raw(self, other: NotificationEnable)
        ensures
            (self == other) <==> (self@ == other@),
    {
    }

    /// Returns command complete notification status.
    pub fn cmd_complete(&self) -> (set: bool)
        ensures
            set == bit_u16(self@, CMD_COMPLETE_BIT),
    {
        self.0.cmd_complete()
    }

    /// Set command complete notification status.
    pub fn set_cmd_complete(&mut self, cmd_complete: bool) -> (ret: &mut Self)
        ensures
            writes_bit_u16(old(self)@, CMD_COMPLETE_BIT, cmd_complete, ret@),
            *final(self) == *final(ret),
    {
        self.0.set_cmd_complete(cmd_complete);
        self
    }

    /// Returns external supply change notification status.
    pub fn external_supply_change(&self) -> (set: bool)
        ensures
            set == bit_u16(self@, EXTERNAL_SUPPLY_CHANGE_BIT),
    {
        self.0.external_supply_change()
    }

    /// Set external supply change notification status.
    pub fn set_external_supply_change(&mut self, val: bool) -> (ret: &mut Self)
        ensures
            writes_bit_u16(old(self)@, EXTERNAL_SUPPLY_CHANGE_BIT, val, ret@),
            *final(self) == *final(ret),
    {
        self.0.set_external_supply_change(val);
        self
    }

    /// Returns power operation mode change notification status.
    pub fn power_op_mode_change(&self) -> (set: bool)
        ensures
            set == bit_u16(self@, POWER_OP_MODE_CHANGE_BIT),
    {
        self.0.power_op_mode_change()
    }

    /// Set power operation mode change notification status.
    pub fn set_power_op_mode_change(&mut self, val: bool) -> (ret: &mut Self)
        ensures
            writes_bit_u16(old(self)@, POWER_OP_MODE_CHANGE_BIT, val, ret@),
            *final(self) == *final(ret),
    {
        self.0.set_power_op_mode_change(val);
        self
    }

    /// Returns provider capabilities change notification status.
    pub fn provider_caps_change(&self) -> (set: bool)
        ensures
            set == bit_u16(self@, PROVIDER_CAPS_CHANGE_BIT),
    {
        self.0.provider_caps_change()
    }

    /// Set provider capabilities change notification status.
    pub fn set_provider_caps_change(&mut self, val: bool) -> (ret: &mut Self)
        ensures
            writes_bit_u16(old(self)@, PROVIDER_CAPS_CHANGE_BIT, val, ret@),
            *final(self) == *final(ret),
    {
        self.0.set_provider_caps_change(val);
        self
    }

    /// Returns power level change notification status.
    pub fn power_lvl_change(&self) -> (set: bool)
        ensures
            set == bit_u16(self@, POWER_LVL_CHANGE_BIT),
    {
        self.0.power_lvl_change()
    }

    /// Set power level change notification status.
    pub fn set_power_lvl_change(&mut self, val: bool) -> (ret: &mut Self)
        ensures
            writes_bit_u16(old(self)@, POWER_LVL_CHANGE_BIT, val, ret@),
            *final(self) == *final(ret),
    {
        self.0.set_power_lvl_change(val);
        self
    }

    /// Returns PD reset complete notification status.
    pub fn pd_reset_complete(&self) -> (set: bool)
        ensures
            set == bit_u16(self@, PD_RESET_COMPLETE_BIT),
    {
        self.0.pd_reset_complete()
    }

    /// Set PD reset complete notification status.
    pub fn set_pd_reset_complete(&mut self, val: bool) -> (ret: &mut Self)
        ensures
            writes_bit_u16(old(self)@, PD_RESET_COMPLETE_BIT, val, ret@),
            *final(self) == *final(ret),
    {
        self.0.set_pd_reset_complete(val);
        self
    }

    /// Returns connector alternate mode change notification status.
    pub fn cam_change(&self) -> (set: bool)
        ensures
            set == bit_u16(self@, CAM_CHANGE_BIT),
    {
        self.0.cam_change()
    }

    /// Set connector alternate mode change notification status.
    pub fn set_cam_change(&mut self, val: bool) -> (ret: &mut Self)
        ensures
            writes_bit_u16(old(self)@, CAM_CHANGE_BIT, val, ret@),
            *final(self) == *final(ret),
    {
        self.0.set_cam_change(val);
        self
    }

    /// Returns battery charge change notification status.
    pub fn battery_charge_change(&self) -> (set: bool)
        ensures
            set == bit_u16(self@, BATTERY_CHARGE_CHANGE_BIT),
    {
        self.0.battery_charge_change()
    }

    /// Set battery charge change notification status.
    pub fn set_battery_charge_change(&mut self, val: bool) -> (ret: &mut Self)
        ensures
            writes_bit_u16(old(self)@, BATTERY_CHARGE_CHANGE_BIT, val, ret@),
            *final(self) == *final(ret),
    {
        self.0.set_battery_charge_change(val);
        self
    }

    /// Returns connector partner change notification status.
    pub fn connector_partner_change(&self) -> (set: bool)
        ensures
            set == bit_u16(self@, CONNECTOR_PARTNER_CHANGE_BIT),
    {
        self.0.connector_partner_change()
    }

    /// Set connector partner change notification status.
    pub fn set_connector_partner_change(&mut self, val: bool) -> (ret: &mut Self)
        ensures
            writes_bit_u16(old(self)@, CONNECTOR_PARTNER_CHANGE_BIT, val, ret@),
            *final(self) == *final(ret),
    {
        self.0.set_connector_partner_change(val);
        self
    }

    /// Returns power direction change notification status.
    pub fn power_dir_change(&self) -> (set: bool)
        ensures
            set == bit_u16(self@, POWER_DIR_CHANGE_BIT),
    {
        self.0.power_dir_change()
    }

    /// Set power direction change notification status.
    pub fn set_power_dir_change(&mut self, val: bool) -> (ret: &mut Self)
        ensures
            writes_bit_u16(old(self)@, POWER_DIR_CHANGE_BIT, val, ret@),
            *final(self) == *final(ret),
    {
        self.0.set_power_dir_change(val);
        self
    }

    /// Returns connect change notification status.
    pub fn connect_change(&self) -> (set: bool)
        ensures
            set == bit_u16(self@, CONNECT_CHANGE_BIT),
    {
        self.0.connect_change()
    }

    /// Set connect change notification status.
    pub fn set_connect_change(&mut self, val: bool) -> (ret: &mut Self)
        ensures
            writes_bit_u16(old(self)@, CONNECT_CHANGE_BIT, val, ret@),
            *final(self) == *final(ret),
    {
        self.0.set_connect_change(val);
        self
    }

    /// Returns error notification status.
    pub fn error(&self) -> (set: bool)
        ensures
            set == bit_u16(self@, ERROR_BIT),
    {
        self.0.error()
    }

    /// Set error notification status.
    pub fn set_error(&mut self, val: bool) -> (ret: &mut Self)
        ensures
            writes_bit_u16(old(self)@, ERROR_BIT, val, ret@),
            *final(self) == *final(ret),
    {
        self.0.set_error(val);
        self
    }

    /// Returns true if no notification is enabled.
    pub fn is_empty(&self) -> (empty: bool)
        ensures
            empty == (self@ == 0),
    {
        self.0.to_raw() == 0
    }

    /// Returns true if any status change flags are set.
    pub fn any(&self) -> (any: bool)
        ensures
            any == (self@ != 0),
    {
        self.0.to_raw() != 0
    }

    /// Returns the union of two notification enable sets.
    pub fn union(&self, other: &Self) -> (both: Self)
        ensures
            both == self.spec_union(*other),
            both@ == self@ | other@,
            forall|index: u16|
                index < 16 ==> bit_u16(both@, index) == (bit_u16(self@, index) || bit_u16(
                    other@,
                    index,
                )),
    {
        proof {
            assert forall|index: u16| index < 16 implies bit_u16(self@ | other@, index) == (
            bit_u16(self@, index) || bit_u16(other@, index)) by {
                lemma_bit_of_or_u16(self@, other@, index);
            }
        }
        NotificationEnable(NotificationEnableRaw::from_raw(self.0.to_raw() | other.0.to_raw()))
    }

    /// Returns the intersection of two notification enable sets.
    pub fn intersection(&self, other: &Self) -> (common: Self)
        ensures
            common == self.spec_intersection(*other),
            common@ == self@ & other@,
            forall|index: u16|
                index < 16 ==> bit_u16(common@, index) == (bit_u16(self@, index) && bit_u16(
                    other@,
                    index,
                )),
    {
        proof {
            assert forall|index: u16| index < 16 implies bit_u16(self@ & other@, index) == (
            bit_u16(self@, index) && bit_u16(other@, index)) by {
                lemma_bit_of_and_u16(self@, other@, index);
            }
        }
        NotificationEnable(NotificationEnableRaw::from_raw(self.0.to_raw() & other.0.to_raw()))
    }

    /// A flag of a union is set exactly when it is set in either operand.
    pub proof fn lemma_union_flags(self, other: NotificationEnable, index: u16)
        requires
            index < 16,
        ensures
            bit_u16(self.spec_union(other)@, index) == (bit_u16(self@, index) || bit_u16(
                other@,
                index,
            )),
    {
        lemma_bit_of_or_u16(self@, other@, index);
    }

    /// A flag of an intersection is set exactly when it is set in both
    /// operands.
    pub proof fn lemma_intersection_flags(self, other: NotificationEnable, index: u16)
        requires
            index < 16,
        ensures
            bit_u16(self.spec_intersection(other)@, index) == (bit_u16(self@, index) && bit_u16(
                other@,
                index,
            )),
    {
        lemma_bit_of_and_u16(self@, other@, index);
    }

    /// The union of a flag set with itself is that flag set.
    pub proof fn lemma_union_idempotent(self)
        ensures
            self.spec_union(self) == self,
    {
        let raw = self@;
        assert(raw | raw == raw) by (bit_vector);
    }

    /// The intersection of any flag set with the empty one is empty.
    pub proof fn lemma_intersection_with_empty(self)
        ensures
            self.spec_intersection(NotificationEnable::spec_from(0))
                == NotificationEnable::spec_from(0),
    {
        let raw = self@;
        assert(raw & 0u16 == 0u16) by (bit_vector);
    }

    /// The encoded flags: their raw integer, low byte first.
    pub open spec fn encoded(self) -> Seq<u8> {
        u16_le_bytes(self@)
    }

    /// What decoding finds at the front of `src`.
    pub open spec fn spec_decode(src: Seq<u8>) -> Result<NotificationEnable, DecodeError> {
        if src.len() < PAYLOAD_LEN {
            Err(DecodeError::TruncatedInput)
        } else {
            Ok(NotificationEnable::spec_from(u16_from_le(src[0], src[1])))
        }
    }

    /// Encodes the flags as their raw integer, low byte first.
    pub fn encode(&self) -> (bytes: [u8; PAYLOAD_LEN])
        ensures
            bytes@ == self.encoded(),
    {
        u16_to_le(self.0.to_raw())
    }

    /// Decodes the flags from the first two bytes of `src`. Any bit pattern
    /// is valid.
    pub fn decode(src: &[u8]) -> (decoded: Result<NotificationEnable, DecodeError>)
        ensures
            decoded == NotificationEnable::spec_decode(src@),
            decoded matches Ok(enable) ==> enable@ == u16_from_le(src@[0], src@[1]),
    {
        if src.len() < PAYLOAD_LEN {
            return Err(DecodeError::TruncatedInput);
        }
        Ok(NotificationEnable(NotificationEnableRaw::from_raw(u16_of_le(src[0], src[1]))))
    }
}

impl From<u16> for NotificationEnable {
    fn from(raw: u16) -> (enable: Self)
        ensures
            enable@ == raw,
    {
        NotificationEnable(NotificationEnableRaw::from_raw(raw))
    }
}

impl FromSpecImpl<u16> for NotificationEnable {
    open spec fn obeys_from_spec() -> bool {
        true
    }

    open spec fn from_spec(raw: u16) -> Self {
        NotificationEnable::spec_from(raw)
    }
}

impl From<NotificationEnable> for u16 {
    fn from(enable: NotificationEnable) -> (raw: Self)
        ensures
            raw == enable@,
    {
        enable.0.to_raw()
    }
}

impl FromSpecImpl<NotificationEnable> for u16 {
    open spec fn obeys_from_spec() -> bool {
        true
    }

    open spec fn from_spec(enable: NotificationEnable) -> Self {
        enable@
    }
}

impl Default for NotificationEnable {
    fn default() -> (enable: Self)
        ensures
            enable == NotificationEnable::spec_from(0),
            enable@ == 0,
    {
        NotificationEnable(NotificationEnableRaw::from_raw(0))
    }
}

/// Set notification enable command.
#[derive(Copy, Clone, Debug, PartialEq, Eq, Structural)]
pub struct Args {
    /// Notification enable flags.
    pub notification_enable: NotificationEnable,
}

impl Default for Args {
    fn default() -> (args: Self)
        ensures
            args.notification_enable == NotificationEnable::spec_from(0),
            args.notification_enable@ == 0,
    {
        Args { notification_enable: NotificationEnable::default() }
    }
}

impl Args {
    /// The encoded arguments: the flags, then zero bytes up to the end of the
    /// slot.
    pub open spec fn encoded(self) -> Seq<u8> {
        self.notification_enable.encoded() + zeros(COMMAND_PADDING as nat)
    }

    /// What decoding finds in `src`: the arguments, or the reason why there
    /// are none.
    pub open spec fn spec_decode(src: Seq<u8>, check: PaddingCheck) -> Result<Args, DecodeError> {
        match frame_verdict(src, PAYLOAD_LEN as nat, check) {
            Err(e) => Err(e),
            Ok(_) => Ok(
                Args {
                    notification_enable: NotificationEnable::spec_from(u16_from_le(src[0], src[1])),
                },
            ),
        }
    }

    /// Encodes the arguments for the slot: always [`COMMAND_ARGS_LEN`] bytes,
    /// of which the last [`COMMAND_PADDING`] are zero.
    pub fn encode(&self) -> (slot: [u8; COMMAND_ARGS_LEN])
        ensures
            slot@ == self.encoded(),
            slot@.len() == COMMAND_LEN - COMMAND_HEADER_LEN,
            slot@.subrange(0, PAYLOAD_LEN as int) == self.notification_enable.encoded(),
            all_zero(slot@.subrange(PAYLOAD_LEN as int, COMMAND_ARGS_LEN as int)),
    {
        let payload = self.notification_enable.encode();
        proof {
            lemma_framed_bytes(payload@);
        }
        frame(payload.as_slice())
    }

    /// Decodes the arguments from the front of `src` and discards the
    /// padding, whatever it holds.
    pub fn decode(src: &[u8]) -> (decoded: Result<Args, DecodeError>)
        ensures
            decoded == Args::spec_decode(src@, PaddingCheck::Lenient),
            src@.len() < PAYLOAD_LEN + COMMAND_PADDING <==> decoded == Err::<Args, DecodeError>(
                DecodeError::TruncatedInput,
            ),
            src@.len() >= PAYLOAD_LEN + COMMAND_PADDING <==> decoded is Ok,
            decoded matches Ok(args) ==> args.notification_enable@ == u16_from_le(src@[0], src@[1]),
    {
        Args::decode_with(src, PaddingCheck::Lenient)
    }

    /// Decodes the arguments from the front of `src`. Under a strict check a
    /// padding byte that is not zero is an error.
    pub fn decode_with(src: &[u8], check: PaddingCheck) -> (decoded: Result<Args, DecodeError>)
        ensures
            decoded == Args::spec_decode(src@, check),
            src@.len() < PAYLOAD_LEN + COMMAND_PADDING <==> decoded == Err::<Args, DecodeError>(
                DecodeError::TruncatedInput,
            ),
            decoded matches Ok(args) ==> args.notification_enable@ == u16_from_le(src@[0], src@[1]),
    {
        match check_frame(src, PAYLOAD_LEN, check) {
            Err(e) => Err(e),
            Ok(_) => match NotificationEnable::decode(src) {
                Err(e) => Err(e),
                Ok(notification_enable) => Ok(Args { notification_enable }),
            },
        }
    }

    /// What was encoded decodes to the same arguments, whether the padding is
    /// checked or not.
    pub proof fn lemma_decode_encode(self, check: PaddingCheck)
        ensures
            Args::spec_decode(self.encoded(), check) == Ok::<Args, DecodeError>(self),
    {
        lemma_framed_passes(self.notification_enable.encoded(), check);
        lemma_framed_bytes(self.notification_enable.encoded());
        lemma_u16_le_round_trip(self.notification_enable@);
        self.notification_enable.lemma_from_of_view();
        assert(self.encoded()[0] == self.notification_enable.encoded()[0]);
        assert(self.encoded()[1] == self.notification_enable.encoded()[1]);
    }

    /// A frame with zero padding decodes, and what it decodes to encodes to
    /// that same frame.
    pub proof fn lemma_encode_decode(src: Seq<u8>, check: PaddingCheck)
        requires
            src.len() == COMMAND_ARGS_LEN,
            all_zero(src.subrange(PAYLOAD_LEN as int, COMMAND_ARGS_LEN as int)),
        ensures
            Args::spec_decode(src, check) matches Ok(args) && args.encoded() == src,
    {
        let raw = u16_from_le(src[0], src[1]);
        let args = Args { notification_enable: NotificationEnable::spec_from(raw) };
        NotificationEnable::lemma_view_of_from(raw);
        lemma_u16_le_bytes_of_joined(src[0], src[1]);
        let padding = src.subrange(PAYLOAD_LEN as int, COMMAND_ARGS_LEN as int);
        assert forall|i: int| 0 <= i < COMMAND_ARGS_LEN implies args.encoded()[i] == src[i] by {
            if i >= PAYLOAD_LEN {
                assert(src[i] == padding[i - PAYLOAD_LEN]);
            }
        }
        assert(args.encoded() =~= src);
    }

    /// The encoding fills what the slot leaves after the header, whichever
    /// flags are set.
    pub proof fn lemma_encoded_len(self)
        ensures
            self.encoded().len() == COMMAND_LEN - COMMAND_HEADER_LEN,
    {
    }

    /// Lenient decoding reads the flags and nothing else: two buffers that
    /// hold a whole frame and agree on the payload decode alike.
    pub proof fn lemma_padding_ignored(a: Seq<u8>, b: Seq<u8>)
        requires
            a.len() >= COMMAND_ARGS_LEN,
            b.len() >= COMMAND_ARGS_LEN,
            a[0] == b[0],
            a[1] == b[1],
        ensures
            Args::spec_decode(a, PaddingCheck::Lenient) == Args::spec_decode(
                b,
                PaddingCheck::Lenient,
            ),
    {
    }

    /// Bit `position` of the encoding is the flag at that position, and zero
    /// past the flags. So two encodings differ in exactly the positions in
    /// which the flags differ, reserved ones included, and never in the
    /// padding.
    pub proof fn lemma_encoded_bits(self, other: Args, position: nat)
        requires
            position < 8 * COMMAND_ARGS_LEN,
        ensures
            position < 16 ==> wire_bit(self.encoded(), position) == bit_u16(
                self.notification_enable@,
                position as u16,
            ),
            position >= 16 ==> !wire_bit(self.encoded(), position),
            wire_bit(self.encoded(), position) != wire_bit(other.encoded(), position) <==> position
                < 16 && bit_u16(self.notification_enable@, position as u16) != bit_u16(
                other.notification_enable@,
                position as u16,
            ),
    {
        Args::lemma_encoded_bit(self, position);
        Args::lemma_encoded_bit(other, position);
    }

    proof fn lemma_encoded_bit(args: Args, position: nat)
        requires
            position < 8 * COMMAND_ARGS_LEN,
        ensures
            position < 16 ==> wire_bit(args.encoded(), position) == bit_u16(
                args.notification_enable@,
                position as u16,
            ),
            position >= 16 ==> !wire_bit(args.encoded(), position),
    {
        let payload = args.notification_enable.encoded();
        lemma_framed_bytes(payload);
        let index = position as int / 8;
        let shift = (position % 8) as u8;
        if position >= 16 {
            assert(args.encoded()[index] == 0);
            assert(!bit_u8(0u8, shift)) by (bit_vector);
        } else {
            assert(args.encoded()[index] == payload[index]);
            lemma_u16_le_bits(args.notification_enable@, position);
        }
    }
}

} // verus!
