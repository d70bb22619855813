//! The x236 CAN frame: vehicle configuration mode, electrical network state and temporal counter.
use crate::bitfield::{bits, flag, lemma_bits_formula, lemma_bits_low_formula, lemma_flag_masks, lemma_low_mask_values, put_bits, put_flag, read_bits, read_flag, write_bits, write_flag};
use crate::endian::{be_u32, lemma_be_u32_roundtrip, put_be_u32, read_u32, write_u32};
use crate::vehicle::ElectricalNetworkState;
use crate::vehicle::VehicleConfigMode;
use crate::{check_frame_len, group_frame_laws, length_check, Error};
use crate::text::{bool_text, decimal_text, group_occurs, occurs, push_bool, push_decimal};
use vstd::prelude::*;

pub mod field;

verus! {

/// A read/write wrapper around a x236 CAN frame buffer.
#[derive(Debug, PartialEq, Clone)]
pub struct Frame {
    buffer: Vec<u8>,
}

impl View for Frame {
    type V = Seq<u8>;

    closed spec fn view(&self) -> Seq<u8> {
        self.buffer@
    }
}

impl AsRef<[u8]> for Frame {
    /// The bytes of the frame.
    fn as_ref(&self) -> (bytes: &[u8])
        ensures
            bytes@ == self@,
    {
        self.buffer.as_slice()
    }
}

/// Length of a x236 CAN frame.
pub const FRAME_LEN: usize = field::UNKNOWN_FLAGS + 1;

impl Frame {
    /// Create a raw octet buffer with a CAN frame structure.
    pub fn new_unchecked(buffer: Vec<u8>) -> (frame: Frame)
        ensures
            frame@ == buffer@,
    {
        Frame { buffer }
    }

    /// Shorthand for a combination of `new_unchecked` and `check_len`.
    pub fn new_checked(buffer: Vec<u8>) -> (r: Result<Frame, Error>)
        ensures
            r is Ok <==> buffer@.len() == FRAME_LEN,
            r matches Ok(frame) ==> frame@ == buffer@,
            r matches Err(e) ==> length_check(buffer@.len(), FRAME_LEN as nat) == Err::<(), Error>(e),
    {
        let frame = Self::new_unchecked(buffer);
        match frame.check_len() {
            Ok(()) => Ok(frame),
            Err(e) => Err(e),
        }
    }

    /// Ensure that no accessor method will panic if called.
    /// Returns `Err(Error::Truncated)` if the buffer is too short and
    /// `Err(Error::Overlong)` if it is too long.
    pub fn check_len(&self) -> (r: Result<(), Error>)
        ensures
            r == length_check(self@.len(), FRAME_LEN as nat),
    {
        check_frame_len(self.buffer.len(), FRAME_LEN)
    }

    /// Consume the frame, returning the underlying buffer.
    pub fn into_inner(self) -> (buffer: Vec<u8>)
        ensures
            buffer@ == self@,
    {
        self.buffer
    }

    /// Return the frame length.
    pub fn frame_len(&self) -> (len: usize)
        ensures
            len == FRAME_LEN,
    {
        FRAME_LEN
    }

    /// Return the vehicle configuration mode field.
    pub fn vehicle_config_mode(&self) -> (value: VehicleConfigMode)
        requires
            field::CONFIG_MODE_ELEC_NET < self@.len(),
        ensures
            value == VehicleConfigMode::from_raw(bits(self@[field::CONFIG_MODE_ELEC_NET as int], 0, 4)),
    {
        VehicleConfigMode::from(read_bits(self.buffer[field::CONFIG_MODE_ELEC_NET], 0, 4))
    }

    /// Return the electrical network status field.
    pub fn electrical_network_status(&self) -> (value: ElectricalNetworkState)
        requires
            field::CONFIG_MODE_ELEC_NET < self@.len(),
        ensures
            value == ElectricalNetworkState::from_raw(bits(self@[field::CONFIG_MODE_ELEC_NET as int], 4, 4)),
    {
        ElectricalNetworkState::from(read_bits(self.buffer[field::CONFIG_MODE_ELEC_NET], 4, 4))
    }

    /// Return the vehicle supervision module temporal counter field.
    pub fn vsm_temporal_counter(&self) -> (value: u32)
        requires
            field::TEMPORAL_COUNTER + 4 <= self@.len(),
        ensures
            value == be_u32(self@, field::TEMPORAL_COUNTER as int),
    {
        read_u32(self.buffer.as_slice(), field::TEMPORAL_COUNTER)
    }

    /// Return the 'JDD' context field.
    pub fn jdd_context(&self) -> (value: u8)
        requires
            field::CTX_FLAGS < self@.len(),
        ensures
            value == bits(self@[field::CTX_FLAGS as int], 0, 5),
    {
        read_bits(self.buffer[field::CTX_FLAGS], 0, 5)
    }

    /// Return the driver door opened event flag.
    pub fn driver_door_open_evt(&self) -> (value: bool)
        requires
            field::CTX_FLAGS < self@.len(),
        ensures
            value == flag(self@[field::CTX_FLAGS as int], 6),
    {
        read_flag(self.buffer[field::CTX_FLAGS], 6)
    }

    /// Return the opened boot flag.
    pub fn boot_open(&self) -> (value: bool)
        requires
            field::CTX_FLAGS < self@.len(),
        ensures
            value == flag(self@[field::CTX_FLAGS as int], 7),
    {
        read_flag(self.buffer[field::CTX_FLAGS], 7)
    }

    /// Return the 'GCT' reset counter field.
    pub fn gct_reset_counter(&self) -> (value: u8)
        requires
            field::RESET_COUNTER < self@.len(),
        ensures
            value == self@[field::RESET_COUNTER as int],
    {
        self.buffer[field::RESET_COUNTER]
    }

    /// Return the Power-On request denied flag.
    pub fn power_on_req_denied(&self) -> (value: bool)
        requires
            field::UNKNOWN_FLAGS < self@.len(),
        ensures
            value == flag(self@[field::UNKNOWN_FLAGS as int], 7),
    {
        read_flag(self.buffer[field::UNKNOWN_FLAGS], 7)
    }

    /// Set the vehicle configuration mode field.
    pub fn set_vehicle_config_mode(&mut self, value: VehicleConfigMode)
        requires
            field::CONFIG_MODE_ELEC_NET < old(self)@.len(),
        ensures
            final(self)@ == old(self)@.update(field::CONFIG_MODE_ELEC_NET as int, put_bits(old(self)@[field::CONFIG_MODE_ELEC_NET as int], 0, 4, value.raw())),
    {
        let raw = write_bits(self.buffer[field::CONFIG_MODE_ELEC_NET], 0, 4, u8::from(value));
        self.buffer.set(field::CONFIG_MODE_ELEC_NET, raw);
    }

    /// Set the electrical network status field.
    pub fn set_electrical_network_status(&mut self, value: ElectricalNetworkState)
        requires
            field::CONFIG_MODE_ELEC_NET < old(self)@.len(),
        ensures
            final(self)@ == old(self)@.update(field::CONFIG_MODE_ELEC_NET as int, put_bits(old(self)@[field::CONFIG_MODE_ELEC_NET as int], 4, 4, value.raw())),
    {
        let raw = write_bits(self.buffer[field::CONFIG_MODE_ELEC_NET], 4, 4, u8::from(value));
        self.buffer.set(field::CONFIG_MODE_ELEC_NET, raw);
    }

    /// Set the vehicle supervision module temporal counter field.
    pub fn set_vsm_temporal_counter(&mut self, value: u32)
        requires
            field::TEMPORAL_COUNTER + 4 <= old(self)@.len(),
        ensures
            final(self)@ == put_be_u32(old(self)@, field::TEMPORAL_COUNTER as int, value),
    {
        write_u32(&mut self.buffer, field::TEMPORAL_COUNTER, value);
    }

    /// Set the 'JDD' context field.
    pub fn set_jdd_context(&mut self, value: u8)
        requires
            field::CTX_FLAGS < old(self)@.len(),
        ensures
            final(self)@ == old(self)@.update(field::CTX_FLAGS as int, put_bits(old(self)@[field::CTX_FLAGS as int], 0, 5, value)),
    {
        let raw = write_bits(self.buffer[field::CTX_FLAGS], 0, 5, value);
        self.buffer.set(field::CTX_FLAGS, raw);
    }

    /// Set the driver door opened event flag.
    pub fn set_driver_door_open_evt(&mut self, value: bool)
        requires
            field::CTX_FLAGS < old(self)@.len(),
        ensures
            final(self)@ == old(self)@.update(field::CTX_FLAGS as int, put_flag(old(self)@[field::CTX_FLAGS as int], 6, value)),
    {
        let raw = write_flag(self.buffer[field::CTX_FLAGS], 6, value);
        self.buffer.set(field::CTX_FLAGS, raw);
    }

    /// Set the opened boot flag.
    pub fn set_boot_open(&mut self, value: bool)
        requires
            field::CTX_FLAGS < old(self)@.len(),
        ensures
            final(self)@ == old(self)@.update(field::CTX_FLAGS as int, put_flag(old(self)@[field::CTX_FLAGS as int], 7, value)),
    {
        let raw = write_flag(self.buffer[field::CTX_FLAGS], 7, value);
        self.buffer.set(field::CTX_FLAGS, raw);
    }

    /// Set the 'GCT' reset counter field.
    pub fn set_gct_reset_counter(&mut self, value: u8)
        requires
            field::RESET_COUNTER < old(self)@.len(),
        ensures
            final(self)@ == old(self)@.update(field::RESET_COUNTER as int, value),
    {
        self.buffer.set(field::RESET_COUNTER, value);
    }

    /// Set the Power-On request denied flag.
    pub fn set_power_on_req_denied(&mut self, value: bool)
        requires
            field::UNKNOWN_FLAGS < old(self)@.len(),
        ensures
            final(self)@ == old(self)@.update(field::UNKNOWN_FLAGS as int, put_flag(old(self)@[field::UNKNOWN_FLAGS as int], 7, value)),
    {
        let raw = write_flag(self.buffer[field::UNKNOWN_FLAGS], 7, value);
        self.buffer.set(field::UNKNOWN_FLAGS, raw);
    }
}

/// A high-level representation of a x236 CAN frame.
#[derive(Debug, PartialEq, Clone, Copy)]
pub struct Repr {
    pub vehicle_config_mode: VehicleConfigMode,
    pub electrical_network_status: ElectricalNetworkState,
    pub vsm_temporal_counter: u32,
    pub jdd_context: u8,
    pub driver_door_open_evt: bool,
    pub boot_open: bool,
    pub gct_reset_counter: u8,
    pub power_on_req_denied: bool,
}

impl Repr {
    /// The representation that the bytes of a frame carry.
    #[verifier::opaque]
    pub open spec fn from_bytes(bytes: Seq<u8>) -> Repr {
        Repr {
            vehicle_config_mode: VehicleConfigMode::from_raw(bits(bytes[field::CONFIG_MODE_ELEC_NET as int], 0, 4)),
            electrical_network_status: ElectricalNetworkState::from_raw(bits(bytes[field::CONFIG_MODE_ELEC_NET as int], 4, 4)),
            vsm_temporal_counter: be_u32(bytes, field::TEMPORAL_COUNTER as int),
            jdd_context: bits(bytes[field::CTX_FLAGS as int], 0, 5),
            driver_door_open_evt: flag(bytes[field::CTX_FLAGS as int], 6),
            boot_open: flag(bytes[field::CTX_FLAGS as int], 7),
            gct_reset_counter: bytes[field::RESET_COUNTER as int],
            power_on_req_denied: flag(bytes[field::UNKNOWN_FLAGS as int], 7),
        }
    }

    /// The byte at `field::CONFIG_MODE_ELEC_NET` once the fields that it carries are written into `b`.
    pub open spec fn config_mode_elec_net_byte(self, b: u8) -> u8 {
        put_bits(put_bits(b, 0, 4, self.vehicle_config_mode.raw()), 4, 4, self.electrical_network_status.raw())
    }

    /// The byte at `field::CTX_FLAGS` once the fields that it carries are written into `b`.
    pub open spec fn ctx_flags_byte(self, b: u8) -> u8 {
        put_flag(put_flag(put_bits(b, 0, 5, self.jdd_context), 6, self.driver_door_open_evt), 7, self.boot_open)
    }

    /// The bytes of a frame once `self` is emitted into them.
    pub open spec fn emit_bytes(self, bytes: Seq<u8>) -> Seq<u8> {
        let words = put_be_u32(bytes, field::TEMPORAL_COUNTER as int, self.vsm_temporal_counter);
        words.update(
            field::CONFIG_MODE_ELEC_NET as int,
            self.config_mode_elec_net_byte(bytes[field::CONFIG_MODE_ELEC_NET as int]),
        ).update(
            field::CTX_FLAGS as int,
            self.ctx_flags_byte(bytes[field::CTX_FLAGS as int]),
        ).update(
            field::RESET_COUNTER as int,
            self.gct_reset_counter,
        ).update(
            field::UNKNOWN_FLAGS as int,
            put_flag(bytes[field::UNKNOWN_FLAGS as int], 7, self.power_on_req_denied),
        )
    }

    /// Every field of `self` fits in the bits that the frame gives it.
    pub open spec fn fits(self) -> bool {
        &&& VehicleConfigMode::from_raw(self.vehicle_config_mode.raw()) == self.vehicle_config_mode && self.vehicle_config_mode.raw() < 16
        &&& ElectricalNetworkState::from_raw(self.electrical_network_status.raw()) == self.electrical_network_status && self.electrical_network_status.raw() < 16
        &&& self.jdd_context < 32
    }

    /// Parse a x236 CAN frame into its high-level representation.
    pub fn parse(frame: &Frame) -> (r: Result<Repr, Error>)
        ensures
            r is Ok <==> frame@.len() == FRAME_LEN,
            r matches Ok(repr) ==> repr == Repr::from_bytes(frame@),
            r matches Err(e) ==> length_check(frame@.len(), FRAME_LEN as nat) == Err::<(), Error>(e),
    {
        if let Err(e) = frame.check_len() {
            return Err(e);
        }
        Ok(Self::read_fields(frame))
    }

    /// The representation that the bytes of `frame` carry.
    fn read_fields(frame: &Frame) -> (repr: Repr)
        requires
            FRAME_LEN <= frame@.len(),
        ensures
            repr == Repr::from_bytes(frame@),
    {
        let repr = Repr {
            vehicle_config_mode: frame.vehicle_config_mode(),
            electrical_network_status: frame.electrical_network_status(),
            vsm_temporal_counter: frame.vsm_temporal_counter(),
            jdd_context: frame.jdd_context(),
            driver_door_open_evt: frame.driver_door_open_evt(),
            boot_open: frame.boot_open(),
            gct_reset_counter: frame.gct_reset_counter(),
            power_on_req_denied: frame.power_on_req_denied(),
        };
        proof {
            Repr::lemma_from_fields(repr, frame@);
        }
        repr
    }

    /// A representation whose every field holds what `bytes` carry is the
    /// representation that `bytes` carry.
    proof fn lemma_from_fields(repr: Repr, bytes: Seq<u8>)
        requires
            repr.vehicle_config_mode == VehicleConfigMode::from_raw(bits(bytes[field::CONFIG_MODE_ELEC_NET as int], 0, 4)),
            repr.electrical_network_status == ElectricalNetworkState::from_raw(bits(bytes[field::CONFIG_MODE_ELEC_NET as int], 4, 4)),
            repr.vsm_temporal_counter == be_u32(bytes, field::TEMPORAL_COUNTER as int),
            repr.jdd_context == bits(bytes[field::CTX_FLAGS as int], 0, 5),
            repr.driver_door_open_evt == flag(bytes[field::CTX_FLAGS as int], 6),
            repr.boot_open == flag(bytes[field::CTX_FLAGS as int], 7),
            repr.gct_reset_counter == bytes[field::RESET_COUNTER as int],
            repr.power_on_req_denied == flag(bytes[field::UNKNOWN_FLAGS as int], 7),
        ensures
            repr == Repr::from_bytes(bytes),
    {
        reveal(Repr::from_bytes);
    }

    /// The text of `self`: each field by name, with its value.
    pub open spec fn text(self) -> Seq<char> {
        self.text_prefix_1()
    }

    /// The first part of the text of `self`, up to part 0.
    #[verifier::opaque]
    pub open spec fn text_prefix_0(self) -> Seq<char> {
        "x236 vehicle_config_mode="@
            + self.vehicle_config_mode.text()
            + " electrical_network_status="@
            + self.electrical_network_status.text()
            + " vsm_temporal_counter="@
            + decimal_text(self.vsm_temporal_counter as nat)
            + " jdd_context="@
            + decimal_text(self.jdd_context as nat)
            + " driver_door_open_evt="@
            + bool_text(self.driver_door_open_evt)
    }

    /// The first parts of the text of `self`, up to part 1.
    #[verifier::opaque]
    pub open spec fn text_prefix_1(self) -> Seq<char> {
        self.text_prefix_0()
            + " boot_open="@
            + bool_text(self.boot_open)
            + " gct_reset_counter="@
            + decimal_text(self.gct_reset_counter as nat)
            + " power_on_req_denied="@
            + bool_text(self.power_on_req_denied)
    }

    /// Return the text of `self`.
    pub fn to_text(&self) -> (s: String)
        ensures
            s@ == self.text(),
    {
        let mut s = self.text_start();
        self.push_text_part_1(&mut s);
        s
    }

    /// The first part of the text of `self`.
    fn text_start(&self) -> (s: String)
        ensures
            s@ == self.text_prefix_0(),
    {
        proof {
            reveal(Repr::text_prefix_0);
        }
        let mut s = String::from_str("x236 vehicle_config_mode=");
        self.vehicle_config_mode.push_text(&mut s);
        s.append(" electrical_network_status=");
        self.electrical_network_status.push_text(&mut s);
        s.append(" vsm_temporal_counter=");
        push_decimal(&mut s, self.vsm_temporal_counter as u64);
        s.append(" jdd_context=");
        push_decimal(&mut s, self.jdd_context as u64);
        s.append(" driver_door_open_evt=");
        push_bool(&mut s, self.driver_door_open_evt);
        s
    }

    /// Appends part 1 of the text of `self`.
    fn push_text_part_1(&self, s: &mut String)
        requires
            old(s)@ == self.text_prefix_0(),
        ensures
            final(s)@ == self.text_prefix_1(),
    {
        proof {
            reveal(Repr::text_prefix_1);
        }
        s.append(" boot_open=");
        push_bool(s, self.boot_open);
        s.append(" gct_reset_counter=");
        push_decimal(s, self.gct_reset_counter as u64);
        s.append(" power_on_req_denied=");
        push_bool(s, self.power_on_req_denied);
    }

    /// Return the length of a frame that will be emitted from this high-level representation.
    pub fn buffer_len(&self) -> (len: usize)
        ensures
            len == FRAME_LEN,
    {
        FRAME_LEN
    }

    /// Emit a high-level representation into a x236 CAN frame.
    pub fn emit(&self, frame: &mut Frame)
        requires
            FRAME_LEN <= old(frame)@.len(),
        ensures
            final(frame)@ == self.emit_bytes(old(frame)@),
    {
        frame.set_vsm_temporal_counter(self.vsm_temporal_counter);
        self.emit_config_mode_elec_net(frame);
        self.emit_ctx_flags(frame);
        frame.set_gct_reset_counter(self.gct_reset_counter);
        frame.set_power_on_req_denied(self.power_on_req_denied);
    }

    /// Write the fields that the byte at `field::CONFIG_MODE_ELEC_NET` carries.
    fn emit_config_mode_elec_net(&self, frame: &mut Frame)
        requires
            field::CONFIG_MODE_ELEC_NET < old(frame)@.len(),
        ensures
            final(frame)@ == old(frame)@.update(field::CONFIG_MODE_ELEC_NET as int, self.config_mode_elec_net_byte(old(frame)@[field::CONFIG_MODE_ELEC_NET as int])),
    {
        frame.set_vehicle_config_mode(self.vehicle_config_mode);
        frame.set_electrical_network_status(self.electrical_network_status);
    }

    /// Write the fields that the byte at `field::CTX_FLAGS` carries.
    fn emit_ctx_flags(&self, frame: &mut Frame)
        requires
            field::CTX_FLAGS < old(frame)@.len(),
        ensures
            final(frame)@ == old(frame)@.update(field::CTX_FLAGS as int, self.ctx_flags_byte(old(frame)@[field::CTX_FLAGS as int])),
    {
        frame.set_jdd_context(self.jdd_context);
        frame.set_driver_door_open_evt(self.driver_door_open_evt);
        frame.set_boot_open(self.boot_open);
    }
}

impl Frame {
    /// Return the text of the frame: that of the representation that it
    /// carries, or the error that parsing it gives.
    pub fn to_text(&self) -> (s: String)
        ensures
            s@ == (match length_check(self@.len(), FRAME_LEN as nat) {
                Ok(_) => Repr::from_bytes(self@).text(),
                Err(e) => "x236 ("@ + e.text() + ")"@,
            }),
    {
        match Repr::parse(self) {
            Ok(repr) => repr.to_text(),
            Err(e) => {
                let mut s = String::from_str("x236 (");
                s.append(e.description());
                s.append(")");
                s
            },
        }
    }
}

/// The fields that the byte at `field::CONFIG_MODE_ELEC_NET` carries read back as they were written.
proof fn lemma_config_mode_elec_net_parse_emit(repr: Repr, b: u8)
    requires
        repr.fits(),
    ensures
        VehicleConfigMode::from_raw(bits(repr.config_mode_elec_net_byte(b), 0, 4)) == repr.vehicle_config_mode,
        ElectricalNetworkState::from_raw(bits(repr.config_mode_elec_net_byte(b), 4, 4)) == repr.electrical_network_status,
{
    broadcast use group_frame_laws;

    lemma_low_mask_values();
}

/// Writing back the fields read from the byte at `field::CONFIG_MODE_ELEC_NET` leaves it unchanged.
proof fn lemma_config_mode_elec_net_emit_parse(bytes: Seq<u8>)
    requires
        bytes.len() == FRAME_LEN,
    ensures
        Repr::from_bytes(bytes).config_mode_elec_net_byte(bytes[field::CONFIG_MODE_ELEC_NET as int]) == bytes[field::CONFIG_MODE_ELEC_NET as int],
{
    reveal(Repr::from_bytes);
    broadcast use group_frame_laws;

    lemma_low_mask_values();
}

/// The fields that the byte at `field::CTX_FLAGS` carries read back as they were written.
proof fn lemma_ctx_flags_parse_emit(repr: Repr, b: u8)
    requires
        repr.fits(),
    ensures
        bits(repr.ctx_flags_byte(b), 0, 5) == repr.jdd_context,
        flag(repr.ctx_flags_byte(b), 6) == repr.driver_door_open_evt,
        flag(repr.ctx_flags_byte(b), 7) == repr.boot_open,
{
    broadcast use group_frame_laws;

    lemma_low_mask_values();
}

/// Writing back the fields read from the byte at `field::CTX_FLAGS` leaves it unchanged.
proof fn lemma_ctx_flags_emit_parse(bytes: Seq<u8>)
    requires
        bytes.len() == FRAME_LEN,
    ensures
        Repr::from_bytes(bytes).ctx_flags_byte(bytes[field::CTX_FLAGS as int]) == bytes[field::CTX_FLAGS as int],
{
    reveal(Repr::from_bytes);
    broadcast use group_frame_laws;

    lemma_low_mask_values();
}

/// The fields that the byte at `field::UNKNOWN_FLAGS` carries read back as they were written.
proof fn lemma_unknown_flags_parse_emit(repr: Repr, b: u8)
    requires
        repr.fits(),
    ensures
        flag(put_flag(b, 7, repr.power_on_req_denied), 7) == repr.power_on_req_denied,
{
    broadcast use group_frame_laws;

    lemma_low_mask_values();
}

/// Emitting a representation whose fields fit into the bytes of a frame, then
/// parsing the bytes, gives the representation back.
pub proof fn lemma_parse_emit(repr: Repr, bytes: Seq<u8>)
    requires
        repr.fits(),
        bytes.len() == FRAME_LEN,
    ensures
        Repr::from_bytes(repr.emit_bytes(bytes)) == repr,
{
    let emitted = repr.emit_bytes(bytes);
    assert(emitted[field::CONFIG_MODE_ELEC_NET as int] == repr.config_mode_elec_net_byte(bytes[field::CONFIG_MODE_ELEC_NET as int]));
    assert(emitted[field::CTX_FLAGS as int] == repr.ctx_flags_byte(bytes[field::CTX_FLAGS as int]));
    assert(emitted[field::RESET_COUNTER as int] == repr.gct_reset_counter);
    assert(emitted[field::UNKNOWN_FLAGS as int] == put_flag(bytes[field::UNKNOWN_FLAGS as int], 7, repr.power_on_req_denied));
    lemma_be_u32_roundtrip(bytes, field::TEMPORAL_COUNTER as int, repr.vsm_temporal_counter);
    let words = put_be_u32(bytes, field::TEMPORAL_COUNTER as int, repr.vsm_temporal_counter);
    assert(be_u32(emitted, field::TEMPORAL_COUNTER as int) == be_u32(words, field::TEMPORAL_COUNTER as int));
    assert(be_u32(emitted, field::TEMPORAL_COUNTER as int) == repr.vsm_temporal_counter);
    lemma_config_mode_elec_net_parse_emit(repr, bytes[field::CONFIG_MODE_ELEC_NET as int]);
    lemma_ctx_flags_parse_emit(repr, bytes[field::CTX_FLAGS as int]);
    lemma_unknown_flags_parse_emit(repr, bytes[field::UNKNOWN_FLAGS as int]);
    Repr::lemma_from_fields(repr, emitted);
}

/// Emitting the representation that the bytes of a frame carry leaves the
/// bytes unchanged.
pub proof fn lemma_emit_parse(bytes: Seq<u8>)
    requires
        bytes.len() == FRAME_LEN,
    ensures
        Repr::from_bytes(bytes).emit_bytes(bytes) == bytes,
{
    reveal(Repr::from_bytes);
    broadcast use group_frame_laws;

    lemma_low_mask_values();
    lemma_config_mode_elec_net_emit_parse(bytes);
    lemma_ctx_flags_emit_parse(bytes);
}

/// Each field of a representation reads the bits of the frame that the
/// layout gives it: a word high byte first, a flag or a field through its
/// mask.
pub proof fn lemma_fields_from_bytes(bytes: Seq<u8>)
    requires
        bytes.len() == FRAME_LEN,
    ensures
        Repr::from_bytes(bytes).vehicle_config_mode == VehicleConfigMode::from_raw(bytes[field::CONFIG_MODE_ELEC_NET as int] & 0x0f),
        Repr::from_bytes(bytes).electrical_network_status == ElectricalNetworkState::from_raw((bytes[field::CONFIG_MODE_ELEC_NET as int] >> 4u8) & 0x0f),
        Repr::from_bytes(bytes).vsm_temporal_counter as int == bytes[field::TEMPORAL_COUNTER as int] as int * 0x1000000 + bytes[field::TEMPORAL_COUNTER + 1] as int * 0x10000 + bytes[field::TEMPORAL_COUNTER + 2] as int * 0x100 + bytes[field::TEMPORAL_COUNTER + 3] as int,
        Repr::from_bytes(bytes).jdd_context == bytes[field::CTX_FLAGS as int] & 0x1f,
        Repr::from_bytes(bytes).driver_door_open_evt == ((bytes[field::CTX_FLAGS as int] & 0x40) != 0),
        Repr::from_bytes(bytes).boot_open == ((bytes[field::CTX_FLAGS as int] & 0x80) != 0),
        Repr::from_bytes(bytes).gct_reset_counter == bytes[field::RESET_COUNTER as int],
        Repr::from_bytes(bytes).power_on_req_denied == ((bytes[field::UNKNOWN_FLAGS as int] & 0x80) != 0),
{
    reveal(Repr::from_bytes);
    lemma_low_mask_values();
    lemma_bits_formula(bytes[field::CONFIG_MODE_ELEC_NET as int], 4, 4);
    lemma_bits_low_formula(bytes[field::CONFIG_MODE_ELEC_NET as int], 4);
    lemma_bits_low_formula(bytes[field::CTX_FLAGS as int], 5);
    lemma_flag_masks(bytes[field::CTX_FLAGS as int]);
    lemma_flag_masks(bytes[field::UNKNOWN_FLAGS as int]);
}

/// Every representation that the bytes of a frame carry fits in the frame,
/// so that it can be emitted back.
pub proof fn lemma_parsed_fits(bytes: Seq<u8>)
    requires
        bytes.len() == FRAME_LEN,
    ensures
        Repr::from_bytes(bytes).fits(),
{
    reveal(Repr::from_bytes);
    broadcast use group_frame_laws;

    lemma_low_mask_values();
}

/// The text of a representation shows each field after its name and before
/// the name of the next field, so the fields stand in their order.
pub proof fn lemma_text_shows_fields(repr: Repr)
    ensures
        occurs("x236 vehicle_config_mode="@ + repr.vehicle_config_mode.text() + " electrical_network_status="@, repr.text()),
        occurs(" electrical_network_status="@ + repr.electrical_network_status.text() + " vsm_temporal_counter="@, repr.text()),
        occurs(" vsm_temporal_counter="@ + decimal_text(repr.vsm_temporal_counter as nat) + " jdd_context="@, repr.text()),
        occurs(" jdd_context="@ + decimal_text(repr.jdd_context as nat) + " driver_door_open_evt="@, repr.text()),
        occurs(" driver_door_open_evt="@ + bool_text(repr.driver_door_open_evt) + " boot_open="@, repr.text()),
        occurs(" boot_open="@ + bool_text(repr.boot_open) + " gct_reset_counter="@, repr.text()),
        occurs(" gct_reset_counter="@ + decimal_text(repr.gct_reset_counter as nat) + " power_on_req_denied="@, repr.text()),
        occurs(" power_on_req_denied="@ + bool_text(repr.power_on_req_denied), repr.text()),
{
    lemma_text_part_0_shows_fields(repr);
    lemma_text_part_1_shows_fields(repr);
    lemma_text_prefix_0_grows(repr);
}

/// Part 0 of the text of a representation shows each of its fields after
/// its name and before the name of the next field.
proof fn lemma_text_part_0_shows_fields(repr: Repr)
    ensures
        occurs("x236 vehicle_config_mode="@ + repr.vehicle_config_mode.text() + " electrical_network_status="@, repr.text_prefix_0()),
        occurs(" electrical_network_status="@ + repr.electrical_network_status.text() + " vsm_temporal_counter="@, repr.text_prefix_0()),
        occurs(" vsm_temporal_counter="@ + decimal_text(repr.vsm_temporal_counter as nat) + " jdd_context="@, repr.text_prefix_0()),
        occurs(" jdd_context="@ + decimal_text(repr.jdd_context as nat) + " driver_door_open_evt="@, repr.text_prefix_0()),
{
    reveal(Repr::text_prefix_0);
    broadcast use group_occurs;

}

/// Part 1 of the text of a representation shows each of its fields after
/// its name and before the name of the next field.
proof fn lemma_text_part_1_shows_fields(repr: Repr)
    ensures
        occurs(" driver_door_open_evt="@ + bool_text(repr.driver_door_open_evt) + " boot_open="@, repr.text_prefix_1()),
        occurs(" boot_open="@ + bool_text(repr.boot_open) + " gct_reset_counter="@, repr.text_prefix_1()),
        occurs(" gct_reset_counter="@ + decimal_text(repr.gct_reset_counter as nat) + " power_on_req_denied="@, repr.text_prefix_1()),
        occurs(" power_on_req_denied="@ + bool_text(repr.power_on_req_denied), repr.text_prefix_1()),
{
    reveal(Repr::text_prefix_0);
    reveal(Repr::text_prefix_1);
    broadcast use group_occurs;

}

/// What occurs in the text of a representation up to part 0 occurs in its
/// text up to part 1.
proof fn lemma_text_prefix_0_grows(repr: Repr)
    ensures
        forall|t: Seq<char>| occurs(t, repr.text_prefix_0()) ==> #[trigger] occurs(t, repr.text_prefix_1()),
{
    reveal(Repr::text_prefix_1);
    broadcast use group_occurs;

}

} // verus!
