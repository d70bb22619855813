//! The x0f6 CAN frame: vehicle state: powertrain, temperatures, odometer, reverse gear and blinkers.
use crate::bitfield::{bits, flag, put_bits, put_flag, read_bits, read_flag, write_bits, write_flag};
use crate::endian::{be_u24, put_be_u24, read_u24, write_u24};
use crate::vehicle::BlinkersStatus;
use crate::vehicle::MainStatus;
use crate::vehicle::PowertrainStatus;
use crate::vehicle::SteeringWheelPosition;
use crate::vehicle::VsmConfigMode;
use crate::{check_frame_len, length_check, Error};
use vstd::prelude::*;

pub mod field;

verus! {

/// A read/write wrapper around a x0f6 CAN frame buffer.
#[derive(Debug, PartialEq, Clone)]
pub struct Frame {
    buffer: Vec<u8>,
}

impl View for Frame {
    type V = Seq<u8>;

    closed spec fn view(&self) -> Seq<u8> {
        self.buffer@
    }
}

impl AsRef<[u8]> for Frame {
    /// The bytes of the frame.
    fn as_ref(&self) -> (bytes: &[u8])
        ensures
            bytes@ == self@,
    {
        self.buffer.as_slice()
    }
}

/// Length of a x0f6 CAN frame.
pub const FRAME_LEN: usize = field::FLAGS + 1;

/// Periodicity of a x0f6 CAN frame, in milliseconds.
pub const PERIODICITY_MS: u64 = 500;

impl Frame {
    /// Create a raw octet buffer with a CAN frame structure.
    pub fn new_unchecked(buffer: Vec<u8>) -> (frame: Frame)
        ensures
            frame@ == buffer@,
    {
        Frame { buffer }
    }

    /// Shorthand for a combination of `new_unchecked` and `check_len`.
    pub fn new_checked(buffer: Vec<u8>) -> (r: Result<Frame, Error>)
        ensures
            r is Ok <==> buffer@.len() == FRAME_LEN,
            r matches Ok(frame) ==> frame@ == buffer@,
            r matches Err(e) ==> length_check(buffer@.len(), FRAME_LEN as nat) == Err::<(), Error>(e),
    {
        let frame = Self::new_unchecked(buffer);
        match frame.check_len() {
            Ok(()) => Ok(frame),
            Err(e) => Err(e),
        }
    }

    /// Ensure that no accessor method will panic if called.
    /// Returns `Err(Error::Truncated)` if the buffer is too short and
    /// `Err(Error::Overlong)` if it is too long.
    pub fn check_len(&self) -> (r: Result<(), Error>)
        ensures
            r == length_check(self@.len(), FRAME_LEN as nat),
    {
        check_frame_len(self.buffer.len(), FRAME_LEN)
    }

    /// Consume the frame, returning the underlying buffer.
    pub fn into_inner(self) -> (buffer: Vec<u8>)
        ensures
            buffer@ == self@,
    {
        self.buffer
    }

    /// Return the frame length.
    pub fn frame_len(&self) -> (len: usize)
        ensures
            len == FRAME_LEN,
    {
        FRAME_LEN
    }

    /// Return the powertrain status field.
    pub fn powertrain_status(&self) -> (value: PowertrainStatus)
        requires
            field::STATES < self@.len(),
        ensures
            value == PowertrainStatus::from_raw(bits(self@[field::STATES as int], 0, 2)),
    {
        PowertrainStatus::from(read_bits(self.buffer[field::STATES], 0, 2))
    }

    /// Return the generator working flag.
    pub fn generator_working(&self) -> (value: bool)
        requires
            field::STATES < self@.len(),
        ensures
            value == flag(self@[field::STATES as int], 2),
    {
        read_flag(self.buffer[field::STATES], 2)
    }

    /// Return the vehicle main status field.
    pub fn vehicle_main_status(&self) -> (value: MainStatus)
        requires
            field::STATES < self@.len(),
        ensures
            value == MainStatus::from_raw(bits(self@[field::STATES as int], 3, 2)),
    {
        MainStatus::from(read_bits(self.buffer[field::STATES], 3, 2))
    }

    /// Return the factory park flag.
    pub fn factory_park(&self) -> (value: bool)
        requires
            field::STATES < self@.len(),
        ensures
            value == flag(self@[field::STATES as int], 5),
    {
        read_flag(self.buffer[field::STATES], 5)
    }

    /// Return the vehicle supervision module config mode field.
    pub fn vsm_config_mode(&self) -> (value: VsmConfigMode)
        requires
            field::STATES < self@.len(),
        ensures
            value == VsmConfigMode::from_raw(bits(self@[field::STATES as int], 6, 2)),
    {
        VsmConfigMode::from(read_bits(self.buffer[field::STATES], 6, 2))
    }

    /// Return the engine coolant temperature value, in celsius with a +40 offset.
    pub fn coolant_temp(&self) -> (value: u8)
        requires
            field::COOLANT_TEMP < self@.len(),
        ensures
            value == self@[field::COOLANT_TEMP as int],
    {
        self.buffer[field::COOLANT_TEMP]
    }

    /// Return the odometer value, in 0.1 kilometers.
    pub fn odometer(&self) -> (value: u32)
        requires
            field::ODOMETER + 3 <= self@.len(),
        ensures
            value == be_u24(self@, field::ODOMETER as int),
    {
        read_u24(self.buffer.as_slice(), field::ODOMETER)
    }

    /// Return the external temperature value, in 0.5 celsius with a +40 offset.
    pub fn external_temp(&self) -> (value: u8)
        requires
            field::EXT_TEMP < self@.len(),
        ensures
            value == self@[field::EXT_TEMP as int],
    {
        self.buffer[field::EXT_TEMP]
    }

    /// Return the filtered external temperature value, in 0.5 celsius with a +40 offset.
    pub fn external_temp_filtered(&self) -> (value: u8)
        requires
            field::EXT_TEMP_FILTERED < self@.len(),
        ensures
            value == self@[field::EXT_TEMP_FILTERED as int],
    {
        self.buffer[field::EXT_TEMP_FILTERED]
    }

    /// Return the blinkers status field.
    pub fn blinkers_status(&self) -> (value: BlinkersStatus)
        requires
            field::FLAGS < self@.len(),
        ensures
            value == BlinkersStatus::from_raw(bits(self@[field::FLAGS as int], 0, 2)),
    {
        BlinkersStatus::from(read_bits(self.buffer[field::FLAGS], 0, 2))
    }

    /// Return the cluster lights test flag.
    pub fn cluster_lights_test(&self) -> (value: bool)
        requires
            field::FLAGS < self@.len(),
        ensures
            value == flag(self@[field::FLAGS as int], 3),
    {
        read_flag(self.buffer[field::FLAGS], 3)
    }

    /// Return the steering wheel position field.
    pub fn steering_wheel_pos(&self) -> (value: SteeringWheelPosition)
        requires
            field::FLAGS < self@.len(),
        ensures
            value == SteeringWheelPosition::from_raw(bits(self@[field::FLAGS as int], 4, 2)),
    {
        SteeringWheelPosition::from(read_bits(self.buffer[field::FLAGS], 4, 2))
    }

    /// Return the front wiping acknowledge flag.
    pub fn front_wiping_ack(&self) -> (value: bool)
        requires
            field::FLAGS < self@.len(),
        ensures
            value == flag(self@[field::FLAGS as int], 6),
    {
        read_flag(self.buffer[field::FLAGS], 6)
    }

    /// Return the reverse gear engaged flag.
    pub fn reverse_gear_engaged(&self) -> (value: bool)
        requires
            field::FLAGS < self@.len(),
        ensures
            value == flag(self@[field::FLAGS as int], 7),
    {
        read_flag(self.buffer[field::FLAGS], 7)
    }

    /// Set the powertrain status field.
    pub fn set_powertrain_status(&mut self, value: PowertrainStatus)
        requires
            field::STATES < old(self)@.len(),
        ensures
            final(self)@ == old(self)@.update(field::STATES as int, put_bits(old(self)@[field::STATES as int], 0, 2, value.raw())),
    {
        let raw = write_bits(self.buffer[field::STATES], 0, 2, u8::from(value));
        self.buffer.set(field::STATES, raw);
    }

    /// Set the generator working flag.
    pub fn set_generator_working(&mut self, value: bool)
        requires
            field::STATES < old(self)@.len(),
        ensures
            final(self)@ == old(self)@.update(field::STATES as int, put_flag(old(self)@[field::STATES as int], 2, value)),
    {
        let raw = write_flag(self.buffer[field::STATES], 2, value);
        self.buffer.set(field::STATES, raw);
    }

    /// Set the vehicle main status field.
    pub fn set_vehicle_main_status(&mut self, value: MainStatus)
        requires
            field::STATES < old(self)@.len(),
        ensures
            final(self)@ == old(self)@.update(field::STATES as int, put_bits(old(self)@[field::STATES as int], 3, 2, value.raw())),
    {
        let raw = write_bits(self.buffer[field::STATES], 3, 2, u8::from(value));
        self.buffer.set(field::STATES, raw);
    }

    /// Set the factory park flag.
    pub fn set_factory_park(&mut self, value: bool)
        requires
            field::STATES < old(self)@.len(),
        ensures
            final(self)@ == old(self)@.update(field::STATES as int, put_flag(old(self)@[field::STATES as int], 5, value)),
    {
        let raw = write_flag(self.buffer[field::STATES], 5, value);
        self.buffer.set(field::STATES, raw);
    }

    /// Set the vehicle supervision module config mode field.
    pub fn set_vsm_config_mode(&mut self, value: VsmConfigMode)
        requires
            field::STATES < old(self)@.len(),
        ensures
            final(self)@ == old(self)@.update(field::STATES as int, put_bits(old(self)@[field::STATES as int], 6, 2, value.raw())),
    {
        let raw = write_bits(self.buffer[field::STATES], 6, 2, u8::from(value));
        self.buffer.set(field::STATES, raw);
    }

    /// Set the engine coolant temperature value, in celsius with a +40 offset.
    pub fn set_coolant_temp(&mut self, value: u8)
        requires
            field::COOLANT_TEMP < old(self)@.len(),
        ensures
            final(self)@ == old(self)@.update(field::COOLANT_TEMP as int, value),
    {
        self.buffer.set(field::COOLANT_TEMP, value);
    }

    /// Set the odometer value, in 0.1 kilometers.
    pub fn set_odometer(&mut self, value: u32)
        requires
            field::ODOMETER + 3 <= old(self)@.len(),
            value < 0x1000000,
        ensures
            final(self)@ == put_be_u24(old(self)@, field::ODOMETER as int, value),
    {
        write_u24(&mut self.buffer, field::ODOMETER, value);
    }

    /// Set the external temperature value, in 0.5 celsius with a +40 offset.
    pub fn set_external_temp(&mut self, value: u8)
        requires
            field::EXT_TEMP < old(self)@.len(),
        ensures
            final(self)@ == old(self)@.update(field::EXT_TEMP as int, value),
    {
        self.buffer.set(field::EXT_TEMP, value);
    }

    /// Set the filtered external temperature value, in 0.5 celsius with a +40 offset.
    pub fn set_external_temp_filtered(&mut self, value: u8)
        requires
            field::EXT_TEMP_FILTERED < old(self)@.len(),
        ensures
            final(self)@ == old(self)@.update(field::EXT_TEMP_FILTERED as int, value),
    {
        self.buffer.set(field::EXT_TEMP_FILTERED, value);
    }

    /// Set the blinkers status field.
    pub fn set_blinkers_status(&mut self, value: BlinkersStatus)
        requires
            field::FLAGS < old(self)@.len(),
        ensures
            final(self)@ == old(self)@.update(field::FLAGS as int, put_bits(old(self)@[field::FLAGS as int], 0, 2, value.raw())),
    {
        let raw = write_bits(self.buffer[field::FLAGS], 0, 2, u8::from(value));
        self.buffer.set(field::FLAGS, raw);
    }

    /// Set the cluster lights test flag.
    pub fn set_cluster_lights_test(&mut self, value: bool)
        requires
            field::FLAGS < old(self)@.len(),
        ensures
            final(self)@ == old(self)@.update(field::FLAGS as int, put_flag(old(self)@[field::FLAGS as int], 3, value)),
    {
        let raw = write_flag(self.buffer[field::FLAGS], 3, value);
        self.buffer.set(field::FLAGS, raw);
    }

    /// Set the steering wheel position field.
    pub fn set_steering_wheel_pos(&mut self, value: SteeringWheelPosition)
        requires
            field::FLAGS < old(self)@.len(),
        ensures
            final(self)@ == old(self)@.update(field::FLAGS as int, put_bits(old(self)@[field::FLAGS as int], 4, 2, value.raw())),
    {
        let raw = write_bits(self.buffer[field::FLAGS], 4, 2, u8::from(value));
        self.buffer.set(field::FLAGS, raw);
    }

    /// Set the front wiping acknowledge flag.
    pub fn set_front_wiping_ack(&mut self, value: bool)
        requires
            field::FLAGS < old(self)@.len(),
        ensures
            final(self)@ == old(self)@.update(field::FLAGS as int, put_flag(old(self)@[field::FLAGS as int], 6, value)),
    {
        let raw = write_flag(self.buffer[field::FLAGS], 6, value);
        self.buffer.set(field::FLAGS, raw);
    }

    /// Set the reverse gear engaged flag.
    pub fn set_reverse_gear_engaged(&mut self, value: bool)
        requires
            field::FLAGS < old(self)@.len(),
        ensures
            final(self)@ == old(self)@.update(field::FLAGS as int, put_flag(old(self)@[field::FLAGS as int], 7, value)),
    {
        let raw = write_flag(self.buffer[field::FLAGS], 7, value);
        self.buffer.set(field::FLAGS, raw);
    }
}

} // verus!
