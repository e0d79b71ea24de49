//! Driver of the particulate-matter sensor.
//!
//! The exchanges have the shape of those of the CO2 sensor. On top of them the
//! driver strips the checksum bytes from the product type and the serial number,
//! and reads the device status as a 32-bit word whose bits name faults.

use crate::codec;
use crate::transport;
use crate::transport::{Session, Transfer, Transport};
use vstd::prelude::*;

verus! {

/// Bus address of the sensor.
pub const DEFAULT_ADDRESS: u8 = 0x69;

/// Bit of the device status that reports a fan fault.
pub const FAN_FAULT_BIT: u8 = 4;

/// Bit of the device status that reports a laser fault.
pub const LASER_FAULT_BIT: u8 = 5;

/// Bit of the device status that reports a fan speed out of range.
pub const SPEED_FAULT_BIT: u8 = 21;

/// Argument of the start command: mass concentrations as big-endian floats.
pub const OUTPUT_FORMAT_FLOAT: u16 = 0x0300;

/// The commands that the sensor understands.
#[derive(Clone, Copy, Debug, PartialEq, Eq, Structural)]
pub enum Command {
    StartMeasurement,
    StopMeasurement,
    ReadDataReady,
    ReadMeasuredValue,
    StartFanCleaning,
    ReadProductType,
    ReadSerialNumber,
    ReadFirmwareVersion,
    ReadDeviceStatus,
    ClearDeviceStatus,
    Reset,
}

impl Command {
    /// The 16-bit word that stands for the command on the wire.
    pub open spec fn code_spec(self) -> u16 {
        match self {
            Command::StartMeasurement => 0x0010,
            Command::StopMeasurement => 0x0104,
            Command::ReadDataReady => 0x0202,
            Command::ReadMeasuredValue => 0x0300,
            Command::StartFanCleaning => 0x5607,
            Command::ReadProductType => 0xD002,
            Command::ReadSerialNumber => 0xD033,
            Command::ReadFirmwareVersion => 0xD100,
            Command::ReadDeviceStatus => 0xD206,
            Command::ClearDeviceStatus => 0xD210,
            Command::Reset => 0xD304,
        }
    }

    /// Gives the 16-bit word that stands for the command on the wire.
    pub fn code(&self) -> (r: u16)
        ensures
            r == self.code_spec(),
    {
        match self {
            Command::StartMeasurement => 0x0010,
            Command::StopMeasurement => 0x0104,
            Command::ReadDataReady => 0x0202,
            Command::ReadMeasuredValue => 0x0300,
            Command::StartFanCleaning => 0x5607,
            Command::ReadProductType => 0xD002,
            Command::ReadSerialNumber => 0xD033,
            Command::ReadFirmwareVersion => 0xD100,
            Command::ReadDeviceStatus => 0xD206,
            Command::ClearDeviceStatus => 0xD210,
            Command::Reset => 0xD304,
        }
    }

    /// The frame of the command sent without an argument.
    pub open spec fn bare_frame(self) -> Seq<u8> {
        codec::frame_spec(self.code_spec(), None)
    }

    /// The frame of the command sent with an argument.
    pub open spec fn frame_with(self, argument: u16) -> Seq<u8> {
        codec::frame_spec(self.code_spec(), Some(argument))
    }
}

/// No two commands share a code.
pub proof fn command_codes_are_distinct(a: Command, b: Command)
    requires
        a != b,
    ensures
        a.code_spec() != b.code_spec(),
{
}

/// The two mass concentrations that the driver decodes, each as the bits of an
/// IEEE-754 single-precision number in micrograms per cubic metre.
#[derive(Clone, Copy, Debug, PartialEq, Eq, Structural)]
pub struct ParticleData {
    pub pm1_0: u32,
    pub pm2_5: u32,
}

/// The mass concentrations that a measurement block carries: with the checksum
/// bytes stripped, two big-endian 32-bit values at offsets 0 and 4. The channels
/// behind them are left alone.
pub open spec fn parse_particles_spec(buffer: Seq<u8>) -> ParticleData {
    let data = codec::strip_crc(buffer);
    ParticleData { pm1_0: codec::be_u32_at(data, 0), pm2_5: codec::be_u32_at(data, 4) }
}

/// The sensor and the session on the bus that reaches it.
pub struct SPS30<T: Transport>(Session<T>);

impl<T: Transport> SPS30<T> {
    /// The bus that the driver holds.
    pub closed spec fn bus(&self) -> T {
        self.0.bus()
    }

    /// Every transfer that the driver has made, oldest first.
    pub closed spec fn transcript(&self) -> Seq<Transfer<T::Error>> {
        self.0.transcript()
    }

    /// The bytes of the latest answer: those that the latest transfer received, if
    /// it was a read that succeeded.
    pub open spec fn last_reply(&self) -> Seq<u8> {
        transport::last_reply(self.transcript())
    }

    /// Takes the bus for the lifetime of the device session. Nothing is sent.
    pub fn init(i2c2: T) -> (r: Self)
        ensures
            r.bus() == i2c2,
            r.transcript() == Seq::<Transfer<T::Error>>::empty(),
    {
        SPS30(Session::open(i2c2))
    }

    /// Sends a command that has no answer.
    fn send(&mut self, command: Command) -> (r: Result<(), T::Error>)
        ensures
            final(self).transcript() == old(self).transcript().push(
                transport::sent(
                    DEFAULT_ADDRESS,
                    command.bare_frame(),
                    transport::failure_of(r),
                ),
            ),
    {
        let frame = codec::command_frame(command.code());
        self.0.write(DEFAULT_ADDRESS, frame.as_slice())
    }

    /// Starts measuring, with mass concentrations reported as floats.
    pub fn start_measurement(&mut self) -> (r: Result<(), T::Error>)
        ensures
            final(self).transcript() == old(self).transcript().push(
                transport::sent(
                    DEFAULT_ADDRESS,
                    Command::StartMeasurement.frame_with(OUTPUT_FORMAT_FLOAT),
                    transport::failure_of(r),
                ),
            ),
    {
        let frame = codec::argument_frame(Command::StartMeasurement.code(), OUTPUT_FORMAT_FLOAT);
        self.0.write(DEFAULT_ADDRESS, frame.as_slice())
    }

    /// Asks whether a measurement is waiting: true if and only if the status word
    /// that the sensor answers with is exactly 1.
    pub fn data_ready(&mut self) -> (r: Result<bool, T::Error>)
        ensures
            transport::exchanged(
                old(self).transcript(),
                final(self).transcript(),
                DEFAULT_ADDRESS,
                Command::ReadDataReady.bare_frame(),
                3,
                r,
            ),
            r matches Ok(ready) ==> ready == (codec::parse_u16_spec(final(self).last_reply()) == 1),
    {
        let frame = codec::command_frame(Command::ReadDataReady.code());
        let mut rd_buffer = [0u8; 3];
        match self.0.query(DEFAULT_ADDRESS, frame.as_slice(), &mut rd_buffer) {
            Ok(()) => {},
            Err(e) => {
                return Err(e);
            },
        }
        Ok(codec::u16_from_be_bytes(rd_buffer[0], rd_buffer[1]) == 1)
    }

    /// Reads the latest measurement and decodes its first two channels.
    pub fn read_measurement(&mut self) -> (r: Result<ParticleData, T::Error>)
        ensures
            transport::exchanged(
                old(self).transcript(),
                final(self).transcript(),
                DEFAULT_ADDRESS,
                Command::ReadMeasuredValue.bare_frame(),
                60,
                r,
            ),
            r matches Ok(data) ==> data == parse_particles_spec(final(self).last_reply()),
    {
        let frame = codec::command_frame(Command::ReadMeasuredValue.code());
        let mut rd_buffer = [0u8; 60];
        match self.0.query(DEFAULT_ADDRESS, frame.as_slice(), &mut rd_buffer) {
            Ok(()) => {},
            Err(e) => {
                return Err(e);
            },
        }
        let measurements = codec::remove_crc_bits(rd_buffer.as_slice());
        proof {
            codec::strip_crc_layout(rd_buffer@);
        }
        Ok(
            ParticleData {
                pm1_0: codec::u32_from_be_bytes(
                    measurements[0],
                    measurements[1],
                    measurements[2],
                    measurements[3],
                ),
                pm2_5: codec::u32_from_be_bytes(
                    measurements[4],
                    measurements[5],
                    measurements[6],
                    measurements[7],
                ),
            },
        )
    }

    /// Starts a cleaning run of the fan.
    pub fn start_fan_cleaning(&mut self) -> (r: Result<(), T::Error>)
        ensures
            final(self).transcript() == old(self).transcript().push(
                transport::sent(
                    DEFAULT_ADDRESS,
                    Command::StartFanCleaning.bare_frame(),
                    transport::failure_of(r),
                ),
            ),
    {
        self.send(Command::StartFanCleaning)
    }

    /// Reads the product type: the 32 data bytes of a 48-byte answer.
    pub fn read_product_type(&mut self) -> (r: Result<[u8; 32], T::Error>)
        ensures
            transport::exchanged(
                old(self).transcript(),
                final(self).transcript(),
                DEFAULT_ADDRESS,
                Command::ReadProductType.bare_frame(),
                48,
                r,
            ),
            r matches Ok(product_type) ==> product_type@ == codec::strip_crc(final(self).last_reply()),
    {
        let frame = codec::command_frame(Command::ReadProductType.code());
        let mut rd_buffer = [0u8; 48];
        match self.0.query(DEFAULT_ADDRESS, frame.as_slice(), &mut rd_buffer) {
            Ok(()) => {},
            Err(e) => {
                return Err(e);
            },
        }
        let stripped = codec::remove_crc_bits(rd_buffer.as_slice());
        proof {
            codec::strip_crc_layout(rd_buffer@);
        }
        let mut product_type = [0u8; 32];
        let mut index: usize = 0;
        while index < 32
            invariant
                index <= 32,
                forall|k: int| 0 <= k < index ==> product_type@[k] == stripped@[k],
            decreases 32 - index,
        {
            product_type[index] = stripped[index];
            index += 1;
        }
        assert(product_type@ =~= codec::strip_crc(rd_buffer@));
        Ok(product_type)
    }

    /// Reads the serial number: the 32 data bytes of a 48-byte answer, in a block
    /// of 60 bytes that is zero behind them.
    pub fn read_serial_number(&mut self) -> (r: Result<[u8; 60], T::Error>)
        ensures
            transport::exchanged(
                old(self).transcript(),
                final(self).transcript(),
                DEFAULT_ADDRESS,
                Command::ReadSerialNumber.bare_frame(),
                48,
                r,
            ),
            r matches Ok(serial_number) ==> serial_number@ == codec::strip_crc(final(self).last_reply()) + codec::zeros(28),
    {
        let frame = codec::command_frame(Command::ReadSerialNumber.code());
        let mut rd_buffer = [0u8; 48];
        match self.0.query(DEFAULT_ADDRESS, frame.as_slice(), &mut rd_buffer) {
            Ok(()) => {},
            Err(e) => {
                return Err(e);
            },
        }
        let serial_number = codec::remove_crc_bits(rd_buffer.as_slice());
        Ok(serial_number)
    }

    /// Reads the device status word. Its bits at `FAN_FAULT_BIT`,
    /// `LASER_FAULT_BIT` and `SPEED_FAULT_BIT` report faults.
    pub fn read_device_status(&mut self) -> (r: Result<u32, T::Error>)
        ensures
            transport::exchanged(
                old(self).transcript(),
                final(self).transcript(),
                DEFAULT_ADDRESS,
                Command::ReadDeviceStatus.bare_frame(),
                6,
                r,
            ),
            r matches Ok(device_status) ==> device_status == codec::parse_u32_spec(final(self).last_reply()),
    {
        let frame = codec::command_frame(Command::ReadDeviceStatus.code());
        let mut rd_buffer = [0u8; 6];
        match self.0.query(DEFAULT_ADDRESS, frame.as_slice(), &mut rd_buffer) {
            Ok(()) => {},
            Err(e) => {
                return Err(e);
            },
        }
        proof {
            codec::parse_u32_reads_data_bytes(rd_buffer@);
        }
        Ok(codec::u32_from_be_bytes(rd_buffer[0], rd_buffer[1], rd_buffer[3], rd_buffer[4]))
    }

    /// Clears the device status word.
    pub fn clear_device_status(&mut self) -> (r: Result<(), T::Error>)
        ensures
            final(self).transcript() == old(self).transcript().push(
                transport::sent(
                    DEFAULT_ADDRESS,
                    Command::ClearDeviceStatus.bare_frame(),
                    transport::failure_of(r),
                ),
            ),
    {
        self.send(Command::ClearDeviceStatus)
    }

    /// Reads the firmware version: major, then minor, from a three-byte answer.
    pub fn read_firmware_version(&mut self) -> (r: Result<[u8; 2], T::Error>)
        ensures
            transport::exchanged(
                old(self).transcript(),
                final(self).transcript(),
                DEFAULT_ADDRESS,
                Command::ReadFirmwareVersion.bare_frame(),
                3,
                r,
            ),
            r matches Ok(version) ==> version@ == final(self).last_reply().take(2),
    {
        let frame = codec::command_frame(Command::ReadFirmwareVersion.code());
        let mut rd_buffer = [0u8; 3];
        match self.0.query(DEFAULT_ADDRESS, frame.as_slice(), &mut rd_buffer) {
            Ok(()) => {},
            Err(e) => {
                return Err(e);
            },
        }
        let major = rd_buffer[0];
        let minor = rd_buffer[1];
        let version: [u8; 2] = [major, minor];
        assert(version@ =~= rd_buffer@.take(2));
        Ok(version)
    }

    /// Restarts the sensor. No answer is read.
    pub fn reset_device(&mut self) -> (r: Result<(), T::Error>)
        ensures
            final(self).transcript() == old(self).transcript().push(
                transport::sent(
                    DEFAULT_ADDRESS,
                    Command::Reset.bare_frame(),
                    transport::failure_of(r),
                ),
            ),
    {
        self.send(Command::Reset)
    }

    /// Ends the device session and hands the bus back.
    pub fn free(self) -> (r: T)
        ensures
            r == self.bus(),
    {
        self.0.close()
    }

    /// Puts another bus in the place of the one held. The record of transfers stays.
    pub fn set_bus(&mut self, i2c2: T)
        ensures
            final(self).bus() == i2c2,
            final(self).transcript() == old(self).transcript(),
    {
        self.0.replace_bus(i2c2);
    }
}

} // verus!
