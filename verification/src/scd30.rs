//! Driver of the CO2, temperature and humidity sensor.
//!
//! Every operation is one exchange on the bus: a command frame goes out and, where
//! the command has an answer, a fixed number of bytes comes back. A failure of the
//! bus ends the operation at once and is its result.

use crate::codec;
use crate::codec::ProtocolError;
use crate::transport;
use crate::transport::{Session, Transfer, Transport};
use vstd::prelude::*;

verus! {

/// Bus address of the sensor.
pub const DEFAULT_ADDRESS: u8 = 0x61;

/// Length in bytes of a measurement: three 32-bit values, each in two words with
/// a checksum byte behind every word.
pub const MEASUREMENT_LEN: usize = 18;

/// The commands that the sensor understands.
#[derive(Clone, Copy, Debug, PartialEq, Eq, Structural)]
pub enum Command {
    StartContinuousMeasurement,
    StopContinuousMeasurement,
    MeasurementInterval,
    GetDataReadyStatus,
    ReadMeasurement,
    ASC,
    TemperatureOffset,
    ReadFirmwareVersion,
    SoftReset,
}

impl Command {
    /// The 16-bit word that stands for the command on the wire.
    pub open spec fn code_spec(self) -> u16 {
        match self {
            Command::StartContinuousMeasurement => 0x0010,
            Command::StopContinuousMeasurement => 0x0104,
            Command::MeasurementInterval => 0x4600,
            Command::GetDataReadyStatus => 0x0202,
            Command::ReadMeasurement => 0x0300,
            Command::ASC => 0x5306,
            Command::TemperatureOffset => 0x5403,
            Command::ReadFirmwareVersion => 0xd100,
            Command::SoftReset => 0xd304,
        }
    }

    /// Gives the 16-bit word that stands for the command on the wire.
    pub fn code(&self) -> (r: u16)
        ensures
            r == self.code_spec(),
    {
        match self {
            Command::StartContinuousMeasurement => 0x0010,
            Command::StopContinuousMeasurement => 0x0104,
            Command::MeasurementInterval => 0x4600,
            Command::GetDataReadyStatus => 0x0202,
            Command::ReadMeasurement => 0x0300,
            Command::ASC => 0x5306,
            Command::TemperatureOffset => 0x5403,
            Command::ReadFirmwareVersion => 0xd100,
            Command::SoftReset => 0xd304,
        }
    }

    /// The frame of the command sent without an argument.
    pub open spec fn bare_frame(self) -> Seq<u8> {
        codec::frame_spec(self.code_spec(), None)
    }

    /// The frame of the command sent with an argument.
    pub open spec fn frame_with(self, argument: u16) -> Seq<u8> {
        codec::frame_spec(self.code_spec(), Some(argument))
    }
}

/// No two commands share a code.
pub proof fn command_codes_are_distinct(a: Command, b: Command)
    requires
        a != b,
    ensures
        a.code_spec() != b.code_spec(),
{
}

/// One measurement. Each field holds the bits of an IEEE-754 single-precision
/// number: CO2 concentration in ppm, temperature in degrees Celsius, relative
/// humidity in percent.
#[derive(Clone, Copy, Debug, PartialEq, Eq, Structural)]
pub struct SensorData {
    pub co2: u32,
    pub temperature: u32,
    pub humidity: u32,
}

/// The measurement that an interleaved buffer carries: with the checksum bytes
/// stripped, three big-endian 32-bit values at offsets 0, 4 and 8.
pub open spec fn parse_measurement_spec(buffer: Seq<u8>) -> SensorData {
    let data = codec::strip_crc(buffer);
    SensorData {
        co2: codec::be_u32_at(data, 0),
        temperature: codec::be_u32_at(data, 4),
        humidity: codec::be_u32_at(data, 8),
    }
}

/// Decodes a measurement from an interleaved buffer of at least 18 bytes. The
/// checksum bytes are stripped without being looked at.
pub fn parse_measurement(buffer: &[u8]) -> (r: Result<SensorData, ProtocolError>)
    ensures
        buffer@.len() >= MEASUREMENT_LEN ==> r == Ok::<SensorData, ProtocolError>(
            parse_measurement_spec(buffer@),
        ),
        buffer@.len() < MEASUREMENT_LEN ==> r == Err::<SensorData, ProtocolError>(
            (ProtocolError::ShortResponse {
                expected: MEASUREMENT_LEN,
                actual: buffer@.len() as usize,
            }),
        ),
{
    if buffer.len() < MEASUREMENT_LEN {
        return Err(
            ProtocolError::ShortResponse { expected: MEASUREMENT_LEN, actual: buffer.len() },
        );
    }
    Ok(decode_measurement(buffer))
}

/// Decodes a measurement from a buffer known to hold all of it.
fn decode_measurement(buffer: &[u8]) -> (r: SensorData)
    requires
        buffer@.len() >= MEASUREMENT_LEN,
    ensures
        r == parse_measurement_spec(buffer@),
{
    proof {
        codec::strip_crc_layout(buffer@);
        assert(codec::new_index(0) == 0 && codec::new_index(1) == 1 && codec::new_index(3) == 2
            && codec::new_index(4) == 3);
        assert(codec::new_index(6) == 4 && codec::new_index(7) == 5 && codec::new_index(9) == 6
            && codec::new_index(10) == 7);
        assert(codec::new_index(12) == 8 && codec::new_index(13) == 9 && codec::new_index(15)
            == 10 && codec::new_index(16) == 11);
    }
    SensorData {
        co2: codec::u32_from_be_bytes(buffer[0], buffer[1], buffer[3], buffer[4]),
        temperature: codec::u32_from_be_bytes(buffer[6], buffer[7], buffer[9], buffer[10]),
        humidity: codec::u32_from_be_bytes(buffer[12], buffer[13], buffer[15], buffer[16]),
    }
}

/// The interleaved buffer of a measurement, with `fill` in every checksum position.
pub open spec fn measurement_buffer(data: SensorData, fill: u8) -> Seq<u8> {
    codec::interleave(
        codec::be_bytes_u32(data.co2) + codec::be_bytes_u32(data.temperature)
            + codec::be_bytes_u32(data.humidity),
        fill,
    )
}

/// A measurement survives the wire bit for bit: its three values written
/// big-endian, interleaved with any checksum byte and decoded again, are the same.
pub proof fn measurement_round_trip(data: SensorData, fill: u8)
    ensures
        measurement_buffer(data, fill).len() == MEASUREMENT_LEN,
        parse_measurement_spec(measurement_buffer(data, fill)) == data,
{
    let bytes = codec::be_bytes_u32(data.co2) + codec::be_bytes_u32(data.temperature)
        + codec::be_bytes_u32(data.humidity);
    codec::strip_crc_of_interleave(bytes, fill);
    codec::u32_be_round_trip(data.co2);
    codec::u32_be_round_trip(data.temperature);
    codec::u32_be_round_trip(data.humidity);
    assert(codec::be_u32_at(bytes, 0) == data.co2);
    assert(codec::be_u32_at(bytes, 4) == data.temperature);
    assert(codec::be_u32_at(bytes, 8) == data.humidity);
}

/// The sensor and the session on the bus that reaches it.
pub struct SCD30<T: Transport>(Session<T>);

impl<T: Transport> SCD30<T> {
    /// The bus that the driver holds.
    pub closed spec fn bus(&self) -> T {
        self.0.bus()
    }

    /// Every transfer that the driver has made, oldest first.
    pub closed spec fn transcript(&self) -> Seq<Transfer<T::Error>> {
        self.0.transcript()
    }

    /// The bytes of the latest answer: those that the latest transfer received, if
    /// it was a read that succeeded.
    pub open spec fn last_reply(&self) -> Seq<u8> {
        transport::last_reply(self.transcript())
    }

    /// Takes the bus for the lifetime of the device session. Nothing is sent.
    pub fn init(i2c2: T) -> (r: Self)
        ensures
            r.bus() == i2c2,
            r.transcript() == Seq::<Transfer<T::Error>>::empty(),
    {
        SCD30(Session::open(i2c2))
    }

    /// Reads the firmware version: major, then minor.
    pub fn read_firmware_version(&mut self) -> (r: Result<[u8; 2], T::Error>)
        ensures
            transport::exchanged(
                old(self).transcript(),
                final(self).transcript(),
                DEFAULT_ADDRESS,
                Command::ReadFirmwareVersion.bare_frame(),
                2,
                r,
            ),
            r matches Ok(version) ==> version@ == final(self).last_reply(),
    {
        let frame = codec::command_frame(Command::ReadFirmwareVersion.code());
        let mut rd_buffer = [0u8; 2];
        match self.0.query(DEFAULT_ADDRESS, frame.as_slice(), &mut rd_buffer) {
            Ok(()) => {},
            Err(e) => {
                return Err(e);
            },
        }
        let major = rd_buffer[0];
        let minor = rd_buffer[1];
        let version: [u8; 2] = [major, minor];
        assert(version@ =~= rd_buffer@);
        Ok(version)
    }

    /// Restarts the sensor. No answer is read.
    pub fn soft_reset(&mut self) -> (r: Result<(), T::Error>)
        ensures
            final(self).transcript() == old(self).transcript().push(
                transport::sent(
                    DEFAULT_ADDRESS,
                    Command::SoftReset.bare_frame(),
                    transport::failure_of(r),
                ),
            ),
    {
        let frame = codec::command_frame(Command::SoftReset.code());
        self.0.write(DEFAULT_ADDRESS, frame.as_slice())
    }

    /// Sets the temperature offset, in hundredths of a degree.
    pub fn set_temperature_offset(&mut self, temperature_offset: u16) -> (r: Result<(), T::Error>)
        ensures
            final(self).transcript() == old(self).transcript().push(
                transport::sent(
                    DEFAULT_ADDRESS,
                    Command::TemperatureOffset.frame_with(temperature_offset),
                    transport::failure_of(r),
                ),
            ),
    {
        let frame = codec::argument_frame(Command::TemperatureOffset.code(), temperature_offset);
        self.0.write(DEFAULT_ADDRESS, frame.as_slice())
    }

    /// Reads the temperature offset back.
    pub fn read_temperature_offset(&mut self) -> (r: Result<u16, T::Error>)
        ensures
            transport::exchanged(
                old(self).transcript(),
                final(self).transcript(),
                DEFAULT_ADDRESS,
                Command::TemperatureOffset.bare_frame(),
                3,
                r,
            ),
            r matches Ok(offset) ==> offset == codec::parse_u16_spec(final(self).last_reply()),
    {
        self.read_word(Command::TemperatureOffset)
    }

    /// Starts continuous measurement, compensated for the ambient pressure given
    /// in millibar.
    pub fn start_continuous_measurement(&mut self, pressure: &u16) -> (r: Result<(), T::Error>)
        ensures
            final(self).transcript() == old(self).transcript().push(
                transport::sent(
                    DEFAULT_ADDRESS,
                    Command::StartContinuousMeasurement.frame_with(*pressure),
                    transport::failure_of(r),
                ),
            ),
    {
        let frame = codec::argument_frame(Command::StartContinuousMeasurement.code(), *pressure);
        self.0.write(DEFAULT_ADDRESS, frame.as_slice())
    }

    /// Stops continuous measurement.
    pub fn stop_continuous_measurement(&mut self) -> (r: Result<(), T::Error>)
        ensures
            final(self).transcript() == old(self).transcript().push(
                transport::sent(
                    DEFAULT_ADDRESS,
                    Command::StopContinuousMeasurement.bare_frame(),
                    transport::failure_of(r),
                ),
            ),
    {
        let frame = codec::command_frame(Command::StopContinuousMeasurement.code());
        self.0.write(DEFAULT_ADDRESS, frame.as_slice())
    }

    /// Sets the interval between measurements, in seconds.
    pub fn set_measurement_interval(&mut self, interval: u16) -> (r: Result<(), T::Error>)
        ensures
            final(self).transcript() == old(self).transcript().push(
                transport::sent(
                    DEFAULT_ADDRESS,
                    Command::MeasurementInterval.frame_with(interval),
                    transport::failure_of(r),
                ),
            ),
    {
        let frame = codec::argument_frame(Command::MeasurementInterval.code(), interval);
        self.0.write(DEFAULT_ADDRESS, frame.as_slice())
    }

    /// Reads the interval between measurements back.
    pub fn get_measurement_interval(&mut self) -> (r: Result<u16, T::Error>)
        ensures
            transport::exchanged(
                old(self).transcript(),
                final(self).transcript(),
                DEFAULT_ADDRESS,
                Command::MeasurementInterval.bare_frame(),
                3,
                r,
            ),
            r matches Ok(interval) ==> interval == codec::parse_u16_spec(final(self).last_reply()),
    {
        self.read_word(Command::MeasurementInterval)
    }

    /// Asks whether a measurement is waiting: true if and only if the status word
    /// that the sensor answers with is exactly 1.
    pub fn data_ready(&mut self) -> (r: Result<bool, T::Error>)
        ensures
            transport::exchanged(
                old(self).transcript(),
                final(self).transcript(),
                DEFAULT_ADDRESS,
                Command::GetDataReadyStatus.bare_frame(),
                3,
                r,
            ),
            r matches Ok(ready) ==> ready == (codec::parse_u16_spec(final(self).last_reply()) == 1),
    {
        match self.read_word(Command::GetDataReadyStatus) {
            Ok(status) => Ok(status == 1),
            Err(e) => Err(e),
        }
    }

    /// Reads the latest measurement.
    pub fn read_measurement(&mut self) -> (r: Result<SensorData, T::Error>)
        ensures
            transport::exchanged(
                old(self).transcript(),
                final(self).transcript(),
                DEFAULT_ADDRESS,
                Command::ReadMeasurement.bare_frame(),
                MEASUREMENT_LEN as nat,
                r,
            ),
            r matches Ok(data) ==> data == parse_measurement_spec(final(self).last_reply()),
    {
        let frame = codec::command_frame(Command::ReadMeasurement.code());
        let mut rd_buffer = [0u8; 18];
        match self.0.query(DEFAULT_ADDRESS, frame.as_slice(), &mut rd_buffer) {
            Ok(()) => {},
            Err(e) => {
                return Err(e);
            },
        }
        Ok(decode_measurement(rd_buffer.as_slice()))
    }

    /// Switches automatic self-calibration on and reads the setting back: the
    /// command goes out with the argument 1, then bare, and the answer is compared
    /// with 1.
    pub fn activate_auto_self_calibration(&mut self) -> (r: Result<bool, T::Error>)
        ensures
            ({
                let enable = Command::ASC.frame_with(1);
                ||| r matches Err(e) && final(self).transcript() == old(self).transcript().push(
                    transport::sent(DEFAULT_ADDRESS, enable, Some(e)),
                )
                ||| transport::exchanged(
                    old(self).transcript().push(transport::sent(DEFAULT_ADDRESS, enable, None)),
                    final(self).transcript(),
                    DEFAULT_ADDRESS,
                    Command::ASC.bare_frame(),
                    3,
                    r,
                )
            }),
            r matches Ok(active) ==> active == (codec::parse_u16_spec(final(self).last_reply()) == 1),
    {
        let frame = codec::argument_frame(Command::ASC.code(), 1);
        match self.0.write(DEFAULT_ADDRESS, frame.as_slice()) {
            Ok(()) => {},
            Err(e) => {
                return Err(e);
            },
        }
        match self.read_word(Command::ASC) {
            Ok(setting) => Ok(setting == 1),
            Err(e) => Err(e),
        }
    }

    /// Reads the 16-bit value that the sensor holds under `command`.
    fn read_word(&mut self, command: Command) -> (r: Result<u16, T::Error>)
        ensures
            transport::exchanged(
                old(self).transcript(),
                final(self).transcript(),
                DEFAULT_ADDRESS,
                command.bare_frame(),
                3,
                r,
            ),
            r matches Ok(value) ==> value == codec::parse_u16_spec(final(self).last_reply()),
    {
        let frame = codec::command_frame(command.code());
        let mut rd_buffer = [0u8; 3];
        match self.0.query(DEFAULT_ADDRESS, frame.as_slice(), &mut rd_buffer) {
            Ok(()) => {},
            Err(e) => {
                return Err(e);
            },
        }
        Ok(codec::u16_from_be_bytes(rd_buffer[0], rd_buffer[1]))
    }

    /// Ends the device session and hands the bus back.
    pub fn free(self) -> (r: T)
        ensures
            r == self.bus(),
    {
        self.0.close()
    }

    /// Puts another bus in the place of the one held. The record of transfers stays.
    pub fn set_bus(&mut self, i2c2: T)
        ensures
            final(self).bus() == i2c2,
            final(self).transcript() == old(self).transcript(),
    {
        self.0.replace_bus(i2c2);
    }
}

} // verus!
