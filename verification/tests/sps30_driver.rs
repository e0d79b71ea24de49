use carbon_sensor::codec::{get_bit_at, get_device_status};
use carbon_sensor::sps30::{
    Command, ParticleData, DEFAULT_ADDRESS, FAN_FAULT_BIT, LASER_FAULT_BIT, SPEED_FAULT_BIT,
    SPS30,
};
use carbon_sensor::transport::Transport;

#[derive(Clone, Copy, Debug, PartialEq)]
enum BusError {
    Nack,
    Timeout,
}

#[derive(Clone, Debug, PartialEq)]
enum Seen {
    Write(u8, Vec<u8>),
    Read(u8, usize),
}

struct FakeBus {
    seen: Vec<Seen>,
    replies: Vec<Vec<u8>>,
    refuse_writes: bool,
}

impl FakeBus {
    fn new(replies: Vec<Vec<u8>>) -> Self {
        FakeBus { seen: Vec::new(), replies, refuse_writes: false }
    }

    fn refusing_writes() -> Self {
        FakeBus { seen: Vec::new(), replies: Vec::new(), refuse_writes: true }
    }
}

impl Transport for FakeBus {
    type Error = BusError;

    fn write(&mut self, address: u8, bytes: &[u8]) -> Result<(), BusError> {
        self.seen.push(Seen::Write(address, bytes.to_vec()));
        if self.refuse_writes {
            Err(BusError::Nack)
        } else {
            Ok(())
        }
    }

    fn read(&mut self, address: u8, buffer: &mut [u8]) -> Result<(), BusError> {
        self.seen.push(Seen::Read(address, buffer.len()));
        if self.replies.is_empty() {
            return Err(BusError::Timeout);
        }
        let reply = self.replies.remove(0);
        buffer.copy_from_slice(&reply);
        Ok(())
    }
}

fn interleave(data: &[u8], fill: u8) -> Vec<u8> {
    let mut out = Vec::new();
    for pair in data.chunks(2) {
        out.extend_from_slice(pair);
        out.push(fill);
    }
    out
}

#[test]
fn particulate_command_codes_match_the_wire_set() {
    assert_eq!(DEFAULT_ADDRESS, 0x69);
    assert_eq!(Command::StartMeasurement.code(), 0x0010);
    assert_eq!(Command::StopMeasurement.code(), 0x0104);
    assert_eq!(Command::ReadDataReady.code(), 0x0202);
    assert_eq!(Command::ReadMeasuredValue.code(), 0x0300);
    assert_eq!(Command::StartFanCleaning.code(), 0x5607);
    assert_eq!(Command::ReadProductType.code(), 0xD002);
    assert_eq!(Command::ReadSerialNumber.code(), 0xD033);
    assert_eq!(Command::ReadFirmwareVersion.code(), 0xD100);
    assert_eq!(Command::ReadDeviceStatus.code(), 0xD206);
    assert_eq!(Command::ClearDeviceStatus.code(), 0xD210);
    assert_eq!(Command::Reset.code(), 0xD304);
}

#[test]
fn start_measurement_asks_for_floats() {
    let mut sensor = SPS30::init(FakeBus::new(vec![]));
    assert_eq!(sensor.start_measurement(), Ok(()));
    assert_eq!(sensor.free().seen, vec![Seen::Write(0x69, vec![0x00, 0x10, 0x03, 0x00, 0xAC])]);
}

#[test]
fn particulate_data_ready_is_true_for_exactly_one() {
    let mut sensor = SPS30::init(FakeBus::new(vec![
        vec![0x00, 0x01, 0xB0],
        vec![0x00, 0x00, 0x81],
        vec![0x00, 0x02, 0xE3],
        vec![0xFF, 0xFF, 0xAC],
    ]));
    assert_eq!(sensor.data_ready(), Ok(true));
    assert_eq!(sensor.data_ready(), Ok(false));
    assert_eq!(sensor.data_ready(), Ok(false));
    assert_eq!(sensor.data_ready(), Ok(false));
    let bus = sensor.free();
    assert_eq!(bus.seen[0], Seen::Write(0x69, vec![0x02, 0x02]));
    assert_eq!(bus.seen[1], Seen::Read(0x69, 3));
}

#[test]
fn particulate_data_ready_reads_the_whole_word() {
    let mut sensor = SPS30::init(FakeBus::new(vec![
        vec![0x01, 0x01, 0x00],
        vec![0xFF, 0x01, 0x00],
        vec![0x01, 0x00, 0x00],
        vec![0x00, 0x01, 0x00],
    ]));
    assert_eq!(sensor.data_ready(), Ok(false));
    assert_eq!(sensor.data_ready(), Ok(false));
    assert_eq!(sensor.data_ready(), Ok(false));
    assert_eq!(sensor.data_ready(), Ok(true));
}

#[test]
fn particulate_measurement_decodes_the_first_two_channels() {
    let mut data = Vec::new();
    data.extend_from_slice(&3.5f32.to_be_bytes());
    data.extend_from_slice(&7.25f32.to_be_bytes());
    for channel in 2..10 {
        data.extend_from_slice(&(channel as f32 * 100.0).to_be_bytes());
    }
    let reply = interleave(&data, 0x77);
    assert_eq!(reply.len(), 60);
    let mut sensor = SPS30::init(FakeBus::new(vec![reply]));
    let reading: ParticleData = sensor.read_measurement().unwrap();
    assert_eq!(f32::from_bits(reading.pm1_0), 3.5);
    assert_eq!(f32::from_bits(reading.pm2_5), 7.25);
    assert_eq!(
        sensor.free().seen,
        vec![Seen::Write(0x69, vec![0x03, 0x00]), Seen::Read(0x69, 60)]
    );
}

#[test]
fn product_type_is_stripped_to_thirty_two_bytes() {
    let mut text = b"00080000".to_vec();
    text.resize(32, 0);
    let reply = interleave(&text, 0xEE);
    assert_eq!(reply.len(), 48);
    let mut sensor = SPS30::init(FakeBus::new(vec![reply]));
    let product_type = sensor.read_product_type().unwrap();
    assert_eq!(&product_type[..], &text[..]);
    assert_eq!(
        sensor.free().seen,
        vec![Seen::Write(0x69, vec![0xD0, 0x02]), Seen::Read(0x69, 48)]
    );
}

#[test]
fn serial_number_is_stripped_and_zero_filled() {
    let text: Vec<u8> = (b'A'..b'A' + 32).collect();
    let reply = interleave(&text, 0xEE);
    let mut sensor = SPS30::init(FakeBus::new(vec![reply]));
    let serial_number = sensor.read_serial_number().unwrap();
    assert_eq!(&serial_number[..32], &text[..]);
    assert_eq!(&serial_number[32..], &[0u8; 28][..]);
    assert_eq!(
        sensor.free().seen,
        vec![Seen::Write(0x69, vec![0xD0, 0x33]), Seen::Read(0x69, 48)]
    );
}

#[test]
fn device_status_is_read_as_one_word() {
    let status: u32 = (1 << 21) | (1 << 4);
    let reply = interleave(&status.to_be_bytes(), 0x00);
    let mut sensor = SPS30::init(FakeBus::new(vec![reply]));
    let word = sensor.read_device_status().unwrap();
    assert_eq!(word, status);
    assert!(get_bit_at(word, SPEED_FAULT_BIT));
    assert!(!get_bit_at(word, LASER_FAULT_BIT));
    assert!(get_bit_at(word, FAN_FAULT_BIT));
    assert_eq!(get_device_status(word, SPEED_FAULT_BIT), "error");
    assert_eq!(get_device_status(word, LASER_FAULT_BIT), "ok");
    assert_eq!(get_device_status(word, FAN_FAULT_BIT), "error");
    assert_eq!(
        sensor.free().seen,
        vec![Seen::Write(0x69, vec![0xD2, 0x06]), Seen::Read(0x69, 6)]
    );
}

#[test]
fn fault_bits_are_where_the_sensor_puts_them() {
    assert_eq!(FAN_FAULT_BIT, 4);
    assert_eq!(LASER_FAULT_BIT, 5);
    assert_eq!(SPEED_FAULT_BIT, 21);
}

#[test]
fn particulate_firmware_version_is_major_then_minor() {
    let mut sensor = SPS30::init(FakeBus::new(vec![vec![0x02, 0x03, 0x55]]));
    assert_eq!(sensor.read_firmware_version(), Ok([0x02, 0x03]));
    assert_eq!(
        sensor.free().seen,
        vec![Seen::Write(0x69, vec![0xD1, 0x00]), Seen::Read(0x69, 3)]
    );
}

#[test]
fn commands_without_answer_send_the_bare_word() {
    let mut sensor = SPS30::init(FakeBus::new(vec![]));
    assert_eq!(sensor.start_fan_cleaning(), Ok(()));
    assert_eq!(sensor.clear_device_status(), Ok(()));
    assert_eq!(sensor.reset_device(), Ok(()));
    assert_eq!(
        sensor.free().seen,
        vec![
            Seen::Write(0x69, vec![0x56, 0x07]),
            Seen::Write(0x69, vec![0xD2, 0x10]),
            Seen::Write(0x69, vec![0xD3, 0x04]),
        ]
    );
}

#[test]
fn particulate_failures_are_reported_at_once() {
    let mut sensor = SPS30::init(FakeBus::refusing_writes());
    assert_eq!(sensor.start_measurement(), Err(BusError::Nack));
    assert_eq!(sensor.data_ready(), Err(BusError::Nack));
    assert_eq!(sensor.read_measurement().err(), Some(BusError::Nack));
    assert_eq!(sensor.read_product_type().err(), Some(BusError::Nack));
    assert_eq!(sensor.read_serial_number().err(), Some(BusError::Nack));
    assert_eq!(sensor.read_device_status(), Err(BusError::Nack));
    assert_eq!(sensor.read_firmware_version(), Err(BusError::Nack));
    assert_eq!(sensor.start_fan_cleaning(), Err(BusError::Nack));
    assert_eq!(sensor.clear_device_status(), Err(BusError::Nack));
    assert_eq!(sensor.reset_device(), Err(BusError::Nack));
    let bus = sensor.free();
    assert_eq!(bus.seen.len(), 10);
    assert!(bus.seen.iter().all(|seen| matches!(seen, Seen::Write(0x69, _))));

    let mut sensor = SPS30::init(FakeBus::new(vec![]));
    assert_eq!(sensor.read_device_status(), Err(BusError::Timeout));
    assert_eq!(sensor.free().seen.len(), 2);
}

#[test]
fn particulate_bus_can_be_replaced() {
    let mut sensor = SPS30::init(FakeBus::refusing_writes());
    assert_eq!(sensor.reset_device(), Err(BusError::Nack));
    sensor.set_bus(FakeBus::new(vec![]));
    assert_eq!(sensor.reset_device(), Ok(()));
    assert_eq!(sensor.free().seen, vec![Seen::Write(0x69, vec![0xD3, 0x04])]);
}
