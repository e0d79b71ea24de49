use carbon_sensor::transport::{Session, Transport};

#[derive(Clone, Debug, PartialEq)]
enum Seen {
    Write(u8, Vec<u8>),
    Read(u8, usize),
}

struct Echo {
    seen: Vec<Seen>,
    answer: Option<u8>,
    acknowledge: bool,
}

impl Echo {
    fn answering(byte: u8) -> Self {
        Echo { seen: Vec::new(), answer: Some(byte), acknowledge: true }
    }

    fn silent() -> Self {
        Echo { seen: Vec::new(), answer: None, acknowledge: true }
    }

    fn absent() -> Self {
        Echo { seen: Vec::new(), answer: None, acknowledge: false }
    }
}

impl Transport for Echo {
    type Error = &'static str;

    fn write(&mut self, address: u8, bytes: &[u8]) -> Result<(), &'static str> {
        self.seen.push(Seen::Write(address, bytes.to_vec()));
        if self.acknowledge {
            Ok(())
        } else {
            Err("no acknowledge")
        }
    }

    fn read(&mut self, address: u8, buffer: &mut [u8]) -> Result<(), &'static str> {
        self.seen.push(Seen::Read(address, buffer.len()));
        match self.answer {
            Some(byte) => {
                for slot in buffer.iter_mut() {
                    *slot = byte;
                }
                Ok(())
            }
            None => Err("no answer"),
        }
    }
}

#[test]
fn a_session_hands_its_bus_back_untouched() {
    let session = Session::open(Echo::answering(7));
    let bus = session.close();
    assert!(bus.seen.is_empty());
}

#[test]
fn write_passes_address_and_bytes_on() {
    let mut session = Session::open(Echo::silent());
    assert_eq!(session.write(0x42, &[1, 2, 3]), Ok(()));
    assert_eq!(session.write(0x43, &[]), Ok(()));
    assert_eq!(
        session.close().seen,
        vec![Seen::Write(0x42, vec![1, 2, 3]), Seen::Write(0x43, vec![])]
    );
}

#[test]
fn write_reports_what_the_bus_reports() {
    let mut session = Session::open(Echo::absent());
    assert_eq!(session.write(0x42, &[1]), Err("no acknowledge"));
    assert_eq!(session.close().seen.len(), 1);
}

#[test]
fn read_fills_the_buffer_from_the_bus() {
    let mut session = Session::open(Echo::answering(0x5A));
    let mut buffer = [0u8; 4];
    assert_eq!(session.read(0x42, &mut buffer), Ok(()));
    assert_eq!(buffer, [0x5A; 4]);
    assert_eq!(session.close().seen, vec![Seen::Read(0x42, 4)]);
}

#[test]
fn read_reports_what_the_bus_reports() {
    let mut session = Session::open(Echo::silent());
    let mut buffer = [0u8; 4];
    assert_eq!(session.read(0x42, &mut buffer), Err("no answer"));
    assert_eq!(buffer, [0u8; 4]);
}

#[test]
fn query_writes_then_reads() {
    let mut session = Session::open(Echo::answering(9));
    let mut buffer = [0u8; 3];
    assert_eq!(session.query(0x61, &[0xD1, 0x00], &mut buffer), Ok(()));
    assert_eq!(buffer, [9, 9, 9]);
    assert_eq!(
        session.close().seen,
        vec![Seen::Write(0x61, vec![0xD1, 0x00]), Seen::Read(0x61, 3)]
    );
}

#[test]
fn query_does_not_read_after_a_refused_frame() {
    let mut session = Session::open(Echo::absent());
    let mut buffer = [0u8; 3];
    assert_eq!(session.query(0x61, &[0xD1, 0x00], &mut buffer), Err("no acknowledge"));
    assert_eq!(buffer, [0, 0, 0]);
    assert_eq!(session.close().seen, vec![Seen::Write(0x61, vec![0xD1, 0x00])]);
}

#[test]
fn query_reports_a_failed_read() {
    let mut session = Session::open(Echo::silent());
    let mut buffer = [0u8; 3];
    assert_eq!(session.query(0x61, &[0xD1, 0x00], &mut buffer), Err("no answer"));
    assert_eq!(session.close().seen.len(), 2);
}

#[test]
fn a_session_goes_on_with_another_bus() {
    let mut session = Session::open(Echo::absent());
    assert_eq!(session.write(0x42, &[1]), Err("no acknowledge"));
    session.replace_bus(Echo::silent());
    assert_eq!(session.write(0x42, &[2]), Ok(()));
    assert_eq!(session.close().seen, vec![Seen::Write(0x42, vec![2])]);
}
