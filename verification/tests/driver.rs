use hcp2_common::crc::crc16;
use hcp2_common::drive_fsm::DriveFsm;
use hcp2_common::driver::{log_line, Hcp2Driver, PollAction};
use hcp2_common::hal::HcpHal;
use hcp2_common::protocol::DispatchError;
use hcp2_common::registers::{ADDRESS_BROADCAST, ADDRESS_HCP, ADDR_POLL, ADDR_STATUS_UPDATE, ADDR_SYNC_COUNTER};
use hcp2_common::shared::{SharedData, CMD_OPEN, OWNER_FREE, OWNER_HP, OWNER_LP};

#[derive(Debug, PartialEq, Clone)]
enum Event {
    TxEnable(bool),
    Write(Vec<u8>),
    Sleep(u32),
    Log(String),
}

struct BenchHal {
    line: Vec<u8>,
    now: u32,
    events: Vec<Event>,
    /// Length of the buffer each `uart_read` was handed.
    offered: Vec<usize>,
}

impl BenchHal {
    fn new() -> Self {
        BenchHal { line: Vec::new(), now: 0, events: Vec::new(), offered: Vec::new() }
    }
}

impl HcpHal for BenchHal {
    fn uart_read(&mut self, buf: &mut [u8]) -> usize {
        self.offered.push(buf.len());
        let len = std::cmp::min(buf.len(), self.line.len());
        for i in 0..len {
            buf[i] = self.line.remove(0);
        }
        len
    }

    fn uart_write(&mut self, buf: &[u8]) -> usize {
        self.events.push(Event::Write(buf.to_vec()));
        buf.len()
    }

    fn set_tx_enable(&mut self, enable: bool) {
        self.events.push(Event::TxEnable(enable));
    }

    fn now_ms(&self) -> u32 {
        self.now
    }

    fn sleep_ms(&mut self, ms: u32) {
        self.events.push(Event::Sleep(ms));
    }

    fn log(&mut self, message: &str) {
        self.events.push(Event::Log(message.to_string()));
    }
}

fn scan_request() -> Vec<u8> {
    vec![
        0x02, 0x17, 0x9C, 0xB9, 0x00, 0x05, 0x9C, 0x41, 0x00, 0x03, 0x06, 0x00, 0x02, 0x00, 0x00,
        0x01, 0x02, 0xF8, 0x35,
    ]
}

fn scan_response() -> Vec<u8> {
    let mut body = vec![0x02, 0x17, 0x0A, 0x00, 0x00, 0x02, 0x05, 0x04, 0x30, 0x10, 0xFF, 0xA8, 0x45];
    let crc = crc16(&body);
    body.push((crc & 0xFF) as u8);
    body.push((crc >> 8) as u8);
    body
}

fn status_broadcast() -> Vec<u8> {
    let regs = [0x0000, 0x1635, 0x0100, 0x0000, 0x0000, 0x0000, 0x0010, 0x0000, 0x0000];
    let mut buf = [0u8; 64];
    let len = DriveFsm::new().build_write_frame(&mut buf, ADDRESS_BROADCAST, ADDR_STATUS_UPDATE, &regs);
    buf[..len].to_vec()
}

#[test]
fn a_frame_is_answered_after_the_silence() {
    let mut driver = Hcp2Driver::new();
    let mut shared = SharedData::default();
    let mut hal = BenchHal::new();

    hal.now = 1000;
    hal.line = scan_request();
    driver.poll(&mut hal, &mut shared);
    assert_eq!(driver.pending_len(), 19);
    assert!(hal.events.is_empty());

    // 10 ms of silence are not more than 10 ms.
    hal.now = 1010;
    driver.poll(&mut hal, &mut shared);
    assert_eq!(driver.pending_len(), 19);
    assert!(!driver.frame_complete(1010));
    assert!(driver.frame_complete(1011));
    assert!(hal.events.is_empty());

    hal.now = 1011;
    driver.poll(&mut hal, &mut shared);
    assert_eq!(driver.pending_len(), 0);
    assert_eq!(
        hal.events,
        vec![
            Event::TxEnable(true),
            Event::Write(scan_response()),
            Event::Sleep(2),
            Event::TxEnable(false),
        ]
    );
    assert_eq!(shared.owner_flag, OWNER_FREE);

    // Nothing new on the line: nothing is sent again.
    hal.now = 1100;
    driver.poll(&mut hal, &mut shared);
    assert_eq!(hal.events.len(), 4);
    assert_eq!(driver.pending_len(), 0);
}

#[test]
fn bytes_that_trickle_in_are_one_frame() {
    let mut driver = Hcp2Driver::new();
    let mut shared = SharedData::default();
    let mut hal = BenchHal::new();
    let request = scan_request();
    for (i, byte) in request.iter().enumerate() {
        hal.now = 500 + 10 * i as u32;
        hal.line.push(*byte);
        driver.poll(&mut hal, &mut shared);
        assert_eq!(driver.pending_len(), i + 1);
    }
    assert!(hal.events.is_empty());
    hal.now += 11;
    driver.poll(&mut hal, &mut shared);
    assert_eq!(hal.events[1], Event::Write(scan_response()));
    assert_eq!(driver.pending_len(), 0);
}

#[test]
fn uart_read_is_offered_the_free_part_of_the_buffer() {
    let mut driver = Hcp2Driver::new();
    let mut shared = SharedData::default();
    let mut hal = BenchHal::new();
    hal.line = vec![0x02; 5];
    driver.poll(&mut hal, &mut shared);
    hal.line = vec![0x02; 3];
    driver.poll(&mut hal, &mut shared);
    driver.poll(&mut hal, &mut shared);
    assert_eq!(hal.offered, vec![128, 123, 120]);
    assert_eq!(driver.pending_len(), 8);
}

#[test]
fn a_full_buffer_takes_no_more() {
    let mut driver = Hcp2Driver::new();
    let mut shared = SharedData::default();
    let mut hal = BenchHal::new();
    hal.line = vec![0x02; 200];
    driver.poll(&mut hal, &mut shared);
    assert_eq!(driver.pending_len(), 128);
    assert_eq!(hal.line.len(), 72);
    hal.now = 5;
    driver.poll(&mut hal, &mut shared);
    assert_eq!(hal.offered, vec![128, 0]);
    assert_eq!(driver.pending_len(), 128);
    // The silence runs from the last byte that was taken.
    hal.now = 11;
    driver.poll(&mut hal, &mut shared);
    assert_eq!(driver.pending_len(), 0);
    // 128 bytes of 0x02: a known address, and a function code that is not.
    assert_eq!(hal.events, vec![Event::Log("Debug: Invalid Function Code".to_string())]);
    // What was left on the line starts the next frame.
    driver.poll(&mut hal, &mut shared);
    assert_eq!(driver.pending_len(), 72);
}

#[test]
fn invalid_address_is_dropped_and_the_buffer_starts_over() {
    let mut driver = Hcp2Driver::new();
    let mut shared = SharedData::default();
    shared.command_request = CMD_OPEN;
    let mut hal = BenchHal::new();
    hal.line = vec![0x99, 0x10, 0x00, 0x00, 0x12, 0x34];
    driver.poll(&mut hal, &mut shared);
    hal.now = 15;
    driver.poll(&mut hal, &mut shared);
    assert_eq!(
        hal.events,
        vec![Event::Log("Debug: Discarding message - Invalid Address".to_string())]
    );
    assert_eq!(driver.pending_len(), 0);
    assert_eq!(shared.owner_flag, 0);
    assert_eq!(shared.command_request, CMD_OPEN);
    assert_eq!(shared.target_position, 0);
    assert_eq!(shared.current_state, 0);
    assert_eq!(shared.current_position, 0);
    assert!(!shared.light_on);
    assert_eq!(shared.last_update_ts, 0);
    assert_eq!(shared.error_code, 0);
}

#[test]
fn every_error_is_logged_with_its_line() {
    let cases: Vec<(Vec<u8>, &str)> = vec![
        (vec![0x02, 0x10, 0x00], "Error: Frame Too Short"),
        (vec![0x99, 0x10, 0x00, 0x00], "Debug: Discarding message - Invalid Address"),
        (vec![0x02, 0x88, 0x00, 0x00], "Debug: Invalid Function Code"),
        (vec![0x02, 0x10, 0x00, 0x00], "Error: CRC Mismatch"),
        ({
            let mut f = vec![0x02, 0x10, 0x9D, 0x31, 0x00, 0x01];
            let crc = crc16(&f);
            f.push((crc & 0xFF) as u8);
            f.push((crc >> 8) as u8);
            f
        }, "Error: Frame Parsing Failed"),
    ];
    for (frame, line) in cases {
        let mut driver = Hcp2Driver::new();
        let mut shared = SharedData::default();
        let mut hal = BenchHal::new();
        hal.line = frame;
        driver.poll(&mut hal, &mut shared);
        hal.now = 11;
        driver.poll(&mut hal, &mut shared);
        assert_eq!(hal.events, vec![Event::Log(line.to_string())]);
        assert_eq!(driver.pending_len(), 0);
        assert_eq!(shared.owner_flag, OWNER_FREE);
    }
}

#[test]
fn log_lines() {
    assert_eq!(log_line(DispatchError::CrcMismatch), "Error: CRC Mismatch");
    assert_eq!(log_line(DispatchError::InvalidAddress), "Debug: Discarding message - Invalid Address");
    assert_eq!(log_line(DispatchError::FrameTooShort), "Error: Frame Too Short");
    assert_eq!(log_line(DispatchError::InvalidFunction), "Debug: Invalid Function Code");
    assert_eq!(log_line(DispatchError::ParsingError), "Error: Frame Parsing Failed");
}

#[test]
fn while_the_other_core_writes_the_frame_is_dropped_unseen() {
    let mut driver = Hcp2Driver::new();
    let mut shared = SharedData::default();
    shared.owner_flag = OWNER_HP;
    let mut hal = BenchHal::new();
    hal.line = status_broadcast();
    driver.poll(&mut hal, &mut shared);
    hal.now = 20;
    driver.poll(&mut hal, &mut shared);
    assert!(hal.events.is_empty());
    assert_eq!(driver.pending_len(), 0);
    assert_eq!(shared.owner_flag, OWNER_HP);
    assert_eq!(shared.target_position, 0);
    assert_eq!(shared.current_position, 0);

    // The same frame once the flag is free.
    shared.owner_flag = OWNER_FREE;
    hal.line = status_broadcast();
    hal.now = 30;
    driver.poll(&mut hal, &mut shared);
    hal.now = 50;
    driver.poll(&mut hal, &mut shared);
    assert!(hal.events.is_empty());
    assert_eq!(shared.owner_flag, OWNER_FREE);
    assert_eq!(shared.target_position, 0x16);
    assert_eq!(shared.current_position, 0x35);
    assert_eq!(shared.current_state, 0x01);
    assert!(shared.light_on);
}

#[test]
fn the_owner_flag_is_free_after_a_dispatch() {
    let mut driver = Hcp2Driver::new();
    let mut shared = SharedData::default();
    shared.owner_flag = OWNER_LP;
    let mut hal = BenchHal::new();
    hal.line = status_broadcast();
    driver.poll(&mut hal, &mut shared);
    assert_eq!(shared.owner_flag, OWNER_LP);
    hal.now = 11;
    driver.poll(&mut hal, &mut shared);
    assert_eq!(shared.owner_flag, OWNER_FREE);
    assert_eq!(shared.target_position, 0x16);
}

#[test]
fn the_silence_is_measured_on_a_wrapping_clock() {
    let mut driver = Hcp2Driver::new();
    let mut shared = SharedData::default();
    let mut hal = BenchHal::new();
    hal.now = 0xFFFF_FFFA;
    hal.line = scan_request();
    driver.poll(&mut hal, &mut shared);
    hal.now = 4;
    driver.poll(&mut hal, &mut shared);
    assert_eq!(driver.pending_len(), 19);
    hal.now = 5;
    driver.poll(&mut hal, &mut shared);
    assert_eq!(driver.pending_len(), 0);
    assert_eq!(hal.events[1], Event::Write(scan_response()));
}

#[test]
fn the_command_is_answered_with_the_time_of_the_poll() {
    let mut driver = Hcp2Driver::new();
    let mut shared = SharedData::default();
    shared.command_request = CMD_OPEN;
    let mut hal = BenchHal::new();
    let mut request = [0u8; 32];
    let len = DriveFsm::new().build_read_write_frame(
        &mut request,
        ADDRESS_HCP,
        ADDR_POLL,
        8,
        ADDR_SYNC_COUNTER,
        1,
        &[0x0100],
    );
    let mut action_at = |now: u32| -> u8 {
        hal.events.clear();
        hal.now = now;
        hal.line = request[..len].to_vec();
        driver.poll(&mut hal, &mut shared);
        hal.now = now + 11;
        driver.poll(&mut hal, &mut shared);
        match &hal.events[1] {
            Event::Write(bytes) => {
                assert_eq!(bytes.len(), 21);
                bytes[7]
            },
            _ => panic!("no response"),
        }
    };
    // Latched at 1011; pressing is answered as 0x02.., released as 0x01...
    assert_eq!(action_at(1000), 0x02);
    assert_eq!(action_at(1499), 0x02);
    assert_eq!(action_at(1500), 0x01);
}

#[test]
fn process_says_what_is_left_to_do() {
    let mut driver = Hcp2Driver::new();
    let mut shared = SharedData::default();
    let mut hal = BenchHal::new();

    // Nothing pending: nothing to do, whatever the time.
    assert_eq!(driver.process(&mut shared, 0), PollAction::Idle);
    assert_eq!(driver.process(&mut shared, 0xFFFF_FFFF), PollAction::Idle);

    hal.now = 1000;
    hal.line = scan_request();
    driver.poll(&mut hal, &mut shared);

    // Not yet due: the bytes stay.
    assert_eq!(driver.process(&mut shared, 1010), PollAction::Idle);
    assert_eq!(driver.pending_len(), 19);

    assert_eq!(driver.process(&mut shared, 1011), PollAction::Respond(15));
    assert_eq!(driver.response(15), &scan_response()[..]);
    assert_eq!(driver.pending_len(), 0);
    assert_eq!(shared.owner_flag, OWNER_FREE);
    // The frame is gone: nothing is left to do a second time.
    assert_eq!(driver.process(&mut shared, 1100), PollAction::Idle);
    assert!(hal.events.is_empty());
}

#[test]
fn process_reports_a_refused_frame() {
    let mut driver = Hcp2Driver::new();
    let mut shared = SharedData::default();
    let mut hal = BenchHal::new();
    hal.line = vec![0x99, 0x10, 0x00, 0x00];
    driver.poll(&mut hal, &mut shared);
    assert_eq!(
        driver.process(&mut shared, 11),
        PollAction::Report(DispatchError::InvalidAddress)
    );
    assert_eq!(driver.pending_len(), 0);

    hal.line = status_broadcast();
    hal.now = 100;
    driver.poll(&mut hal, &mut shared);
    shared.owner_flag = OWNER_HP;
    assert_eq!(driver.process(&mut shared, 111), PollAction::Idle);
    assert_eq!(driver.pending_len(), 0);
    assert_eq!(shared.owner_flag, OWNER_HP);
    assert_eq!(shared.target_position, 0);
}

#[test]
fn a_new_driver_is_empty() {
    let driver = Hcp2Driver::new();
    assert_eq!(driver.pending_len(), 0);
    assert!(!driver.frame_complete(0));
    assert!(!driver.frame_complete(0xFFFF_FFFF));
    assert_eq!(driver.response(128), &[0u8; 128][..]);
}
