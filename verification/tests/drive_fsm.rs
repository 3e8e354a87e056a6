use hcp2_common::crc::{crc16, crc_matches};
use hcp2_common::drive_fsm::{
    expects_response, request_line, transition_line, DoorStatus, DriveFsm, DriveFsmState,
};
use hcp2_common::protocol::Hcp2Protocol;
use hcp2_common::registers::{DriveAction, DriveState};
use hcp2_common::shared::{
    SharedData, CMD_CLOSE, CMD_HALF_OPEN, CMD_OPEN, CMD_STOP, CMD_TOGGLE_LIGHT, CMD_VENT,
};

fn closed_door() -> DoorStatus {
    DoorStatus {
        target_position: 0,
        current_position: 0,
        state: DriveState::Closed,
        light_on: false,
    }
}

fn with_trailer(mut body: Vec<u8>) -> Vec<u8> {
    let crc = crc16(&body);
    body.push((crc & 0xFF) as u8);
    body.push((crc >> 8) as u8);
    body
}

#[test]
fn a_new_emulator_scans_for_the_bridge() {
    let fsm = DriveFsm::new();
    assert_eq!(fsm.state, DriveFsmState::Scan);
    assert_eq!(fsm.last_poll_ms, 0);
    assert_eq!(fsm.sync_counter, 0);
    assert_eq!(fsm.command_code, 0);
    assert_eq!(fsm.scan_address, 0xFF);
}

#[test]
fn the_scan_steps_down_through_the_addresses() {
    let mut fsm = DriveFsm::new();
    let mut buf = [0u8; 64];
    let mut now = 0u32;
    for expected in [0xFFu8, 0xFE, 0xFD] {
        now += 1000;
        assert_eq!(fsm.poll(&closed_door(), now, &mut buf), 19);
        assert_eq!(buf[0], expected);
        assert!(crc_matches(&buf[..19]));
    }
    assert_eq!(fsm.scan_address, 0xFC);
    // A poll that sends nothing leaves the address alone.
    assert_eq!(fsm.poll(&closed_door(), now + 1, &mut buf), 0);
    assert_eq!(fsm.scan_address, 0xFC);
    // Below the lowest address the scan starts over.
    fsm.scan_address = 0x00;
    assert_eq!(fsm.poll(&closed_door(), now + 1000, &mut buf), 19);
    assert_eq!(buf[0], 0x00);
    assert_eq!(fsm.scan_address, 0xFF);
}

#[test]
fn scan_request_every_second() {
    let mut fsm = DriveFsm::new();
    fsm.scan_address = 0x02;
    let mut buf = [0xEEu8; 64];
    assert_eq!(fsm.poll(&closed_door(), 999, &mut buf), 0);
    assert!(buf.iter().all(|b| *b == 0xEE));
    assert_eq!(fsm.last_poll_ms, 0);

    assert_eq!(fsm.poll(&closed_door(), 1000, &mut buf), 19);
    let expected = with_trailer(vec![
        0x02, 0x17, 0x9C, 0xB9, 0x00, 0x05, 0x9C, 0x41, 0x00, 0x03, 0x06, 0x00, 0x00, 0x00, 0x00,
        0x00, 0x00,
    ]);
    assert_eq!(&buf[..19], &expected[..]);
    assert!(buf[19..].iter().all(|b| *b == 0xEE));
    assert_eq!(fsm.state, DriveFsmState::Scan);
    assert_eq!(fsm.last_poll_ms, 1000);
    assert_eq!(fsm.sync_counter, 0);
    assert_eq!(fsm.scan_address, 0x01);

    assert_eq!(fsm.poll(&closed_door(), 1999, &mut buf), 0);
    assert_eq!(fsm.poll(&closed_door(), 2000, &mut buf), 19);
    assert_eq!(buf[0], 0x01);
}

#[test]
fn scan_goes_to_the_pinned_address() {
    let mut fsm = DriveFsm::new();
    fsm.scan_address = 0x7F;
    let mut buf = [0u8; 64];
    assert_eq!(fsm.poll(&closed_door(), 5000, &mut buf), 19);
    assert_eq!(buf[0], 0x7F);
    assert!(crc_matches(&buf[..19]));
}

#[test]
fn scan_period_on_a_wrapping_clock() {
    let mut fsm = DriveFsm::new();
    fsm.last_poll_ms = 0xFFFF_FF00;
    let mut buf = [0u8; 64];
    assert_eq!(fsm.poll(&closed_door(), 0xFFFF_FFFF, &mut buf), 0);
    assert_eq!(fsm.poll(&closed_door(), 742, &mut buf), 0);
    assert_eq!(fsm.poll(&closed_door(), 743, &mut buf), 0);
    assert_eq!(fsm.poll(&closed_door(), 744, &mut buf), 19);
    assert_eq!(fsm.last_poll_ms, 744);
}

#[test]
fn status_broadcast_bytes() {
    let mut fsm = DriveFsm::new();
    fsm.state = DriveFsmState::Broadcast;
    fsm.last_poll_ms = 4000;
    let door = DoorStatus {
        target_position: 200,
        current_position: 53,
        state: DriveState::Opening,
        light_on: true,
    };
    let mut buf = [0xEEu8; 64];
    // Sent at once: no period to wait for.
    assert_eq!(fsm.poll(&door, 4000, &mut buf), 27);
    let expected = with_trailer(vec![
        0x00, 0x10, 0x9D, 0x31, 0x00, 0x09, 0x12, 0x00, 0x00, 0xC8, 0x35, 0x01, 0x00, 0x00, 0x00,
        0x00, 0x00, 0x00, 0x00, 0x00, 0x10, 0x00, 0x00, 0x00, 0x00,
    ]);
    assert_eq!(&buf[..27], &expected[..]);
    assert!(buf[27..].iter().all(|b| *b == 0xEE));
    assert_eq!(fsm.state, DriveFsmState::Poll);
    assert_eq!(fsm.last_poll_ms, 4000);
}

#[test]
fn status_broadcast_is_read_back_by_the_bridge() {
    let states = [
        DriveState::Stopped,
        DriveState::Opening,
        DriveState::Closing,
        DriveState::MoveHalf,
        DriveState::MoveVenting,
        DriveState::VentReached,
        DriveState::Open,
        DriveState::Closed,
        DriveState::HalfOpenReached,
    ];
    for (i, state) in states.iter().enumerate() {
        let door = DoorStatus {
            target_position: 200 - i as u8,
            current_position: 17 * i as u8,
            state: *state,
            light_on: i % 2 == 1,
        };
        let mut fsm = DriveFsm::new();
        fsm.state = DriveFsmState::Broadcast;
        let mut frame = [0u8; 27];
        assert_eq!(fsm.poll(&door, 0, &mut frame), 27);

        let mut bridge = Hcp2Protocol::new();
        let mut shared = SharedData::default();
        let mut out = [0u8; 32];
        assert_eq!(bridge.dispatch_frame(&frame, &mut out, &mut shared, 0), Ok(0));
        assert_eq!(shared.target_position, door.target_position);
        assert_eq!(shared.current_position, door.current_position);
        assert_eq!(shared.current_state, state.to_byte());
        assert_eq!(shared.light_on, door.light_on);
    }
}

#[test]
fn poll_request_a_tenth_of_a_second_after_the_broadcast() {
    let mut fsm = DriveFsm::new();
    fsm.state = DriveFsmState::Poll;
    fsm.last_poll_ms = 4000;
    fsm.sync_counter = 0x41;
    fsm.command_code = 0x07;
    let mut buf = [0xEEu8; 64];
    assert_eq!(fsm.poll(&closed_door(), 4099, &mut buf), 0);
    assert_eq!(fsm.sync_counter, 0x41);
    assert!(buf.iter().all(|b| *b == 0xEE));

    assert_eq!(fsm.poll(&closed_door(), 4100, &mut buf), 15);
    let expected = with_trailer(vec![
        0x02, 0x17, 0x9C, 0xB9, 0x00, 0x08, 0x9C, 0x41, 0x00, 0x01, 0x02, 0x42, 0x07,
    ]);
    assert_eq!(&buf[..15], &expected[..]);
    assert_eq!(fsm.sync_counter, 0x42);
    assert_eq!(fsm.last_poll_ms, 4100);
    // It waits for the response in the same state, and asks again.
    assert_eq!(fsm.state, DriveFsmState::Poll);
    assert_eq!(fsm.poll(&closed_door(), 4200, &mut buf), 15);
    assert_eq!(buf[11], 0x43);
}

#[test]
fn sync_counter_wraps() {
    let mut fsm = DriveFsm::new();
    fsm.state = DriveFsmState::Poll;
    fsm.sync_counter = 0xFF;
    let mut buf = [0u8; 64];
    assert_eq!(fsm.poll(&closed_door(), 100, &mut buf), 15);
    assert_eq!(fsm.sync_counter, 0);
    assert_eq!(buf[11], 0x00);
}

#[test]
fn pressing_codes_are_actions_and_released_codes_are_not() {
    let fsm = DriveFsm::new();
    assert_eq!(fsm.decode_action(0x0210, 0x0000), DriveAction::Open);
    assert_eq!(fsm.decode_action(0x0220, 0x0000), DriveAction::Close);
    assert_eq!(fsm.decode_action(0x0240, 0x0000), DriveAction::Stop);
    assert_eq!(fsm.decode_action(0x0200, 0x0400), DriveAction::HalfOpen);
    assert_eq!(fsm.decode_action(0x0200, 0x4000), DriveAction::Vent);
    assert_eq!(fsm.decode_action(0x0100, 0x0200), DriveAction::ToggleLight);
    assert_eq!(fsm.decode_action(0x0000, 0x0000), DriveAction::Idle);
    for (r2, r3) in [
        (0x0110, 0x0000),
        (0x0120, 0x0000),
        (0x0140, 0x0000),
        (0x0100, 0x0400),
        (0x0100, 0x4000),
        (0x0800, 0x0200),
        (0x0210, 0x0001),
        (0x0200, 0x0000),
    ] {
        assert_eq!(fsm.decode_action(r2, r3), DriveAction::Idle);
    }
}

#[test]
fn every_command_of_the_bridge_is_read_as_its_action() {
    let cases = [
        (CMD_OPEN, DriveAction::Open),
        (CMD_CLOSE, DriveAction::Close),
        (CMD_STOP, DriveAction::Stop),
        (CMD_HALF_OPEN, DriveAction::HalfOpen),
        (CMD_VENT, DriveAction::Vent),
        (CMD_TOGGLE_LIGHT, DriveAction::ToggleLight),
    ];
    for (command, action) in cases {
        let mut fsm = DriveFsm::new();
        fsm.state = DriveFsmState::Poll;
        let mut bridge = Hcp2Protocol::new();
        let mut shared = SharedData::default();
        shared.command_request = command;

        let mut request = [0u8; 32];
        let len = fsm.poll(&closed_door(), 100, &mut request);
        let mut response = [0u8; 32];
        let n = bridge.dispatch_frame(&request[..len], &mut response, &mut shared, 100).unwrap();
        assert_eq!(n, 21);
        assert_eq!(fsm.handle_response(&response[..n]), action);
        assert_eq!(fsm.state, DriveFsmState::Broadcast);
        // The sync counter of the poll comes back in the response.
        assert_eq!(response[3], 1);

        // Half a second on, the command reads as released: no action.
        fsm.state = DriveFsmState::Poll;
        let len = fsm.poll(&closed_door(), 600, &mut request);
        let n = bridge.dispatch_frame(&request[..len], &mut response, &mut shared, 600).unwrap();
        assert_eq!(fsm.handle_response(&response[..n]), DriveAction::Idle);
        assert_eq!(fsm.state, DriveFsmState::Broadcast);
    }
}

#[test]
fn a_scan_ends_with_a_well_formed_response() {
    let good = with_trailer(vec![
        0x02, 0x17, 0x0A, 0x00, 0x00, 0x00, 0x05, 0x04, 0x30, 0x10, 0xFF, 0xA8, 0x45,
    ]);
    let mut fsm = DriveFsm::new();
    assert_eq!(fsm.handle_response(&good), DriveAction::Idle);
    assert_eq!(fsm.state, DriveFsmState::Broadcast);

    // A damaged trailer, a wrong function code, a cut frame: the scan goes on.
    let mut bad_crc = good.clone();
    bad_crc[14] ^= 0x80;
    let wrong_function = with_trailer(vec![0x02, 0x10, 0x02, 0x00, 0x00]);
    let cut = with_trailer(vec![0x02, 0x17, 0x0A, 0x00, 0x00]);
    for frame in [&bad_crc[..], &wrong_function[..], &cut[..], &good[..4], &[][..]] {
        let mut fsm = DriveFsm::new();
        assert_eq!(fsm.handle_response(frame), DriveAction::Idle);
        assert_eq!(fsm.state, DriveFsmState::Scan);
    }
}

#[test]
fn a_poll_ends_with_whatever_comes_back() {
    let pressing = with_trailer(vec![
        0x02, 0x17, 0x10, 0x01, 0x00, 0x00, 0x01, 0x02, 0x10, 0x00, 0x00, 0, 0, 0, 0, 0, 0, 0, 0,
    ]);
    let mut fsm = DriveFsm::new();
    fsm.state = DriveFsmState::Poll;
    fsm.sync_counter = 9;
    fsm.last_poll_ms = 1234;
    assert_eq!(fsm.handle_response(&pressing), DriveAction::Open);
    assert_eq!(fsm.state, DriveFsmState::Broadcast);
    assert_eq!(fsm.sync_counter, 9);
    assert_eq!(fsm.last_poll_ms, 1234);

    // Malformed responses pass for silence: no action, on to the broadcast.
    let mut bad_crc = pressing.clone();
    bad_crc[8] = 0x20;
    let wrong_function = with_trailer(vec![
        0x02, 0x10, 0x10, 0x01, 0x00, 0x00, 0x01, 0x02, 0x10, 0x00, 0x00, 0, 0, 0, 0, 0, 0, 0, 0,
    ]);
    for frame in [&bad_crc[..], &wrong_function[..], &pressing[..10], &[][..]] {
        let mut fsm = DriveFsm::new();
        fsm.state = DriveFsmState::Poll;
        assert_eq!(fsm.handle_response(frame), DriveAction::Idle);
        assert_eq!(fsm.state, DriveFsmState::Broadcast);
    }

    // A well-formed response of fewer than four registers holds no action.
    let short = with_trailer(vec![0x02, 0x17, 0x04, 0x02, 0x10, 0x00, 0x00]);
    let mut fsm = DriveFsm::new();
    fsm.state = DriveFsmState::Poll;
    assert_eq!(fsm.handle_response(&short), DriveAction::Idle);
    assert_eq!(fsm.state, DriveFsmState::Broadcast);
}

#[test]
fn nothing_is_expected_while_broadcasting() {
    let pressing = with_trailer(vec![
        0x02, 0x17, 0x10, 0x01, 0x00, 0x00, 0x01, 0x02, 0x10, 0x00, 0x00, 0, 0, 0, 0, 0, 0, 0, 0,
    ]);
    let mut fsm = DriveFsm::new();
    fsm.state = DriveFsmState::Broadcast;
    assert_eq!(fsm.handle_response(&pressing), DriveAction::Idle);
    assert_eq!(fsm.state, DriveFsmState::Broadcast);
}

#[test]
fn builders_fill_exactly_their_frame() {
    let fsm = DriveFsm::new();
    let mut buf = [0xEEu8; 16];
    assert_eq!(fsm.build_write_frame(&mut buf, 0x02, 0x9C41, &[0x1234]), 11);
    assert_eq!(&buf[..9], &[0x02, 0x10, 0x9C, 0x41, 0x00, 0x01, 0x02, 0x12, 0x34]);
    assert!(crc_matches(&buf[..11]));
    assert!(buf[11..].iter().all(|b| *b == 0xEE));

    let mut buf = [0xEEu8; 9];
    assert_eq!(fsm.build_write_frame(&mut buf, 0x00, 0x0000, &[]), 9);
    assert_eq!(&buf[..7], &[0x00, 0x10, 0x00, 0x00, 0x00, 0x00, 0x00]);
    assert!(crc_matches(&buf));

    let regs = [0xFFFFu16; 127];
    let mut buf = [0u8; 13 + 254];
    assert_eq!(fsm.build_read_write_frame(&mut buf, 0x02, 0x9CB9, 8, 0x9C41, 127, &regs), 267);
    assert_eq!(buf[8], 0x00);
    assert_eq!(buf[9], 0x7F);
    assert_eq!(buf[10], 0xFE);
    assert!(crc_matches(&buf));
}

#[test]
fn log_lines_of_the_bench() {
    assert_eq!(transition_line(DriveFsmState::Scan), "Transition to State: Scan");
    assert_eq!(transition_line(DriveFsmState::Broadcast), "Transition to State: Broadcast");
    assert_eq!(transition_line(DriveFsmState::Poll), "Transition to State: Poll");
    assert_eq!(request_line(DriveFsmState::Scan), "Scanning...");
    assert_eq!(request_line(DriveFsmState::Broadcast), "Broadcasting status...");
    assert_eq!(request_line(DriveFsmState::Poll), "Polling...");
    assert!(expects_response(DriveFsmState::Scan));
    assert!(!expects_response(DriveFsmState::Broadcast));
    assert!(expects_response(DriveFsmState::Poll));
}
