//! An emulator of the drive: the other end of the bus.
//!
//! The emulator scans the unit addresses, one a second from the highest down,
//! until one answers. From then on it takes turns between broadcasting the
//! door's status and polling the bridge for a command. The door itself is
//! modelled elsewhere: the emulator is handed the door's status when it
//! broadcasts, and hands back the action it reads from a poll response.

use vstd::prelude::*;
use crate::codec::{
    finish_frame, high_byte, lemma_read_write_frame_decodes, lemma_response_frame_decodes,
    lemma_write_frame_decodes, low_byte, make_word, read_write_body, read_write_frame,
    regs_to_bytes, word_at, word_of, write_body, write_frame,
};
use crate::crc::{crc_matches, crc_ok};
use crate::protocol::{
    calls_for_response, dispatch_result, elapsed_ms, engine_after, engine_after_write,
    poll_registers, pressing_registers, released_registers, response_to, shared_after,
    written_regs, DispatchError, EngineState,
};
use crate::registers::{
    lemma_drive_state_round_trip, DriveAction, DriveState, ADDRESS_BROADCAST, ADDRESS_HCP,
    ADDR_POLL, ADDR_STATUS_UPDATE, ADDR_SYNC_COUNTER, FUNC_READ_WRITE_MULTIPLE_REGISTERS,
    FUNC_WRITE_MULTIPLE_REGISTERS,
};
use crate::shared::{
    SharedData, CMD_CLOSE, CMD_HALF_OPEN, CMD_OPEN, CMD_STOP, CMD_TOGGLE_LIGHT, CMD_VENT,
};

verus! {

/// Time between two scan requests, in milliseconds.
pub const SCAN_PERIOD_MS: u32 = 1000;

/// Time between the status broadcast and the poll that follows it, in
/// milliseconds.
pub const POLL_PERIOD_MS: u32 = 100;

/// Unit address the scan starts at; it steps down from there.
pub const SCAN_START_ADDRESS: u8 = 0xFF;

/// Length of the longest request the emulator sends: the status broadcast.
pub const MAX_REQUEST_LEN: usize = 27;

/// Most registers a request can carry: their byte count has to fit a byte.
pub const MAX_REQUEST_REGS: usize = 127;

#[derive(Debug, PartialEq, Eq, Clone, Copy, Structural)]
pub enum DriveFsmState {
    Scan,
    Broadcast,
    Poll,
}

/// What the emulator broadcasts about the door.
#[derive(Debug, Clone, Copy)]
pub struct DoorStatus {
    /// Where the door is heading, 0 (closed) to 200 (open).
    pub target_position: u8,
    /// Where the door is, 0 (closed) to 200 (open).
    pub current_position: u8,
    pub state: DriveState,
    pub light_on: bool,
}

pub struct DriveFsm {
    pub state: DriveFsmState,
    pub last_poll_ms: u32,
    pub sync_counter: u8,
    pub command_code: u8,
    /// Unit address that the next scan request goes to. Every scan request
    /// moves it one address down.
    pub scan_address: u8,
}

/// The nine registers of a status broadcast: target and current position in
/// register 1, the state byte in the high half of register 2, the light flag
/// in register 6.
pub open spec fn status_registers(door: DoorStatus) -> Seq<u16> {
    seq![
        0u16,
        word_of(door.target_position, door.current_position),
        word_of(door.state.wire_byte(), 0),
        0u16,
        0u16,
        0u16,
        if door.light_on {
            0x0010u16
        } else {
            0u16
        },
        0u16,
        0u16,
    ]
}

/// The address that is scanned after `address`: the one below it, and the
/// highest after the lowest.
pub open spec fn next_scan_address(address: u8) -> u8 {
    if address == 0 {
        255
    } else {
        (address - 1) as u8
    }
}

/// The sync counter after one more poll.
pub open spec fn next_counter(counter: u8) -> u8 {
    if counter == 255 {
        0
    } else {
        (counter + 1) as u8
    }
}

/// Whether the emulator sends a request when polled at time `now`.
pub open spec fn sends(fsm: DriveFsm, now: u32) -> bool {
    match fsm.state {
        DriveFsmState::Scan => elapsed_ms(now, fsm.last_poll_ms) >= SCAN_PERIOD_MS,
        DriveFsmState::Broadcast => true,
        DriveFsmState::Poll => elapsed_ms(now, fsm.last_poll_ms) >= POLL_PERIOD_MS,
    }
}

/// The request the emulator sends when polled at time `now`; empty where it
/// sends none.
pub open spec fn request(fsm: DriveFsm, door: DoorStatus, now: u32) -> Seq<u8> {
    if !sends(fsm, now) {
        Seq::empty()
    } else {
        match fsm.state {
            DriveFsmState::Scan => read_write_frame(
                fsm.scan_address,
                ADDR_POLL,
                5,
                ADDR_SYNC_COUNTER,
                seq![0u16, 0u16, 0u16],
            ),
            DriveFsmState::Broadcast => write_frame(
                ADDRESS_BROADCAST,
                ADDR_STATUS_UPDATE,
                status_registers(door),
            ),
            DriveFsmState::Poll => read_write_frame(
                ADDRESS_HCP,
                ADDR_POLL,
                8,
                ADDR_SYNC_COUNTER,
                seq![word_of(next_counter(fsm.sync_counter), fsm.command_code)],
            ),
        }
    }
}

/// The emulator after it was polled at time `now`.
pub open spec fn after_poll(fsm: DriveFsm, now: u32) -> DriveFsm {
    if !sends(fsm, now) {
        fsm
    } else {
        match fsm.state {
            DriveFsmState::Scan => DriveFsm {
                last_poll_ms: now,
                scan_address: next_scan_address(fsm.scan_address),
                ..fsm
            },
            DriveFsmState::Broadcast => DriveFsm {
                last_poll_ms: now,
                state: DriveFsmState::Poll,
                ..fsm
            },
            DriveFsmState::Poll => DriveFsm {
                last_poll_ms: now,
                sync_counter: next_counter(fsm.sync_counter),
                ..fsm
            },
        }
    }
}

/// No request is longer than `MAX_REQUEST_LEN`: a scan takes 19 bytes, a
/// status broadcast 27, a poll 15.
pub proof fn lemma_request_fits(fsm: DriveFsm, door: DoorStatus, now: u32)
    ensures
        request(fsm, door, now).len() <= MAX_REQUEST_LEN,
        sends(fsm, now) ==> request(fsm, door, now).len() == match fsm.state {
            DriveFsmState::Scan => 19nat,
            DriveFsmState::Broadcast => 27nat,
            DriveFsmState::Poll => 15nat,
        },
        !sends(fsm, now) ==> request(fsm, door, now).len() == 0,
{
}

/// Whether a frame is a response as the bridge sends it: function code
/// `0x17`, as long as the bytes it declares, and closed by a valid CRC.
pub open spec fn response_well_formed(frame: Seq<u8>) -> bool {
    &&& frame.len() >= 5
    &&& frame[1] == FUNC_READ_WRITE_MULTIPLE_REGISTERS
    &&& frame.len() >= 5 + frame[2]
    &&& crc_ok(frame)
}

/// The action a pair of action registers asks for. Only the "pressing" codes
/// ask for one.
pub open spec fn action_of(r2: u16, r3: u16) -> DriveAction {
    if r2 == 0x0210 && r3 == 0x0000 {
        DriveAction::Open
    } else if r2 == 0x0220 && r3 == 0x0000 {
        DriveAction::Close
    } else if r2 == 0x0240 && r3 == 0x0000 {
        DriveAction::Stop
    } else if r2 == 0x0200 && r3 == 0x0400 {
        DriveAction::HalfOpen
    } else if r2 == 0x0200 && r3 == 0x4000 {
        DriveAction::Vent
    } else if r2 == 0x0100 && r3 == 0x0200 {
        DriveAction::ToggleLight
    } else {
        DriveAction::Idle
    }
}

/// The action that a response asks of the door: the one in its action
/// registers, where the emulator is waiting for a poll response and the frame
/// is a well-formed response of four registers or more.
pub open spec fn response_action(state: DriveFsmState, frame: Seq<u8>) -> DriveAction {
    if state == DriveFsmState::Poll && response_well_formed(frame) && frame[2] >= 8 {
        action_of(word_at(frame, 7), word_at(frame, 9))
    } else {
        DriveAction::Idle
    }
}

/// The state after a response has come in. A scan ends with the first
/// well-formed response. A poll ends with whatever comes back: a malformed
/// response passes for silence. While broadcasting, nothing is expected.
pub open spec fn state_after_response(state: DriveFsmState, frame: Seq<u8>) -> DriveFsmState {
    match state {
        DriveFsmState::Scan => if response_well_formed(frame) {
            DriveFsmState::Broadcast
        } else {
            DriveFsmState::Scan
        },
        DriveFsmState::Poll => DriveFsmState::Broadcast,
        DriveFsmState::Broadcast => DriveFsmState::Broadcast,
    }
}

/// The log line that announces a state the emulator has entered.
pub open spec fn transition_text(state: DriveFsmState) -> Seq<char> {
    match state {
        DriveFsmState::Scan => "Transition to State: Scan"@,
        DriveFsmState::Broadcast => "Transition to State: Broadcast"@,
        DriveFsmState::Poll => "Transition to State: Poll"@,
    }
}

/// The log line for a request that was sent from a state.
pub open spec fn request_text(state: DriveFsmState) -> Seq<char> {
    match state {
        DriveFsmState::Scan => "Scanning..."@,
        DriveFsmState::Broadcast => "Broadcasting status..."@,
        DriveFsmState::Poll => "Polling..."@,
    }
}

/// The log line that announces a state the emulator has entered.
pub fn transition_line(state: DriveFsmState) -> (line: &'static str)
    ensures
        line@ == transition_text(state),
{
    match state {
        DriveFsmState::Scan => "Transition to State: Scan",
        DriveFsmState::Broadcast => "Transition to State: Broadcast",
        DriveFsmState::Poll => "Transition to State: Poll",
    }
}

/// The log line for a request that was sent from `state`.
pub fn request_line(state: DriveFsmState) -> (line: &'static str)
    ensures
        line@ == request_text(state),
{
    match state {
        DriveFsmState::Scan => "Scanning...",
        DriveFsmState::Broadcast => "Broadcasting status...",
        DriveFsmState::Poll => "Polling...",
    }
}

/// Whether a request that was sent from `state` is answered: a scan and a
/// poll are, a broadcast is not.
pub fn expects_response(state: DriveFsmState) -> (expected: bool)
    ensures
        expected == (state != DriveFsmState::Broadcast),
{
    match state {
        DriveFsmState::Scan => true,
        DriveFsmState::Broadcast => false,
        DriveFsmState::Poll => true,
    }
}

impl DriveFsm {
    pub fn new() -> (fsm: Self)
        ensures
            fsm == (DriveFsm {
                state: DriveFsmState::Scan,
                last_poll_ms: 0,
                sync_counter: 0,
                command_code: 0,
                scan_address: SCAN_START_ADDRESS,
            }),
    {
        Self {
            state: DriveFsmState::Scan,
            last_poll_ms: 0,
            sync_counter: 0,
            command_code: 0,
            scan_address: SCAN_START_ADDRESS,
        }
    }

    /// Lays out the request that is due at time `now_ms`, if one is, in
    /// `out_buf` and returns its length; 0 where none is due. `out_buf` has to
    /// hold the request: `MAX_REQUEST_LEN` bytes hold any.
    pub fn poll(&mut self, door: &DoorStatus, now_ms: u32, out_buf: &mut [u8]) -> (len: usize)
        requires
            old(out_buf).len() >= request(*old(self), *door, now_ms).len(),
        ensures
            *final(self) == after_poll(*old(self), now_ms),
            len == request(*old(self), *door, now_ms).len(),
            final(out_buf)@.len() == old(out_buf)@.len(),
            final(out_buf)@.take(len as int) == request(*old(self), *door, now_ms),
            final(out_buf)@.skip(len as int) == old(out_buf)@.skip(len as int),
    {
        match self.state {
            DriveFsmState::Scan => {
                if now_ms.wrapping_sub(self.last_poll_ms) < SCAN_PERIOD_MS {
                    return 0;
                }
                self.last_poll_ms = now_ms;
                // Scan request: read 5 registers of the poll group, write 3
                // zeros to the sync counter
                let zeros: [u16; 3] = [0, 0, 0];
                let address = self.scan_address;
                self.scan_address = address.wrapping_sub(1);
                self.build_read_write_frame(
                    out_buf,
                    address,
                    ADDR_POLL,
                    5,
                    ADDR_SYNC_COUNTER,
                    3,
                    &zeros,
                )
            },
            DriveFsmState::Broadcast => {
                self.last_poll_ms = now_ms;
                self.state = DriveFsmState::Poll;

                // Reg 1: target | current
                let reg1 = make_word(door.target_position, door.current_position);
                // Reg 2: state
                let reg2 = make_word(door.state.to_byte(), 0);
                // Reg 6: light (bit 0x10)
                let reg6: u16 = if door.light_on {
                    0x0010
                } else {
                    0x0000
                };

                let regs: [u16; 9] = [0x0000, reg1, reg2, 0x0000, 0x0000, 0x0000, reg6, 0x0000, 0x0000];
                self.build_write_frame(out_buf, ADDRESS_BROADCAST, ADDR_STATUS_UPDATE, &regs)
            },
            DriveFsmState::Poll => {
                if now_ms.wrapping_sub(self.last_poll_ms) < POLL_PERIOD_MS {
                    return 0;
                }
                self.last_poll_ms = now_ms;

                self.sync_counter = self.sync_counter.wrapping_add(1);
                let sync_val = make_word(self.sync_counter, self.command_code);

                // Poll request: read 8 registers, write the sync counter
                let regs: [u16; 1] = [sync_val];
                assert(regs@ == seq![sync_val]);
                self.build_read_write_frame(
                    out_buf,
                    ADDRESS_HCP,
                    ADDR_POLL,
                    8,
                    ADDR_SYNC_COUNTER,
                    1,
                    &regs,
                )
            },
        }
    }

    /// Takes a response from the bus and returns the action it asks of the
    /// door.
    pub fn handle_response(&mut self, frame: &[u8]) -> (action: DriveAction)
        ensures
            action == response_action(old(self).state, frame@),
            *final(self) == (DriveFsm {
                state: state_after_response(old(self).state, frame@),
                ..*old(self)
            }),
    {
        let well_formed = frame.len() >= 5 && frame[1] == FUNC_READ_WRITE_MULTIPLE_REGISTERS
            && frame.len() >= 5 + frame[2] as usize && crc_matches(frame);

        match self.state {
            DriveFsmState::Scan => {
                if well_formed {
                    self.state = DriveFsmState::Broadcast;
                }
                DriveAction::Idle
            },
            DriveFsmState::Poll => {
                self.state = DriveFsmState::Broadcast;
                // Action registers are registers 2 and 3: bytes 7 to 10
                if well_formed && frame[2] >= 8 {
                    let r2 = make_word(frame[7], frame[8]);
                    let r3 = make_word(frame[9], frame[10]);
                    self.decode_action(r2, r3)
                } else {
                    DriveAction::Idle
                }
            },
            DriveFsmState::Broadcast => DriveAction::Idle,
        }
    }

    /// Reads the action out of a pair of action registers. The bridge sends
    /// "pressing" and then "released"; the door is to act on "pressing".
    pub fn decode_action(&self, r2: u16, r3: u16) -> (action: DriveAction)
        ensures
            action == action_of(r2, r3),
    {
        if r2 == 0x0210 && r3 == 0x0000 {
            DriveAction::Open
        } else if r2 == 0x0220 && r3 == 0x0000 {
            DriveAction::Close
        } else if r2 == 0x0240 && r3 == 0x0000 {
            DriveAction::Stop
        } else if r2 == 0x0200 && r3 == 0x0400 {
            DriveAction::HalfOpen
        } else if r2 == 0x0200 && r3 == 0x4000 {
            DriveAction::Vent
        } else if r2 == 0x0100 && r3 == 0x0200 {
            DriveAction::ToggleLight
        } else {
            DriveAction::Idle
        }
    }

    /// Lays out a `0x10` request in `buf` and returns its length.
    pub fn build_write_frame(&self, buf: &mut [u8], addr: u8, start: u16, regs: &[u16]) -> (len:
        usize)
        requires
            regs.len() <= MAX_REQUEST_REGS,
            old(buf).len() >= 9 + 2 * regs.len(),
        ensures
            len == 9 + 2 * regs.len(),
            final(buf)@.len() == old(buf)@.len(),
            final(buf)@.take(len as int) == write_frame(addr, start, regs@),
            final(buf)@.skip(len as int) == old(buf)@.skip(len as int),
    {
        let qty = regs.len() as u16;
        buf[0] = addr;
        buf[1] = FUNC_WRITE_MULTIPLE_REGISTERS;
        buf[2] = high_byte(start);
        buf[3] = low_byte(start);
        buf[4] = high_byte(qty);
        buf[5] = low_byte(qty);
        buf[6] = (qty * 2) as u8;
        assert(buf@.take(7) + regs_to_bytes(regs@) =~= write_body(addr, start, regs@));

        finish_frame(buf, 7, regs)
    }

    /// Lays out a `0x17` request in `buf` and returns its length.
    pub fn build_read_write_frame(
        &self,
        buf: &mut [u8],
        addr: u8,
        rd_start: u16,
        rd_qty: u16,
        wr_start: u16,
        wr_qty: u16,
        wr_regs: &[u16],
    ) -> (len: usize)
        requires
            wr_regs.len() == wr_qty,
            wr_qty <= MAX_REQUEST_REGS,
            old(buf).len() >= 13 + 2 * wr_qty,
        ensures
            len == 13 + 2 * wr_qty,
            final(buf)@.len() == old(buf)@.len(),
            final(buf)@.take(len as int) == read_write_frame(
                addr,
                rd_start,
                rd_qty,
                wr_start,
                wr_regs@,
            ),
            final(buf)@.skip(len as int) == old(buf)@.skip(len as int),
    {
        buf[0] = addr;
        buf[1] = FUNC_READ_WRITE_MULTIPLE_REGISTERS;
        buf[2] = high_byte(rd_start);
        buf[3] = low_byte(rd_start);
        buf[4] = high_byte(rd_qty);
        buf[5] = low_byte(rd_qty);
        buf[6] = high_byte(wr_start);
        buf[7] = low_byte(wr_start);
        buf[8] = high_byte(wr_qty);
        buf[9] = low_byte(wr_qty);
        buf[10] = (wr_qty * 2) as u8;
        assert(buf@.take(11) + regs_to_bytes(wr_regs@) =~= read_write_body(
            addr,
            rd_start,
            rd_qty,
            wr_start,
            wr_regs@,
        ));

        finish_frame(buf, 11, wr_regs)
    }
}

/// The action that a requested command stands for.
pub open spec fn command_action(command: u8) -> DriveAction {
    if command == CMD_OPEN {
        DriveAction::Open
    } else if command == CMD_CLOSE {
        DriveAction::Close
    } else if command == CMD_STOP {
        DriveAction::Stop
    } else if command == CMD_HALF_OPEN {
        DriveAction::HalfOpen
    } else if command == CMD_VENT {
        DriveAction::Vent
    } else if command == CMD_TOGGLE_LIGHT {
        DriveAction::ToggleLight
    } else {
        DriveAction::Idle
    }
}

/// The emulator reads the bridge's table backwards: the registers that say a
/// command is being pressed read as the action of that command, and those
/// that say it has been released read as no action.
pub proof fn lemma_action_inverts_table(command: u8)
    ensures
        action_of(pressing_registers(command).0, pressing_registers(command).1) == command_action(
            command,
        ),
        action_of(released_registers(command).0, released_registers(command).1)
            == DriveAction::Idle,
{
}

/// What the emulator broadcasts about the door is what the bridge publishes:
/// the broadcast is dispatched without a response, and positions, state and
/// light of the shared block are then those of the door.
pub proof fn lemma_broadcast_reaches_bridge(
    fsm: DriveFsm,
    door: DoorStatus,
    now: u32,
    shared: SharedData,
    capacity: int,
)
    requires
        fsm.state == DriveFsmState::Broadcast,
    ensures
        dispatch_result(request(fsm, door, now), capacity) == Ok::<usize, DispatchError>(0),
        shared_after(shared, request(fsm, door, now)) == (SharedData {
            target_position: door.target_position,
            current_position: door.current_position,
            current_state: door.state.wire_byte(),
            light_on: door.light_on,
            ..shared
        }),
{
    lemma_write_frame_decodes(ADDRESS_BROADCAST, ADDR_STATUS_UPDATE, status_registers(door));
    lemma_drive_state_round_trip(door.state);
}

/// A command that is requested of the bridge reaches the door. The poll of
/// the emulator is answered with 21 bytes, the bridge takes over the sync
/// counter of the poll, and where the command is new to the bridge, the
/// emulator reads the response as the action of that command.
pub proof fn lemma_poll_carries_command(
    fsm: DriveFsm,
    door: DoorStatus,
    sent_at: u32,
    engine: EngineState,
    command: u8,
    seen_at: u32,
    capacity: int,
)
    requires
        fsm.state == DriveFsmState::Poll,
        sends(fsm, sent_at),
        engine.last_action != command,
        capacity >= 21,
    ensures
        dispatch_result(request(fsm, door, sent_at), capacity) == Ok::<usize, DispatchError>(21),
        engine_after(engine, request(fsm, door, sent_at), command, seen_at).counter
            == next_counter(fsm.sync_counter),
        response_action(
            DriveFsmState::Poll,
            response_to(engine, request(fsm, door, sent_at), command, seen_at),
        ) == command_action(command),
{
    let sync = seq![word_of(next_counter(fsm.sync_counter), fsm.command_code)];
    let poll = request(fsm, door, sent_at);
    lemma_read_write_frame_decodes(ADDRESS_HCP, ADDR_POLL, 8, ADDR_SYNC_COUNTER, sync);
    assert(written_regs(poll) == sync);
    assert(calls_for_response(poll));

    let regs = poll_registers(engine_after_write(engine, poll), 8, command, seen_at).take(8);
    let answer = response_to(engine, poll, command, seen_at);
    lemma_response_frame_decodes(ADDRESS_HCP, regs);
    assert(word_at(answer, 3 + 2 * 2int) == regs[2]);
    assert(word_at(answer, 3 + 2 * 3int) == regs[3]);
    lemma_action_inverts_table(command);
}

} // verus!
