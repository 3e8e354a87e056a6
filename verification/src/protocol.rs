//! The protocol engine.
//!
//! The engine takes one frame at a time. It checks address, function code and
//! CRC, decodes the request, applies what the request writes, and answers a
//! poll that is addressed to it. It remembers the sync counter and command
//! code the drive last wrote, and since when the command now requested has
//! been held: a command is answered as "pressing" for 500 ms and as
//! "released" from then on.

use vstd::prelude::*;
use crate::codec::{
    decode_read_write, decode_write, finish_frame, hi_byte, high_byte, lo_byte, low_byte,
    make_word, materialized, read_write_payload_fits, regs_to_bytes, response_body,
    response_frame, seen_count, word_at, word_of, write_payload_fits, RESPONSE_OVERHEAD,
};
use crate::crc::{crc_matches, crc_ok};
use crate::registers::{
    DriveState, ADDRESS_BROADCAST, ADDRESS_HCP, ADDR_POLL, ADDR_STATUS_UPDATE, ADDR_SYNC_COUNTER,
    FUNC_READ_WRITE_MULTIPLE_REGISTERS, FUNC_WRITE_MULTIPLE_REGISTERS,
};
use crate::shared::{
    SharedData, CMD_CLOSE, CMD_HALF_OPEN, CMD_NONE, CMD_OPEN, CMD_STOP, CMD_TOGGLE_LIGHT, CMD_VENT,
};

verus! {

/// How long a command is answered as "pressing", in milliseconds.
pub const PRESS_MS: u32 = 500;

/// The register groups the engine knows, by their first register.
#[derive(Debug, PartialEq, Eq, Structural)]
pub enum RegisterType {
    StatusUpdate,
    SyncCounter,
    Poll,
    Unknown,
}

/// Why a frame was not dispatched.
#[derive(Debug, PartialEq, Eq, Clone, Copy, Structural)]
pub enum DispatchError {
    FrameTooShort,
    InvalidAddress,
    InvalidFunction,
    CrcMismatch,
    ParsingError,
}

/// What the engine remembers between frames.
pub struct EngineState {
    /// Sync counter the drive last wrote.
    pub counter: u8,
    /// Command code the drive last wrote.
    pub command_code: u8,
    /// Command last seen requested.
    pub last_action: u8,
    /// Clock value at which `last_action` was first seen.
    pub action_start_ts: u32,
}

impl EngineState {
    /// A fresh engine: sync counter and command code zero, no command latched.
    pub open spec fn initial() -> EngineState {
        EngineState { counter: 0, command_code: 0, last_action: CMD_NONE, action_start_ts: 0 }
    }
}

pub struct Hcp2Protocol {
    counter: u8,
    command_code: u8,
    last_action: u8,
    action_start_ts: u32,
}

impl View for Hcp2Protocol {
    type V = EngineState;

    closed spec fn view(&self) -> EngineState {
        EngineState {
            counter: self.counter,
            command_code: self.command_code,
            last_action: self.last_action,
            action_start_ts: self.action_start_ts,
        }
    }
}

/// The register group that starts at `address`.
pub open spec fn register_type(address: u16) -> RegisterType {
    if address == ADDR_STATUS_UPDATE {
        RegisterType::StatusUpdate
    } else if address == ADDR_SYNC_COUNTER {
        RegisterType::SyncCounter
    } else if address == ADDR_POLL {
        RegisterType::Poll
    } else {
        RegisterType::Unknown
    }
}

/// The light flag of a status register: its bit `0x10`.
pub open spec fn light_bit(reg: u16) -> bool {
    (reg / 16) % 2 == 1
}

/// The shared block after a status update of `regs`: with nine registers or
/// more, positions, state and light are taken from them; with fewer, nothing
/// is.
pub open spec fn status_applied(shared: SharedData, regs: Seq<u16>) -> SharedData {
    if regs.len() >= 9 {
        SharedData {
            target_position: hi_byte(regs[1]),
            current_position: lo_byte(regs[1]),
            current_state: DriveState::of_wire_byte(hi_byte(regs[2])).wire_byte(),
            light_on: light_bit(regs[6]),
            ..shared
        }
    } else {
        shared
    }
}

/// The engine after a sync-counter write of `regs`: the first register holds
/// the counter in its high and the command code in its low byte.
pub open spec fn sync_applied(engine: EngineState, regs: Seq<u16>) -> EngineState {
    if regs.len() >= 1 {
        EngineState { counter: hi_byte(regs[0]), command_code: lo_byte(regs[0]), ..engine }
    } else {
        engine
    }
}

/// Milliseconds from `since` to `now` on a clock that wraps at 2^32.
pub open spec fn elapsed_ms(now: u32, since: u32) -> int {
    if now >= since {
        now - since
    } else {
        now - since + 0x1_0000_0000
    }
}

/// The action registers that say `command` is being pressed.
pub open spec fn pressing_registers(command: u8) -> (u16, u16) {
    if command == CMD_OPEN {
        (0x0210, 0x0000)
    } else if command == CMD_CLOSE {
        (0x0220, 0x0000)
    } else if command == CMD_STOP {
        (0x0240, 0x0000)
    } else if command == CMD_HALF_OPEN {
        (0x0200, 0x0400)
    } else if command == CMD_VENT {
        (0x0200, 0x4000)
    } else if command == CMD_TOGGLE_LIGHT {
        (0x0100, 0x0200)
    } else {
        (0, 0)
    }
}

/// The action registers that say `command` has been released.
pub open spec fn released_registers(command: u8) -> (u16, u16) {
    if command == CMD_OPEN {
        (0x0110, 0x0000)
    } else if command == CMD_CLOSE {
        (0x0120, 0x0000)
    } else if command == CMD_STOP {
        (0x0140, 0x0000)
    } else if command == CMD_HALF_OPEN {
        (0x0100, 0x0400)
    } else if command == CMD_VENT {
        (0x0100, 0x4000)
    } else if command == CMD_TOGGLE_LIGHT {
        (0x0800, 0x0200)
    } else {
        (0, 0)
    }
}

/// The engine after it has looked at the requested `command` at time `now`:
/// no command clears the latch, a new command is latched with `now` as its
/// start, a command already latched leaves everything as it is.
pub open spec fn latched(engine: EngineState, command: u8, now: u32) -> EngineState {
    if command == CMD_NONE {
        EngineState { last_action: CMD_NONE, ..engine }
    } else if engine.last_action != command {
        EngineState { last_action: command, action_start_ts: now, ..engine }
    } else {
        engine
    }
}

/// The action registers for the requested `command` at time `now`.
pub open spec fn action_registers(engine: EngineState, command: u8, now: u32) -> (u16, u16) {
    if command == CMD_NONE {
        (0, 0)
    } else if elapsed_ms(now, latched(engine, command, now).action_start_ts) < PRESS_MS {
        pressing_registers(command)
    } else {
        released_registers(command)
    }
}

/// The eight registers prepared for a poll of `quantity` registers.
pub open spec fn poll_registers(engine: EngineState, quantity: u16, command: u8, now: u32) -> Seq<
    u16,
> {
    if quantity == 2 {
        seq![
            word_of(engine.counter, 0x04),
            word_of(engine.command_code, 0x00),
            0u16,
            0u16,
            0u16,
            0u16,
            0u16,
            0u16,
        ]
    } else if quantity == 5 {
        seq![
            word_of(engine.counter, 0x00),
            word_of(engine.command_code, 0x05),
            0x0430u16,
            0x10FFu16,
            0xA845u16,
            0u16,
            0u16,
            0u16,
        ]
    } else if quantity == 8 {
        seq![
            word_of(engine.counter, 0x00),
            word_of(engine.command_code, 0x01),
            action_registers(engine, command, now).0,
            action_registers(engine, command, now).1,
            0u16,
            0u16,
            0u16,
            0u16,
        ]
    } else {
        seq![0u16, 0u16, 0u16, 0u16, 0u16, 0u16, 0u16, 0u16]
    }
}

/// The engine after it has prepared a poll of `quantity` registers: only the
/// action poll looks at the requested command.
pub open spec fn polled(engine: EngineState, quantity: u16, command: u8, now: u32) -> EngineState {
    if quantity == 8 {
        latched(engine, command, now)
    } else {
        engine
    }
}

/// The first check a frame fails among length, address, function code and
/// CRC, in this order.
pub open spec fn header_error(frame: Seq<u8>) -> Option<DispatchError> {
    if frame.len() < 4 {
        Some(DispatchError::FrameTooShort)
    } else if frame[0] != ADDRESS_HCP && frame[0] != ADDRESS_BROADCAST {
        Some(DispatchError::InvalidAddress)
    } else if frame[1] != FUNC_WRITE_MULTIPLE_REGISTERS && frame[1]
        != FUNC_READ_WRITE_MULTIPLE_REGISTERS {
        Some(DispatchError::InvalidFunction)
    } else if !crc_ok(frame) {
        Some(DispatchError::CrcMismatch)
    } else {
        None
    }
}

/// Whether a frame is long enough for the payload that its header declares.
pub open spec fn payload_fits(frame: Seq<u8>) -> bool {
    if frame[1] == FUNC_WRITE_MULTIPLE_REGISTERS {
        write_payload_fits(frame)
    } else {
        read_write_payload_fits(frame)
    }
}

/// Whether a frame passes every check on its header and its lengths.
pub open spec fn well_formed(frame: Seq<u8>) -> bool {
    header_error(frame) is None && payload_fits(frame)
}

/// The register group a frame writes to.
pub open spec fn write_target(frame: Seq<u8>) -> RegisterType {
    if frame[1] == FUNC_WRITE_MULTIPLE_REGISTERS {
        register_type(word_at(frame, 2))
    } else {
        register_type(word_at(frame, 6))
    }
}

/// The registers a frame writes, as they reach the handler.
pub open spec fn written_regs(frame: Seq<u8>) -> Seq<u16> {
    if frame[1] == FUNC_WRITE_MULTIPLE_REGISTERS {
        materialized(frame, 7, frame[6] as int).take(seen_count(word_at(frame, 4)))
    } else {
        materialized(frame, 11, frame[10] as int).take(seen_count(word_at(frame, 8)))
    }
}

/// Whether a frame is a poll that the engine answers: a `0x17` request to the
/// bridge's own address that reads 2, 5 or 8 registers of the poll group. A
/// broadcast is never answered.
pub open spec fn calls_for_response(frame: Seq<u8>) -> bool {
    &&& frame[0] == ADDRESS_HCP
    &&& frame[1] == FUNC_READ_WRITE_MULTIPLE_REGISTERS
    &&& word_at(frame, 2) == ADDR_POLL
    &&& (word_at(frame, 4) == 2 || word_at(frame, 4) == 5 || word_at(frame, 4) == 8)
}

/// Length of the response to a poll.
pub open spec fn response_len(frame: Seq<u8>) -> int {
    5 + 2 * word_at(frame, 4)
}

/// What dispatching `frame` returns when the output buffer holds `capacity`
/// bytes.
pub open spec fn dispatch_result(frame: Seq<u8>, capacity: int) -> Result<usize, DispatchError> {
    if header_error(frame) is Some {
        Err(header_error(frame)->0)
    } else if !payload_fits(frame) {
        Err(DispatchError::ParsingError)
    } else if !calls_for_response(frame) {
        Ok(0)
    } else if capacity < response_len(frame) {
        Err(DispatchError::ParsingError)
    } else {
        Ok(response_len(frame) as usize)
    }
}

/// Whether a dispatch laid out a response.
pub open spec fn answered(result: Result<usize, DispatchError>) -> bool {
    result is Ok && result->Ok_0 > 0
}

/// The engine after the write leg of a well-formed frame.
pub open spec fn engine_after_write(engine: EngineState, frame: Seq<u8>) -> EngineState {
    if write_target(frame) == RegisterType::SyncCounter {
        sync_applied(engine, written_regs(frame))
    } else {
        engine
    }
}

/// The engine after `frame` was dispatched at time `now` while `command` was
/// requested. A frame that is not well formed leaves the engine as it was. A
/// poll updates the engine before the response is laid out, so also where the
/// output buffer then turns out too small.
pub open spec fn engine_after(engine: EngineState, frame: Seq<u8>, command: u8, now: u32)
    -> EngineState {
    if !well_formed(frame) {
        engine
    } else if calls_for_response(frame) {
        polled(engine_after_write(engine, frame), word_at(frame, 4), command, now)
    } else {
        engine_after_write(engine, frame)
    }
}

/// The shared block after `frame` was dispatched: only a well-formed `0x10`
/// request to the status group changes it.
pub open spec fn shared_after(shared: SharedData, frame: Seq<u8>) -> SharedData {
    if well_formed(frame) && frame[1] == FUNC_WRITE_MULTIPLE_REGISTERS && write_target(frame)
        == RegisterType::StatusUpdate {
        status_applied(shared, written_regs(frame))
    } else {
        shared
    }
}

/// The response to a poll.
pub open spec fn response_to(engine: EngineState, frame: Seq<u8>, command: u8, now: u32) -> Seq<
    u8,
> {
    response_frame(
        ADDRESS_HCP,
        poll_registers(engine_after_write(engine, frame), word_at(frame, 4), command, now).take(
            word_at(frame, 4) as int,
        ),
    )
}

impl Hcp2Protocol {
    pub fn new() -> (engine: Self)
        ensures
            engine@ == EngineState::initial(),
    {
        Self { counter: 0, command_code: 0, last_action: CMD_NONE, action_start_ts: 0 }
    }

    /// Names the register group that starts at `address`.
    pub fn identify_request(&self, address: u16) -> (group: RegisterType)
        ensures
            group == register_type(address),
    {
        if address == ADDR_STATUS_UPDATE {
            RegisterType::StatusUpdate
        } else if address == ADDR_SYNC_COUNTER {
            RegisterType::SyncCounter
        } else if address == ADDR_POLL {
            RegisterType::Poll
        } else {
            RegisterType::Unknown
        }
    }

    /// Publishes a status update of the drive in the shared block. Fewer than
    /// nine registers are ignored.
    pub fn handle_status_update(&mut self, regs: &[u16], shared: &mut SharedData)
        ensures
            final(self)@ == old(self)@,
            *final(shared) == status_applied(*old(shared), regs@),
    {
        if regs.len() < 9 {
            return ;
        }
        // Reg 1: target position (high) | current position (low)
        shared.write_target_pos(high_byte(regs[1]));
        shared.write_current_pos(low_byte(regs[1]));

        // Reg 2: state (high)
        let state_val = high_byte(regs[2]);
        shared.write_state(DriveState::from(state_val).to_byte());

        // Reg 6: light status (bit 0x10)
        let light_reg = regs[6];
        let light = (light_reg & 0x10) != 0;
        assert(light == light_bit(light_reg)) by (bit_vector)
            requires
                light == ((light_reg & 0x10) != 0),
        ;
        shared.write_light(light);
    }

    /// Takes over sync counter and command code from the first register. No
    /// register is ignored.
    pub fn handle_sync_counter(&mut self, regs: &[u16])
        ensures
            final(self)@ == sync_applied(old(self)@, regs@),
    {
        if regs.len() < 1 {
            return ;
        }
        self.counter = high_byte(regs[0]);
        self.command_code = low_byte(regs[0]);
    }

    /// Prepares the registers of a poll response. Quantities other than 2, 5
    /// and 8 give eight zeros.
    pub fn prepare_poll_response(&mut self, quantity: u16, shared: &SharedData, millis: u32) -> (resp:
        [u16; 8])
        ensures
            resp@ == poll_registers(old(self)@, quantity, shared.command_request, millis),
            final(self)@ == polled(old(self)@, quantity, shared.command_request, millis),
    {
        let mut resp = [0u16;8];
        if quantity == 2 {
            resp[0] = make_word(self.counter, 0x04);
            resp[1] = make_word(self.command_code, 0x00);
        } else if quantity == 5 {
            resp[0] = make_word(self.counter, 0x00);
            resp[1] = make_word(self.command_code, 0x05);
            resp[2] = 0x0430;
            resp[3] = 0x10FF;
            resp[4] = 0xA845;
        } else if quantity == 8 {
            resp[0] = make_word(self.counter, 0x00);
            resp[1] = make_word(self.command_code, 0x01);

            let (reg2, reg3) = self.get_action_registers(shared, millis);
            resp[2] = reg2;
            resp[3] = reg3;
        }
        resp
    }

    /// Dispatches a raw frame.
    ///
    /// The checks are made in this order, and the first that fails decides
    /// the error: length, address, function code, CRC, payload length. A
    /// frame that passes them has its write leg applied. A poll addressed to
    /// the bridge is then answered: the response is laid out in `out_buffer`
    /// and its length returned, or, where `out_buffer` cannot hold it,
    /// `ParsingError` is returned and `out_buffer` is left as it was. Every
    /// other frame returns 0.
    pub fn dispatch_frame(
        &mut self,
        frame: &[u8],
        out_buffer: &mut [u8],
        shared: &mut SharedData,
        millis: u32,
    ) -> (result: Result<usize, DispatchError>)
        ensures
            result == dispatch_result(frame@, old(out_buffer)@.len() as int),
            final(self)@ == engine_after(old(self)@, frame@, old(shared).command_request, millis),
            *final(shared) == shared_after(*old(shared), frame@),
            final(out_buffer)@.len() == old(out_buffer)@.len(),
            answered(result) ==> final(out_buffer)@.take(result->Ok_0 as int) == response_to(
                old(self)@,
                frame@,
                old(shared).command_request,
                millis,
            ) && final(out_buffer)@.skip(result->Ok_0 as int) == old(out_buffer)@.skip(
                result->Ok_0 as int,
            ),
            !answered(result) ==> final(out_buffer)@ == old(out_buffer)@,
    {
        if frame.len() < 4 {
            return Err(DispatchError::FrameTooShort);
        }
        let address = frame[0];
        let func = frame[1];

        if address != ADDRESS_HCP && address != ADDRESS_BROADCAST {
            return Err(DispatchError::InvalidAddress);
        }
        if func != FUNC_WRITE_MULTIPLE_REGISTERS && func != FUNC_READ_WRITE_MULTIPLE_REGISTERS {
            return Err(DispatchError::InvalidFunction);
        }
        // The last two bytes are the CRC, low byte first.

        if !crc_matches(frame) {
            return Err(DispatchError::CrcMismatch);
        }
        if func == FUNC_WRITE_MULTIPLE_REGISTERS {
            let request = match decode_write(frame) {
                Some(request) => request,
                None => {
                    return Err(DispatchError::ParsingError);
                },
            };
            let count = request.seen_len();
            let regs = &request.regs[0..count];
            match self.identify_request(request.start) {
                RegisterType::StatusUpdate => self.handle_status_update(regs, shared),
                RegisterType::SyncCounter => self.handle_sync_counter(regs),
                _ => {},
            }
            Ok(0)
        } else {
            let request = match decode_read_write(frame) {
                Some(request) => request,
                None => {
                    return Err(DispatchError::ParsingError);
                },
            };
            let count = request.seen_len();
            let regs = &request.regs[0..count];
            if self.identify_request(request.write_start) == RegisterType::SyncCounter {
                self.handle_sync_counter(regs);
            }
            let quantity = request.read_quantity;
            if address == ADDRESS_HCP && self.identify_request(request.read_start)
                == RegisterType::Poll && (quantity == 2 || quantity == 5 || quantity == 8) {
                let resp_regs = self.prepare_poll_response(quantity, shared, millis);
                let resp_byte_count: u8 = (quantity * 2) as u8;

                if out_buffer.len() < RESPONSE_OVERHEAD + resp_byte_count as usize {
                    return Err(DispatchError::ParsingError);
                }
                out_buffer[0] = ADDRESS_HCP;
                out_buffer[1] = FUNC_READ_WRITE_MULTIPLE_REGISTERS;
                out_buffer[2] = resp_byte_count;
                let read_regs = &resp_regs[0..quantity as usize];
                assert(out_buffer@.take(3) + regs_to_bytes(read_regs@) =~= response_body(
                    ADDRESS_HCP,
                    read_regs@,
                ));
                let total = finish_frame(out_buffer, 3, read_regs);
                return Ok(total);
            }
            Ok(0)
        }
    }

    /// The action registers for the command now requested in `shared`.
    ///
    /// No command gives `(0, 0)` and clears the latch. A command that was not
    /// latched is latched with `millis` as its start. The command is then
    /// answered as pressing while less than 500 ms have passed since its
    /// start, on a clock that wraps, and as released after that.
    pub fn get_action_registers(&mut self, shared: &SharedData, millis: u32) -> (regs: (u16, u16))
        ensures
            regs == action_registers(old(self)@, shared.command_request, millis),
            final(self)@ == latched(old(self)@, shared.command_request, millis),
    {
        let action = shared.read_command();
        if action == CMD_NONE {
            self.last_action = CMD_NONE;
            return (0, 0);
        }
        if self.last_action != action {
            self.last_action = action;
            self.action_start_ts = millis;
        }
        let is_pressing = millis.wrapping_sub(self.action_start_ts) < PRESS_MS;

        if action == CMD_OPEN {
            if is_pressing {
                (0x0210, 0x0000)
            } else {
                (0x0110, 0x0000)
            }
        } else if action == CMD_CLOSE {
            if is_pressing {
                (0x0220, 0x0000)
            } else {
                (0x0120, 0x0000)
            }
        } else if action == CMD_STOP {
            if is_pressing {
                (0x0240, 0x0000)
            } else {
                (0x0140, 0x0000)
            }
        } else if action == CMD_HALF_OPEN {
            if is_pressing {
                (0x0200, 0x0400)
            } else {
                (0x0100, 0x0400)
            }
        } else if action == CMD_VENT {
            if is_pressing {
                (0x0200, 0x4000)
            } else {
                (0x0100, 0x4000)
            }
        } else if action == CMD_TOGGLE_LIGHT {
            if is_pressing {
                (0x0100, 0x0200)
            } else {
                (0x0800, 0x0200)
            }
        } else {
            (0, 0)
        }
    }
}

/// Dispatching a frame a second time changes nothing, as long as the command
/// request stays the same in between: engine and shared block are as the
/// first dispatch left them, whatever the clock says the second time. The
/// start of a held command is set when the command is first seen and stays
/// as it is after that.
pub proof fn lemma_dispatch_idempotent(
    engine: EngineState,
    shared: SharedData,
    frame: Seq<u8>,
    first: u32,
    second: u32,
)
    ensures
        shared_after(shared, frame).command_request == shared.command_request,
        engine_after(
            engine_after(engine, frame, shared.command_request, first),
            frame,
            shared.command_request,
            second,
        ) == engine_after(engine, frame, shared.command_request, first),
        shared_after(shared_after(shared, frame), frame) == shared_after(shared, frame),
{
}

/// A frame with a known address and function code, a valid CRC and a payload
/// that fits is dispatched with success, where the output buffer holds 21
/// bytes or more: no response is longer.
pub proof fn lemma_dispatch_accepts(frame: Seq<u8>, capacity: int)
    requires
        frame.len() >= 4,
        frame[0] == ADDRESS_HCP || frame[0] == ADDRESS_BROADCAST,
        frame[1] == FUNC_WRITE_MULTIPLE_REGISTERS || frame[1]
            == FUNC_READ_WRITE_MULTIPLE_REGISTERS,
        crc_ok(frame),
        payload_fits(frame),
        capacity >= 21,
    ensures
        dispatch_result(frame, capacity) is Ok,
{
}

/// A frame that passes the checks on its header but is too short for the
/// payload it declares is refused with `ParsingError`, and neither the engine
/// nor the shared block is touched.
pub proof fn lemma_dispatch_rejects_short_payload(
    engine: EngineState,
    shared: SharedData,
    frame: Seq<u8>,
    capacity: int,
    command: u8,
    now: u32,
)
    requires
        header_error(frame) is None,
        !payload_fits(frame),
    ensures
        dispatch_result(frame, capacity) == Err::<usize, DispatchError>(
            DispatchError::ParsingError,
        ),
        engine_after(engine, frame, command, now) == engine,
        shared_after(shared, frame) == shared,
{
}

/// A frame that is refused, for whatever reason, leaves the shared block
/// untouched, and no frame at all touches the fields that the other core
/// writes.
pub proof fn lemma_dispatch_keeps_shared(shared: SharedData, frame: Seq<u8>, capacity: int)
    ensures
        dispatch_result(frame, capacity) is Err ==> shared_after(shared, frame) == shared,
        shared_after(shared, frame).owner_flag == shared.owner_flag,
        shared.same_requests(shared_after(shared, frame)),
{
}

/// A response is laid out only for a poll of 2, 5 or 8 registers that is
/// addressed to the bridge, and it is then five bytes longer than the
/// registers it carries. A poll of any other quantity, and any broadcast,
/// gets none.
pub proof fn lemma_response_only_to_poll(frame: Seq<u8>, capacity: int)
    ensures
        answered(dispatch_result(frame, capacity)) ==> {
            &&& frame[0] == ADDRESS_HCP
            &&& frame[1] == FUNC_READ_WRITE_MULTIPLE_REGISTERS
            &&& word_at(frame, 2) == ADDR_POLL
            &&& (word_at(frame, 4) == 2 || word_at(frame, 4) == 5 || word_at(frame, 4) == 8)
            &&& dispatch_result(frame, capacity) == Ok::<usize, DispatchError>(
                (5 + 2 * word_at(frame, 4)) as usize,
            )
        },
{
}

/// The press/release envelope. A command that is first seen at `start` is
/// answered as pressing at `start`. While it stays requested, it is answered
/// at any later time `now` as pressing if fewer than 500 ms have passed since
/// `start` on the wrapping clock, and as released otherwise; and the latch
/// stays as it was set at `start`.
pub proof fn lemma_press_release_envelope(engine: EngineState, command: u8, start: u32, now: u32)
    requires
        command != CMD_NONE,
        engine.last_action != command,
    ensures
        action_registers(engine, command, start) == pressing_registers(command),
        latched(latched(engine, command, start), command, now) == latched(engine, command, start),
        action_registers(latched(engine, command, start), command, now) == if elapsed_ms(
            now,
            start,
        ) < PRESS_MS {
            pressing_registers(command)
        } else {
            released_registers(command)
        },
{
}

/// While no command is requested the action registers are zero and the latch
/// is clear, so that the next command starts a new envelope.
pub proof fn lemma_no_command_clears_latch(engine: EngineState, now: u32)
    ensures
        action_registers(engine, CMD_NONE, now) == (0u16, 0u16),
        latched(engine, CMD_NONE, now).last_action == CMD_NONE,
{
}

} // verus!
