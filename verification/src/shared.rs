//! The block of state that the two cores share.
//!
//! One side writes a field, the other reads it; the owner flag is the only
//! cell both write. The bus-facing side publishes the drive's status, the
//! connectivity side requests commands.

use vstd::prelude::*;

verus! {

/// Owner flag: nobody is writing.
pub const OWNER_FREE: u8 = 0;

/// Owner flag: the connectivity core is writing its fields.
pub const OWNER_HP: u8 = 1;

/// Owner flag: the bus driver is dispatching a frame.
pub const OWNER_LP: u8 = 2;

/// Command request: none.
pub const CMD_NONE: u8 = 0;

/// Command request: open the door.
pub const CMD_OPEN: u8 = 1;

/// Command request: close the door.
pub const CMD_CLOSE: u8 = 2;

/// Command request: stop the door.
pub const CMD_STOP: u8 = 3;

/// Command request: move the door to its half-open position.
pub const CMD_HALF_OPEN: u8 = 4;

/// Command request: move the door to its venting position.
pub const CMD_VENT: u8 = 5;

/// Command request: switch the light over.
pub const CMD_TOGGLE_LIGHT: u8 = 6;

/// The state the two cores share, as a value.
///
/// The connectivity core writes `command_request`; the bus side writes
/// `target_position`, `current_state`, `current_position` and `light_on`;
/// both write `owner_flag`.
#[derive(Debug)]
pub struct SharedData {
    /// 0 = free, 1 = connectivity core writing, 2 = bus driver writing.
    pub owner_flag: u8,
    /// Requested action, one of the `CMD_*` values.
    pub command_request: u8,
    /// Target position, 0 (closed) to 200 (open).
    pub target_position: u8,
    /// Drive-state byte as last reported by the drive.
    pub current_state: u8,
    /// Current position, 0 (closed) to 200 (open).
    pub current_position: u8,
    /// Whether the drive's light is on.
    pub light_on: bool,
    /// Reserved; zero.
    pub _pad1: [u8; 2],
    /// Millisecond clock at the last valid reception. Neither the engine nor
    /// the driver writes it.
    pub last_update_ts: u32,
    /// 0 = no error.
    pub error_code: u8,
    /// Reserved; zero.
    pub _pad2: [u8; 3],
}

impl Default for SharedData {
    fn default() -> (shared: SharedData)
        ensures
            shared.owner_flag == OWNER_FREE,
            shared.command_request == CMD_NONE,
            shared.target_position == 0,
            shared.current_state == 0,
            shared.current_position == 0,
            !shared.light_on,
            shared._pad1@ == seq![0u8, 0u8],
            shared.last_update_ts == 0,
            shared.error_code == 0,
            shared._pad2@ == seq![0u8, 0u8, 0u8],
    {
        SharedData {
            owner_flag: 0,
            command_request: 0,
            target_position: 0,
            current_state: 0,
            current_position: 0,
            light_on: false,
            _pad1: [0u8, 0u8],
            last_update_ts: 0,
            error_code: 0,
            _pad2: [0u8, 0u8, 0u8],
        }
    }
}

impl SharedData {
    /// Holds of two blocks that agree on every field that only the
    /// connectivity core or nobody writes: the command request, the timestamp,
    /// the error code and the padding.
    pub open spec fn same_requests(self, other: SharedData) -> bool {
        &&& other.command_request == self.command_request
        &&& other.last_update_ts == self.last_update_ts
        &&& other.error_code == self.error_code
        &&& other._pad1 == self._pad1
        &&& other._pad2 == self._pad2
    }

    pub fn read_owner(&self) -> (val: u8)
        ensures
            val == self.owner_flag,
    {
        self.owner_flag
    }

    pub fn write_owner(&mut self, val: u8)
        ensures
            *final(self) == (SharedData { owner_flag: val, ..*old(self) }),
    {
        self.owner_flag = val;
    }

    pub fn read_command(&self) -> (val: u8)
        ensures
            val == self.command_request,
    {
        self.command_request
    }

    pub fn write_command(&mut self, val: u8)
        ensures
            *final(self) == (SharedData { command_request: val, ..*old(self) }),
    {
        self.command_request = val;
    }

    pub fn read_target_pos(&self) -> (val: u8)
        ensures
            val == self.target_position,
    {
        self.target_position
    }

    pub fn write_target_pos(&mut self, val: u8)
        ensures
            *final(self) == (SharedData { target_position: val, ..*old(self) }),
    {
        self.target_position = val;
    }

    pub fn read_state(&self) -> (val: u8)
        ensures
            val == self.current_state,
    {
        self.current_state
    }

    pub fn write_state(&mut self, val: u8)
        ensures
            *final(self) == (SharedData { current_state: val, ..*old(self) }),
    {
        self.current_state = val;
    }

    pub fn read_current_pos(&self) -> (val: u8)
        ensures
            val == self.current_position,
    {
        self.current_position
    }

    pub fn write_current_pos(&mut self, val: u8)
        ensures
            *final(self) == (SharedData { current_position: val, ..*old(self) }),
    {
        self.current_position = val;
    }

    pub fn read_light(&self) -> (val: bool)
        ensures
            val == self.light_on,
    {
        self.light_on
    }

    pub fn write_light(&mut self, val: bool)
        ensures
            *final(self) == (SharedData { light_on: val, ..*old(self) }),
    {
        self.light_on = val;
    }

    pub fn read_ts(&self) -> (val: u32)
        ensures
            val == self.last_update_ts,
    {
        self.last_update_ts
    }

    pub fn write_ts(&mut self, val: u32)
        ensures
            *final(self) == (SharedData { last_update_ts: val, ..*old(self) }),
    {
        self.last_update_ts = val;
    }
}

} // verus!
