//! Catalog of bus addresses, function codes, register groups and the values
//! that travel in them.

use vstd::prelude::*;

verus! {

/// Unit address of a broadcast: accepted, never answered.
pub const ADDRESS_BROADCAST: u8 = 0x00;

/// Unit address the bridge answers on.
pub const ADDRESS_HCP: u8 = 0x02;

/// Function code "write multiple registers".
pub const FUNC_WRITE_MULTIPLE_REGISTERS: u8 = 0x10;

/// Function code "read/write multiple registers".
pub const FUNC_READ_WRITE_MULTIPLE_REGISTERS: u8 = 0x17;

/// First register of the status update the drive broadcasts.
pub const ADDR_STATUS_UPDATE: u16 = 0x9D31;

/// First register of the sync counter the drive writes.
pub const ADDR_SYNC_COUNTER: u16 = 0x9C41;

/// First register of the poll the drive reads.
pub const ADDR_POLL: u16 = 0x9CB9;

/// What the drive reports about the door.
#[derive(Debug, Clone, Copy, PartialEq, Eq, Structural)]
pub enum DriveState {
    Stopped,
    Opening,
    Closing,
    MoveHalf,
    MoveVenting,
    VentReached,
    Open,
    Closed,
    HalfOpenReached,
}

impl DriveState {
    /// The byte that stands for this state on the wire.
    pub open spec fn wire_byte(self) -> u8 {
        match self {
            DriveState::Stopped => 0x00,
            DriveState::Opening => 0x01,
            DriveState::Closing => 0x02,
            DriveState::MoveHalf => 0x05,
            DriveState::MoveVenting => 0x09,
            DriveState::VentReached => 0x0A,
            DriveState::Open => 0x20,
            DriveState::Closed => 0x40,
            DriveState::HalfOpenReached => 0x80,
        }
    }

    /// The state a wire byte stands for; a byte that names no state reads as
    /// `Stopped`.
    pub open spec fn of_wire_byte(val: u8) -> DriveState {
        if val == 0x01 {
            DriveState::Opening
        } else if val == 0x02 {
            DriveState::Closing
        } else if val == 0x05 {
            DriveState::MoveHalf
        } else if val == 0x09 {
            DriveState::MoveVenting
        } else if val == 0x0A {
            DriveState::VentReached
        } else if val == 0x20 {
            DriveState::Open
        } else if val == 0x40 {
            DriveState::Closed
        } else if val == 0x80 {
            DriveState::HalfOpenReached
        } else {
            DriveState::Stopped
        }
    }

    /// The byte that stands for this state on the wire.
    pub fn to_byte(self) -> (b: u8)
        ensures
            b == self.wire_byte(),
    {
        match self {
            DriveState::Stopped => 0x00,
            DriveState::Opening => 0x01,
            DriveState::Closing => 0x02,
            DriveState::MoveHalf => 0x05,
            DriveState::MoveVenting => 0x09,
            DriveState::VentReached => 0x0A,
            DriveState::Open => 0x20,
            DriveState::Closed => 0x40,
            DriveState::HalfOpenReached => 0x80,
        }
    }
}

impl From<u8> for DriveState {
    fn from(val: u8) -> (state: DriveState) {
        match val {
            0x01 => DriveState::Opening,
            0x02 => DriveState::Closing,
            0x05 => DriveState::MoveHalf,
            0x09 => DriveState::MoveVenting,
            0x0A => DriveState::VentReached,
            0x20 => DriveState::Open,
            0x40 => DriveState::Closed,
            0x80 => DriveState::HalfOpenReached,
            _ => DriveState::Stopped,
        }
    }
}

impl vstd::std_specs::convert::FromSpecImpl<u8> for DriveState {
    open spec fn obeys_from_spec() -> bool {
        true
    }

    open spec fn from_spec(val: u8) -> DriveState {
        DriveState::of_wire_byte(val)
    }
}

/// Every state survives a trip over the wire: reading back the byte of a state
/// gives that state again.
pub proof fn lemma_drive_state_round_trip(state: DriveState)
    ensures
        DriveState::of_wire_byte(state.wire_byte()) == state,
{
}

/// Reading a byte and writing the state back normalises it: a byte that names
/// a state is kept, any other becomes the byte of `Stopped`.
pub proof fn lemma_drive_state_normalises(val: u8)
    ensures
        DriveState::of_wire_byte(val).wire_byte() == val || DriveState::of_wire_byte(
            val,
        ).wire_byte() == 0,
        DriveState::of_wire_byte(DriveState::of_wire_byte(val).wire_byte())
            == DriveState::of_wire_byte(val),
{
}

/// What the drive is asked to do, as read back from a poll response.
#[derive(Debug, Clone, Copy, PartialEq, Eq, Structural)]
pub enum DriveAction {
    /// Nothing is asked of the drive.
    Idle,
    Open,
    Close,
    Stop,
    HalfOpen,
    Vent,
    ToggleLight,
}

} // verus!
