//! Bridge between a home-automation controller and a garage-door drive that
//! speaks HCP2, a protocol derived from Modbus-RTU, over RS-485.
//!
//! Two cores share the work. The core on the serial line runs the bus driver
//! (`driver`), which gathers bytes into frames and hands them to the protocol
//! engine (`protocol`). The engine publishes what the drive reports in a block
//! of shared state (`shared`) and answers the drive's polls with the command
//! that the other core has requested there. `drive_fsm` is the other end of
//! the bus: an emulator of the drive for tests on the bench.

pub mod codec;
pub mod crc;
pub mod drive_fsm;
pub mod driver;
pub mod hal;
pub mod protocol;
pub mod registers;
pub mod shared;

pub use driver::Hcp2Driver;
pub use hal::HcpHal;
pub use protocol::Hcp2Protocol;
pub use shared::SharedData;
