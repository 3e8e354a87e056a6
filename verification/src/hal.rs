//! What the bus driver needs from the hardware it runs on.

use vstd::prelude::*;

verus! {

/// The capabilities the bus driver is given: a serial line, the direction pin
/// of the RS-485 transceiver, a millisecond clock and a sink for log lines.
///
/// The driver relies on one promise only: `uart_read` reports no more bytes
/// than the buffer it was handed can hold.
pub trait HcpHal {
    /// Reads the bytes that are available into the front of `buf` and returns
    /// how many there were; 0 when the line is idle. Does not block.
    fn uart_read(&mut self, buf: &mut [u8]) -> (count: usize)
        ensures
            count <= old(buf)@.len(),
    ;

    /// Writes `buf` to the line and returns how many bytes were written.
    fn uart_write(&mut self, buf: &[u8]) -> usize;

    /// Sets the direction pin: `true` to transmit, `false` to receive.
    fn set_tx_enable(&mut self, enable: bool);

    /// The current time in milliseconds; free-running, wraps at 2^32.
    fn now_ms(&self) -> u32;

    /// Waits for `ms` milliseconds.
    fn sleep_ms(&mut self, ms: u32);

    /// Takes one line of log text.
    fn log(&mut self, message: &str);
}

} // verus!
