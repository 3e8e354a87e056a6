//! The bus driver: gathers received bytes into frames and hands them to the
//! protocol engine.
//!
//! Bytes are appended to a buffer as they arrive. When the line has been
//! silent for more than 10 ms after the last byte, what the buffer holds is
//! taken as one frame and dispatched, and the buffer starts over. A response
//! is sent with the transceiver switched to transmit.

use vstd::prelude::*;
use crate::hal::HcpHal;
use crate::protocol::{
    dispatch_result, elapsed_ms, engine_after, response_to, shared_after, DispatchError,
    EngineState, Hcp2Protocol,
};
use crate::shared::{SharedData, OWNER_FREE, OWNER_HP, OWNER_LP};

verus! {

/// Bytes the receive buffer holds.
pub const RX_CAPACITY: usize = 128;

/// Bytes the transmit buffer holds.
pub const TX_CAPACITY: usize = 128;

/// Silence on the line, in milliseconds, that ends a frame once exceeded.
pub const FRAME_GAP_MS: u32 = 10;

/// Pause after a transmission, in milliseconds, before the transceiver is
/// switched back to receive.
pub const TX_DRAIN_MS: u32 = 2;

/// What the driver remembers between polls.
pub struct FramerState {
    /// The protocol engine.
    pub engine: EngineState,
    /// The bytes received since the last frame ended.
    pub pending: Seq<u8>,
    /// Clock value when the last of them arrived.
    pub last_rx_ms: u32,
}

/// What is left to do on the hardware once the driver has looked at what is
/// pending.
#[derive(Debug, PartialEq, Eq, Clone, Copy, Structural)]
pub enum PollAction {
    /// Nothing to send and nothing to report.
    Idle,
    /// A response of so many bytes waits in the transmit buffer.
    Respond(usize),
    /// The frame was refused.
    Report(DispatchError),
}

pub struct Hcp2Driver {
    protocol: Hcp2Protocol,
    rx_buf: [u8; 128],
    rx_idx: usize,
    last_rx_ms: u32,
    tx_buf: [u8; 128],
}

impl View for Hcp2Driver {
    type V = FramerState;

    closed spec fn view(&self) -> FramerState {
        FramerState {
            engine: self.protocol@,
            pending: self.rx_buf@.take(self.rx_idx as int),
            last_rx_ms: self.last_rx_ms,
        }
    }
}

/// The driver after `bytes` arrived at time `now`: they are appended and the
/// time is noted. No bytes leave everything as it is.
pub open spec fn received(state: FramerState, bytes: Seq<u8>, now: u32) -> FramerState {
    if bytes.len() > 0 {
        FramerState { pending: state.pending + bytes, last_rx_ms: now, ..state }
    } else {
        state
    }
}

/// Whether the pending bytes are a finished frame at time `now`: there are
/// some, and the line has been silent for more than 10 ms.
pub open spec fn frame_due(state: FramerState, now: u32) -> bool {
    state.pending.len() > 0 && elapsed_ms(now, state.last_rx_ms) > FRAME_GAP_MS
}

/// Driver and shared block after a frame that is due was processed at time
/// `now`. While the other core holds the owner flag the frame is dropped
/// unseen. Otherwise it is dispatched and the owner flag is left free. Either
/// way the buffer starts over.
pub open spec fn processed(state: FramerState, shared: SharedData, now: u32) -> (
    FramerState,
    SharedData,
) {
    if shared.owner_flag == OWNER_HP {
        (FramerState { pending: Seq::empty(), ..state }, shared)
    } else {
        (
            FramerState {
                engine: engine_after(state.engine, state.pending, shared.command_request, now),
                pending: Seq::empty(),
                ..state
            },
            SharedData { owner_flag: OWNER_FREE, ..shared_after(shared, state.pending) },
        )
    }
}

/// Driver and shared block after the pending bytes were looked at at time
/// `now`: a frame that is due is processed, anything else is left to grow.
pub open spec fn settled(state: FramerState, shared: SharedData, now: u32) -> (
    FramerState,
    SharedData,
) {
    if frame_due(state, now) {
        processed(state, shared, now)
    } else {
        (state, shared)
    }
}

/// Driver and shared block after one poll at time `now` in which `bytes` were
/// read from the line.
pub open spec fn polled_once(state: FramerState, shared: SharedData, bytes: Seq<u8>, now: u32)
    -> (FramerState, SharedData) {
    settled(received(state, bytes, now), shared, now)
}

/// What is left to do on the hardware at time `now`: a frame that is due and
/// dispatched calls for its response to be sent or for its error to be
/// reported. A frame that is not due, and one that is dropped because the
/// other core holds the owner flag, call for nothing.
pub open spec fn action_due(state: FramerState, shared: SharedData, now: u32) -> PollAction {
    if !frame_due(state, now) || shared.owner_flag == OWNER_HP {
        PollAction::Idle
    } else {
        match dispatch_result(state.pending, TX_CAPACITY as int) {
            Ok(tx_len) => if tx_len > 0 {
                PollAction::Respond(tx_len)
            } else {
                PollAction::Idle
            },
            Err(error) => PollAction::Report(error),
        }
    }
}

/// The log line for an error: errors on the bus are marked `Error`, frames
/// that are simply not meant for the bridge `Debug`.
pub open spec fn log_text(error: DispatchError) -> Seq<char> {
    match error {
        DispatchError::CrcMismatch => "Error: CRC Mismatch"@,
        DispatchError::InvalidAddress => "Debug: Discarding message - Invalid Address"@,
        DispatchError::FrameTooShort => "Error: Frame Too Short"@,
        DispatchError::InvalidFunction => "Debug: Invalid Function Code"@,
        DispatchError::ParsingError => "Error: Frame Parsing Failed"@,
    }
}

/// The log line for an error.
pub fn log_line(error: DispatchError) -> (line: &'static str)
    ensures
        line@ == log_text(error),
{
    match error {
        DispatchError::CrcMismatch => "Error: CRC Mismatch",
        DispatchError::InvalidAddress => "Debug: Discarding message - Invalid Address",
        DispatchError::FrameTooShort => "Error: Frame Too Short",
        DispatchError::InvalidFunction => "Debug: Invalid Function Code",
        DispatchError::ParsingError => "Error: Frame Parsing Failed",
    }
}

impl Hcp2Driver {
    /// Holds of every driver that `new` made and that only the methods below
    /// have touched: the pending bytes fit the receive buffer.
    pub closed spec fn wf(&self) -> bool {
        self.rx_idx <= RX_CAPACITY
    }

    /// A driver with a fresh engine, nothing pending, and a transmit buffer
    /// of zeros.
    pub fn new() -> (driver: Self)
        ensures
            driver.wf(),
            driver@.engine == EngineState::initial(),
            driver@.pending == Seq::<u8>::empty(),
            driver@.last_rx_ms == 0,
            driver.outgoing() == Seq::new(TX_CAPACITY as nat, |i: int| 0u8),
    {
        Self {
            protocol: Hcp2Protocol::new(),
            rx_buf: [0u8;128],
            rx_idx: 0,
            last_rx_ms: 0,
            tx_buf: [0u8;128],
        }
    }

    /// Number of bytes received since the last frame ended.
    pub fn pending_len(&self) -> (len: usize)
        requires
            self.wf(),
        ensures
            len == self@.pending.len(),
            len <= RX_CAPACITY,
    {
        self.rx_idx
    }

    /// Whether the pending bytes are a finished frame at time `now_ms`.
    pub fn frame_complete(&self, now_ms: u32) -> (due: bool)
        requires
            self.wf(),
        ensures
            due == frame_due(self@, now_ms),
    {
        self.rx_idx > 0 && now_ms.wrapping_sub(self.last_rx_ms) > FRAME_GAP_MS
    }

    /// The transmit buffer: where a response is laid out.
    pub closed spec fn outgoing(&self) -> Seq<u8> {
        self.tx_buf@
    }

    /// The first `len` bytes of the transmit buffer: the response, where
    /// `process` has called for one of that length.
    pub fn response(&self, len: usize) -> (bytes: &[u8])
        requires
            len <= TX_CAPACITY,
        ensures
            bytes@ == self.outgoing().take(len as int),
    {
        &self.tx_buf[0..len]
    }

    /// Takes note of `count` bytes that were read into the free part of the
    /// receive buffer at time `now_ms`.
    fn note_received(&mut self, count: usize, now_ms: u32)
        requires
            old(self).wf(),
            old(self).rx_idx + count <= RX_CAPACITY,
        ensures
            final(self).wf(),
            final(self)@ == received(
                old(self)@,
                old(self).rx_buf@.subrange(old(self).rx_idx as int, old(self).rx_idx + count),
                now_ms,
            ),
            final(self).outgoing() == old(self).outgoing(),
    {
        if count > 0 {
            self.rx_idx += count;
            self.last_rx_ms = now_ms;
        }
        assert(self@.pending =~= received(
            old(self)@,
            old(self).rx_buf@.subrange(old(self).rx_idx as int, old(self).rx_idx + count),
            now_ms,
        ).pending);
    }

    /// Looks at what is pending at time `now_ms` and says what is left to do
    /// on the hardware.
    ///
    /// Bytes that the line has followed with more than 10 ms of silence are
    /// a frame. While the other core holds the owner flag the frame is
    /// dropped unseen. Otherwise the driver takes the flag, dispatches the
    /// frame, and frees the flag. Either way the receive buffer starts over.
    /// A response that is called for lies at the front of the transmit
    /// buffer.
    pub fn process(&mut self, shared: &mut SharedData, now_ms: u32) -> (action: PollAction)
        requires
            old(self).wf(),
        ensures
            final(self).wf(),
            (final(self)@, *final(shared)) == settled(old(self)@, *old(shared), now_ms),
            action == action_due(old(self)@, *old(shared), now_ms),
            action matches PollAction::Respond(tx_len) ==> tx_len <= TX_CAPACITY
                && final(self).outgoing().take(tx_len as int) == response_to(
                old(self)@.engine,
                old(self)@.pending,
                old(shared).command_request,
                now_ms,
            ),
            !(action is Respond) ==> final(self).outgoing() == old(self).outgoing(),
    {
        let mut action = PollAction::Idle;
        // A frame ends when the line has been silent long enough
        if self.frame_complete(now_ms) {
            // The other core may be writing its fields: leave the frame alone then
            if shared.read_owner() != OWNER_HP {
                shared.write_owner(OWNER_LP);

                let pending = self.rx_idx;
                let frame = &self.rx_buf[0..pending];
                match self.protocol.dispatch_frame(frame, &mut self.tx_buf, shared, now_ms) {
                    Ok(tx_len) => {
                        if tx_len > 0 {
                            action = PollAction::Respond(tx_len);
                        }
                    },
                    Err(e) => {
                        action = PollAction::Report(e);
                    },
                }

                shared.write_owner(OWNER_FREE);
            }
            // Reset buffer after processing attempt

            self.rx_idx = 0;
            assert(self@.pending =~= Seq::<u8>::empty());
        }
        action
    }

    /// Runs a single iteration of the main loop. This should be called
    /// repeatedly.
    ///
    /// The bytes that are available are read into the receive buffer, and
    /// what is pending is processed. A response is sent with the transceiver
    /// switched to transmit, followed by a pause of 2 ms for the line to
    /// drain; a refused frame is logged.
    ///
    /// Whatever the line delivers and whatever the clock says, driver and
    /// shared block end up as `polled_once` says for those bytes and that
    /// time. The bytes of one poll never overflow the buffer.
    pub fn poll<H: HcpHal>(&mut self, hal: &mut H, shared: &mut SharedData)
        requires
            old(self).wf(),
        ensures
            final(self).wf(),
            exists|bytes: Seq<u8>, now: u32|
                bytes.len() + old(self)@.pending.len() <= RX_CAPACITY && #[trigger] polled_once(
                    old(self)@,
                    *old(shared),
                    bytes,
                    now,
                ) == (final(self)@, *final(shared)),
    {
        let current_ms = hal.now_ms();

        // 1. Read available bytes
        let start = self.rx_idx;
        let (_, free) = self.rx_buf.split_at_mut(start);
        let read_count = hal.uart_read(free);
        let ghost bytes = self.rx_buf@.subrange(start as int, start + read_count);
        assert(self@ == old(self)@) by {
            assert(self@.pending =~= old(self)@.pending);
        }
        self.note_received(read_count, current_ms);

        // 2. Process what is pending, and do on the hardware what is left to do
        match self.process(shared, current_ms) {
            PollAction::Respond(tx_len) => {
                // Switch to TX
                hal.set_tx_enable(true);
                hal.uart_write(self.response(tx_len));

                // Let the UART drain before the direction changes
                hal.sleep_ms(TX_DRAIN_MS);

                // Switch back to RX
                hal.set_tx_enable(false);
            },
            PollAction::Report(e) => {
                hal.log(log_line(e));
            },
            PollAction::Idle => {},
        }
        assert(polled_once(old(self)@, *old(shared), bytes, current_ms) == (self@, *shared));
    }
}

/// A frame is processed once. Processing empties the buffer, so that a later
/// poll that finds no new bytes on the line finds no frame either, and calls
/// for nothing: no response is sent twice.
pub proof fn lemma_frame_processed_once(
    state: FramerState,
    shared: SharedData,
    now: u32,
    later: u32,
)
    requires
        frame_due(state, now),
    ensures
        settled(state, shared, now).0.pending.len() == 0,
        !frame_due(settled(state, shared, now).0, later),
        action_due(
            received(settled(state, shared, now).0, Seq::empty(), later),
            settled(state, shared, now).1,
            later,
        ) == PollAction::Idle,
        polled_once(settled(state, shared, now).0, settled(state, shared, now).1, Seq::empty(), later)
            == settled(state, shared, now),
{
}

/// A poll keeps to the ownership of the shared block. It never writes the
/// command request, the timestamp or the error code. While the other core
/// holds the owner flag it writes nothing at all. And where it has written
/// anything, it leaves the owner flag free.
pub proof fn lemma_poll_respects_ownership(
    state: FramerState,
    shared: SharedData,
    bytes: Seq<u8>,
    now: u32,
)
    ensures
        shared.same_requests(polled_once(state, shared, bytes, now).1),
        shared.owner_flag == OWNER_HP ==> polled_once(state, shared, bytes, now).1 == shared,
        polled_once(state, shared, bytes, now).1 == shared || polled_once(
            state,
            shared,
            bytes,
            now,
        ).1.owner_flag == OWNER_FREE,
{
}

/// Bytes that arrive restart the silence: a poll that reads bytes dispatches
/// nothing, and the time of the poll is the time of the last byte.
pub proof fn lemma_bytes_restart_silence(
    state: FramerState,
    shared: SharedData,
    bytes: Seq<u8>,
    now: u32,
)
    requires
        bytes.len() > 0,
    ensures
        polled_once(state, shared, bytes, now) == (
            FramerState { pending: state.pending + bytes, last_rx_ms: now, ..state },
            shared,
        ),
{
}

} // verus!
