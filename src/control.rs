//! Line control, status pins, buffer purges and the synchronous wait over an
//! overlapped transfer.
use vstd::prelude::*;

use crate::{error_from_os, os_error, Clear, Error};

verus! {

/// Escape function that raises RTS.
pub const SETRTS: u32 = 3;
/// Escape function that lowers RTS.
pub const CLRRTS: u32 = 4;
/// Escape function that raises DTR.
pub const SETDTR: u32 = 5;
/// Escape function that lowers DTR.
pub const CLRDTR: u32 = 6;

/// Modem status bit of CTS.
pub const MS_CTS_ON: u32 = 16;
/// Modem status bit of DSR.
pub const MS_DSR_ON: u32 = 32;
/// Modem status bit of RI.
pub const MS_RING_ON: u32 = 64;
/// Modem status bit of CD.
pub const MS_RLSD_ON: u32 = 128;

/// Purge flag that aborts pending writes.
pub const PURGE_TXABORT: u32 = 1;
/// Purge flag that aborts pending reads.
pub const PURGE_RXABORT: u32 = 2;
/// Purge flag that clears the output buffer.
pub const PURGE_TXCLEAR: u32 = 4;
/// Purge flag that clears the input buffer.
pub const PURGE_RXCLEAR: u32 = 8;

/// The escape function that sets RTS to `level`.
pub fn rts_function(level: bool) -> (r: u32)
    ensures
        r == if level {
            SETRTS
        } else {
            CLRRTS
        },
{
    if level {
        SETRTS
    } else {
        CLRRTS
    }
}

/// The escape function that sets DTR to `level`.
pub fn dtr_function(level: bool) -> (r: u32)
    ensures
        r == if level {
            SETDTR
        } else {
            CLRDTR
        },
{
    if level {
        SETDTR
    } else {
        CLRDTR
    }
}

/// A modem status input.
#[derive(Debug, Copy, Clone, PartialEq, Eq, Structural)]
pub enum Pin {
    Cts,
    Dsr,
    Ring,
    CarrierDetect,
}

pub open spec fn pin_mask(p: Pin) -> u32 {
    match p {
        Pin::Cts => MS_CTS_ON,
        Pin::Dsr => MS_DSR_ON,
        Pin::Ring => MS_RING_ON,
        Pin::CarrierDetect => MS_RLSD_ON,
    }
}

/// The level of a pin in a modem status word.
pub fn read_pin(status: u32, pin: Pin) -> (r: bool)
    ensures
        r == (status & pin_mask(pin) != 0),
{
    let mask: u32 = match pin {
        Pin::Cts => MS_CTS_ON,
        Pin::Dsr => MS_DSR_ON,
        Pin::Ring => MS_RING_ON,
        Pin::CarrierDetect => MS_RLSD_ON,
    };
    status & mask != 0
}

pub open spec fn purge_mask(target: Clear) -> u32 {
    match target {
        Clear::Input => PURGE_RXABORT | PURGE_RXCLEAR,
        Clear::Output => PURGE_TXABORT | PURGE_TXCLEAR,
        Clear::All => PURGE_RXABORT | PURGE_RXCLEAR | PURGE_TXABORT | PURGE_TXCLEAR,
    }
}

/// The purge flags for a target: abort and clear in each chosen direction.
pub fn purge_flags(target: Clear) -> (r: u32)
    ensures
        r == purge_mask(target),
{
    match target {
        Clear::Input => PURGE_RXABORT | PURGE_RXCLEAR,
        Clear::Output => PURGE_TXABORT | PURGE_TXCLEAR,
        Clear::All => PURGE_RXABORT | PURGE_RXCLEAR | PURGE_TXABORT | PURGE_TXCLEAR,
    }
}

/// A purge of the input asks to abort and clear the input side, and a purge of
/// the output names no input flag, so it leaves the input queue to the device.
pub proof fn lemma_purge_directions()
    ensures
        purge_mask(Clear::Input) & PURGE_RXCLEAR != 0,
        purge_mask(Clear::Input) & PURGE_RXABORT != 0,
        purge_mask(Clear::Input) & (PURGE_TXABORT | PURGE_TXCLEAR) == 0,
        purge_mask(Clear::Output) & (PURGE_RXABORT | PURGE_RXCLEAR) == 0,
        purge_mask(Clear::All) == purge_mask(Clear::Input) | purge_mask(Clear::Output),
{
    assert((2u32 | 8u32) & 8u32 != 0) by (bit_vector);
    assert((2u32 | 8u32) & 2u32 != 0) by (bit_vector);
    assert((2u32 | 8u32) & (1u32 | 4u32) == 0) by (bit_vector);
    assert((1u32 | 4u32) & (2u32 | 8u32) == 0) by (bit_vector);
    assert(2u32 | 8u32 | 1u32 | 4u32 == (2u32 | 8u32) | (1u32 | 4u32)) by (bit_vector);
}

/// Where a transfer stands.
#[derive(Debug, Copy, Clone, PartialEq, Eq, Structural)]
pub enum TransferPhase {
    /// The read or write request is being issued.
    Issuing,
    /// The request is pending; its completion event is being waited on.
    Waiting,
    /// The completion was signaled; the transferred count is being queried.
    Querying,
    /// The wait timed out; the request is being canceled.
    Canceling,
    /// The wait failed with this OS error code; the request is being canceled.
    CancelingAfterError(i32),
    /// The result has been returned.
    Done,
}

/// What came of the last native action of a transfer.
#[derive(Debug, Copy, Clone, PartialEq, Eq, Structural)]
pub enum TransferEvent {
    /// The request completed at once, moving this many bytes.
    Completed(u32),
    /// The request was accepted and is pending.
    Pending,
    /// The request failed with this OS error code (0 if none).
    IssueFailed(i32),
    /// The completion event was signaled in time.
    Signaled,
    /// The wait ran out.
    TimedOut,
    /// The wait failed with this OS error code.
    WaitFailed(i32),
    /// The completion query reports this many bytes moved.
    Transferred(u32),
    /// The completion query failed with this OS error code.
    QueryFailed(i32),
    /// The request was canceled after moving this many bytes.
    Canceled(u32),
}

/// The next native action of a transfer.
#[derive(Debug, PartialEq, Eq)]
pub enum TransferAction {
    /// Wait on the direction's completion event for at most this many milliseconds.
    Wait(u32),
    /// Ask for the number of bytes that the completed request moved.
    QueryResult,
    /// Cancel the pending request.
    Cancel,
    /// Return this result to the caller.
    Return(Result<u32, Error>),
}

/// The phase and action that follow an event.
pub open spec fn transfer_next(phase: TransferPhase, timeout_ms: u32, e: TransferEvent) -> (
    TransferPhase,
    TransferAction,
) {
    match (phase, e) {
        (TransferPhase::Issuing, TransferEvent::Completed(n)) => (
            TransferPhase::Done,
            TransferAction::Return(Ok(n)),
        ),
        (TransferPhase::Issuing, TransferEvent::Pending) => (
            TransferPhase::Waiting,
            TransferAction::Wait(timeout_ms),
        ),
        (TransferPhase::Issuing, TransferEvent::IssueFailed(c)) => (
            TransferPhase::Done,
            TransferAction::Return(Err(os_error(c))),
        ),
        (TransferPhase::Waiting, TransferEvent::Signaled) => (
            TransferPhase::Querying,
            TransferAction::QueryResult,
        ),
        (TransferPhase::Waiting, TransferEvent::TimedOut) => (
            TransferPhase::Canceling,
            TransferAction::Cancel,
        ),
        (TransferPhase::Waiting, TransferEvent::WaitFailed(c)) => (
            TransferPhase::CancelingAfterError(c),
            TransferAction::Cancel,
        ),
        (TransferPhase::Querying, TransferEvent::Transferred(n)) => (
            TransferPhase::Done,
            TransferAction::Return(Ok(n)),
        ),
        (TransferPhase::Querying, TransferEvent::QueryFailed(c)) => (
            TransferPhase::Done,
            TransferAction::Return(Err(os_error(c))),
        ),
        (TransferPhase::Canceling, TransferEvent::Canceled(n)) => (
            TransferPhase::Done,
            TransferAction::Return(Ok(n)),
        ),
        (TransferPhase::CancelingAfterError(c), TransferEvent::Canceled(_)) => (
            TransferPhase::Done,
            TransferAction::Return(Err(os_error(c))),
        ),
        _ => (TransferPhase::Done, TransferAction::Return(Err(Error::Unknown))),
    }
}

/// One read or write made synchronous: issue, wait at most the timeout, then
/// either query the count, or cancel and return what was moved; a failed wait
/// also cancels the request and then returns the wait's error.
pub struct Transfer {
    pub phase: TransferPhase,
    pub timeout_ms: u32,
}

impl Transfer {
    /// A transfer about to be issued, bounded by `timeout_ms`.
    pub fn new(timeout_ms: u32) -> (r: Transfer)
        ensures
            r.phase == TransferPhase::Issuing,
            r.timeout_ms == timeout_ms,
    {
        Transfer { phase: TransferPhase::Issuing, timeout_ms }
    }

    /// Takes the outcome of the last native action and gives the next one.
    pub fn step(&mut self, event: TransferEvent) -> (r: TransferAction)
        ensures
            (final(self).phase, r) == transfer_next(old(self).phase, old(self).timeout_ms, event),
            final(self).timeout_ms == old(self).timeout_ms,
    {
        let (phase, action) = match (self.phase, event) {
            (TransferPhase::Issuing, TransferEvent::Completed(n)) => (
                TransferPhase::Done,
                TransferAction::Return(Ok(n)),
            ),
            (TransferPhase::Issuing, TransferEvent::Pending) => (
                TransferPhase::Waiting,
                TransferAction::Wait(self.timeout_ms),
            ),
            (TransferPhase::Issuing, TransferEvent::IssueFailed(c)) => (
                TransferPhase::Done,
                TransferAction::Return(Err(error_from_os(c))),
            ),
            (TransferPhase::Waiting, TransferEvent::Signaled) => (
                TransferPhase::Querying,
                TransferAction::QueryResult,
            ),
            (TransferPhase::Waiting, TransferEvent::TimedOut) => (
                TransferPhase::Canceling,
                TransferAction::Cancel,
            ),
            (TransferPhase::Waiting, TransferEvent::WaitFailed(c)) => (
                TransferPhase::CancelingAfterError(c),
                TransferAction::Cancel,
            ),
            (TransferPhase::Querying, TransferEvent::Transferred(n)) => (
                TransferPhase::Done,
                TransferAction::Return(Ok(n)),
            ),
            (TransferPhase::Querying, TransferEvent::QueryFailed(c)) => (
                TransferPhase::Done,
                TransferAction::Return(Err(error_from_os(c))),
            ),
            (TransferPhase::Canceling, TransferEvent::Canceled(n)) => (
                TransferPhase::Done,
                TransferAction::Return(Ok(n)),
            ),
            (TransferPhase::CancelingAfterError(c), TransferEvent::Canceled(_)) => (
                TransferPhase::Done,
                TransferAction::Return(Err(error_from_os(c))),
            ),
            _ => (TransferPhase::Done, TransferAction::Return(Err(Error::Unknown))),
        };
        self.phase = phase;
        action
    }
}

/// A pending transfer waits no longer than its timeout, and when the wait runs
/// out the request is canceled and whatever was moved (possibly nothing) is
/// returned without an error.
pub proof fn lemma_timeout_bound(timeout_ms: u32, moved: u32)
    ensures
        transfer_next(TransferPhase::Issuing, timeout_ms, TransferEvent::Pending) == (
            TransferPhase::Waiting,
            TransferAction::Wait(timeout_ms),
        ),
        transfer_next(TransferPhase::Waiting, timeout_ms, TransferEvent::TimedOut) == (
            TransferPhase::Canceling,
            TransferAction::Cancel,
        ),
        transfer_next(TransferPhase::Canceling, timeout_ms, TransferEvent::Canceled(moved)) == (
            TransferPhase::Done,
            TransferAction::Return(Ok(moved)),
        ),
{
}

} // verus!
