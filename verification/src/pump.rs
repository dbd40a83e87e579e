//! The decision core of a live, chunk-by-chunk transfer.
//!
//! A running copy alternates outside work (reading a chunk from the source
//! connection, writing it to the destination, noticing cancellation) with
//! decisions. The decisions live here: a [`TransferPump`] turns each observed
//! [`PumpEvent`] into the one [`PumpAction`] the driver must perform next.
//! The driver performing the actual reads and writes owns the connections;
//! it reports every outcome — including cancellation of the request context —
//! as an event and performs the returned action.
//!
//! The contract pins the properties the data path owes: chunks are written
//! in arrival order, the destination handle is closed on every terminal
//! event, and the copy resolves to success exactly when the source finished
//! cleanly — a cancelled or failed transfer never closes as a success, even
//! when every chunk was already written.

use vstd::prelude::*;
use crate::errors::{AppError, ErrorKind};

verus! {

/// What the driver observed since the last decision.
#[derive(Debug)]
pub enum PumpEvent {
    /// The source delivered one more chunk of payload bytes.
    Chunk(Vec<u8>),
    /// The source connection failed mid-stream, with this description.
    ReadFailed(String),
    /// A write to the destination failed, with this description.
    WriteFailed(String),
    /// The source delivered its last chunk and ended cleanly.
    Finished,
    /// The caller's request context was cancelled.
    Cancelled,
}

/// What the driver must do next. Both close actions require the driver to
/// release the destination connection promptly.
#[derive(Debug)]
pub enum PumpAction {
    /// Write these bytes to the destination, after everything written so far.
    Write(Vec<u8>),
    /// Close the destination handle and report the transfer as succeeded.
    CloseSuccess,
    /// Close the destination handle and report this failure.
    CloseFailure(AppError),
}

/// Whether the pump still accepts events.
#[derive(Debug, Clone, Copy, PartialEq, Eq, Structural)]
pub enum PumpPhase {
    /// Chunks are still flowing; the destination handle is open.
    Streaming,
    /// A terminal event was seen and a close action was issued; the pump is
    /// done and must not be stepped again.
    Closed,
}

/// The state of one in-flight transfer, owned by the single task driving it.
/// `written` records, in order, the chunks whose write the pump has
/// instructed so far.
pub struct TransferPump {
    pub phase: PumpPhase,
    pub written: Ghost<Seq<Seq<u8>>>,
}

impl TransferPump {
    /// A pump for a transfer that has not moved any data yet.
    pub fn new() -> (p: TransferPump)
        ensures
            p.phase == PumpPhase::Streaming,
            p.written@ == Seq::<Seq<u8>>::empty(),
    {
        TransferPump { phase: PumpPhase::Streaming, written: Ghost(Seq::empty()) }
    }

    /// Decides the next action for one observed event.
    ///
    /// A chunk is written exactly when it arrives, in arrival order, and the
    /// pump keeps streaming. Every other event is terminal: it closes the
    /// destination, and only a clean end of the source closes as a success.
    /// Cancellation and mid-stream failures each resolve to a failure of
    /// their own category, never to success, whatever was already written.
    pub fn step(&mut self, event: PumpEvent) -> (a: PumpAction)
        requires
            old(self).phase == PumpPhase::Streaming,
        ensures
            a is CloseSuccess <==> event is Finished,
            event is Chunk ==> final(self).phase == PumpPhase::Streaming,
            !(event is Chunk) ==> final(self).phase == PumpPhase::Closed,
            event matches PumpEvent::Chunk(b) ==> a == PumpAction::Write(b)
                && final(self).written@ == old(self).written@.push(b@),
            !(event is Chunk) ==> final(self).written@ == old(self).written@,
            event is Cancelled ==> (a matches PumpAction::CloseFailure(e)
                && e.kind == ErrorKind::Cancelled
                && e.details@ == "Transfer cancelled before completion"@),
            event matches PumpEvent::ReadFailed(msg) ==> (a matches PumpAction::CloseFailure(e)
                && e.kind == ErrorKind::StreamReadFailure && e.details@ == msg@),
            event matches PumpEvent::WriteFailed(msg) ==> (a matches PumpAction::CloseFailure(e)
                && e.kind == ErrorKind::StreamWriteFailure && e.details@ == msg@),
    {
        match event {
            PumpEvent::Chunk(b) => {
                proof {
                    self.written@ = self.written@.push(b@);
                }
                PumpAction::Write(b)
            },
            PumpEvent::Finished => {
                self.phase = PumpPhase::Closed;
                PumpAction::CloseSuccess
            },
            PumpEvent::Cancelled => {
                self.phase = PumpPhase::Closed;
                PumpAction::CloseFailure(AppError::new(
                    "Transfer cancelled before completion",
                    ErrorKind::Cancelled,
                ))
            },
            PumpEvent::ReadFailed(msg) => {
                self.phase = PumpPhase::Closed;
                PumpAction::CloseFailure(AppError { kind: ErrorKind::StreamReadFailure, details: msg })
            },
            PumpEvent::WriteFailed(msg) => {
                self.phase = PumpPhase::Closed;
                PumpAction::CloseFailure(AppError { kind: ErrorKind::StreamWriteFailure, details: msg })
            },
        }
    }
}

} // verus!
