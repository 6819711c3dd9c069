//! What the producer side of a batch processor makes of its message queue.
//!
//! The queue itself belongs to the runtime: a bounded channel with many
//! senders and one receiver, on which a send never blocks. What is decided
//! here is what the outcome of a send, or of waiting for a reply, means to
//! the caller.

use crate::error::{Diagnostic, ExportResult, PipelineError};
use vstd::prelude::*;

verus! {

/// Why the queue did not take a message.
#[derive(Debug, Clone, Copy, PartialEq, Eq, Structural)]
pub enum TrySendError {
    /// The queue is full.
    ChannelFull,
    /// The receiving end is gone: the worker has stopped.
    ChannelClosed,
}

/// The diagnostic owed for a record that was offered to the queue: none
/// where the queue took it; where it did not, the record is dropped and the
/// drop is reported with its cause.
pub open spec fn enqueue_report(sent: Result<(), TrySendError>) -> Option<Diagnostic> {
    match sent {
        Ok(_) => None,
        Err(TrySendError::ChannelFull) => Some(Diagnostic::RecordDropped(PipelineError::QueueFull)),
        Err(TrySendError::ChannelClosed) => Some(
            Diagnostic::RecordDropped(PipelineError::ChannelClosed),
        ),
    }
}

/// Whether a flush or shutdown request is on its way: it is where the queue
/// took it. A closed queue means that the processor has been shut down
/// already; a full one has no room for the request.
pub open spec fn request_outcome(sent: Result<(), TrySendError>) -> ExportResult {
    match sent {
        Ok(_) => Ok(()),
        Err(TrySendError::ChannelFull) => Err(PipelineError::QueueFull),
        Err(TrySendError::ChannelClosed) => Err(PipelineError::AlreadyShutDown),
    }
}

/// The result of a flush or shutdown request that was sent: the answer of
/// the worker, or an error where the worker went away without answering.
pub open spec fn reply_outcome(reply: Option<ExportResult>) -> ExportResult {
    match reply {
        Some(result) => result,
        None => Err(PipelineError::ChannelClosed),
    }
}

/// Decides what to report after a record was offered to the queue.
///
/// A send never blocks and never fails the caller: a record that the queue
/// does not take is dropped, with a diagnostic that names the cause.
pub fn enqueue_diagnostic(sent: Result<(), TrySendError>) -> (diagnostic: Option<Diagnostic>)
    ensures
        diagnostic == enqueue_report(sent),
{
    match sent {
        Ok(_) => None,
        Err(TrySendError::ChannelFull) => Some(Diagnostic::RecordDropped(PipelineError::QueueFull)),
        Err(TrySendError::ChannelClosed) => Some(
            Diagnostic::RecordDropped(PipelineError::ChannelClosed),
        ),
    }
}

/// Decides whether to wait for the reply to a flush or shutdown request:
/// `Ok` where the request was taken by the queue, the error to return at
/// once where it was not.
pub fn request_result(sent: Result<(), TrySendError>) -> (result: ExportResult)
    ensures
        result == request_outcome(sent),
{
    match sent {
        Ok(_) => Ok(()),
        Err(TrySendError::ChannelFull) => Err(PipelineError::QueueFull),
        Err(TrySendError::ChannelClosed) => Err(PipelineError::AlreadyShutDown),
    }
}

/// Decides the result of a flush or shutdown request from what came back on
/// its reply channel: `None` stands for a channel that was closed without an
/// answer.
pub fn reply_result(reply: Option<ExportResult>) -> (result: ExportResult)
    ensures
        result == reply_outcome(reply),
{
    match reply {
        Some(result) => result,
        None => Err(PipelineError::ChannelClosed),
    }
}

/// Decides what to report after an answer was sent to a caller: nothing
/// where it was delivered, a diagnostic where the caller had gone away.
pub fn reply_diagnostic(delivered: bool) -> (diagnostic: Option<Diagnostic>)
    ensures
        diagnostic == if delivered {
            None
        } else {
            Some(Diagnostic::ReplyUndelivered)
        },
{
    if delivered {
        None
    } else {
        Some(Diagnostic::ReplyUndelivered)
    }
}

} // verus!
