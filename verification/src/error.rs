//! Errors, export outcomes and diagnostics shared by all processors.

use std::time::Duration;
use vstd::prelude::*;

verus! {

/// Why a processor operation did not succeed.
#[derive(Debug, PartialEq, Eq)]
pub enum PipelineError {
    /// The export did not finish within the configured time; the duration is
    /// the limit that was exceeded.
    ExportTimedOut(Duration),
    /// The exporter reported a failure, described by its message.
    ExportFailed(String),
    /// The message queue had no room left.
    QueueFull,
    /// The message queue, or a reply channel, was closed by its other end.
    ChannelClosed,
    /// The processor had been shut down before the call.
    AlreadyShutDown,
    /// A lock around the named processor's exporter was poisoned.
    MutexPoisoned(String),
}

/// The result of an export, a flush or a shutdown.
pub type ExportResult = Result<(), PipelineError>;

/// How one export attempt ended when raced against its time limit.
#[derive(Debug, PartialEq, Eq)]
pub enum ExportOutcome {
    /// The exporter answered first, with this result.
    Completed(ExportResult),
    /// The timer fired first.
    TimedOut,
}

/// How loud a diagnostic is.
#[derive(Debug, Clone, Copy, PartialEq, Eq, Structural)]
pub enum Severity {
    Debug,
    Warn,
    Error,
}

/// The kind of processor that reports a diagnostic.
#[derive(Debug, Clone, Copy, PartialEq, Eq, Structural)]
pub enum Reporter {
    SimpleLogProcessor,
    BatchLogProcessor,
    SimpleSpanProcessor,
    BatchSpanProcessor,
}

/// Something worth reporting that is not returned to the caller as an error.
#[derive(Debug, PartialEq, Eq)]
pub enum Diagnostic {
    /// A record arrived after shutdown and was discarded.
    EmitAfterShutdown,
    /// The exporter could not be reached because its lock was poisoned.
    MutexPoisoned,
    /// An export failed and its batch was dropped.
    ExportFailed(PipelineError),
    /// The queue refused a record, which was dropped.
    RecordDropped(PipelineError),
    /// Nobody was waiting for the answer to a flush or shutdown request.
    ReplyUndelivered,
}

/// The result of an export attempt that was limited to `timeout`: the
/// exporter's own result if it answered in time, a time-out error otherwise.
pub open spec fn timed_result(outcome: ExportOutcome, timeout: Duration) -> ExportResult {
    match outcome {
        ExportOutcome::Completed(result) => result,
        ExportOutcome::TimedOut => Err(PipelineError::ExportTimedOut(timeout)),
    }
}

/// The diagnostic owed for an export result that nobody is waiting for.
pub open spec fn failure_of(result: ExportResult) -> Option<Diagnostic> {
    match result {
        Ok(_) => None,
        Err(error) => Some(Diagnostic::ExportFailed(error)),
    }
}

/// The diagnostic owed for the result of an export that a simple processor
/// made for a single record: none for a success, a distinguished one where
/// the exporter could not be reached behind its lock, the failure otherwise.
pub open spec fn emit_report(result: ExportResult) -> Option<Diagnostic> {
    match result {
        Ok(_) => None,
        Err(PipelineError::MutexPoisoned(_)) => Some(Diagnostic::MutexPoisoned),
        Err(error) => Some(Diagnostic::ExportFailed(error)),
    }
}

impl Diagnostic {
    /// The severity each diagnostic is reported with.
    pub open spec fn spec_severity(self) -> Severity {
        match self {
            Diagnostic::EmitAfterShutdown => Severity::Warn,
            Diagnostic::MutexPoisoned => Severity::Debug,
            Diagnostic::ExportFailed(_) => Severity::Error,
            Diagnostic::RecordDropped(_) => Severity::Error,
            Diagnostic::ReplyUndelivered => Severity::Debug,
        }
    }

    /// The stable name each diagnostic is reported under by each kind of
    /// processor.
    pub open spec fn spec_name(self, reporter: Reporter) -> &'static str {
        match reporter {
            Reporter::SimpleLogProcessor => match self {
                Diagnostic::EmitAfterShutdown => "SimpleLogProcessor.Emit.ProcessorShutdown",
                Diagnostic::MutexPoisoned => "SimpleLogProcessor.Emit.MutexPoisoning",
                Diagnostic::ExportFailed(_) => "SimpleLogProcessor.Emit.ExportError",
                Diagnostic::RecordDropped(_) => "SimpleLogProcessor.Emit.RecordDropped",
                Diagnostic::ReplyUndelivered => "SimpleLogProcessor.Flush.SendResultError",
            },
            Reporter::BatchLogProcessor => match self {
                Diagnostic::EmitAfterShutdown => "BatchLogProcessor.Emit.ProcessorShutdown",
                Diagnostic::MutexPoisoned => "BatchLogProcessor.Emit.MutexPoisoning",
                Diagnostic::ExportFailed(_) => "BatchLogProcessor.Export.Error",
                Diagnostic::RecordDropped(_) => "BatchLogProcessor.Export.Error",
                Diagnostic::ReplyUndelivered => "BatchLogProcessor.Flush.SendResultError",
            },
            Reporter::SimpleSpanProcessor => match self {
                Diagnostic::EmitAfterShutdown => "SimpleProcessor.OnEnd.ProcessorShutdown",
                Diagnostic::MutexPoisoned => "SimpleProcessor.OnEnd.Error",
                Diagnostic::ExportFailed(_) => "SimpleProcessor.OnEnd.Error",
                Diagnostic::RecordDropped(_) => "SimpleProcessor.OnEnd.RecordDropped",
                Diagnostic::ReplyUndelivered => "SimpleProcessor.Flush.SendResultError",
            },
            Reporter::BatchSpanProcessor => match self {
                Diagnostic::EmitAfterShutdown => "BatchSpanProcessor.OnEnd.ProcessorShutdown",
                Diagnostic::MutexPoisoned => "BatchSpanProcessor.OnEnd.MutexPoisoning",
                Diagnostic::ExportFailed(_) => "BatchSpanProcessor.Export.Error",
                Diagnostic::RecordDropped(_) => "BatchSpanProcessor.OnEnd.ExportQueueingFailed",
                Diagnostic::ReplyUndelivered => "BatchSpanProcessor.Flush.SendResultError",
            },
        }
    }

    /// The severity this diagnostic is reported with.
    pub fn severity(&self) -> (severity: Severity)
        ensures
            severity == self.spec_severity(),
    {
        match self {
            Diagnostic::EmitAfterShutdown => Severity::Warn,
            Diagnostic::MutexPoisoned => Severity::Debug,
            Diagnostic::ExportFailed(_) => Severity::Error,
            Diagnostic::RecordDropped(_) => Severity::Error,
            Diagnostic::ReplyUndelivered => Severity::Debug,
        }
    }

    /// The stable name under which `reporter` reports this diagnostic.
    pub fn name(&self, reporter: Reporter) -> (name: &'static str)
        ensures
            name == self.spec_name(reporter),
    {
        match reporter {
            Reporter::SimpleLogProcessor => match self {
                Diagnostic::EmitAfterShutdown => "SimpleLogProcessor.Emit.ProcessorShutdown",
                Diagnostic::MutexPoisoned => "SimpleLogProcessor.Emit.MutexPoisoning",
                Diagnostic::ExportFailed(_) => "SimpleLogProcessor.Emit.ExportError",
                Diagnostic::RecordDropped(_) => "SimpleLogProcessor.Emit.RecordDropped",
                Diagnostic::ReplyUndelivered => "SimpleLogProcessor.Flush.SendResultError",
            },
            Reporter::BatchLogProcessor => match self {
                Diagnostic::EmitAfterShutdown => "BatchLogProcessor.Emit.ProcessorShutdown",
                Diagnostic::MutexPoisoned => "BatchLogProcessor.Emit.MutexPoisoning",
                Diagnostic::ExportFailed(_) => "BatchLogProcessor.Export.Error",
                Diagnostic::RecordDropped(_) => "BatchLogProcessor.Export.Error",
                Diagnostic::ReplyUndelivered => "BatchLogProcessor.Flush.SendResultError",
            },
            Reporter::SimpleSpanProcessor => match self {
                Diagnostic::EmitAfterShutdown => "SimpleProcessor.OnEnd.ProcessorShutdown",
                Diagnostic::MutexPoisoned => "SimpleProcessor.OnEnd.Error",
                Diagnostic::ExportFailed(_) => "SimpleProcessor.OnEnd.Error",
                Diagnostic::RecordDropped(_) => "SimpleProcessor.OnEnd.RecordDropped",
                Diagnostic::ReplyUndelivered => "SimpleProcessor.Flush.SendResultError",
            },
            Reporter::BatchSpanProcessor => match self {
                Diagnostic::EmitAfterShutdown => "BatchSpanProcessor.OnEnd.ProcessorShutdown",
                Diagnostic::MutexPoisoned => "BatchSpanProcessor.OnEnd.MutexPoisoning",
                Diagnostic::ExportFailed(_) => "BatchSpanProcessor.Export.Error",
                Diagnostic::RecordDropped(_) => "BatchSpanProcessor.OnEnd.ExportQueueingFailed",
                Diagnostic::ReplyUndelivered => "BatchSpanProcessor.Flush.SendResultError",
            },
        }
    }
}

/// Decides the result of an export attempt that was limited to `timeout`.
///
/// A timer that fires first turns the attempt into
/// `PipelineError::ExportTimedOut(timeout)`, whatever the exporter does
/// afterwards; otherwise the exporter's result stands.
pub fn export_result(outcome: ExportOutcome, timeout: Duration) -> (result: ExportResult)
    ensures
        result == timed_result(outcome, timeout),
{
    match outcome {
        ExportOutcome::Completed(result) => result,
        ExportOutcome::TimedOut => Err(PipelineError::ExportTimedOut(timeout)),
    }
}

/// Decides what a simple processor reports for the result of an export: see
/// [`emit_report`].
pub fn emit_diagnostic(result: ExportResult) -> (diagnostic: Option<Diagnostic>)
    ensures
        diagnostic == emit_report(result),
{
    match result {
        Ok(_) => None,
        Err(PipelineError::MutexPoisoned(_)) => Some(Diagnostic::MutexPoisoned),
        Err(error) => Some(Diagnostic::ExportFailed(error)),
    }
}

/// Decides what to report for an export whose result nobody waits for:
/// failures are reported, successes are silent.
pub fn export_failure(result: ExportResult) -> (diagnostic: Option<Diagnostic>)
    ensures
        diagnostic == failure_of(result),
{
    match result {
        Ok(_) => None,
        Err(error) => Some(Diagnostic::ExportFailed(error)),
    }
}

} // verus!
