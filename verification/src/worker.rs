//! The batch worker: the single task that owns the buffer of a batch
//! processor and decides when and how its records are exported.
//!
//! The worker never exports anything itself. It is a state machine: fed one
//! message at a time, it answers with a [`Directive`] that tells the event
//! loop around it what to do (wait for running exports, start an export, hand
//! a resource to the exporter, shut the exporter down, answer a caller), and
//! with the state in which the next message is to be handled. An export that
//! the loop must finish before it goes on is reported back through
//! [`PendingExport::finished`].
//!
//! The mathematical model of the worker is [`WorkerState`]; its transitions
//! are spec functions, and every executable transition is proved equal to its
//! model. What holds of whole runs is proved about the model at the end of
//! this file.

use crate::error::{
    export_failure, export_result, failure_of, timed_result, Diagnostic, ExportOutcome, ExportResult,
};
use crate::resource::Resource;
use futures_channel::oneshot::Sender;
use std::time::Duration;
use vstd::prelude::*;

verus! {

/// `futures_channel::oneshot::Sender`, the sending half of a one-shot
/// channel. Nothing is assumed about it: the worker only carries such a
/// sender from a request to the directive that answers it.
#[verifier::external_type_specification]
#[verifier::external_body]
#[verifier::reject_recursive_types(T)]
pub struct ExSender<T>(Sender<T>);

/// Where the answer to a flush or shutdown request is sent.
pub type ReplySender = Sender<ExportResult>;

/// What producers and the timer send to the worker.
#[derive(Debug)]
pub enum BatchMessage<T> {
    /// One finished record to buffer.
    ExportRecord(T),
    /// Export what is buffered now. A periodic tick is a flush that nobody
    /// waits for.
    Flush(Option<ReplySender>),
    /// Export what is buffered, shut the exporter down and stop.
    Shutdown(ReplySender),
    /// Hand this resource to the exporter.
    SetResource(Resource),
}

/// The limits a worker runs under, taken from a batch configuration.
#[derive(Debug, Clone, Copy)]
pub struct Limits {
    /// The number of buffered records at which an export starts by itself.
    pub max_export_batch_size: usize,
    /// The time allowed to each export.
    pub max_export_timeout: Duration,
    /// How many exports may run at once. With a limit of 1 every export is
    /// awaited where it starts.
    pub max_concurrent_exports: usize,
}

/// Which running exports to wait for.
#[derive(Debug, Clone, Copy, PartialEq, Eq, Structural)]
pub enum Wait {
    /// None.
    Nothing,
    /// The first one to finish.
    One,
    /// All of them.
    All,
}

/// One export to start.
#[derive(Debug)]
pub struct ExportJob<T> {
    /// The records to export, in the order they were enqueued.
    pub batch: Vec<T>,
    /// The time allowed; see [`crate::error::export_result`].
    pub timeout: Duration,
    /// Whether the export joins the set of running exports (`true`) or is
    /// awaited on the spot and reported through [`PendingExport::finished`].
    pub background: bool,
}

/// An answer owed to a caller.
#[derive(Debug)]
pub struct Reply {
    pub to: ReplySender,
    pub result: ExportResult,
}

/// What the event loop must do before it handles anything else. The fields
/// are in the order in which they are carried out.
#[derive(Debug)]
pub struct Directive<T> {
    /// First wait for these running exports.
    pub wait: Wait,
    /// Then start this export.
    pub export: Option<ExportJob<T>>,
    /// Then hand this resource to the exporter.
    pub resource: Option<Resource>,
    /// Then shut the exporter down.
    pub shutdown_exporter: bool,
    /// Then send this answer.
    pub reply: Option<Reply>,
    /// Then wait until no export is running any more.
    pub drain: bool,
    /// And report this.
    pub diagnostic: Option<Diagnostic>,
}

/// The model of an [`ExportJob`].
pub struct Job<T> {
    pub batch: Seq<T>,
    pub timeout: Duration,
    pub background: bool,
}

/// The model of a [`Directive`].
pub struct Plan<T> {
    pub wait: Wait,
    pub export: Option<Job<T>>,
    pub resource: Option<Resource>,
    pub shutdown_exporter: bool,
    pub reply: Option<Reply>,
    pub drain: bool,
    pub diagnostic: Option<Diagnostic>,
}

impl<T> View for ExportJob<T> {
    type V = Job<T>;

    open spec fn view(&self) -> Job<T> {
        Job { batch: self.batch@, timeout: self.timeout, background: self.background }
    }
}

impl<T> View for Directive<T> {
    type V = Plan<T>;

    open spec fn view(&self) -> Plan<T> {
        Plan {
            wait: self.wait,
            export: match self.export {
                Some(job) => Some(job@),
                None => None,
            },
            resource: self.resource,
            shutdown_exporter: self.shutdown_exporter,
            reply: self.reply,
            drain: self.drain,
            diagnostic: self.diagnostic,
        }
    }
}

impl<T> Plan<T> {
    /// The plan that asks for nothing.
    pub open spec fn idle() -> Plan<T> {
        Plan {
            wait: Wait::Nothing,
            export: None,
            resource: None,
            shutdown_exporter: false,
            reply: None,
            drain: false,
            diagnostic: None,
        }
    }

    /// The records this plan hands to the exporter.
    pub open spec fn batch(self) -> Seq<T> {
        match self.export {
            Some(job) => job.batch,
            None => Seq::empty(),
        }
    }
}

impl<T> Directive<T> {
    /// The directive that asks for nothing.
    pub fn idle() -> (directive: Directive<T>)
        ensures
            directive@ == Plan::<T>::idle(),
    {
        Directive {
            wait: Wait::Nothing,
            export: None,
            resource: None,
            shutdown_exporter: false,
            reply: None,
            drain: false,
            diagnostic: None,
        }
    }
}

/// What remains to be done once an awaited export has finished.
#[derive(Debug)]
pub enum Pending {
    /// The export was started by a full buffer: report a failure.
    Batch,
    /// The export belongs to a flush: answer the caller if there is one,
    /// report a failure otherwise.
    Flush(Option<ReplySender>),
    /// The export is the last one: shut the exporter down, then answer the
    /// caller if there is one.
    Shutdown(Option<ReplySender>),
}

/// The model of a worker between two messages.
pub struct WorkerState<T> {
    pub limits: Limits,
    /// The records received and not yet handed to the exporter.
    pub buffer: Seq<T>,
    /// The number of background exports that have not been seen to finish.
    pub in_flight: nat,
}

/// The model of a worker that waits for an export to finish.
pub struct PendingState<T> {
    pub worker: WorkerState<T>,
    pub after: Pending,
}

/// The model of a [`Step`].
pub enum StepModel<T> {
    Continue(WorkerState<T>, Plan<T>),
    Export(PendingState<T>, Plan<T>),
    Stop(Plan<T>),
}

/// Whether one of `in_flight` running exports must finish before another
/// one may start: the limit on concurrent exports is reached (or the counter
/// is at its machine limit).
pub open spec fn slot_needed(limits: Limits, in_flight: nat) -> bool {
    in_flight > 0 && (in_flight == limits.max_concurrent_exports || in_flight == usize::MAX)
}

impl<T> WorkerState<T> {
    /// The state of a worker that has received nothing yet.
    pub open spec fn fresh(limits: Limits) -> WorkerState<T> {
        WorkerState { limits, buffer: Seq::empty(), in_flight: 0 }
    }

    /// Whether a running export must finish before another one may start:
    /// see [`slot_needed`].
    pub open spec fn slot_needed(self) -> bool {
        slot_needed(self.limits, self.in_flight)
    }

    /// What to wait for before an export may start.
    pub open spec fn slot_wait(self) -> Wait {
        if self.slot_needed() {
            Wait::One
        } else {
            Wait::Nothing
        }
    }

    /// The number of running exports once a slot has been made free.
    pub open spec fn after_slot(self) -> nat {
        if self.slot_needed() {
            (self.in_flight - 1) as nat
        } else {
            self.in_flight
        }
    }

    /// What to wait for so that no export is running.
    pub open spec fn all_wait(self) -> Wait {
        if self.in_flight > 0 {
            Wait::All
        } else {
            Wait::Nothing
        }
    }

    /// The export of everything buffered.
    pub open spec fn job(self, batch: Seq<T>, background: bool) -> Job<T> {
        Job { batch, timeout: self.limits.max_export_timeout, background }
    }

    /// A record arrives: it is appended to the buffer first; if the buffer
    /// then holds exactly `max_export_batch_size` records, all of them are
    /// exported. With a limit of one concurrent export the export is awaited;
    /// otherwise it runs in the background, after a slot has been made free
    /// where the limit is reached.
    pub open spec fn record(self, record: T) -> StepModel<T> {
        let buffer = self.buffer.push(record);
        if buffer.len() == self.limits.max_export_batch_size {
            if self.limits.max_concurrent_exports == 1 {
                StepModel::Export(
                    PendingState {
                        worker: WorkerState { buffer: Seq::empty(), ..self },
                        after: Pending::Batch,
                    },
                    Plan { export: Some(self.job(buffer, false)), ..Plan::idle() },
                )
            } else {
                StepModel::Continue(
                    WorkerState {
                        buffer: Seq::empty(),
                        in_flight: self.after_slot() + 1,
                        ..self
                    },
                    Plan {
                        wait: self.slot_wait(),
                        export: Some(self.job(buffer, true)),
                        ..Plan::idle()
                    },
                )
            }
        } else {
            StepModel::Continue(WorkerState { buffer, ..self }, Plan::idle())
        }
    }

    /// Everything buffered is exported and the export is awaited, after a
    /// slot has been made free where the limit on concurrent exports is
    /// reached. Not for an empty buffer.
    pub open spec fn final_export(self, after: Pending) -> StepModel<T> {
        StepModel::Export(
            PendingState {
                worker: WorkerState {
                    buffer: Seq::empty(),
                    in_flight: self.after_slot(),
                    ..self
                },
                after,
            },
            Plan {
                wait: self.slot_wait(),
                export: Some(self.job(self.buffer, false)),
                ..Plan::idle()
            },
        )
    }

    /// A flush: an empty buffer is answered with success at once, without
    /// the exporter being called; otherwise everything buffered is exported
    /// and the answer follows the export. Either way the worker then waits
    /// until no export is running.
    pub open spec fn flush(self, reply: Option<ReplySender>) -> StepModel<T> {
        if self.buffer.len() == 0 {
            StepModel::Continue(
                WorkerState { in_flight: 0, ..self },
                Plan {
                    reply: match reply {
                        Some(to) => Some(Reply { to, result: Ok(()) }),
                        None => None,
                    },
                    drain: self.in_flight > 0,
                    ..Plan::idle()
                },
            )
        } else {
            self.final_export(Pending::Flush(reply))
        }
    }

    /// The end of the worker, asked for by a caller (`reply` is where the
    /// answer goes) or forced by the closing of the queue (no reply): what is
    /// buffered is exported a last time, all running exports are awaited,
    /// the exporter is shut down, and only then the caller is answered.
    pub open spec fn finish(self, reply: Option<ReplySender>) -> StepModel<T> {
        if self.buffer.len() == 0 {
            StepModel::Stop(
                Plan {
                    wait: self.all_wait(),
                    shutdown_exporter: true,
                    reply: match reply {
                        Some(to) => Some(Reply { to, result: Ok(()) }),
                        None => None,
                    },
                    ..Plan::idle()
                },
            )
        } else {
            self.final_export(Pending::Shutdown(reply))
        }
    }

    /// The transition on a message.
    pub open spec fn handle(self, message: BatchMessage<T>) -> StepModel<T> {
        match message {
            BatchMessage::ExportRecord(record) => self.record(record),
            BatchMessage::Flush(reply) => self.flush(reply),
            BatchMessage::Shutdown(reply) => self.finish(Some(reply)),
            BatchMessage::SetResource(resource) => StepModel::Continue(
                self,
                Plan { resource: Some(resource), ..Plan::idle() },
            ),
        }
    }

    /// The transition when the queue is closed without a shutdown request.
    pub open spec fn channel_closed(self) -> StepModel<T> {
        self.finish(None)
    }

    /// The transition when a background export is seen to finish.
    pub open spec fn task_finished(self) -> WorkerState<T> {
        WorkerState {
            in_flight: if self.in_flight > 0 {
                (self.in_flight - 1) as nat
            } else {
                0
            },
            ..self
        }
    }
}

impl<T> PendingState<T> {
    /// The transition when the awaited export has finished with `outcome`.
    pub open spec fn finished(self, outcome: ExportOutcome) -> StepModel<T> {
        let result = timed_result(outcome, self.worker.limits.max_export_timeout);
        match self.after {
            Pending::Batch => StepModel::Continue(
                self.worker,
                Plan { diagnostic: failure_of(result), ..Plan::idle() },
            ),
            Pending::Flush(Some(to)) => StepModel::Continue(
                WorkerState { in_flight: 0, ..self.worker },
                Plan {
                    reply: Some(Reply { to, result }),
                    drain: self.worker.in_flight > 0,
                    ..Plan::idle()
                },
            ),
            Pending::Flush(None) => StepModel::Continue(
                WorkerState { in_flight: 0, ..self.worker },
                Plan {
                    drain: self.worker.in_flight > 0,
                    diagnostic: failure_of(result),
                    ..Plan::idle()
                },
            ),
            Pending::Shutdown(Some(to)) => StepModel::Stop(
                Plan {
                    wait: self.worker.all_wait(),
                    shutdown_exporter: true,
                    reply: Some(Reply { to, result }),
                    ..Plan::idle()
                },
            ),
            Pending::Shutdown(None) => StepModel::Stop(
                Plan {
                    wait: self.worker.all_wait(),
                    shutdown_exporter: true,
                    diagnostic: failure_of(result),
                    ..Plan::idle()
                },
            ),
        }
    }
}

/// A batch worker that is ready for its next message.
#[derive(Debug)]
pub struct BatchWorker<T> {
    limits: Limits,
    buffer: Vec<T>,
    in_flight: usize,
}

/// A batch worker that waits for the outcome of an export it has started.
#[derive(Debug)]
pub struct PendingExport<T> {
    worker: BatchWorker<T>,
    after: Pending,
}

/// One step of a worker: what the event loop must do, and how the worker
/// goes on afterwards.
#[derive(Debug)]
pub enum Step<T> {
    /// Carry out the directive, then hand the worker its next message.
    Continue(BatchWorker<T>, Directive<T>),
    /// Carry out the directive, whose export is to be awaited, then report
    /// the outcome of that export with [`PendingExport::finished`].
    Export(PendingExport<T>, Directive<T>),
    /// Carry out the directive and end the loop: the worker is gone.
    Stop(Directive<T>),
}

impl<T> View for BatchWorker<T> {
    type V = WorkerState<T>;

    closed spec fn view(&self) -> WorkerState<T> {
        WorkerState { limits: self.limits, buffer: self.buffer@, in_flight: self.in_flight as nat }
    }
}

impl<T> View for PendingExport<T> {
    type V = PendingState<T>;

    closed spec fn view(&self) -> PendingState<T> {
        PendingState { worker: self.worker@, after: self.after }
    }
}

impl<T> View for Step<T> {
    type V = StepModel<T>;

    open spec fn view(&self) -> StepModel<T> {
        match self {
            Step::Continue(worker, directive) => StepModel::Continue(worker@, directive@),
            Step::Export(pending, directive) => StepModel::Export(pending@, directive@),
            Step::Stop(directive) => StepModel::Stop(directive@),
        }
    }
}

/// Makes a slot free for one more export where the limit on concurrent
/// exports is reached: says what to wait for, and how many exports will be
/// running after that.
fn free_slot(limits: Limits, in_flight: usize) -> (slot: (Wait, usize))
    ensures
        slot.0 == if slot_needed(limits, in_flight as nat) {
            Wait::One
        } else {
            Wait::Nothing
        },
        slot.1 == if slot_needed(limits, in_flight as nat) {
            in_flight - 1
        } else {
            in_flight as int
        },
        slot.1 < usize::MAX,
{
    if in_flight > 0 && (in_flight == limits.max_concurrent_exports || in_flight == usize::MAX) {
        (Wait::One, in_flight - 1)
    } else {
        (Wait::Nothing, in_flight)
    }
}

impl<T> BatchWorker<T> {
    /// Every worker is in a state that a run can reach.
    #[verifier::type_invariant]
    closed spec fn reachable(self) -> bool {
        self@.well_formed()
    }

    /// A worker with an empty buffer and no export running.
    pub fn new(limits: Limits) -> (worker: BatchWorker<T>)
        ensures
            worker@ == WorkerState::<T>::fresh(limits),
            worker@.well_formed(),
    {
        BatchWorker { limits, buffer: Vec::new(), in_flight: 0 }
    }

    /// The limits this worker runs under.
    pub fn limits(&self) -> (limits: Limits)
        ensures
            limits == self@.limits,
    {
        self.limits
    }

    /// The number of records received and not yet handed to the exporter:
    /// always short of a full batch.
    pub fn buffered(&self) -> (n: usize)
        ensures
            n == self@.buffer.len(),
            self@.well_formed(),
    {
        proof {
            use_type_invariant(self);
        }
        self.buffer.len()
    }

    /// The number of background exports that have not been seen to finish:
    /// never more than the limit on concurrent exports allows.
    pub fn in_flight(&self) -> (n: usize)
        ensures
            n == self@.in_flight,
            self@.well_formed(),
    {
        proof {
            use_type_invariant(self);
        }
        self.in_flight
    }

    /// Takes everything buffered into an export that is awaited, and leaves
    /// `after` to be done when it has finished.
    fn export_all(self, after: Pending) -> (step: Step<T>)
        requires
            self@.buffer.len() > 0,
        ensures
            step@ == self@.final_export(after),
    {
        proof {
            use_type_invariant(&self);
        }
        let BatchWorker { limits, buffer, in_flight } = self;
        let (wait, in_flight) = free_slot(limits, in_flight);
        let job = ExportJob { batch: buffer, timeout: limits.max_export_timeout, background: false };
        let directive = Directive {
            wait,
            export: Some(job),
            resource: None,
            shutdown_exporter: false,
            reply: None,
            drain: false,
            diagnostic: None,
        };
        let worker = BatchWorker { limits, buffer: Vec::new(), in_flight };
        Step::Export(PendingExport { worker, after }, directive)
    }

    /// Buffers one record and starts an export if that fills the batch.
    fn record(self, record: T) -> (step: Step<T>)
        ensures
            step@ == self@.record(record),
    {
        proof {
            use_type_invariant(&self);
        }
        let BatchWorker { limits, buffer, in_flight } = self;
        let mut buffer = buffer;
        buffer.push(record);
        if buffer.len() != limits.max_export_batch_size {
            return Step::Continue(BatchWorker { limits, buffer, in_flight }, Directive::idle());
        }
        if limits.max_concurrent_exports == 1 {
            let job = ExportJob {
                batch: buffer,
                timeout: limits.max_export_timeout,
                background: false,
            };
            let directive = Directive {
                wait: Wait::Nothing,
                export: Some(job),
                resource: None,
                shutdown_exporter: false,
                reply: None,
                drain: false,
                diagnostic: None,
            };
            let worker = BatchWorker { limits, buffer: Vec::new(), in_flight };
            Step::Export(PendingExport { worker, after: Pending::Batch }, directive)
        } else {
            let (wait, in_flight) = free_slot(limits, in_flight);
            let job = ExportJob {
                batch: buffer,
                timeout: limits.max_export_timeout,
                background: true,
            };
            let directive = Directive {
                wait,
                export: Some(job),
                resource: None,
                shutdown_exporter: false,
                reply: None,
                drain: false,
                diagnostic: None,
            };
            Step::Continue(
                BatchWorker { limits, buffer: Vec::new(), in_flight: in_flight + 1 },
                directive,
            )
        }
    }

    /// Handles a flush request.
    fn flush(self, reply: Option<ReplySender>) -> (step: Step<T>)
        ensures
            step@ == self@.flush(reply),
    {
        if self.buffer.len() != 0 {
            return self.export_all(Pending::Flush(reply));
        }
        proof {
            use_type_invariant(&self);
        }
        let BatchWorker { limits, buffer, in_flight } = self;
        let directive = Directive {
            wait: Wait::Nothing,
            export: None,
            resource: None,
            shutdown_exporter: false,
            reply: match reply {
                Some(to) => Some(Reply { to, result: Ok(()) }),
                None => None,
            },
            drain: in_flight > 0,
            diagnostic: None,
        };
        Step::Continue(BatchWorker { limits, buffer, in_flight: 0 }, directive)
    }

    /// Ends the worker.
    fn finish(self, reply: Option<ReplySender>) -> (step: Step<T>)
        ensures
            step@ == self@.finish(reply),
    {
        if self.buffer.len() != 0 {
            return self.export_all(Pending::Shutdown(reply));
        }
        let directive = Directive {
            wait: if self.in_flight > 0 {
                Wait::All
            } else {
                Wait::Nothing
            },
            export: None,
            resource: None,
            shutdown_exporter: true,
            reply: match reply {
                Some(to) => Some(Reply { to, result: Ok(()) }),
                None => None,
            },
            drain: false,
            diagnostic: None,
        };
        Step::Stop(directive)
    }

    /// Handles one message from the queue or the timer.
    ///
    /// The step returned is the one the model prescribes: see
    /// [`WorkerState::handle`] and the functions it is made of. The worker
    /// was in a well-formed state, and so is the one that goes on.
    pub fn handle(self, message: BatchMessage<T>) -> (step: Step<T>)
        ensures
            self@.well_formed(),
            step@ == self@.handle(message),
            step matches Step::Continue(next, _) ==> next@.well_formed(),
    {
        proof {
            use_type_invariant(&self);
        }
        let step = match message {
            BatchMessage::ExportRecord(record) => self.record(record),
            BatchMessage::Flush(reply) => self.flush(reply),
            BatchMessage::Shutdown(reply) => self.finish(Some(reply)),
            BatchMessage::SetResource(resource) => {
                let directive = Directive {
                    wait: Wait::Nothing,
                    export: None,
                    resource: Some(resource),
                    shutdown_exporter: false,
                    reply: None,
                    drain: false,
                    diagnostic: None,
                };
                Step::Continue(self, directive)
            },
        };
        proof {
            match &step {
                Step::Continue(next, _) => {
                    use_type_invariant(next);
                },
                _ => {},
            }
        }
        step
    }

    /// Handles the closing of the queue: every sender is gone and no
    /// shutdown was requested.
    pub fn channel_closed(self) -> (step: Step<T>)
        ensures
            self@.well_formed(),
            step@ == self@.channel_closed(),
    {
        proof {
            use_type_invariant(&self);
        }
        self.finish(None)
    }

    /// Takes note that one background export has finished.
    pub fn task_finished(&mut self)
        ensures
            final(self)@ == old(self)@.task_finished(),
            final(self)@.well_formed(),
    {
        proof {
            use_type_invariant(&*self);
        }
        if self.in_flight > 0 {
            self.in_flight = self.in_flight - 1;
        }
    }
}

impl<T> PendingExport<T> {
    /// What remains to be done once the export has finished.
    pub fn remaining(&self) -> (after: &Pending)
        ensures
            *after == self@.after,
    {
        &self.after
    }

    /// Handles the end of the awaited export.
    ///
    /// The result of the export is `timed_result(outcome, timeout)`. It is
    /// sent to the caller who asked for the flush or the shutdown; where
    /// nobody asked, a failure is reported as a diagnostic. A failed export
    /// never stops the worker: only a shutdown or a closed queue does.
    pub fn finished(self, outcome: ExportOutcome) -> (step: Step<T>)
        ensures
            step@ == self@.finished(outcome),
            step matches Step::Continue(next, _) ==> next@.well_formed(),
    {
        let PendingExport { worker, after } = self;
        proof {
            use_type_invariant(&worker);
        }
        let result = export_result(outcome, worker.limits.max_export_timeout);
        match after {
            Pending::Batch => {
                let directive = Directive {
                    wait: Wait::Nothing,
                    export: None,
                    resource: None,
                    shutdown_exporter: false,
                    reply: None,
                    drain: false,
                    diagnostic: export_failure(result),
                };
                Step::Continue(worker, directive)
            },
            Pending::Flush(reply) => {
                let BatchWorker { limits, buffer, in_flight } = worker;
                let directive = match reply {
                    Some(to) => Directive {
                        wait: Wait::Nothing,
                        export: None,
                        resource: None,
                        shutdown_exporter: false,
                        reply: Some(Reply { to, result }),
                        drain: in_flight > 0,
                        diagnostic: None,
                    },
                    None => Directive {
                        wait: Wait::Nothing,
                        export: None,
                        resource: None,
                        shutdown_exporter: false,
                        reply: None,
                        drain: in_flight > 0,
                        diagnostic: export_failure(result),
                    },
                };
                Step::Continue(BatchWorker { limits, buffer, in_flight: 0 }, directive)
            },
            Pending::Shutdown(reply) => {
                let wait = if worker.in_flight > 0 {
                    Wait::All
                } else {
                    Wait::Nothing
                };
                let directive = match reply {
                    Some(to) => Directive {
                        wait,
                        export: None,
                        resource: None,
                        shutdown_exporter: true,
                        reply: Some(Reply { to, result }),
                        drain: false,
                        diagnostic: None,
                    },
                    None => Directive {
                        wait,
                        export: None,
                        resource: None,
                        shutdown_exporter: true,
                        reply: None,
                        drain: false,
                        diagnostic: export_failure(result),
                    },
                };
                Step::Stop(directive)
            },
        }
    }
}

/// What a worker has done so far: the worker as it is now, unless it has
/// stopped, and the directives it has given, oldest first.
pub struct Trace<T> {
    pub worker: Option<WorkerState<T>>,
    pub plans: Seq<Plan<T>>,
}

/// One whole step: `message` is handled and, where that starts an awaited
/// export, the export finishes with `outcome`.
pub open spec fn deliver<T>(
    state: WorkerState<T>,
    message: BatchMessage<T>,
    outcome: ExportOutcome,
) -> Trace<T> {
    match state.handle(message) {
        StepModel::Continue(next, plan) => Trace { worker: Some(next), plans: seq![plan] },
        StepModel::Stop(plan) => Trace { worker: None, plans: seq![plan] },
        StepModel::Export(pending, plan) => match pending.finished(outcome) {
            StepModel::Continue(next, last) => Trace {
                worker: Some(next),
                plans: seq![plan, last],
            },
            StepModel::Stop(last) => Trace { worker: None, plans: seq![plan, last] },
            StepModel::Export(_, last) => Trace { worker: None, plans: seq![plan, last] },
        },
    }
}

/// The run of a worker over `messages`, where the awaited export of the
/// message at position `i`, if it has one, ends with `outcomes(i)`. Messages
/// that follow a shutdown are never handled.
pub open spec fn run<T>(
    state: WorkerState<T>,
    messages: Seq<BatchMessage<T>>,
    outcomes: spec_fn(int) -> ExportOutcome,
) -> Trace<T>
    decreases messages.len(),
{
    if messages.len() == 0 {
        Trace { worker: Some(state), plans: Seq::empty() }
    } else {
        let before = run(state, messages.drop_last(), outcomes);
        match before.worker {
            None => before,
            Some(worker) => {
                let step = deliver(worker, messages.last(), outcomes(messages.len() - 1));
                Trace { worker: step.worker, plans: before.plans + step.plans }
            },
        }
    }
}

/// All records that `plans` hand to the exporter, in the order in which the
/// exports are started.
pub open spec fn exported<T>(plans: Seq<Plan<T>>) -> Seq<T>
    decreases plans.len(),
{
    if plans.len() == 0 {
        Seq::empty()
    } else {
        exported(plans.drop_last()) + plans.last().batch()
    }
}

/// All records that `messages` carry, in the order of the messages.
pub open spec fn records<T>(messages: Seq<BatchMessage<T>>) -> Seq<T>
    decreases messages.len(),
{
    if messages.len() == 0 {
        Seq::empty()
    } else {
        match messages.last() {
            BatchMessage::ExportRecord(record) => records(messages.drop_last()).push(record),
            _ => records(messages.drop_last()),
        }
    }
}

/// The messages by which `items` are enqueued one after another.
pub open spec fn enqueue<T>(items: Seq<T>) -> Seq<BatchMessage<T>> {
    Seq::new(items.len(), |i: int| BatchMessage::ExportRecord(items[i]))
}

/// No message asks for a shutdown.
pub open spec fn no_shutdown<T>(messages: Seq<BatchMessage<T>>) -> bool {
    forall|i: int| 0 <= i < messages.len() ==> !(#[trigger] messages[i] is Shutdown)
}

/// Every export is awaited where it starts, so that the exporter sees the
/// batches one after another, in the order of the plans.
pub open spec fn all_awaited<T>(plans: Seq<Plan<T>>) -> bool {
    forall|i: int|
        0 <= i < plans.len() ==> ((#[trigger] plans[i]).export matches Some(job)
            ==> !job.background)
}

/// Every export holds at least one record, at most `max_export_batch_size`
/// records where that limit is not zero, and is given `max_export_timeout`.
pub open spec fn all_bounded<T>(plans: Seq<Plan<T>>, limits: Limits) -> bool {
    forall|i: int|
        0 <= i < plans.len() ==> ((#[trigger] plans[i]).export matches Some(job) ==> {
            &&& job.batch.len() >= 1
            &&& limits.max_export_batch_size >= 1 ==> job.batch.len()
                <= limits.max_export_batch_size
            &&& job.timeout == limits.max_export_timeout
        })
}

impl<T> WorkerState<T> {
    /// The states a worker can be in between two messages: the buffer is
    /// short of a full batch, and no more exports run than the limit allows
    /// (none at all in the background where the limit is 1).
    pub open spec fn well_formed(self) -> bool {
        &&& self.limits.max_export_batch_size >= 1 ==> self.buffer.len()
            < self.limits.max_export_batch_size
        &&& self.limits.max_concurrent_exports == 1 ==> self.in_flight == 0
        &&& self.limits.max_concurrent_exports >= 1 ==> self.in_flight
            <= self.limits.max_concurrent_exports
        &&& self.in_flight <= usize::MAX
    }
}

/// A worker starts out well formed.
pub proof fn lemma_fresh_is_well_formed<T>(limits: Limits)
    ensures
        WorkerState::<T>::fresh(limits).well_formed(),
{
}

proof fn lemma_exported_concat<T>(first: Seq<Plan<T>>, second: Seq<Plan<T>>)
    ensures
        exported(first + second) == exported(first) + exported(second),
    decreases second.len(),
{
    if second.len() == 0 {
        assert(first + second == first);
    } else {
        lemma_exported_concat(first, second.drop_last());
        assert((first + second).drop_last() == first + second.drop_last());
        assert((first + second).last() == second.last());
    }
}

proof fn lemma_exported_one<T>(plan: Plan<T>)
    ensures
        exported(seq![plan]) == plan.batch(),
{
    assert(seq![plan].drop_last() == Seq::<Plan<T>>::empty());
    assert(exported(seq![plan].drop_last()) == Seq::<T>::empty());
}

proof fn lemma_exported_two<T>(first: Plan<T>, second: Plan<T>)
    ensures
        exported(seq![first, second]) == first.batch() + second.batch(),
{
    assert(seq![first, second].drop_last() == seq![first]);
    lemma_exported_one(first);
}

proof fn lemma_records_last<T>(messages: Seq<BatchMessage<T>>)
    requires
        messages.len() > 0,
    ensures
        records(messages) == records(messages.drop_last()) + records(seq![messages.last()]),
{
    let last = seq![messages.last()];
    assert(last.drop_last() == Seq::<BatchMessage<T>>::empty());
    assert(records(last.drop_last()) == Seq::<T>::empty());
}

proof fn lemma_records_enqueue<T>(items: Seq<T>)
    ensures
        records(enqueue(items)) == items,
        no_shutdown(enqueue(items)),
    decreases items.len(),
{
    if items.len() > 0 {
        lemma_records_enqueue(items.drop_last());
        assert(enqueue(items).drop_last() == enqueue(items.drop_last()));
        assert(records(enqueue(items)) == items);
    }
}

/// One step from a well-formed state: the state that follows is well formed
/// and runs under the same limits, every export that is started is bounded,
/// the records exported and those still buffered are the ones buffered
/// before and the one that arrived, and only a shutdown stops the worker; it
/// leaves nothing buffered behind.
pub proof fn lemma_step<T>(
    state: WorkerState<T>,
    message: BatchMessage<T>,
    outcome: ExportOutcome,
)
    requires
        state.well_formed(),
    ensures
        ({
            let step = deliver(state, message, outcome);
            &&& all_bounded(step.plans, state.limits)
            &&& state.limits.max_concurrent_exports == 1 ==> all_awaited(step.plans)
            &&& match step.worker {
                Some(next) => {
                    &&& !(message is Shutdown)
                    &&& next.well_formed()
                    &&& next.limits == state.limits
                    &&& exported(step.plans) + next.buffer == state.buffer + records(
                        seq![message],
                    )
                    &&& message is Flush ==> next.buffer.len() == 0 && next.in_flight == 0
                },
                None => message is Shutdown && exported(step.plans) == state.buffer,
            }
        }),
{
    let step = deliver(state, message, outcome);
    assert(seq![message].drop_last() == Seq::<BatchMessage<T>>::empty());
    assert(records(seq![message].drop_last()) == Seq::<T>::empty());
    match state.handle(message) {
        StepModel::Continue(next, plan) => {
            lemma_exported_one(plan);
        },
        StepModel::Stop(plan) => {
            lemma_exported_one(plan);
        },
        StepModel::Export(pending, plan) => {
            match pending.finished(outcome) {
                StepModel::Continue(next, last) => {
                    lemma_exported_two(plan, last);
                },
                StepModel::Stop(last) => {
                    lemma_exported_two(plan, last);
                },
                StepModel::Export(_, last) => {},
            }
        },
    }
}

/// Nothing is lost and nothing is invented: as long as no shutdown is asked
/// for, the records handed to the exporter followed by those still buffered
/// are exactly the records buffered at the start followed by the records
/// received, in the order in which they were received. Exports stay within
/// the limits, and with a limit of one concurrent export each is awaited
/// before the next message is looked at.
pub proof fn lemma_run_conserves_records<T>(
    state: WorkerState<T>,
    messages: Seq<BatchMessage<T>>,
    outcomes: spec_fn(int) -> ExportOutcome,
)
    requires
        state.well_formed(),
        no_shutdown(messages),
    ensures
        ({
            let trace = run(state, messages, outcomes);
            &&& trace.worker matches Some(worker) && worker.well_formed() && worker.limits
                == state.limits && exported(trace.plans) + worker.buffer == state.buffer
                + records(messages)
            &&& all_bounded(trace.plans, state.limits)
            &&& state.limits.max_concurrent_exports == 1 ==> all_awaited(trace.plans)
        }),
    decreases messages.len(),
{
    if messages.len() == 0 {
        assert(exported(Seq::<Plan<T>>::empty()) + state.buffer == state.buffer + records(
            messages,
        ));
    } else {
        let earlier = messages.drop_last();
        lemma_run_conserves_records(state, earlier, outcomes);
        let before = run(state, earlier, outcomes);
        let step = deliver(before.worker->0, messages.last(), outcomes(messages.len() - 1));
        lemma_step(before.worker->0, messages.last(), outcomes(messages.len() - 1));
        lemma_exported_concat(before.plans, step.plans);
        lemma_records_last(messages);
        assert(exported(before.plans) + (exported(step.plans) + step.worker->0.buffer) == (
        exported(before.plans) + exported(step.plans)) + step.worker->0.buffer);
        assert((state.buffer + records(earlier)) + records(seq![messages.last()])
            == state.buffer + (records(earlier) + records(seq![messages.last()])));
    }
}

/// Every record that was accepted before a flush reaches the exporter, once
/// and in the order of arrival: a fresh worker that receives `items` and then
/// a flush has handed exactly `items` to the exporter and buffers nothing.
/// With a limit of one concurrent export every batch is awaited where it
/// starts, so the exporter receives the records in that order too.
pub proof fn lemma_flush_exports_all_in_order<T>(
    limits: Limits,
    items: Seq<T>,
    reply: Option<ReplySender>,
    outcomes: spec_fn(int) -> ExportOutcome,
)
    ensures
        ({
            let messages = enqueue(items).push(BatchMessage::Flush(reply));
            let trace = run(WorkerState::<T>::fresh(limits), messages, outcomes);
            &&& exported(trace.plans) == items
            &&& trace.worker matches Some(worker) && worker.buffer.len() == 0
            &&& limits.max_concurrent_exports == 1 ==> all_awaited(trace.plans)
        }),
{
    let state = WorkerState::<T>::fresh(limits);
    let messages = enqueue(items).push(BatchMessage::Flush(reply));
    lemma_records_enqueue(items);
    assert(messages.drop_last() == enqueue(items));
    assert(no_shutdown(messages));
    lemma_run_conserves_records(state, messages, outcomes);
    lemma_run_conserves_records(state, enqueue(items), outcomes);
    let before = run(state, enqueue(items), outcomes);
    lemma_step(before.worker->0, messages.last(), outcomes(messages.len() - 1));
    let trace = run(state, messages, outcomes);
    assert(records(messages) == items);
    assert(exported(trace.plans) == items) by {
        assert(trace.worker->0.buffer == Seq::<T>::empty());
        assert(exported(trace.plans) + Seq::<T>::empty() == exported(trace.plans));
        assert(state.buffer + items == items);
    }
}

/// A run only ever adds directives to those already given.
pub proof fn lemma_run_extends<T>(
    state: WorkerState<T>,
    earlier: Seq<BatchMessage<T>>,
    later: Seq<BatchMessage<T>>,
    outcomes: spec_fn(int) -> ExportOutcome,
)
    ensures
        run(state, earlier, outcomes).plans.is_prefix_of(
            run(state, earlier + later, outcomes).plans,
        ),
    decreases later.len(),
{
    if later.len() == 0 {
        assert(earlier + later == earlier);
    } else {
        lemma_run_extends(state, earlier, later.drop_last(), outcomes);
        assert((earlier + later).drop_last() == earlier + later.drop_last());
    }
}

/// A resource reaches the exporter before any record that is enqueued after
/// it: when the worker hands over a resource, it starts no export in the same
/// step, what it has exported until then are records received earlier, and
/// whatever messages follow, the directives given so far stay as they are.
pub proof fn lemma_resource_precedes_later_records<T>(
    state: WorkerState<T>,
    earlier: Seq<BatchMessage<T>>,
    resource: Resource,
    later: Seq<BatchMessage<T>>,
    outcomes: spec_fn(int) -> ExportOutcome,
)
    requires
        state.well_formed(),
        no_shutdown(earlier),
    ensures
        ({
            let upto = run(state, earlier.push(BatchMessage::SetResource(resource)), outcomes);
            let whole = run(
                state,
                earlier.push(BatchMessage::SetResource(resource)) + later,
                outcomes,
            );
            &&& upto.plans.len() > 0
            &&& upto.plans.last().resource == Some(resource)
            &&& upto.plans.last().export is None
            &&& upto.worker matches Some(worker) && exported(upto.plans) + worker.buffer
                == state.buffer + records(earlier)
            &&& upto.plans.is_prefix_of(whole.plans)
        }),
{
    let messages = earlier.push(BatchMessage::SetResource(resource));
    assert(messages.drop_last() == earlier);
    lemma_run_conserves_records(state, earlier, outcomes);
    lemma_run_conserves_records(state, messages, outcomes);
    lemma_run_extends(state, messages, later, outcomes);
}

/// A flush is answered with the result of its own export: a flush that finds
/// nothing buffered is answered with success and the exporter is not called;
/// otherwise everything buffered goes out in one export, and the answer is
/// that export's result, a time-out error where the timer fired first. The
/// exporter is not shut down and the worker goes on with an empty buffer.
pub proof fn lemma_flush_is_answered<T>(
    state: WorkerState<T>,
    to: ReplySender,
    outcome: ExportOutcome,
)
    ensures
        ({
            let step = deliver(state, BatchMessage::Flush(Some(to)), outcome);
            &&& step.worker matches Some(next) && next.buffer.len() == 0
            &&& exported(step.plans) == state.buffer
            &&& state.buffer.len() == 0 ==> step.plans.len() == 1 && step.plans[0].export is None
            &&& forall|i: int|
                0 <= i < step.plans.len() ==> !(#[trigger] step.plans[i]).shutdown_exporter
            &&& step.plans.last().reply == Some(
                Reply {
                    to,
                    result: if state.buffer.len() == 0 {
                        Ok(())
                    } else {
                        timed_result(outcome, state.limits.max_export_timeout)
                    },
                },
            )
        }),
{
    match state.handle(BatchMessage::Flush(Some(to))) {
        StepModel::Continue(next, plan) => {
            lemma_exported_one(plan);
        },
        StepModel::Stop(plan) => {},
        StepModel::Export(pending, plan) => {
            match pending.finished(outcome) {
                StepModel::Continue(next, last) => {
                    lemma_exported_two(plan, last);
                },
                _ => {},
            }
        },
    }
}

/// A queue that closes ends the worker as a shutdown does, but for the
/// answer: whatever was buffered is exported in one last batch, the exporter
/// is shut down in the last directive, and nobody is answered.
pub proof fn lemma_closed_queue_drains<T>(state: WorkerState<T>, outcome: ExportOutcome)
    ensures
        match state.channel_closed() {
            StepModel::Stop(plan) => {
                &&& state.buffer.len() == 0
                &&& plan.export is None
                &&& plan.shutdown_exporter
                &&& plan.reply is None
            },
            StepModel::Export(pending, plan) => {
                &&& plan.batch() == state.buffer
                &&& !plan.shutdown_exporter
                &&& pending.finished(outcome) matches StepModel::Stop(last)
                &&& last.export is None
                &&& last.shutdown_exporter
                &&& last.reply is None
            },
            StepModel::Continue(_, _) => false,
        },
{
}

/// A shutdown drains the worker and ends it: whatever was buffered is
/// exported in one last batch, the exporter is shut down exactly once, in the
/// last directive, which also carries the answer to the caller, and the
/// worker handles nothing after it.
pub proof fn lemma_shutdown_drains_and_stops<T>(
    state: WorkerState<T>,
    reply: ReplySender,
    outcome: ExportOutcome,
    later: Seq<BatchMessage<T>>,
    outcomes: spec_fn(int) -> ExportOutcome,
)
    requires
        state.well_formed(),
        outcomes(0) == outcome,
    ensures
        ({
            let step = deliver(state, BatchMessage::Shutdown(reply), outcome);
            &&& step.worker is None
            &&& exported(step.plans) == state.buffer
            &&& step.plans.last().shutdown_exporter
            &&& step.plans.len() == 2 ==> !step.plans[0].shutdown_exporter
            &&& step.plans.last().reply matches Some(answer) && answer.to == reply
                && answer.result == if state.buffer.len() == 0 {
                Ok(())
            } else {
                timed_result(outcome, state.limits.max_export_timeout)
            }
            &&& run(state, seq![BatchMessage::Shutdown(reply)] + later, outcomes) == step
        }),
{
    let first = seq![BatchMessage::Shutdown(reply)];
    let step = deliver(state, BatchMessage::Shutdown(reply), outcome);
    lemma_step(state, BatchMessage::Shutdown(reply), outcome);
    assert(run(state, first, outcomes) == step) by {
        let nothing = Seq::<BatchMessage<T>>::empty();
        assert(first.drop_last() == nothing);
        assert(run(state, nothing, outcomes) == Trace {
            worker: Some(state),
            plans: Seq::<Plan<T>>::empty(),
        });
        assert(first.last() == BatchMessage::<T>::Shutdown(reply));
        assert(Seq::<Plan<T>>::empty() + step.plans == step.plans);
    }
    lemma_run_stopped(state, first, later, outcomes);
}

proof fn lemma_run_stopped<T>(
    state: WorkerState<T>,
    earlier: Seq<BatchMessage<T>>,
    later: Seq<BatchMessage<T>>,
    outcomes: spec_fn(int) -> ExportOutcome,
)
    requires
        run(state, earlier, outcomes).worker is None,
    ensures
        run(state, earlier + later, outcomes) == run(state, earlier, outcomes),
    decreases later.len(),
{
    if later.len() == 0 {
        assert(earlier + later == earlier);
    } else {
        lemma_run_stopped(state, earlier, later.drop_last(), outcomes);
        assert((earlier + later).drop_last() == earlier + later.drop_last());
    }
}

} // verus!
