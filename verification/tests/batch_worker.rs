use futures_channel::oneshot;
use otel_pipeline::channel::{
    enqueue_diagnostic, reply_diagnostic, reply_result, request_result, TrySendError,
};
use otel_pipeline::error::{
    export_failure, export_result, Diagnostic, ExportOutcome, ExportResult, PipelineError,
    Reporter, Severity,
};
use otel_pipeline::export::{InstrumentationScope, SpanContext, SpanData, SpanKind, Status};
use otel_pipeline::resource::{KeyValue, Resource};
use otel_pipeline::span_processor::{export_message, BatchConfigBuilder};
use otel_pipeline::worker::{
    BatchMessage, BatchWorker, Directive, Limits, Pending, Step, Wait,
};
use std::collections::VecDeque;
use std::time::Duration;

/// What the exporter of a test has been asked to do, in order.
#[derive(Debug, Clone, PartialEq)]
enum Call {
    Export(Vec<u32>),
    SetResource(usize),
    Shutdown,
}

/// An event loop without a runtime: it carries out the directives of a
/// worker one after another. Exports end the way the test says.
struct Loop {
    worker: Option<BatchWorker<u32>>,
    calls: Vec<Call>,
    /// Background exports that have not been waited for.
    running: usize,
    most_running: usize,
    waits: Vec<Wait>,
    diagnostics: Vec<Diagnostic>,
    /// How the next exports end; `Ok` when nothing is listed.
    outcomes: VecDeque<ExportOutcome>,
}

impl Loop {
    fn new(limits: Limits) -> Loop {
        Loop {
            worker: Some(BatchWorker::new(limits)),
            calls: Vec::new(),
            running: 0,
            most_running: 0,
            waits: Vec::new(),
            diagnostics: Vec::new(),
            outcomes: VecDeque::new(),
        }
    }

    fn next_outcome(&mut self) -> ExportOutcome {
        self.outcomes
            .pop_front()
            .unwrap_or(ExportOutcome::Completed(Ok(())))
    }

    /// Carries out one directive; returns the outcome of its export if that
    /// export is awaited.
    fn perform(&mut self, directive: Directive<u32>) -> Option<ExportOutcome> {
        let mut awaited = None;
        match directive.wait {
            Wait::Nothing => {}
            Wait::One => {
                assert!(self.running > 0, "nothing to wait for");
                self.running -= 1;
                self.waits.push(Wait::One);
            }
            Wait::All => {
                self.running = 0;
                self.waits.push(Wait::All);
            }
        }
        if let Some(job) = directive.export {
            self.calls.push(Call::Export(job.batch));
            let outcome = self.next_outcome();
            if job.background {
                self.running += 1;
                self.most_running = self.most_running.max(self.running);
                let result = export_result(outcome, job.timeout);
                self.diagnostics.extend(export_failure(result));
            } else {
                self.most_running = self.most_running.max(self.running + 1);
                awaited = Some(outcome);
            }
        }
        if let Some(resource) = directive.resource {
            self.calls.push(Call::SetResource(resource.len()));
        }
        if directive.shutdown_exporter {
            self.calls.push(Call::Shutdown);
        }
        if let Some(reply) = directive.reply {
            let delivered = reply.to.send(reply.result).is_ok();
            self.diagnostics.extend(reply_diagnostic(delivered));
        }
        if directive.drain {
            self.running = 0;
            self.waits.push(Wait::All);
        }
        self.diagnostics.extend(directive.diagnostic);
        awaited
    }

    fn settle(&mut self, step: Step<u32>) {
        match step {
            Step::Continue(worker, directive) => {
                assert!(self.perform(directive).is_none());
                self.worker = Some(worker);
            }
            Step::Export(pending, directive) => {
                let outcome = self.perform(directive).expect("an awaited export");
                let after = pending.finished(outcome);
                assert!(!matches!(after, Step::Export(..)));
                self.settle(after);
            }
            Step::Stop(directive) => {
                assert!(self.perform(directive).is_none());
                self.worker = None;
            }
        }
    }

    /// Hands the worker its next message. Returns whether there was a worker
    /// to take it.
    fn send(&mut self, message: BatchMessage<u32>) -> bool {
        match self.worker.take() {
            Some(worker) => {
                let step = worker.handle(message);
                self.settle(step);
                true
            }
            None => false,
        }
    }

    fn emit(&mut self, record: u32) {
        assert!(self.send(BatchMessage::ExportRecord(record)));
    }

    fn force_flush(&mut self) -> ExportResult {
        let (sender, mut receiver) = oneshot::channel();
        let sent = if self.send(BatchMessage::Flush(Some(sender))) {
            Ok(())
        } else {
            Err(TrySendError::ChannelClosed)
        };
        request_result(sent)?;
        reply_result(receiver.try_recv().ok().flatten())
    }

    fn shutdown(&mut self) -> ExportResult {
        let (sender, mut receiver) = oneshot::channel();
        let sent = if self.send(BatchMessage::Shutdown(sender)) {
            Ok(())
        } else {
            Err(TrySendError::ChannelClosed)
        };
        request_result(sent)?;
        reply_result(receiver.try_recv().ok().flatten())
    }

    fn tick(&mut self) {
        assert!(self.send(BatchMessage::Flush(None)));
    }

    fn exported(&self) -> Vec<u32> {
        self.calls
            .iter()
            .flat_map(|call| match call {
                Call::Export(batch) => batch.clone(),
                _ => Vec::new(),
            })
            .collect()
    }

    fn exports(&self) -> Vec<Vec<u32>> {
        self.calls
            .iter()
            .filter_map(|call| match call {
                Call::Export(batch) => Some(batch.clone()),
                _ => None,
            })
            .collect()
    }
}

fn limits(batch: usize, timeout_ms: u64, concurrent: usize) -> Limits {
    Limits {
        max_export_batch_size: batch,
        max_export_timeout: Duration::from_millis(timeout_ms),
        max_concurrent_exports: concurrent,
    }
}

fn failed(message: &str) -> ExportOutcome {
    ExportOutcome::Completed(Err(PipelineError::ExportFailed(message.into())))
}

#[test]
fn a_full_batch_is_exported_without_a_tick() {
    let mut pipeline = Loop::new(limits(3, 30_000, 1));
    pipeline.emit(1);
    pipeline.emit(2);
    assert!(pipeline.calls.is_empty());
    pipeline.emit(3);
    assert_eq!(pipeline.calls, vec![Call::Export(vec![1, 2, 3])]);
    assert_eq!(pipeline.worker.as_ref().unwrap().buffered(), 0);
    assert!(pipeline.diagnostics.is_empty());
}

#[test]
fn the_record_that_fills_the_batch_is_part_of_it() {
    let mut pipeline = Loop::new(limits(2, 30_000, 1));
    for record in 1..=5 {
        pipeline.emit(record);
    }
    assert_eq!(pipeline.exports(), vec![vec![1, 2], vec![3, 4]]);
    assert_eq!(pipeline.worker.as_ref().unwrap().buffered(), 1);
}

#[test]
fn a_flush_that_times_out_returns_the_limit() {
    let mut pipeline = Loop::new(limits(512, 5, 1));
    pipeline.emit(1);
    pipeline.outcomes.push_back(ExportOutcome::TimedOut);
    assert_eq!(
        pipeline.force_flush(),
        Err(PipelineError::ExportTimedOut(Duration::from_millis(5)))
    );
    // The batch was handed over once and is not kept for another try.
    assert_eq!(pipeline.exports(), vec![vec![1]]);
    assert_eq!(pipeline.force_flush(), Ok(()));
    assert_eq!(pipeline.exports(), vec![vec![1]]);
}

#[test]
fn a_flush_that_is_in_time_returns_the_result_of_the_exporter() {
    let mut pipeline = Loop::new(limits(512, 60, 1));
    pipeline.emit(1);
    assert_eq!(pipeline.force_flush(), Ok(()));
    assert_eq!(pipeline.exports(), vec![vec![1]]);

    pipeline.emit(2);
    pipeline.outcomes.push_back(failed("down"));
    assert_eq!(
        pipeline.force_flush(),
        Err(PipelineError::ExportFailed("down".into()))
    );
    // An answered failure is the caller's to report.
    assert!(pipeline.diagnostics.is_empty());
}

/// The race between an exporter that needs `delay_for` and the limit.
fn race(delay_for: Duration, limit: Duration) -> ExportOutcome {
    if delay_for < limit {
        ExportOutcome::Completed(Ok(()))
    } else {
        ExportOutcome::TimedOut
    }
}

// If time_out is true, the exporter blocks for 60 ms and the limit is 5 ms;
// otherwise the exporter blocks for 5 ms and the limit is 60 ms.
fn timeout_test(time_out: bool) {
    let config = BatchConfigBuilder::default()
        .with_max_export_timeout(Duration::from_millis(if time_out { 5 } else { 60 }))
        .with_scheduled_delay(Duration::from_secs(60 * 60 * 24))
        .build();
    let delay_for = Duration::from_millis(if !time_out { 5 } else { 60 });
    let mut pipeline = Loop::new(config.limits());
    pipeline.emit(1);
    pipeline
        .outcomes
        .push_back(race(delay_for, config.max_export_timeout()));
    let flush_res = pipeline.force_flush();
    if time_out {
        assert!(flush_res.is_err());
    } else {
        assert!(flush_res.is_ok());
    }
    let shutdown_res = pipeline.shutdown();
    assert!(shutdown_res.is_ok());
}

#[test]
fn test_timeout_tokio_timeout() {
    timeout_test(true);
}

#[test]
fn test_timeout_tokio_not_timeout() {
    timeout_test(false);
}

#[test]
fn test_timeout_async_std_timeout() {
    timeout_test(true);
}

#[test]
fn test_timeout_async_std_not_timeout() {
    timeout_test(false);
}

#[test]
fn a_zero_timeout_is_legal() {
    let mut pipeline = Loop::new(limits(1, 0, 1));
    pipeline.outcomes.push_back(ExportOutcome::TimedOut);
    pipeline.emit(1);
    assert_eq!(
        pipeline.diagnostics,
        vec![Diagnostic::ExportFailed(PipelineError::ExportTimedOut(
            Duration::ZERO
        ))]
    );
    assert_eq!(
        export_result(ExportOutcome::TimedOut, Duration::ZERO),
        Err(PipelineError::ExportTimedOut(Duration::ZERO))
    );
    assert_eq!(
        export_result(ExportOutcome::Completed(Ok(())), Duration::ZERO),
        Ok(())
    );
}

fn span(trace_flags: u8) -> SpanData {
    SpanData {
        span_context: SpanContext {
            trace_id: 1,
            span_id: 1,
            trace_flags,
            is_remote: false,
        },
        parent_span_id: 0,
        span_kind: SpanKind::Internal,
        name: "opentelemetry".into(),
        start_time: 0,
        end_time: 1,
        attributes: Vec::new(),
        dropped_attributes_count: 0,
        events: Vec::new(),
        links: Vec::new(),
        status: Status::Unset,
        instrumentation_scope: InstrumentationScope::default(),
    }
}

#[test]
fn an_unsampled_span_never_reaches_the_exporter() {
    let worker: BatchWorker<SpanData> = BatchWorker::new(limits(512, 30_000, 1));
    // on_end: an unsampled span gives no message to send.
    let message = export_message(span(0));
    assert!(message.is_none());
    // force_flush: nothing is buffered, so nothing is exported.
    let (sender, mut receiver) = oneshot::channel();
    match worker.handle(BatchMessage::Flush(Some(sender))) {
        Step::Continue(worker, directive) => {
            assert!(directive.export.is_none());
            let reply = directive.reply.expect("the flush is answered");
            assert_eq!(reply.result, Ok(()));
            reply.to.send(reply.result).unwrap();
            assert_eq!(worker.buffered(), 0);
        }
        _ => panic!("an empty flush neither exports nor stops"),
    }
    assert_eq!(receiver.try_recv(), Ok(Some(Ok(()))));
}

#[test]
fn a_sampled_span_is_exported_by_the_flush() {
    let worker: BatchWorker<SpanData> = BatchWorker::new(limits(512, 30_000, 1));
    let message = export_message(span(1)).expect("a sampled span is enqueued");
    let worker = match worker.handle(message) {
        Step::Continue(worker, _) => worker,
        _ => panic!("one span does not fill the batch"),
    };
    match worker.handle(BatchMessage::Flush(None)) {
        Step::Export(_, directive) => assert_eq!(directive.export.unwrap().batch, vec![span(1)]),
        _ => panic!("a flush exports what is buffered"),
    }
}

/// A queue of limited capacity whose receiver is not running.
struct Queue {
    messages: VecDeque<BatchMessage<u32>>,
    capacity: usize,
    closed: bool,
}

impl Queue {
    fn try_send(&mut self, message: BatchMessage<u32>) -> Result<(), TrySendError> {
        if self.closed {
            Err(TrySendError::ChannelClosed)
        } else if self.messages.len() >= self.capacity {
            Err(TrySendError::ChannelFull)
        } else {
            self.messages.push_back(message);
            Ok(())
        }
    }
}

#[test]
fn records_beyond_the_queue_are_dropped_with_a_diagnostic() {
    let mut queue = Queue {
        messages: VecDeque::new(),
        capacity: 2,
        closed: false,
    };
    let mut diagnostics = Vec::new();
    for record in 1..=5 {
        let sent = queue.try_send(BatchMessage::ExportRecord(record));
        diagnostics.extend(enqueue_diagnostic(sent));
    }
    assert_eq!(
        diagnostics,
        vec![
            Diagnostic::RecordDropped(PipelineError::QueueFull),
            Diagnostic::RecordDropped(PipelineError::QueueFull),
            Diagnostic::RecordDropped(PipelineError::QueueFull),
        ]
    );
    assert!(diagnostics.iter().all(|d| d.severity() == Severity::Error));

    // What the queue took is what the worker gets, in order.
    let mut pipeline = Loop::new(limits(512, 30_000, 1));
    while let Some(message) = queue.messages.pop_front() {
        assert!(pipeline.send(message));
    }
    assert_eq!(pipeline.force_flush(), Ok(()));
    assert_eq!(pipeline.exported(), vec![1, 2]);
}

#[test]
fn requests_to_a_full_or_closed_queue_fail_at_once() {
    assert_eq!(request_result(Ok(())), Ok(()));
    assert_eq!(
        request_result(Err(TrySendError::ChannelFull)),
        Err(PipelineError::QueueFull)
    );
    assert_eq!(
        request_result(Err(TrySendError::ChannelClosed)),
        Err(PipelineError::AlreadyShutDown)
    );
    assert_eq!(enqueue_diagnostic(Ok(())), None);
    assert_eq!(
        enqueue_diagnostic(Err(TrySendError::ChannelClosed)),
        Some(Diagnostic::RecordDropped(PipelineError::ChannelClosed))
    );
}

#[test]
fn a_reply_channel_that_was_dropped_is_an_error() {
    assert_eq!(reply_result(Some(Ok(()))), Ok(()));
    assert_eq!(
        reply_result(Some(Err(PipelineError::QueueFull))),
        Err(PipelineError::QueueFull)
    );
    assert_eq!(reply_result(None), Err(PipelineError::ChannelClosed));
    assert_eq!(reply_diagnostic(true), None);
    assert_eq!(reply_diagnostic(false), Some(Diagnostic::ReplyUndelivered));
    assert_eq!(Diagnostic::ReplyUndelivered.severity(), Severity::Debug);
}

#[test]
fn a_shutdown_drains_the_buffer_and_shuts_the_exporter_down_once() {
    let mut pipeline = Loop::new(limits(512, 30_000, 1));
    for record in 1..=10 {
        pipeline.emit(record);
    }
    assert!(pipeline.calls.is_empty());
    assert_eq!(pipeline.shutdown(), Ok(()));
    assert_eq!(
        pipeline.calls,
        vec![Call::Export((1..=10).collect()), Call::Shutdown]
    );
    assert!(pipeline.worker.is_none());
}

#[test]
fn after_a_shutdown_nothing_reaches_the_exporter() {
    let mut pipeline = Loop::new(limits(512, 30_000, 1));
    pipeline.emit(1);
    assert_eq!(pipeline.force_flush(), Ok(()));
    assert_eq!(pipeline.shutdown(), Ok(()));
    let calls = pipeline.calls.clone();

    // The worker is gone: the queue is closed to every later message.
    assert!(!pipeline.send(BatchMessage::ExportRecord(2)));
    assert_eq!(
        enqueue_diagnostic(Err(TrySendError::ChannelClosed)),
        Some(Diagnostic::RecordDropped(PipelineError::ChannelClosed))
    );
    assert_eq!(pipeline.force_flush(), Err(PipelineError::AlreadyShutDown));
    assert_eq!(pipeline.shutdown(), Err(PipelineError::AlreadyShutDown));
    assert_eq!(pipeline.calls, calls);
    assert_eq!(pipeline.exported(), vec![1]);
}

#[test]
fn the_answer_to_a_shutdown_is_the_result_of_the_last_export() {
    let mut pipeline = Loop::new(limits(512, 7, 1));
    pipeline.emit(1);
    pipeline.outcomes.push_back(ExportOutcome::TimedOut);
    assert_eq!(
        pipeline.shutdown(),
        Err(PipelineError::ExportTimedOut(Duration::from_millis(7)))
    );
    // The exporter is shut down all the same.
    assert_eq!(pipeline.calls, vec![Call::Export(vec![1]), Call::Shutdown]);
    assert!(pipeline.worker.is_none());
}

#[test]
fn a_shutdown_is_answered_after_the_exporter_is_shut_down() {
    let worker: BatchWorker<u32> = BatchWorker::new(limits(512, 30_000, 1));
    let worker = match worker.handle(BatchMessage::ExportRecord(1)) {
        Step::Continue(worker, _) => worker,
        _ => panic!("one record does not fill the batch"),
    };
    let (sender, _receiver) = oneshot::channel();
    let pending = match worker.handle(BatchMessage::Shutdown(sender)) {
        Step::Export(pending, directive) => {
            assert_eq!(directive.export.unwrap().batch, vec![1]);
            assert!(!directive.shutdown_exporter);
            assert!(directive.reply.is_none());
            pending
        }
        _ => panic!("what is buffered is exported first"),
    };
    assert!(matches!(pending.remaining(), Pending::Shutdown(Some(_))));
    match pending.finished(ExportOutcome::Completed(Ok(()))) {
        Step::Stop(directive) => {
            assert!(directive.export.is_none());
            assert!(directive.shutdown_exporter);
            assert_eq!(directive.reply.unwrap().result, Ok(()));
        }
        _ => panic!("a shutdown stops the worker"),
    }
}

#[test]
fn an_empty_shutdown_exports_nothing() {
    let mut pipeline = Loop::new(limits(512, 30_000, 1));
    assert_eq!(pipeline.shutdown(), Ok(()));
    assert_eq!(pipeline.calls, vec![Call::Shutdown]);
}

#[test]
fn a_closed_queue_drains_and_shuts_down_without_an_answer() {
    let mut pipeline = Loop::new(limits(512, 30_000, 1));
    pipeline.emit(1);
    pipeline.emit(2);
    pipeline.outcomes.push_back(failed("late"));
    let step = pipeline.worker.take().unwrap().channel_closed();
    pipeline.settle(step);
    assert_eq!(pipeline.calls, vec![Call::Export(vec![1, 2]), Call::Shutdown]);
    assert!(pipeline.worker.is_none());
    assert_eq!(
        pipeline.diagnostics,
        vec![Diagnostic::ExportFailed(PipelineError::ExportFailed(
            "late".into()
        ))]
    );

    let worker: BatchWorker<u32> = BatchWorker::new(limits(512, 30_000, 1));
    match worker.channel_closed() {
        Step::Stop(directive) => {
            assert!(directive.export.is_none());
            assert!(directive.shutdown_exporter);
            assert!(directive.reply.is_none());
        }
        _ => panic!("a closed queue stops the worker"),
    }
}

#[test]
fn every_accepted_record_is_exported_once_and_in_order() {
    for batch_size in [0usize, 1, 2, 3, 7, 512] {
        for concurrent in [0usize, 1, 2, 3] {
            let mut pipeline = Loop::new(limits(batch_size, 30_000, concurrent));
            let records: Vec<u32> = (0..20).collect();
            for record in &records {
                pipeline.emit(*record);
            }
            assert_eq!(pipeline.force_flush(), Ok(()));
            assert_eq!(pipeline.exported(), records, "{batch_size} {concurrent}");
            assert_eq!(pipeline.worker.as_ref().unwrap().buffered(), 0);
            assert_eq!(pipeline.worker.as_ref().unwrap().in_flight(), pipeline.running);
            for batch in pipeline.exports() {
                assert!(!batch.is_empty());
                if batch_size > 0 {
                    assert!(batch.len() <= batch_size);
                }
            }
            if concurrent > 0 {
                assert!(pipeline.most_running <= concurrent);
            }
        }
    }
}

#[test]
fn a_resource_is_handed_over_before_later_records_are_exported() {
    let mut pipeline = Loop::new(limits(2, 30_000, 1));
    pipeline.emit(1);
    let resource = Resource::new(vec![
        KeyValue::new("k1".into(), "v1".into()),
        KeyValue::new("k2".into(), "v3".into()),
        KeyValue::new("k3".into(), "v3".into()),
        KeyValue::new("k4".into(), "v4".into()),
        KeyValue::new("k5".into(), "v5".into()),
    ]);
    assert!(pipeline.send(BatchMessage::SetResource(resource)));
    pipeline.emit(2);
    pipeline.emit(3);
    assert_eq!(pipeline.force_flush(), Ok(()));
    assert_eq!(
        pipeline.calls,
        vec![
            Call::SetResource(5),
            Call::Export(vec![1, 2]),
            Call::Export(vec![3]),
        ]
    );
}

#[test]
fn a_resource_does_not_flush() {
    let mut pipeline = Loop::new(limits(512, 30_000, 1));
    pipeline.emit(1);
    assert!(pipeline.send(BatchMessage::SetResource(Resource::empty())));
    assert_eq!(pipeline.calls, vec![Call::SetResource(0)]);
    assert_eq!(pipeline.worker.as_ref().unwrap().buffered(), 1);
}

#[test]
fn a_tick_flushes_and_reports_failures_itself() {
    let mut pipeline = Loop::new(limits(512, 30_000, 1));
    pipeline.tick();
    assert!(pipeline.calls.is_empty());

    pipeline.emit(1);
    pipeline.outcomes.push_back(failed("refused"));
    pipeline.tick();
    assert_eq!(pipeline.exports(), vec![vec![1]]);
    assert_eq!(
        pipeline.diagnostics,
        vec![Diagnostic::ExportFailed(PipelineError::ExportFailed(
            "refused".into()
        ))]
    );

    // The worker goes on after a failure.
    pipeline.emit(2);
    pipeline.tick();
    assert_eq!(pipeline.exports(), vec![vec![1], vec![2]]);
    assert_eq!(pipeline.diagnostics.len(), 1);
}

#[test]
fn a_failed_batch_is_dropped_and_reported() {
    let mut pipeline = Loop::new(limits(1, 30_000, 1));
    pipeline.outcomes.push_back(failed("first"));
    pipeline.emit(1);
    pipeline.emit(2);
    assert_eq!(pipeline.exports(), vec![vec![1], vec![2]]);
    assert_eq!(
        pipeline.diagnostics,
        vec![Diagnostic::ExportFailed(PipelineError::ExportFailed(
            "first".into()
        ))]
    );
    assert_eq!(
        export_failure(Err(PipelineError::QueueFull)),
        Some(Diagnostic::ExportFailed(PipelineError::QueueFull))
    );
    assert_eq!(export_failure(Ok(())), None);
}

#[test]
fn with_one_export_at_a_time_every_export_is_awaited() {
    let worker: BatchWorker<u32> = BatchWorker::new(limits(1, 30_000, 1));
    match worker.handle(BatchMessage::ExportRecord(9)) {
        Step::Export(pending, directive) => {
            let job = directive.export.unwrap();
            assert!(!job.background);
            assert_eq!(job.batch, vec![9]);
            assert_eq!(job.timeout, Duration::from_secs(30));
            assert_eq!(directive.wait, Wait::Nothing);
            assert!(matches!(pending.remaining(), Pending::Batch));
        }
        _ => panic!("a full batch is exported"),
    }
}

#[test]
fn concurrent_exports_run_in_the_background_up_to_the_limit() {
    let mut pipeline = Loop::new(limits(1, 30_000, 2));
    pipeline.emit(1);
    pipeline.emit(2);
    assert_eq!(pipeline.running, 2);
    assert!(pipeline.waits.is_empty());
    // The third export has to wait for one of the two to finish.
    pipeline.emit(3);
    assert_eq!(pipeline.waits, vec![Wait::One]);
    assert_eq!(pipeline.running, 2);
    assert_eq!(pipeline.worker.as_ref().unwrap().in_flight(), 2);
    assert_eq!(pipeline.exports(), vec![vec![1], vec![2], vec![3]]);

    // An export that is seen to finish frees its slot.
    pipeline.running -= 1;
    pipeline.worker.as_mut().unwrap().task_finished();
    assert_eq!(pipeline.worker.as_ref().unwrap().in_flight(), 1);
    pipeline.emit(4);
    assert_eq!(pipeline.waits, vec![Wait::One]);
    assert_eq!(pipeline.running, 2);
}

#[test]
fn a_flush_waits_for_the_exports_that_still_run() {
    let mut pipeline = Loop::new(limits(2, 30_000, 3));
    for record in 1..=5 {
        pipeline.emit(record);
    }
    assert_eq!(pipeline.running, 2);
    assert_eq!(pipeline.force_flush(), Ok(()));
    assert_eq!(pipeline.waits, vec![Wait::All]);
    assert_eq!(pipeline.running, 0);
    assert_eq!(pipeline.worker.as_ref().unwrap().in_flight(), 0);
    assert_eq!(pipeline.exported(), vec![1, 2, 3, 4, 5]);
}

#[test]
fn a_shutdown_waits_for_running_exports_before_the_exporter_is_shut_down() {
    let worker: BatchWorker<u32> = BatchWorker::new(limits(1, 30_000, 4));
    let worker = match worker.handle(BatchMessage::ExportRecord(1)) {
        Step::Continue(worker, directive) => {
            assert!(directive.export.unwrap().background);
            worker
        }
        _ => panic!("a background export does not hold the worker up"),
    };
    assert_eq!(worker.in_flight(), 1);
    let (sender, _receiver) = oneshot::channel();
    match worker.handle(BatchMessage::Shutdown(sender)) {
        Step::Stop(directive) => {
            assert_eq!(directive.wait, Wait::All);
            assert!(directive.shutdown_exporter);
            assert_eq!(directive.reply.unwrap().result, Ok(()));
        }
        _ => panic!("nothing is buffered, so the worker stops at once"),
    }
}

#[test]
fn task_finished_never_counts_below_zero() {
    let mut worker: BatchWorker<u32> = BatchWorker::new(limits(1, 30_000, 2));
    worker.task_finished();
    assert_eq!(worker.in_flight(), 0);
    assert_eq!(worker.buffered(), 0);
    assert_eq!(worker.limits().max_concurrent_exports, 2);
}

#[test]
fn an_idle_directive_asks_for_nothing() {
    let directive: Directive<u32> = Directive::idle();
    assert_eq!(directive.wait, Wait::Nothing);
    assert!(directive.export.is_none());
    assert!(directive.resource.is_none());
    assert!(!directive.shutdown_exporter);
    assert!(directive.reply.is_none());
    assert!(!directive.drain);
    assert!(directive.diagnostic.is_none());
}

#[test]
fn an_answer_nobody_waits_for_is_reported() {
    let mut pipeline = Loop::new(limits(512, 30_000, 1));
    let (sender, receiver) = oneshot::channel();
    drop(receiver);
    assert!(pipeline.send(BatchMessage::Flush(Some(sender))));
    assert_eq!(pipeline.diagnostics, vec![Diagnostic::ReplyUndelivered]);
}

#[test]
fn diagnostics_have_stable_names() {
    let failed = Diagnostic::ExportFailed(PipelineError::QueueFull);
    let dropped = Diagnostic::RecordDropped(PipelineError::QueueFull);
    assert_eq!(
        failed.name(Reporter::BatchLogProcessor),
        "BatchLogProcessor.Export.Error"
    );
    assert_eq!(
        dropped.name(Reporter::BatchLogProcessor),
        "BatchLogProcessor.Export.Error"
    );
    assert_eq!(
        failed.name(Reporter::BatchSpanProcessor),
        "BatchSpanProcessor.Export.Error"
    );
    assert_eq!(
        dropped.name(Reporter::BatchSpanProcessor),
        "BatchSpanProcessor.OnEnd.ExportQueueingFailed"
    );
    assert_eq!(
        Diagnostic::ReplyUndelivered.name(Reporter::BatchSpanProcessor),
        "BatchSpanProcessor.Flush.SendResultError"
    );
    assert_eq!(
        Diagnostic::ReplyUndelivered.name(Reporter::BatchLogProcessor),
        "BatchLogProcessor.Flush.SendResultError"
    );
    assert_eq!(
        Diagnostic::EmitAfterShutdown.name(Reporter::SimpleLogProcessor),
        "SimpleLogProcessor.Emit.ProcessorShutdown"
    );
    assert_eq!(
        Diagnostic::MutexPoisoned.name(Reporter::SimpleLogProcessor),
        "SimpleLogProcessor.Emit.MutexPoisoning"
    );
    assert_eq!(
        failed.name(Reporter::SimpleLogProcessor),
        "SimpleLogProcessor.Emit.ExportError"
    );
    assert_eq!(
        failed.name(Reporter::SimpleSpanProcessor),
        "SimpleProcessor.OnEnd.Error"
    );
    assert_eq!(
        Diagnostic::MutexPoisoned.name(Reporter::SimpleSpanProcessor),
        "SimpleProcessor.OnEnd.Error"
    );
    assert_eq!(Diagnostic::EmitAfterShutdown.severity(), Severity::Warn);
    assert_eq!(Diagnostic::MutexPoisoned.severity(), Severity::Debug);
    assert_eq!(failed.severity(), Severity::Error);
    assert_eq!(dropped.severity(), Severity::Error);
}
