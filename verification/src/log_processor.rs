//! Log processors: the simple processor, which exports each record as it is
//! emitted, and the configuration of the batch processor.

use crate::env::{not_an_integer, u64_var, usize_var, var_u64, var_usize};
use crate::error::{emit_diagnostic, emit_report, Diagnostic, ExportResult, PipelineError};
use crate::export::{log_entries, InstrumentationScope, LogEntry, LogExporter, LogRecord};
use crate::resource::Resource;
use crate::time::duration_of_millis;
use crate::worker::{BatchMessage, Limits};
use std::time::Duration;
use vstd::prelude::*;

verus! {

/// Delay interval between two consecutive exports.
pub const OTEL_BLRP_SCHEDULE_DELAY: &'static str = "OTEL_BLRP_SCHEDULE_DELAY";

/// Default delay interval between two consecutive exports, in milliseconds.
pub const OTEL_BLRP_SCHEDULE_DELAY_DEFAULT: u64 = 1_000;

/// Maximum allowed time to export data.
pub const OTEL_BLRP_EXPORT_TIMEOUT: &'static str = "OTEL_BLRP_EXPORT_TIMEOUT";

/// Default maximum allowed time to export data, in milliseconds.
pub const OTEL_BLRP_EXPORT_TIMEOUT_DEFAULT: u64 = 30_000;

/// Maximum queue size.
pub const OTEL_BLRP_MAX_QUEUE_SIZE: &'static str = "OTEL_BLRP_MAX_QUEUE_SIZE";

/// Default maximum queue size.
pub const OTEL_BLRP_MAX_QUEUE_SIZE_DEFAULT: usize = 2_048;

/// Maximum batch size, must be less than or equal to the maximum queue size.
pub const OTEL_BLRP_MAX_EXPORT_BATCH_SIZE: &'static str = "OTEL_BLRP_MAX_EXPORT_BATCH_SIZE";

/// Default maximum batch size.
pub const OTEL_BLRP_MAX_EXPORT_BATCH_SIZE_DEFAULT: usize = 512;

/// The interface for plugging into a logger.
pub trait LogProcessor {
    /// Called when a log record is ready to be processed and exported.
    ///
    /// The record may be changed; the change is seen by the processors that
    /// come after this one. What is worth reporting is returned.
    fn emit(&mut self, data: &mut LogRecord, instrumentation: &InstrumentationScope) -> Option<
        Diagnostic,
    >;

    /// Force the logs lying in the cache to be exported.
    fn force_flush(&self) -> ExportResult;

    /// Shuts down the processor.
    /// After shutdown returns the log processor stops processing any logs.
    fn shutdown(&mut self) -> ExportResult;

    /// Set the resource for the log processor.
    fn set_resource(&mut self, _resource: &Resource) {
    }
}

/// A [`LogProcessor`] that passes logs to the configured `LogExporter`, as
/// soon as they are emitted, without any batching. This is typically useful
/// for debugging and testing. For scenarios requiring higher
/// performance/throughput, consider using a batch processor.
#[derive(Debug)]
pub struct SimpleLogProcessor<E: LogExporter> {
    exporter: E,
    is_shutdown: bool,
}

impl<E: LogExporter> SimpleLogProcessor<E> {
    /// The exporter as it is now.
    pub closed spec fn spec_exporter(self) -> E {
        self.exporter
    }

    /// Whether the processor has been shut down.
    pub closed spec fn spec_is_shutdown(self) -> bool {
        self.is_shutdown
    }

    /// What an emit does: after a shutdown nothing but a warning; before
    /// it, exactly one export of the one record, whose result decides what
    /// is reported.
    pub open spec fn emits(
        self,
        entry: LogEntry,
        diagnostic: Option<Diagnostic>,
        after: Self,
    ) -> bool {
        if self.spec_is_shutdown() {
            after == self && diagnostic == Some(Diagnostic::EmitAfterShutdown)
        } else {
            &&& !after.spec_is_shutdown()
            &&& exists|result: ExportResult|
                #[trigger] self.spec_exporter().exports(seq![entry], result, after.spec_exporter())
                    && diagnostic == emit_report(result)
        }
    }

    /// What a shutdown does: the first one shuts the exporter down and
    /// succeeds; any later one fails and touches nothing.
    pub open spec fn stops(self, result: ExportResult, after: Self) -> bool {
        if self.spec_is_shutdown() {
            after == self && result == Err::<(), PipelineError>(PipelineError::AlreadyShutDown)
        } else {
            &&& after.spec_is_shutdown()
            &&& self.spec_exporter().shuts_down(after.spec_exporter())
            &&& result == Ok::<(), PipelineError>(())
        }
    }

    /// Create a new [`SimpleLogProcessor`] using the provided exporter.
    pub fn new(exporter: E) -> (processor: Self)
        ensures
            processor.spec_exporter() == exporter,
            !processor.spec_is_shutdown(),
    {
        SimpleLogProcessor { exporter, is_shutdown: false }
    }

    /// Whether the processor has been shut down.
    pub fn is_shutdown(&self) -> (down: bool)
        ensures
            down == self.spec_is_shutdown(),
    {
        self.is_shutdown
    }

    /// The exporter.
    pub fn exporter(&self) -> (exporter: &E)
        ensures
            *exporter == self.spec_exporter(),
    {
        &self.exporter
    }
}

impl<E: LogExporter> LogProcessor for SimpleLogProcessor<E> {
    /// Exports the record at once, by itself, on the caller's time.
    ///
    /// After a shutdown the record is discarded and a warning is returned.
    /// The record is never changed.
    fn emit(&mut self, record: &mut LogRecord, instrumentation: &InstrumentationScope) -> (diagnostic:
        Option<Diagnostic>)
        ensures
            *final(record) == *old(record),
            old(self).emits((*old(record), *instrumentation), diagnostic, *final(self)),
    {
        if self.is_shutdown {
            return Some(Diagnostic::EmitAfterShutdown);
        }
        let entry: (&LogRecord, &InstrumentationScope) = (&*record, instrumentation);
        let batch = [entry];
        assert(log_entries(batch@) == seq![(*old(record), *instrumentation)]);
        let result = self.exporter.export(batch.as_slice());
        let ghost witness = result;
        let diagnostic = emit_diagnostic(result);
        assert(old(self).spec_exporter().exports(
            seq![(*old(record), *instrumentation)],
            witness,
            self.spec_exporter(),
        ) && diagnostic == emit_report(witness));
        diagnostic
    }

    /// There is no buffer to drain: always succeeds.
    fn force_flush(&self) -> (result: ExportResult)
        ensures
            result == Ok::<(), PipelineError>(()),
    {
        Ok(())
    }

    /// Shuts the exporter down, once. A second shutdown fails with
    /// `PipelineError::AlreadyShutDown` and leaves the exporter alone.
    fn shutdown(&mut self) -> (result: ExportResult)
        ensures
            old(self).stops(result, *final(self)),
    {
        if self.is_shutdown {
            return Err(PipelineError::AlreadyShutDown);
        }
        self.is_shutdown = true;
        self.exporter.shutdown();
        Ok(())
    }

    /// Hands the resource to the exporter.
    fn set_resource(&mut self, resource: &Resource)
        ensures
            old(self).spec_exporter().takes_resource(*resource, final(self).spec_exporter()),
            final(self).spec_is_shutdown() == old(self).spec_is_shutdown(),
    {
        self.exporter.set_resource(resource);
    }
}

/// After a shutdown has returned, an emit is a no-op: the processor and its
/// exporter stay exactly as the shutdown left them, so no record reaches the
/// exporter, and the caller gets a warning. This holds whether the shutdown
/// was the first one or not.
pub proof fn lemma_emit_after_shutdown<E: LogExporter>(
    before: SimpleLogProcessor<E>,
    result: ExportResult,
    down: SimpleLogProcessor<E>,
    entry: LogEntry,
    diagnostic: Option<Diagnostic>,
    after: SimpleLogProcessor<E>,
)
    requires
        before.stops(result, down),
        down.emits(entry, diagnostic, after),
    ensures
        after == down,
        after.spec_exporter() == down.spec_exporter(),
        diagnostic == Some(Diagnostic::EmitAfterShutdown),
{
}

/// The message by which a batch log processor enqueues a record: a copy of
/// the record travels with the scope it was emitted under.
pub fn export_message(record: LogRecord, instrumentation: InstrumentationScope) -> (message:
    BatchMessage<LogEntry>)
    ensures
        message == BatchMessage::ExportRecord((record, instrumentation)),
{
    BatchMessage::ExportRecord((record, instrumentation))
}

/// The four settings of a batch log processor, as plain values: the model of
/// both [`BatchConfig`] and [`BatchConfigBuilder`].
pub struct Settings {
    pub max_queue_size: usize,
    pub scheduled_delay: Duration,
    pub max_export_batch_size: usize,
    pub max_export_timeout: Duration,
}

impl Settings {
    /// The settings of a processor that nobody has configured.
    pub open spec fn defaults() -> Settings {
        Settings {
            max_queue_size: OTEL_BLRP_MAX_QUEUE_SIZE_DEFAULT,
            scheduled_delay: duration_of_millis(OTEL_BLRP_SCHEDULE_DELAY_DEFAULT),
            max_export_batch_size: OTEL_BLRP_MAX_EXPORT_BATCH_SIZE_DEFAULT,
            max_export_timeout: duration_of_millis(OTEL_BLRP_EXPORT_TIMEOUT_DEFAULT),
        }
    }

    /// These settings with the batch size cut down to the queue size.
    pub open spec fn clamped(self) -> Settings {
        Settings {
            max_export_batch_size: if self.max_export_batch_size <= self.max_queue_size {
                self.max_export_batch_size
            } else {
                self.max_queue_size
            },
            ..self
        }
    }

    /// These settings overridden by the environment `vars`: each variable
    /// that is set to an unsigned decimal integer replaces its setting, and
    /// every other variable leaves its setting as it is. Delays and timeouts
    /// are given in milliseconds.
    pub open spec fn overridden(self, vars: Seq<(String, String)>) -> Settings {
        Settings {
            max_queue_size: match usize_var(vars, OTEL_BLRP_MAX_QUEUE_SIZE@) {
                Some(size) => size,
                None => self.max_queue_size,
            },
            max_export_batch_size: match usize_var(vars, OTEL_BLRP_MAX_EXPORT_BATCH_SIZE@) {
                Some(size) => size,
                None => self.max_export_batch_size,
            },
            scheduled_delay: match u64_var(vars, OTEL_BLRP_SCHEDULE_DELAY@) {
                Some(millis) => duration_of_millis(millis),
                None => self.scheduled_delay,
            },
            max_export_timeout: match u64_var(vars, OTEL_BLRP_EXPORT_TIMEOUT@) {
                Some(millis) => duration_of_millis(millis),
                None => self.max_export_timeout,
            },
        }
    }
}

/// Batch log processor configuration.
/// Use [`BatchConfigBuilder`] to configure your own instance of [`BatchConfig`].
#[derive(Debug)]
pub struct BatchConfig {
    /// The maximum queue size to buffer logs for delayed processing. If the
    /// queue gets full it drops the logs. The default value is 2048.
    max_queue_size: usize,
    /// The delay interval between two consecutive processing of batches.
    /// The default value is 1 second.
    scheduled_delay: Duration,
    /// The maximum number of logs to process in a single batch. The default
    /// value is 512.
    max_export_batch_size: usize,
    /// The maximum duration to export a batch of data.
    max_export_timeout: Duration,
}

impl View for BatchConfig {
    type V = Settings;

    closed spec fn view(&self) -> Settings {
        Settings {
            max_queue_size: self.max_queue_size,
            scheduled_delay: self.scheduled_delay,
            max_export_batch_size: self.max_export_batch_size,
            max_export_timeout: self.max_export_timeout,
        }
    }
}

impl BatchConfig {
    /// A batch never holds more records than the queue.
    #[verifier::type_invariant]
    closed spec fn batch_fits_queue(self) -> bool {
        self.max_export_batch_size <= self.max_queue_size
    }

    /// The capacity of the message queue.
    pub fn max_queue_size(&self) -> (size: usize)
        ensures
            size == self@.max_queue_size,
            self@.max_export_batch_size <= size,
    {
        proof {
            use_type_invariant(self);
        }
        self.max_queue_size
    }

    /// The interval between two periodic flushes.
    pub fn scheduled_delay(&self) -> (delay: Duration)
        ensures
            delay == self@.scheduled_delay,
    {
        self.scheduled_delay
    }

    /// The number of records per export; never more than the queue holds.
    pub fn max_export_batch_size(&self) -> (size: usize)
        ensures
            size == self@.max_export_batch_size,
            size <= self@.max_queue_size,
    {
        proof {
            use_type_invariant(self);
        }
        self.max_export_batch_size
    }

    /// The time allowed to each export.
    pub fn max_export_timeout(&self) -> (timeout: Duration)
        ensures
            timeout == self@.max_export_timeout,
    {
        self.max_export_timeout
    }

    /// The limits under which the worker of a batch log processor runs.
    /// Log batches are exported one at a time.
    pub fn limits(&self) -> (limits: Limits)
        ensures
            limits.max_export_batch_size == self@.max_export_batch_size,
            limits.max_export_timeout == self@.max_export_timeout,
            limits.max_concurrent_exports == 1,
    {
        Limits {
            max_export_batch_size: self.max_export_batch_size,
            max_export_timeout: self.max_export_timeout,
            max_concurrent_exports: 1,
        }
    }
}

impl Default for BatchConfig {
    /// The default configuration: a queue of 2048 records, batches of 512, a
    /// flush every second and 30 seconds for each export.
    fn default() -> (config: Self)
        ensures
            config@ == Settings::defaults(),
    {
        BatchConfigBuilder::default().build()
    }
}

/// A builder for creating [`BatchConfig`] instances.
#[derive(Debug)]
pub struct BatchConfigBuilder {
    max_queue_size: usize,
    scheduled_delay: Duration,
    max_export_batch_size: usize,
    max_export_timeout: Duration,
}

impl View for BatchConfigBuilder {
    type V = Settings;

    closed spec fn view(&self) -> Settings {
        Settings {
            max_queue_size: self.max_queue_size,
            scheduled_delay: self.scheduled_delay,
            max_export_batch_size: self.max_export_batch_size,
            max_export_timeout: self.max_export_timeout,
        }
    }
}

impl Default for BatchConfigBuilder {
    /// Create a new [`BatchConfigBuilder`] initialized with the default
    /// values. Overrides from the environment are applied with
    /// [`BatchConfigBuilder::init_from_env_vars`].
    fn default() -> (builder: Self)
        ensures
            builder@ == Settings::defaults(),
    {
        BatchConfigBuilder {
            max_queue_size: OTEL_BLRP_MAX_QUEUE_SIZE_DEFAULT,
            scheduled_delay: Duration::from_millis(OTEL_BLRP_SCHEDULE_DELAY_DEFAULT),
            max_export_batch_size: OTEL_BLRP_MAX_EXPORT_BATCH_SIZE_DEFAULT,
            max_export_timeout: Duration::from_millis(OTEL_BLRP_EXPORT_TIMEOUT_DEFAULT),
        }
    }
}

impl BatchConfigBuilder {
    /// Set max_queue_size for [`BatchConfigBuilder`].
    /// It's the maximum queue size to buffer logs for delayed processing.
    /// If the queue gets full it will drop the logs.
    /// The default value is 2048.
    pub fn with_max_queue_size(self, max_queue_size: usize) -> (builder: Self)
        ensures
            builder@ == (Settings { max_queue_size, ..self@ }),
    {
        let mut builder = self;
        builder.max_queue_size = max_queue_size;
        builder
    }

    /// Set scheduled_delay for [`BatchConfigBuilder`].
    /// It's the delay interval between two consecutive processing of batches.
    /// The default value is 1000 milliseconds.
    pub fn with_scheduled_delay(self, scheduled_delay: Duration) -> (builder: Self)
        ensures
            builder@ == (Settings { scheduled_delay, ..self@ }),
    {
        let mut builder = self;
        builder.scheduled_delay = scheduled_delay;
        builder
    }

    /// Set max_export_timeout for [`BatchConfigBuilder`].
    /// It's the maximum duration to export a batch of data.
    /// The default value is 30000 milliseconds.
    pub fn with_max_export_timeout(self, max_export_timeout: Duration) -> (builder: Self)
        ensures
            builder@ == (Settings { max_export_timeout, ..self@ }),
    {
        let mut builder = self;
        builder.max_export_timeout = max_export_timeout;
        builder
    }

    /// Set max_export_batch_size for [`BatchConfigBuilder`].
    /// It's the maximum number of logs to process in a single batch. If there
    /// are more than one batch worth of logs then it processes multiple
    /// batches of logs one batch after the other without any delay.
    /// The default value is 512.
    pub fn with_max_export_batch_size(self, max_export_batch_size: usize) -> (builder: Self)
        ensures
            builder@ == (Settings { max_export_batch_size, ..self@ }),
    {
        let mut builder = self;
        builder.max_export_batch_size = max_export_batch_size;
        builder
    }

    /// Builds a `BatchConfig` enforcing the following invariant:
    /// `max_export_batch_size` is less than or equal to `max_queue_size`.
    /// A larger batch size is cut down to the queue size; nothing else
    /// changes.
    pub fn build(self) -> (config: BatchConfig)
        ensures
            config@ == self@.clamped(),
            config@.max_export_batch_size <= config@.max_queue_size,
    {
        let max_export_batch_size = if self.max_export_batch_size <= self.max_queue_size {
            self.max_export_batch_size
        } else {
            self.max_queue_size
        };
        BatchConfig {
            max_queue_size: self.max_queue_size,
            scheduled_delay: self.scheduled_delay,
            max_export_timeout: self.max_export_timeout,
            max_export_batch_size,
        }
    }

    /// Applies the overrides found in `vars`, a snapshot of the environment.
    ///
    /// `OTEL_BLRP_MAX_QUEUE_SIZE`, `OTEL_BLRP_MAX_EXPORT_BATCH_SIZE`,
    /// `OTEL_BLRP_SCHEDULE_DELAY` (milliseconds) and
    /// `OTEL_BLRP_EXPORT_TIMEOUT` (milliseconds) each replace their setting
    /// when they hold an unsigned decimal integer; a variable that is unset
    /// or holds anything else is ignored silently.
    pub fn init_from_env_vars(self, vars: &Vec<(String, String)>) -> (builder: Self)
        ensures
            builder@ == self@.overridden(vars@),
    {
        let mut builder = self;
        if let Some(max_queue_size) = var_usize(vars, OTEL_BLRP_MAX_QUEUE_SIZE) {
            builder.max_queue_size = max_queue_size;
        }
        if let Some(max_export_batch_size) = var_usize(vars, OTEL_BLRP_MAX_EXPORT_BATCH_SIZE) {
            builder.max_export_batch_size = max_export_batch_size;
        }
        if let Some(scheduled_delay) = var_u64(vars, OTEL_BLRP_SCHEDULE_DELAY) {
            builder.scheduled_delay = Duration::from_millis(scheduled_delay);
        }
        if let Some(max_export_timeout) = var_u64(vars, OTEL_BLRP_EXPORT_TIMEOUT) {
            builder.max_export_timeout = Duration::from_millis(max_export_timeout);
        }
        builder
    }
}

/// A builder for creating batch log processors: the exporter, the
/// configuration and the runtime that the processor will be made of.
#[derive(Debug)]
pub struct BatchLogProcessorBuilder<E, R> {
    exporter: E,
    config: BatchConfig,
    runtime: R,
}

impl<E, R> BatchLogProcessorBuilder<E, R> {
    /// The exporter, the configuration and the runtime held by the builder.
    pub closed spec fn parts(self) -> (E, BatchConfig, R) {
        (self.exporter, self.config, self.runtime)
    }

    /// A builder with the default configuration.
    pub fn new(exporter: E, runtime: R) -> (builder: Self)
        ensures
            builder.parts().0 == exporter,
            builder.parts().1@ == Settings::defaults(),
            builder.parts().2 == runtime,
    {
        BatchLogProcessorBuilder { exporter, config: BatchConfig::default(), runtime }
    }

    /// Set the BatchConfig for [`BatchLogProcessorBuilder`]
    pub fn with_batch_config(self, config: BatchConfig) -> (builder: Self)
        ensures
            builder.parts() == (self.parts().0, config, self.parts().2),
    {
        BatchLogProcessorBuilder { exporter: self.exporter, config, runtime: self.runtime }
    }

    /// The configuration the processor will run with.
    pub fn config(&self) -> (config: &BatchConfig)
        ensures
            *config == self.parts().1,
    {
        &self.config
    }

    /// Takes the builder apart, for whoever starts the worker.
    pub fn into_parts(self) -> (parts: (E, BatchConfig, R))
        ensures
            parts == self.parts(),
    {
        (self.exporter, self.config, self.runtime)
    }
}

/// A variable that does not hold an integer changes nothing: where a
/// variable is set to a text that is not an unsigned decimal integer, the
/// setting it stands for keeps the value it had, the default where nothing
/// else was set.
pub proof fn lemma_non_integer_is_ignored(settings: Settings, vars: Seq<(String, String)>)
    ensures
        not_an_integer(vars, OTEL_BLRP_MAX_QUEUE_SIZE@) ==> settings.overridden(
            vars,
        ).max_queue_size == settings.max_queue_size,
        not_an_integer(vars, OTEL_BLRP_MAX_EXPORT_BATCH_SIZE@) ==> settings.overridden(
            vars,
        ).max_export_batch_size == settings.max_export_batch_size,
        not_an_integer(vars, OTEL_BLRP_SCHEDULE_DELAY@) ==> settings.overridden(
            vars,
        ).scheduled_delay == settings.scheduled_delay,
        not_an_integer(vars, OTEL_BLRP_EXPORT_TIMEOUT@) ==> settings.overridden(
            vars,
        ).max_export_timeout == settings.max_export_timeout,
{
}

} // verus!
