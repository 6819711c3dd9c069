//! Span processors: the simple processor, which exports each span as it
//! ends, and the configuration of the batch processor.

use crate::env::{not_an_integer, u64_var, usize_var, var_u64, var_usize};
use crate::error::{emit_diagnostic, emit_report, Diagnostic, ExportResult, PipelineError};
use crate::export::{SpanData, SpanExporter};
use crate::resource::Resource;
use crate::time::duration_of_millis;
use crate::worker::{BatchMessage, Limits};
use std::time::Duration;
use vstd::prelude::*;

verus! {

/// Delay interval between two consecutive exports.
pub const OTEL_BSP_SCHEDULE_DELAY: &'static str = "OTEL_BSP_SCHEDULE_DELAY";

/// Default delay interval between two consecutive exports, in milliseconds.
pub const OTEL_BSP_SCHEDULE_DELAY_DEFAULT: u64 = 5_000;

/// Maximum allowed time to export data.
pub const OTEL_BSP_EXPORT_TIMEOUT: &'static str = "OTEL_BSP_EXPORT_TIMEOUT";

/// Default maximum allowed time to export data, in milliseconds.
pub const OTEL_BSP_EXPORT_TIMEOUT_DEFAULT: u64 = 30_000;

/// Maximum queue size.
pub const OTEL_BSP_MAX_QUEUE_SIZE: &'static str = "OTEL_BSP_MAX_QUEUE_SIZE";

/// Default maximum queue size.
pub const OTEL_BSP_MAX_QUEUE_SIZE_DEFAULT: usize = 2_048;

/// Maximum batch size, must be less than or equal to the maximum queue size.
pub const OTEL_BSP_MAX_EXPORT_BATCH_SIZE: &'static str = "OTEL_BSP_MAX_EXPORT_BATCH_SIZE";

/// Default maximum batch size.
pub const OTEL_BSP_MAX_EXPORT_BATCH_SIZE_DEFAULT: usize = 512;

/// Maximum number of concurrent exports.
pub const OTEL_BSP_MAX_CONCURRENT_EXPORTS: &'static str = "OTEL_BSP_MAX_CONCURRENT_EXPORTS";

/// Default maximum number of concurrent exports.
pub const OTEL_BSP_MAX_CONCURRENT_EXPORTS_DEFAULT: usize = 1;

/// `SpanProcessor` is an interface which allows hooks for the end of a span.
pub trait SpanProcessor {
    /// `on_end` is called after a span is ended (i.e., the end timestamp is
    /// already set). What is worth reporting is returned.
    fn on_end(&mut self, span: SpanData) -> Option<Diagnostic>;

    /// Force the spans lying in the cache to be exported.
    fn force_flush(&self) -> ExportResult;

    /// Shuts down the processor. This is an opportunity for processors to do
    /// any cleanup required. It can be called more than once.
    fn shutdown(&mut self) -> ExportResult;

    /// Set the resource for the span processor.
    fn set_resource(&mut self, _resource: &Resource) {
    }
}

/// A [`SpanProcessor`] that passes finished spans to the configured
/// `SpanExporter`, as soon as they are finished, without any batching. This
/// is typically useful for debugging and testing. For scenarios requiring
/// higher performance/throughput, consider using a batch processor.
#[derive(Debug)]
pub struct SimpleSpanProcessor<E: SpanExporter> {
    exporter: E,
    is_shutdown: bool,
}

impl<E: SpanExporter> SimpleSpanProcessor<E> {
    /// The exporter as it is now.
    pub closed spec fn spec_exporter(self) -> E {
        self.exporter
    }

    /// Whether the processor has been shut down.
    pub closed spec fn spec_is_shutdown(self) -> bool {
        self.is_shutdown
    }

    /// What the end of a span does: after a shutdown nothing but a warning;
    /// for a span that is not sampled nothing at all; otherwise exactly one
    /// export of the one span, whose result decides what is reported.
    pub open spec fn ends(self, span: SpanData, diagnostic: Option<Diagnostic>, after: Self) -> bool {
        if self.spec_is_shutdown() {
            after == self && diagnostic == Some(Diagnostic::EmitAfterShutdown)
        } else if !span.span_context.sampled() {
            after == self && diagnostic is None
        } else {
            &&& !after.spec_is_shutdown()
            &&& exists|result: ExportResult|
                #[trigger] self.spec_exporter().exports(seq![span], result, after.spec_exporter())
                    && diagnostic == emit_report(result)
        }
    }

    /// What a shutdown does: the first one shuts the exporter down and
    /// succeeds; any later one fails and touches nothing.
    pub open spec fn stops(self, result: ExportResult, after: Self) -> bool {
        if self.spec_is_shutdown() {
            after == self && result == Err::<(), PipelineError>(PipelineError::AlreadyShutDown)
        } else {
            &&& after.spec_is_shutdown()
            &&& self.spec_exporter().shuts_down(after.spec_exporter())
            &&& result == Ok::<(), PipelineError>(())
        }
    }

    /// Create a new [`SimpleSpanProcessor`] using the provided exporter.
    pub fn new(exporter: E) -> (processor: Self)
        ensures
            processor.spec_exporter() == exporter,
            !processor.spec_is_shutdown(),
    {
        SimpleSpanProcessor { exporter, is_shutdown: false }
    }

    /// Whether the processor has been shut down.
    pub fn is_shutdown(&self) -> (down: bool)
        ensures
            down == self.spec_is_shutdown(),
    {
        self.is_shutdown
    }

    /// The exporter.
    pub fn exporter(&self) -> (exporter: &E)
        ensures
            *exporter == self.spec_exporter(),
    {
        &self.exporter
    }
}

impl<E: SpanExporter> SpanProcessor for SimpleSpanProcessor<E> {
    /// Exports the span at once, by itself, on the caller's time.
    ///
    /// After a shutdown the span is discarded and a warning is returned. A
    /// span that is not sampled is discarded silently.
    fn on_end(&mut self, span: SpanData) -> (diagnostic: Option<Diagnostic>)
        ensures
            old(self).ends(span, diagnostic, *final(self)),
    {
        if self.is_shutdown {
            return Some(Diagnostic::EmitAfterShutdown);
        }
        if !span.span_context.is_sampled() {
            return None;
        }
        let mut batch: Vec<SpanData> = Vec::new();
        batch.push(span);
        assert(batch@ == seq![span]);
        let result = self.exporter.export(batch);
        let ghost witness = result;
        let diagnostic = emit_diagnostic(result);
        assert(old(self).spec_exporter().exports(seq![span], witness, self.spec_exporter())
            && diagnostic == emit_report(witness));
        diagnostic
    }

    /// Nothing to flush for a simple span processor: always succeeds.
    fn force_flush(&self) -> (result: ExportResult)
        ensures
            result == Ok::<(), PipelineError>(()),
    {
        Ok(())
    }

    /// Shuts the exporter down, once. A second shutdown fails with
    /// `PipelineError::AlreadyShutDown` and leaves the exporter alone.
    fn shutdown(&mut self) -> (result: ExportResult)
        ensures
            old(self).stops(result, *final(self)),
    {
        if self.is_shutdown {
            return Err(PipelineError::AlreadyShutDown);
        }
        self.is_shutdown = true;
        self.exporter.shutdown();
        Ok(())
    }

    /// Hands the resource to the exporter.
    fn set_resource(&mut self, resource: &Resource)
        ensures
            old(self).spec_exporter().takes_resource(*resource, final(self).spec_exporter()),
            final(self).spec_is_shutdown() == old(self).spec_is_shutdown(),
    {
        self.exporter.set_resource(resource);
    }
}

/// After a shutdown has returned, the end of a span is a no-op: the
/// processor and its exporter stay exactly as the shutdown left them, so no
/// span reaches the exporter, and the caller gets a warning. This holds
/// whether the shutdown was the first one or not.
pub proof fn lemma_on_end_after_shutdown<E: SpanExporter>(
    before: SimpleSpanProcessor<E>,
    result: ExportResult,
    down: SimpleSpanProcessor<E>,
    span: SpanData,
    diagnostic: Option<Diagnostic>,
    after: SimpleSpanProcessor<E>,
)
    requires
        before.stops(result, down),
        down.ends(span, diagnostic, after),
    ensures
        after == down,
        after.spec_exporter() == down.spec_exporter(),
        diagnostic == Some(Diagnostic::EmitAfterShutdown),
{
}

/// The message by which a batch span processor enqueues a finished span, if
/// any: a span that is not sampled is dropped silently, before it reaches
/// the queue.
pub fn export_message(span: SpanData) -> (message: Option<BatchMessage<SpanData>>)
    ensures
        message == if span.span_context.sampled() {
            Some(BatchMessage::ExportRecord(span))
        } else {
            None
        },
{
    if !span.span_context.is_sampled() {
        return None;
    }
    Some(BatchMessage::ExportRecord(span))
}

/// The five settings of a batch span processor, as plain values: the model
/// of both [`BatchConfig`] and [`BatchConfigBuilder`].
pub struct Settings {
    pub max_queue_size: usize,
    pub scheduled_delay: Duration,
    pub max_export_batch_size: usize,
    pub max_export_timeout: Duration,
    pub max_concurrent_exports: usize,
}

impl Settings {
    /// The settings of a processor that nobody has configured.
    pub open spec fn defaults() -> Settings {
        Settings {
            max_queue_size: OTEL_BSP_MAX_QUEUE_SIZE_DEFAULT,
            scheduled_delay: duration_of_millis(OTEL_BSP_SCHEDULE_DELAY_DEFAULT),
            max_export_batch_size: OTEL_BSP_MAX_EXPORT_BATCH_SIZE_DEFAULT,
            max_export_timeout: duration_of_millis(OTEL_BSP_EXPORT_TIMEOUT_DEFAULT),
            max_concurrent_exports: OTEL_BSP_MAX_CONCURRENT_EXPORTS_DEFAULT,
        }
    }

    /// These settings with the batch size cut down to the queue size.
    pub open spec fn clamped(self) -> Settings {
        Settings {
            max_export_batch_size: if self.max_export_batch_size <= self.max_queue_size {
                self.max_export_batch_size
            } else {
                self.max_queue_size
            },
            ..self
        }
    }

    /// These settings with each variable of the environment `vars` that is
    /// set to an unsigned decimal integer put in place of its setting; every
    /// other variable leaves its setting as it is. Delays and timeouts are
    /// given in milliseconds.
    pub open spec fn replaced(self, vars: Seq<(String, String)>) -> Settings {
        Settings {
            max_concurrent_exports: match usize_var(vars, OTEL_BSP_MAX_CONCURRENT_EXPORTS@) {
                Some(limit) => limit,
                None => self.max_concurrent_exports,
            },
            max_queue_size: match usize_var(vars, OTEL_BSP_MAX_QUEUE_SIZE@) {
                Some(size) => size,
                None => self.max_queue_size,
            },
            max_export_batch_size: match usize_var(vars, OTEL_BSP_MAX_EXPORT_BATCH_SIZE@) {
                Some(size) => size,
                None => self.max_export_batch_size,
            },
            scheduled_delay: match u64_var(vars, OTEL_BSP_SCHEDULE_DELAY@) {
                Some(millis) => duration_of_millis(millis),
                None => self.scheduled_delay,
            },
            max_export_timeout: match u64_var(vars, OTEL_BSP_EXPORT_TIMEOUT@) {
                Some(millis) => duration_of_millis(millis),
                None => self.max_export_timeout,
            },
        }
    }

    /// These settings overridden by the environment `vars`: the variables
    /// replace their settings, and the batch size that results is cut down to
    /// the queue size that results.
    pub open spec fn overridden(self, vars: Seq<(String, String)>) -> Settings {
        self.replaced(vars).clamped()
    }
}

/// Batch span processor configuration.
/// Use [`BatchConfigBuilder`] to configure your own instance of [`BatchConfig`].
#[derive(Debug)]
pub struct BatchConfig {
    /// The maximum queue size to buffer spans for delayed processing. If the
    /// queue gets full it drops the spans. The default value is 2048.
    max_queue_size: usize,
    /// The delay interval between two consecutive processing of batches.
    /// The default value is 5 seconds.
    scheduled_delay: Duration,
    /// The maximum number of spans to process in a single batch. The default
    /// value is 512.
    max_export_batch_size: usize,
    /// The maximum duration to export a batch of data.
    max_export_timeout: Duration,
    /// Maximum number of concurrent exports.
    ///
    /// Limits the number of exports that run at once and thus the memory
    /// consumed by an exporter. A value of 1 causes exports to be performed
    /// one after another on the worker itself.
    max_concurrent_exports: usize,
}

impl View for BatchConfig {
    type V = Settings;

    closed spec fn view(&self) -> Settings {
        Settings {
            max_queue_size: self.max_queue_size,
            scheduled_delay: self.scheduled_delay,
            max_export_batch_size: self.max_export_batch_size,
            max_export_timeout: self.max_export_timeout,
            max_concurrent_exports: self.max_concurrent_exports,
        }
    }
}

impl BatchConfig {
    /// A batch never holds more records than the queue.
    #[verifier::type_invariant]
    closed spec fn batch_fits_queue(self) -> bool {
        self.max_export_batch_size <= self.max_queue_size
    }

    /// The capacity of the message queue.
    pub fn max_queue_size(&self) -> (size: usize)
        ensures
            size == self@.max_queue_size,
            self@.max_export_batch_size <= size,
    {
        proof {
            use_type_invariant(self);
        }
        self.max_queue_size
    }

    /// The interval between two periodic flushes.
    pub fn scheduled_delay(&self) -> (delay: Duration)
        ensures
            delay == self@.scheduled_delay,
    {
        self.scheduled_delay
    }

    /// The number of records per export; never more than the queue holds.
    pub fn max_export_batch_size(&self) -> (size: usize)
        ensures
            size == self@.max_export_batch_size,
            size <= self@.max_queue_size,
    {
        proof {
            use_type_invariant(self);
        }
        self.max_export_batch_size
    }

    /// The time allowed to each export.
    pub fn max_export_timeout(&self) -> (timeout: Duration)
        ensures
            timeout == self@.max_export_timeout,
    {
        self.max_export_timeout
    }

    /// The number of exports that may run at once.
    pub fn max_concurrent_exports(&self) -> (limit: usize)
        ensures
            limit == self@.max_concurrent_exports,
    {
        self.max_concurrent_exports
    }

    /// The limits under which the worker of a batch span processor runs.
    pub fn limits(&self) -> (limits: Limits)
        ensures
            limits.max_export_batch_size == self@.max_export_batch_size,
            limits.max_export_timeout == self@.max_export_timeout,
            limits.max_concurrent_exports == self@.max_concurrent_exports,
    {
        Limits {
            max_export_batch_size: self.max_export_batch_size,
            max_export_timeout: self.max_export_timeout,
            max_concurrent_exports: self.max_concurrent_exports,
        }
    }
}

impl Default for BatchConfig {
    /// The default configuration: a queue of 2048 spans, batches of 512, a
    /// flush every five seconds, 30 seconds for each export and one export
    /// at a time.
    fn default() -> (config: Self)
        ensures
            config@ == Settings::defaults(),
    {
        BatchConfigBuilder::default().build()
    }
}

/// A builder for creating [`BatchConfig`] instances.
#[derive(Debug)]
pub struct BatchConfigBuilder {
    max_queue_size: usize,
    scheduled_delay: Duration,
    max_export_batch_size: usize,
    max_export_timeout: Duration,
    max_concurrent_exports: usize,
}

impl View for BatchConfigBuilder {
    type V = Settings;

    closed spec fn view(&self) -> Settings {
        Settings {
            max_queue_size: self.max_queue_size,
            scheduled_delay: self.scheduled_delay,
            max_export_batch_size: self.max_export_batch_size,
            max_export_timeout: self.max_export_timeout,
            max_concurrent_exports: self.max_concurrent_exports,
        }
    }
}

impl Default for BatchConfigBuilder {
    /// Create a new [`BatchConfigBuilder`] initialized with the default
    /// values. Overrides from the environment are applied with
    /// [`BatchConfigBuilder::init_from_env_vars`].
    fn default() -> (builder: Self)
        ensures
            builder@ == Settings::defaults(),
    {
        BatchConfigBuilder {
            max_queue_size: OTEL_BSP_MAX_QUEUE_SIZE_DEFAULT,
            scheduled_delay: Duration::from_millis(OTEL_BSP_SCHEDULE_DELAY_DEFAULT),
            max_export_batch_size: OTEL_BSP_MAX_EXPORT_BATCH_SIZE_DEFAULT,
            max_export_timeout: Duration::from_millis(OTEL_BSP_EXPORT_TIMEOUT_DEFAULT),
            max_concurrent_exports: OTEL_BSP_MAX_CONCURRENT_EXPORTS_DEFAULT,
        }
    }
}

impl BatchConfigBuilder {
    /// Set max_queue_size for [`BatchConfigBuilder`].
    /// It's the maximum queue size to buffer spans for delayed processing.
    /// If the queue gets full it will drop the spans.
    /// The default value is 2048.
    pub fn with_max_queue_size(self, max_queue_size: usize) -> (builder: Self)
        ensures
            builder@ == (Settings { max_queue_size, ..self@ }),
    {
        let mut builder = self;
        builder.max_queue_size = max_queue_size;
        builder
    }

    /// Set scheduled_delay for [`BatchConfigBuilder`].
    /// It's the delay interval between two consecutive processing of batches.
    /// The default value is 5000 milliseconds.
    pub fn with_scheduled_delay(self, scheduled_delay: Duration) -> (builder: Self)
        ensures
            builder@ == (Settings { scheduled_delay, ..self@ }),
    {
        let mut builder = self;
        builder.scheduled_delay = scheduled_delay;
        builder
    }

    /// Set max_export_timeout for [`BatchConfigBuilder`].
    /// It's the maximum duration to export a batch of data.
    /// The default value is 30000 milliseconds.
    pub fn with_max_export_timeout(self, max_export_timeout: Duration) -> (builder: Self)
        ensures
            builder@ == (Settings { max_export_timeout, ..self@ }),
    {
        let mut builder = self;
        builder.max_export_timeout = max_export_timeout;
        builder
    }

    /// Set max_export_batch_size for [`BatchConfigBuilder`].
    /// It's the maximum number of spans to process in a single batch. If
    /// there are more than one batch worth of spans then it processes
    /// multiple batches of spans one batch after the other without any delay.
    /// The default value is 512.
    pub fn with_max_export_batch_size(self, max_export_batch_size: usize) -> (builder: Self)
        ensures
            builder@ == (Settings { max_export_batch_size, ..self@ }),
    {
        let mut builder = self;
        builder.max_export_batch_size = max_export_batch_size;
        builder
    }

    /// Set max_concurrent_exports for [`BatchConfigBuilder`].
    /// It's the maximum number of concurrent exports.
    /// Limits the number of exports that run at once and thus the memory
    /// consumed by an exporter. The default value is 1, with which exports
    /// are performed one after another on the worker itself.
    pub fn with_max_concurrent_exports(self, max_concurrent_exports: usize) -> (builder: Self)
        ensures
            builder@ == (Settings { max_concurrent_exports, ..self@ }),
    {
        let mut builder = self;
        builder.max_concurrent_exports = max_concurrent_exports;
        builder
    }

    /// Builds a `BatchConfig` enforcing the following invariant:
    /// `max_export_batch_size` is less than or equal to `max_queue_size`.
    /// A larger batch size is cut down to the queue size; nothing else
    /// changes.
    pub fn build(self) -> (config: BatchConfig)
        ensures
            config@ == self@.clamped(),
            config@.max_export_batch_size <= config@.max_queue_size,
    {
        let max_export_batch_size = if self.max_export_batch_size <= self.max_queue_size {
            self.max_export_batch_size
        } else {
            self.max_queue_size
        };
        BatchConfig {
            max_queue_size: self.max_queue_size,
            scheduled_delay: self.scheduled_delay,
            max_export_timeout: self.max_export_timeout,
            max_concurrent_exports: self.max_concurrent_exports,
            max_export_batch_size,
        }
    }

    /// Applies the overrides found in `vars`, a snapshot of the environment.
    ///
    /// `OTEL_BSP_MAX_CONCURRENT_EXPORTS`, `OTEL_BSP_MAX_QUEUE_SIZE`,
    /// `OTEL_BSP_MAX_EXPORT_BATCH_SIZE`, `OTEL_BSP_SCHEDULE_DELAY`
    /// (milliseconds) and `OTEL_BSP_EXPORT_TIMEOUT` (milliseconds) each
    /// replace their setting when they hold an unsigned decimal integer; a
    /// variable that is unset or holds anything else is ignored silently.
    /// The batch size is then cut down to the queue size.
    pub fn init_from_env_vars(self, vars: &Vec<(String, String)>) -> (builder: Self)
        ensures
            builder@ == self@.overridden(vars@),
    {
        let mut builder = self;
        if let Some(max_concurrent_exports) = var_usize(vars, OTEL_BSP_MAX_CONCURRENT_EXPORTS) {
            builder.max_concurrent_exports = max_concurrent_exports;
        }
        if let Some(max_queue_size) = var_usize(vars, OTEL_BSP_MAX_QUEUE_SIZE) {
            builder.max_queue_size = max_queue_size;
        }
        if let Some(scheduled_delay) = var_u64(vars, OTEL_BSP_SCHEDULE_DELAY) {
            builder.scheduled_delay = Duration::from_millis(scheduled_delay);
        }
        if let Some(max_export_batch_size) = var_usize(vars, OTEL_BSP_MAX_EXPORT_BATCH_SIZE) {
            builder.max_export_batch_size = max_export_batch_size;
        }
        if builder.max_export_batch_size > builder.max_queue_size {
            builder.max_export_batch_size = builder.max_queue_size;
        }
        if let Some(max_export_timeout) = var_u64(vars, OTEL_BSP_EXPORT_TIMEOUT) {
            builder.max_export_timeout = Duration::from_millis(max_export_timeout);
        }
        builder
    }
}

/// A builder for creating batch span processors: the exporter, the
/// configuration and the runtime that the processor will be made of.
#[derive(Debug)]
pub struct BatchSpanProcessorBuilder<E, R> {
    exporter: E,
    config: BatchConfig,
    runtime: R,
}

impl<E, R> BatchSpanProcessorBuilder<E, R> {
    /// The exporter, the configuration and the runtime held by the builder.
    pub closed spec fn parts(self) -> (E, BatchConfig, R) {
        (self.exporter, self.config, self.runtime)
    }

    /// A builder with the default configuration.
    pub fn new(exporter: E, runtime: R) -> (builder: Self)
        ensures
            builder.parts().0 == exporter,
            builder.parts().1@ == Settings::defaults(),
            builder.parts().2 == runtime,
    {
        BatchSpanProcessorBuilder { exporter, config: BatchConfig::default(), runtime }
    }

    /// Set the BatchConfig for [`BatchSpanProcessorBuilder`]
    pub fn with_batch_config(self, config: BatchConfig) -> (builder: Self)
        ensures
            builder.parts() == (self.parts().0, config, self.parts().2),
    {
        BatchSpanProcessorBuilder { exporter: self.exporter, config, runtime: self.runtime }
    }

    /// The configuration the processor will run with.
    pub fn config(&self) -> (config: &BatchConfig)
        ensures
            *config == self.parts().1,
    {
        &self.config
    }

    /// Takes the builder apart, for whoever starts the worker.
    pub fn into_parts(self) -> (parts: (E, BatchConfig, R))
        ensures
            parts == self.parts(),
    {
        (self.exporter, self.config, self.runtime)
    }
}

/// A variable that does not hold an integer changes nothing: where a
/// variable is set to a text that is not an unsigned decimal integer, the
/// setting it stands for keeps the value it had, the default where nothing
/// else was set. For the batch size this holds where that value does not
/// exceed the queue size; it is cut down to the queue size otherwise.
pub proof fn lemma_non_integer_is_ignored(settings: Settings, vars: Seq<(String, String)>)
    ensures
        not_an_integer(vars, OTEL_BSP_MAX_CONCURRENT_EXPORTS@) ==> settings.overridden(
            vars,
        ).max_concurrent_exports == settings.max_concurrent_exports,
        not_an_integer(vars, OTEL_BSP_MAX_QUEUE_SIZE@) ==> settings.overridden(
            vars,
        ).max_queue_size == settings.max_queue_size,
        not_an_integer(vars, OTEL_BSP_MAX_EXPORT_BATCH_SIZE@) && settings.max_export_batch_size
            <= settings.overridden(vars).max_queue_size ==> settings.overridden(
            vars,
        ).max_export_batch_size == settings.max_export_batch_size,
        not_an_integer(vars, OTEL_BSP_SCHEDULE_DELAY@) ==> settings.overridden(
            vars,
        ).scheduled_delay == settings.scheduled_delay,
        not_an_integer(vars, OTEL_BSP_EXPORT_TIMEOUT@) ==> settings.overridden(
            vars,
        ).max_export_timeout == settings.max_export_timeout,
{
}

} // verus!
