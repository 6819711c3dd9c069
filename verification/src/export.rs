//! Telemetry records and the exporters that receive them.

use crate::error::ExportResult;
use crate::resource::{KeyValue, Resource};
use opentelemetry::trace::TraceFlags;
use vstd::prelude::*;

verus! {

/// The library or module that produced a record.
#[derive(Debug, Clone, PartialEq, Eq, Default)]
pub struct InstrumentationScope {
    pub name: String,
    pub version: Option<String>,
}

/// A finished log record.
#[derive(Debug, Clone, PartialEq, Eq, Default)]
pub struct LogRecord {
    pub severity_number: Option<u8>,
    pub severity_text: Option<String>,
    pub body: Option<String>,
    pub attributes: Vec<KeyValue>,
}

impl LogRecord {
    /// Whether some attribute of `attributes` has this key and this value.
    pub open spec fn contains(attributes: Seq<KeyValue>, key: Seq<char>, value: Seq<char>) -> bool {
        exists|i: int|
            0 <= i < attributes.len() && (#[trigger] attributes[i]).key@ == key
                && attributes[i].value@ == value
    }

    /// Appends an attribute. Nothing else changes.
    pub fn add_attribute(&mut self, key: String, value: String)
        ensures
            final(self).attributes@ == old(self).attributes@.push(KeyValue { key, value }),
            final(self).severity_number == old(self).severity_number,
            final(self).severity_text == old(self).severity_text,
            final(self).body == old(self).body,
    {
        self.attributes.push(KeyValue { key, value });
    }

    /// Whether the record has an attribute with this key and this value.
    pub fn attributes_contains(&self, key: &str, value: &str) -> (found: bool)
        ensures
            found == Self::contains(self.attributes@, key@, value@),
    {
        let wanted_key = key.to_owned();
        let wanted_value = value.to_owned();
        let mut i: usize = 0;
        while i < self.attributes.len()
            invariant
                i <= self.attributes.len(),
                wanted_key@ == key@,
                wanted_value@ == value@,
                forall|j: int|
                    0 <= j < i ==> !((#[trigger] self.attributes@[j]).key@ == key@
                        && self.attributes@[j].value@ == value@),
            decreases self.attributes.len() - i,
        {
            if self.attributes[i].key == wanted_key && self.attributes[i].value == wanted_value {
                return true;
            }
            i = i + 1;
        }
        false
    }
}

/// The identity of a span: the part of it that travels between processes.
#[derive(Debug, Clone, Copy, PartialEq, Eq)]
pub struct SpanContext {
    pub trace_id: u128,
    pub span_id: u64,
    /// The W3C trace flags; the lowest bit is the `sampled` flag.
    pub trace_flags: u8,
    pub is_remote: bool,
}

/// `opentelemetry::trace::TraceFlags::is_sampled`, asked of the flags that
/// `TraceFlags::new` makes of `flags`: it answers whether the `sampled` flag,
/// the lowest bit, is set.
#[verifier::external_body]
fn flags_sampled(flags: u8) -> (sampled: bool)
    ensures
        sampled == (flags & 0x01 == 0x01),
{
    TraceFlags::new(flags).is_sampled()
}

impl SpanContext {
    /// Whether the `sampled` flag is set.
    pub open spec fn sampled(self) -> bool {
        self.trace_flags & 0x01 == 0x01
    }

    /// The context of no span: all zero, not sampled.
    pub fn empty_context() -> (context: SpanContext)
        ensures
            context == (SpanContext { trace_id: 0, span_id: 0, trace_flags: 0, is_remote: false }),
            !context.sampled(),
    {
        assert(0u8 & 0x01 != 0x01) by (bit_vector);
        SpanContext { trace_id: 0, span_id: 0, trace_flags: 0, is_remote: false }
    }

    /// Returns `true` if the span is sampled.
    pub fn is_sampled(&self) -> (sampled: bool)
        ensures
            sampled == self.sampled(),
    {
        flags_sampled(self.trace_flags)
    }
}

/// The role a span plays in its trace.
#[derive(Debug, Clone, Copy, PartialEq, Eq)]
pub enum SpanKind {
    Client,
    Server,
    Producer,
    Consumer,
    Internal,
}

/// How the operation of a span ended.
#[derive(Debug, Clone, PartialEq, Eq)]
pub enum Status {
    Unset,
    Error { description: String },
    Success,
}

/// Something that happened during a span.
#[derive(Debug, Clone, PartialEq, Eq)]
pub struct SpanEvent {
    pub name: String,
    /// Nanoseconds since the Unix epoch.
    pub timestamp: u64,
    pub attributes: Vec<KeyValue>,
}

/// A reference from a span to another span.
#[derive(Debug, Clone, PartialEq, Eq)]
pub struct SpanLink {
    pub span_context: SpanContext,
    pub attributes: Vec<KeyValue>,
}

/// A finished span.
#[derive(Debug, Clone, PartialEq, Eq)]
pub struct SpanData {
    pub span_context: SpanContext,
    pub parent_span_id: u64,
    pub span_kind: SpanKind,
    pub name: String,
    /// Nanoseconds since the Unix epoch.
    pub start_time: u64,
    /// Nanoseconds since the Unix epoch.
    pub end_time: u64,
    pub attributes: Vec<KeyValue>,
    pub dropped_attributes_count: u32,
    pub events: Vec<SpanEvent>,
    pub links: Vec<SpanLink>,
    pub status: Status,
    pub instrumentation_scope: InstrumentationScope,
}

/// A log record with the scope it was emitted under.
pub type LogEntry = (LogRecord, InstrumentationScope);

/// The entries that a borrowed log batch stands for.
pub open spec fn log_entries(batch: Seq<(&LogRecord, &InstrumentationScope)>) -> Seq<LogEntry> {
    batch.map_values(|entry: (&LogRecord, &InstrumentationScope)| (*entry.0, *entry.1))
}

/// Receives batches of log records and sends them on.
///
/// The three spec functions stand for what an implementation does. They let
/// a processor state exactly which calls it makes on its exporter, and claim
/// nothing of an exporter by themselves: unless an implementation says more,
/// every behaviour is allowed.
pub trait LogExporter: Sized {
    /// An export of `batch` may answer `result` and leave the exporter as
    /// `after`.
    open spec fn exports(self, batch: Seq<LogEntry>, result: ExportResult, after: Self) -> bool {
        true
    }

    /// A shutdown may leave the exporter as `after`.
    open spec fn shuts_down(self, after: Self) -> bool {
        true
    }

    /// Taking `resource` may leave the exporter as `after`.
    open spec fn takes_resource(self, resource: Resource, after: Self) -> bool {
        true
    }

    /// Exports a batch of records, in the order given.
    fn export(&mut self, batch: &[(&LogRecord, &InstrumentationScope)]) -> (result: ExportResult)
        ensures
            old(self).exports(log_entries(batch@), result, *final(self)),
    ;

    /// Releases what the exporter holds. Called once, at the end.
    fn shutdown(&mut self)
        ensures
            old(self).shuts_down(*final(self)),
    ;

    /// Sets the resource that describes the producer of the records.
    fn set_resource(&mut self, resource: &Resource)
        ensures
            old(self).takes_resource(*resource, *final(self)),
    ;
}

/// Receives batches of finished spans and sends them on.
///
/// The three spec functions stand for what an implementation does. They let
/// a processor state exactly which calls it makes on its exporter, and claim
/// nothing of an exporter by themselves: unless an implementation says more,
/// every behaviour is allowed.
pub trait SpanExporter: Sized {
    /// An export of `batch` may answer `result` and leave the exporter as
    /// `after`.
    open spec fn exports(self, batch: Seq<SpanData>, result: ExportResult, after: Self) -> bool {
        true
    }

    /// A shutdown may leave the exporter as `after`.
    open spec fn shuts_down(self, after: Self) -> bool {
        true
    }

    /// Taking `resource` may leave the exporter as `after`.
    open spec fn takes_resource(self, resource: Resource, after: Self) -> bool {
        true
    }

    /// Exports a batch of spans, in the order given.
    fn export(&mut self, batch: Vec<SpanData>) -> (result: ExportResult)
        ensures
            old(self).exports(batch@, result, *final(self)),
    ;

    /// Releases what the exporter holds. Called once, at the end.
    fn shutdown(&mut self)
        ensures
            old(self).shuts_down(*final(self)),
    ;

    /// Sets the resource that describes the producer of the spans.
    fn set_resource(&mut self, resource: &Resource)
        ensures
            old(self).takes_resource(*resource, *final(self)),
    ;
}

} // verus!
