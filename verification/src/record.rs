//! The record builders: one function for completed spans and one for events.
//! Each takes a finalized collector plus the ambient context the
//! instrumentation framework supplies and force-inserts the backend-reserved
//! keys into the collected field map, yielding the record to emit.

use std::io::Write;
use vstd::prelude::*;
use vstd::string::StringExecFns;
use crate::field_map::FieldMap;
use crate::reserved::is_reserved;
use crate::text::{dec_digits, u64_to_dec};
use crate::value::{SpecValue, Value};
use crate::visitor::HoneycombVisitor;

verus! {

/// Severity of a span or event, as the instrumentation framework grades it.
#[derive(Debug, Clone, Copy, PartialEq, Eq, Structural)]
pub enum Level {
    /// Finest-grained severity.
    Trace,
    /// Debugging severity.
    Debug,
    /// Informational severity.
    Info,
    /// Warning severity.
    Warn,
    /// Error severity.
    Error,
}

/// The textual rendering of a severity level.
pub open spec fn level_chars(l: Level) -> Seq<char> {
    match l {
        Level::Trace => "TRACE"@,
        Level::Debug => "DEBUG"@,
        Level::Info => "INFO"@,
        Level::Warn => "WARN"@,
        Level::Error => "ERROR"@,
    }
}

impl Level {
    /// The rendering stored under the `level` record key.
    pub fn render(&self) -> (r: String)
        ensures
            r@ == level_chars(*self),
    {
        match self {
            Level::Trace => String::from_str("TRACE"),
            Level::Debug => String::from_str("DEBUG"),
            Level::Info => String::from_str("INFO"),
            Level::Warn => String::from_str("WARN"),
            Level::Error => String::from_str("ERROR"),
        }
    }
}

/// Ambient context and collected fields of a fired event, as handed over by
/// the instrumentation framework.
pub struct Event {
    /// Fields collected while the event was being recorded.
    pub values: HoneycombVisitor,
    /// The trace the event belongs to, already rendered as text.
    pub trace_id: String,
    /// The identifier of the span under which the event fired, if any.
    pub parent_id: Option<u64>,
    /// Name of the service that emitted the event.
    pub service_name: String,
    /// Severity level of the event.
    pub level: Level,
    /// Metadata name of the event.
    pub name: String,
    /// Metadata target of the event.
    pub target: String,
    /// Milliseconds since the Unix epoch at which the event was initialized.
    pub initialized_at_ms: u64,
}

/// Ambient context and collected fields of a completed span.
pub struct Span {
    /// Fields collected while the span was open.
    pub values: HoneycombVisitor,
    /// The identifier of this span.
    pub id: u64,
    /// The trace the span belongs to, already rendered as text.
    pub trace_id: String,
    /// The identifier of the parent span, if any.
    pub parent_id: Option<u64>,
    /// Name of the service on which the span occurred.
    pub service_name: String,
    /// Severity level of the span.
    pub level: Level,
    /// Metadata name of the span.
    pub name: String,
    /// Metadata target of the span.
    pub target: String,
    /// Milliseconds since the Unix epoch at which the span was initialized.
    pub initialized_at_ms: u64,
    /// Milliseconds since the Unix epoch at which the span completed.
    pub completed_at_ms: u64,
}

/// The RFC 3339 rendering of a Unix-epoch millisecond timestamp.
pub uninterp spec fn rfc3339_of(ms: u64) -> Seq<char>;

/// The largest millisecond timestamp the backend's date library can place in
/// its calendar (the last representable instant of its year 262142).
pub const MAX_TIMESTAMP_MS: u64 = 8_210_266_876_799_999;

/// Relies on chrono's `DateTime::<Utc>::from_timestamp_millis`, which its
/// documentation guarantees to return `Some` for every millisecond count up
/// to [`MAX_TIMESTAMP_MS`], and on `DateTime::to_rfc3339`, whose result is a
/// function of the timestamp alone (the zone is fixed to UTC).
#[verifier::external_body]
fn render_rfc3339(ms: u64) -> (r: String)
    requires
        ms <= MAX_TIMESTAMP_MS,
    ensures
        r@ == rfc3339_of(ms),
{
    let dt = chrono::DateTime::<chrono::Utc>::from_timestamp_millis(ms as i64).unwrap();
    dt.to_rfc3339()
}

/// Relies on `std::io::Stderr::write_fmt` (through `writeln`) to surface the
/// clock-skew diagnostic on the operator-facing error stream; the emission is
/// best-effort and the record being built is unaffected whatever it does.
#[verifier::external_body]
fn emit_clock_skew_diagnostic(initialized_at_ms: u64, completed_at_ms: u64) {
    let _ = writeln!(
        std::io::stderr(),
        "error comparing span timestamps: completed_at {} is not after initialized_at {}, indicates possible clock skew",
        completed_at_ms,
        initialized_at_ms,
    );
}

/// The value stored under `trace.parent_id`: the `span-`-prefixed identifier
/// when a parent is present, the structured null when none is.
pub open spec fn parent_id_value(parent_id: Option<u64>) -> SpecValue {
    match parent_id {
        Some(id) => SpecValue::Str("span-"@ + dec_digits(id as nat)),
        None => SpecValue::Null,
    }
}

/// The record an event yields: the collected fields with the backend-reserved
/// event keys force-inserted.
pub open spec fn event_record(e: Event) -> Map<Seq<char>, SpecValue> {
    e.values@.insert("trace.trace_id"@, SpecValue::Str(e.trace_id@)).insert(
        "trace.parent_id"@,
        parent_id_value(e.parent_id),
    ).insert("service_name"@, SpecValue::Str(e.service_name@)).insert(
        "level"@,
        SpecValue::Str(level_chars(e.level)),
    ).insert("Timestamp"@, SpecValue::Str(rfc3339_of(e.initialized_at_ms))).insert(
        "name"@,
        SpecValue::Str(e.name@),
    ).insert("target"@, SpecValue::Str(e.target@))
}

/// The record a completed span yields: the event keys, the span's own
/// identifier, and — exactly when the span completed strictly after it was
/// initialized — its duration in milliseconds.
pub open spec fn span_record(s: Span) -> Map<Seq<char>, SpecValue> {
    let base = s.values@.insert(
        "trace.span_id"@,
        SpecValue::Str("span-"@ + dec_digits(s.id as nat)),
    ).insert("trace.trace_id"@, SpecValue::Str(s.trace_id@)).insert(
        "trace.parent_id"@,
        parent_id_value(s.parent_id),
    ).insert("service_name"@, SpecValue::Str(s.service_name@)).insert(
        "level"@,
        SpecValue::Str(level_chars(s.level)),
    ).insert("Timestamp"@, SpecValue::Str(rfc3339_of(s.initialized_at_ms))).insert(
        "name"@,
        SpecValue::Str(s.name@),
    ).insert("target"@, SpecValue::Str(s.target@));
    if s.completed_at_ms > s.initialized_at_ms {
        base.insert("duration_ms"@, SpecValue::U64((s.completed_at_ms - s.initialized_at_ms) as u64))
    } else {
        base
    }
}

/// The `span-`-prefixed textual form of a span identifier.
pub fn span_reference(id: u64) -> (r: String)
    ensures
        r@ == "span-"@ + dec_digits(id as nat),
{
    String::from_str("span-").concat(u64_to_dec(id).as_str())
}

/// The `trace.parent_id` value for an optional parent span identifier.
fn render_parent_id(parent_id: Option<u64>) -> (r: Value)
    ensures
        r@ == parent_id_value(parent_id),
{
    match parent_id {
        Some(id) => Value::Str(span_reference(id)),
        None => Value::Null,
    }
}

/// Builds the outgoing record for a fired event, consuming the collector.
pub fn event_to_values(event: Event) -> (r: FieldMap)
    requires
        event.values.wf(),
        event.initialized_at_ms <= MAX_TIMESTAMP_MS,
    ensures
        r.wf(),
        r@ == event_record(event),
{
    let Event { values, trace_id, parent_id, service_name, level, name, target, initialized_at_ms }
        = event;
    let mut record = values.0;
    record.insert(String::from_str("trace.trace_id"), Value::Str(trace_id));
    record.insert(String::from_str("trace.parent_id"), render_parent_id(parent_id));
    record.insert(String::from_str("service_name"), Value::Str(service_name));
    record.insert(String::from_str("level"), Value::Str(level.render()));
    record.insert(String::from_str("Timestamp"), Value::Str(render_rfc3339(initialized_at_ms)));
    record.insert(String::from_str("name"), Value::Str(name));
    record.insert(String::from_str("target"), Value::Str(target));
    record
}

/// Builds the outgoing record for a completed span, consuming the collector.
/// A span whose completion timestamp is not strictly after its initialization
/// gets no `duration_ms` key; a diagnostic goes to the error stream instead.
pub fn span_to_values(span: Span) -> (r: FieldMap)
    requires
        span.values.wf(),
        span.initialized_at_ms <= MAX_TIMESTAMP_MS,
    ensures
        r.wf(),
        r@ == span_record(span),
{
    let Span {
        values,
        id,
        trace_id,
        parent_id,
        service_name,
        level,
        name,
        target,
        initialized_at_ms,
        completed_at_ms,
    } = span;
    let mut record = values.0;
    record.insert(String::from_str("trace.span_id"), Value::Str(span_reference(id)));
    record.insert(String::from_str("trace.trace_id"), Value::Str(trace_id));
    record.insert(String::from_str("trace.parent_id"), render_parent_id(parent_id));
    record.insert(String::from_str("service_name"), Value::Str(service_name));
    record.insert(String::from_str("level"), Value::Str(level.render()));
    record.insert(String::from_str("Timestamp"), Value::Str(render_rfc3339(initialized_at_ms)));
    record.insert(String::from_str("name"), Value::Str(name));
    record.insert(String::from_str("target"), Value::Str(target));
    if completed_at_ms > initialized_at_ms {
        let duration = completed_at_ms - initialized_at_ms;
        record.insert(String::from_str("duration_ms"), Value::U64(duration));
    } else {
        emit_clock_skew_diagnostic(initialized_at_ms, completed_at_ms);
    }
    record
}

/// The backend-reserved keys force-inserted on the event path.
pub open spec fn event_reserved_keys() -> Set<Seq<char>> {
    set![
        "trace.trace_id"@,
        "trace.parent_id"@,
        "service_name"@,
        "level"@,
        "Timestamp"@,
        "name"@,
        "target"@,
    ]
}

/// Reveals every reserved key literal; their lengths are pairwise distinct,
/// so no two of them are equal.
proof fn lemma_reserved_keys_distinct()
    ensures
        ("trace.span_id"@).len() == 13,
        ("trace.trace_id"@).len() == 14,
        ("trace.parent_id"@).len() == 15,
        ("service_name"@).len() == 12,
        ("level"@).len() == 5,
        ("Timestamp"@).len() == 9,
        ("name"@).len() == 4,
        ("target"@).len() == 6,
        ("duration_ms"@).len() == 11,
{
    reveal_strlit("trace.span_id");
    reveal_strlit("trace.trace_id");
    reveal_strlit("trace.parent_id");
    reveal_strlit("service_name");
    reveal_strlit("level");
    reveal_strlit("Timestamp");
    reveal_strlit("name");
    reveal_strlit("target");
    reveal_strlit("duration_ms");
}

/// An event record holds exactly the user-recorded keys plus the seven
/// backend-reserved event keys, and never `trace.span_id` or `duration_ms`.
pub proof fn lemma_event_record_keys(e: Event)
    requires
        e.values.wf(),
    ensures
        event_record(e).dom() == e.values@.dom() + event_reserved_keys(),
        !event_record(e).contains_key("trace.span_id"@),
        !event_record(e).contains_key("duration_ms"@),
{
    lemma_reserved_keys_distinct();
    assert(is_reserved("trace.span_id"@));
    assert(is_reserved("duration_ms"@));
    assert(!e.values@.contains_key("trace.span_id"@));
    assert(!e.values@.contains_key("duration_ms"@));
    assert(event_record(e).dom() =~= e.values@.dom() + event_reserved_keys());
}

/// A span record holds exactly the user-recorded keys, the seven event keys
/// and `trace.span_id`; it holds `duration_ms` exactly when the span
/// completed strictly after it was initialized.
pub proof fn lemma_span_record_keys(s: Span)
    requires
        s.values.wf(),
    ensures
        s.completed_at_ms > s.initialized_at_ms ==> span_record(s).dom() == s.values@.dom()
            + event_reserved_keys() + set!["trace.span_id"@, "duration_ms"@],
        s.completed_at_ms <= s.initialized_at_ms ==> span_record(s).dom() == s.values@.dom()
            + event_reserved_keys() + set!["trace.span_id"@],
        span_record(s).contains_key("trace.span_id"@),
        span_record(s).contains_key("duration_ms"@) <==> s.completed_at_ms
            > s.initialized_at_ms,
{
    lemma_reserved_keys_distinct();
    assert(is_reserved("duration_ms"@));
    assert(!s.values@.contains_key("duration_ms"@));
    if s.completed_at_ms > s.initialized_at_ms {
        assert(span_record(s).dom() =~= s.values@.dom() + event_reserved_keys()
            + set!["trace.span_id"@, "duration_ms"@]);
    } else {
        assert(span_record(s).dom() =~= s.values@.dom() + event_reserved_keys()
            + set!["trace.span_id"@]);
    }
}

/// Both record paths store the structured null under `trace.parent_id` when
/// no parent identifier was supplied, and the `span-`-prefixed identifier
/// when one was.
pub proof fn lemma_parent_id_rendering(e: Event, s: Span)
    ensures
        event_record(e)["trace.parent_id"@] == parent_id_value(e.parent_id),
        span_record(s)["trace.parent_id"@] == parent_id_value(s.parent_id),
        e.parent_id is None ==> event_record(e)["trace.parent_id"@] == SpecValue::Null,
        e.parent_id matches Some(id) ==> event_record(e)["trace.parent_id"@] == SpecValue::Str(
            "span-"@ + dec_digits(id as nat),
        ),
        s.parent_id is None ==> span_record(s)["trace.parent_id"@] == SpecValue::Null,
        s.parent_id matches Some(id) ==> span_record(s)["trace.parent_id"@] == SpecValue::Str(
            "span-"@ + dec_digits(id as nat),
        ),
{
    lemma_reserved_keys_distinct();
}

} // verus!
