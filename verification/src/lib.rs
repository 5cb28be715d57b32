//! Conversion of structured trace and event instrumentation data into flat
//! key-value records for a telemetry backend.
//!
//! Typed field values are accumulated into a [`field_map::FieldMap`], with
//! field names that collide with backend-reserved words remapped under a
//! `tracing.` prefix. When a span completes or an event fires, the record
//! builders enrich the accumulated map with the backend-reserved metadata
//! keys (identifiers, timestamps, severity, duration) and yield the finished
//! record.

pub mod field_map;
pub mod record;
pub mod reserved;
pub mod text;
pub mod value;
pub mod visitor;
