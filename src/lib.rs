//! Turns a bundle of clinical records into an emergency-care summary: a
//! critical panel of urgent facts and a chronological timeline of events.

pub mod json;
pub mod text;

pub mod clock;
pub mod decimal;
pub mod model;
pub mod extract;
pub mod detail;
pub mod classify;
pub mod observation;
pub mod sorting;
pub mod ranks;
pub mod aggregate;
pub mod engine;
pub mod laws;

pub use clock::{CalendarDate, Timestamp};
pub use decimal::Decimal;
pub use engine::{empty_snapshot, summarize_bundle_at, summarize_bundle_value};
pub use json::Json;
pub use model::{
    CriticalItem, CriticalSummary, DiagnosticKind, DiagnosticSnapshot, EventCategory,
    ResourceReference, Severity, TimelineConfig, TimelineError, TimelineEvent, TimelineSnapshot,
    VitalSnapshot, VitalTrend, VitalTrendPoint,
};
