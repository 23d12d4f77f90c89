//! The engine's vocabulary: severities, panel items, vital and diagnostic
//! snapshots, timeline events and the summary that holds them.

use vstd::prelude::*;
use crate::clock::Timestamp;
use crate::decimal::Decimal;
use crate::extract::opt_view;

verus! {

/// Recency windows of one summarisation.
#[derive(Clone, Copy, Debug, PartialEq, Eq, Structural)]
pub struct TimelineConfig {
    /// Hours within which a vital sign counts as recent.
    pub vital_recent_hours: u32,
    /// Days within which a clinical event counts as recent.
    pub clinical_event_days: u32,
}

impl Default for TimelineConfig {
    fn default() -> (r: Self)
        ensures
            r.vital_recent_hours == 6,
            r.clinical_event_days == 30,
    {
        TimelineConfig { vital_recent_hours: 6, clinical_event_days: 30 }
    }
}

/// Urgency of a panel item or event, most severe first.
#[derive(Clone, Copy, Debug, PartialEq, Eq, Structural, PartialOrd, Ord, Hash)]
pub enum Severity {
    Critical,
    High,
    Moderate,
    Low,
    Info,
}

impl Severity {
    /// Position in the order most-severe-first.
    pub open spec fn spec_rank(self) -> nat {
        match self {
            Severity::Critical => 0,
            Severity::High => 1,
            Severity::Moderate => 2,
            Severity::Low => 3,
            Severity::Info => 4,
        }
    }

    /// Position in the order most-severe-first.
    pub fn rank(&self) -> (r: u8)
        ensures
            r as nat == self.spec_rank(),
    {
        match self {
            Severity::Critical => 0,
            Severity::High => 1,
            Severity::Moderate => 2,
            Severity::Low => 3,
            Severity::Info => 4,
        }
    }
}

/// Kind of a diagnostic result.
#[derive(Clone, Copy, Debug, PartialEq, Eq, Structural)]
pub enum DiagnosticKind {
    Lab,
    Imaging,
    Other,
}

/// Grouping of a timeline event.
#[derive(Clone, Copy, Debug, PartialEq, Eq, Structural, Hash)]
pub enum EventCategory {
    Encounter,
    Procedure,
    Condition,
    Medication,
    Observation,
    Document,
    Note,
    Other,
}

/// One line of the critical panel.
#[derive(Clone, Debug, PartialEq)]
pub struct CriticalItem {
    pub label: String,
    pub detail: Option<String>,
    pub severity: Severity,
}

/// The latest reading of one vital sign.
#[derive(Clone, Debug, PartialEq)]
pub struct VitalSnapshot {
    pub name: String,
    pub value: String,
    pub recorded_at: Option<Timestamp>,
    pub numeric_value: Option<Decimal>,
    pub unit: Option<String>,
}

/// One reading in a vital-sign series.
#[derive(Clone, Debug, PartialEq)]
pub struct VitalTrendPoint {
    pub recorded_at: Option<Timestamp>,
    pub value: Option<Decimal>,
    pub label: Option<String>,
}

/// The readings of one vital sign over time.
#[derive(Clone, Debug, PartialEq)]
pub struct VitalTrend {
    pub name: String,
    pub unit: Option<String>,
    pub points: Vec<VitalTrendPoint>,
}

impl Default for VitalTrend {
    fn default() -> (r: Self)
        ensures
            r.name@.len() == 0,
            r.unit is None,
            r.points@.len() == 0,
    {
        VitalTrend { name: String::new(), unit: None, points: Vec::new() }
    }
}

impl Default for VitalTrendPoint {
    fn default() -> (r: Self)
        ensures
            r.recorded_at is None,
            r.value is None,
            r.label is None,
    {
        VitalTrendPoint { recorded_at: None, value: None, label: None }
    }
}

/// The latest result of one lab or imaging study.
#[derive(Clone, Debug, PartialEq)]
pub struct DiagnosticSnapshot {
    pub name: String,
    pub value: String,
    pub recorded_at: Option<Timestamp>,
    pub severity: Severity,
    pub kind: DiagnosticKind,
    pub unit: Option<String>,
}

impl Default for DiagnosticSnapshot {
    fn default() -> (r: Self)
        ensures
            r.name@.len() == 0,
            r.value@.len() == 0,
            r.recorded_at is None,
            r.severity == Severity::Info,
            r.kind == DiagnosticKind::Lab,
            r.unit is None,
    {
        DiagnosticSnapshot {
            name: String::new(),
            value: String::new(),
            recorded_at: None,
            severity: Severity::Info,
            kind: DiagnosticKind::Lab,
            unit: None,
        }
    }
}

/// Back-pointer from an event to the record it came from.
#[derive(Clone, Debug, PartialEq, Eq)]
pub struct ResourceReference {
    pub system: Option<String>,
    pub reference: Option<String>,
    pub display: Option<String>,
}

/// One event of the timeline.
#[derive(Clone, Debug, PartialEq)]
pub struct TimelineEvent {
    pub id: String,
    pub category: EventCategory,
    pub title: String,
    pub detail: Option<String>,
    pub occurred_at: Option<Timestamp>,
    pub severity: Severity,
    pub source: Option<ResourceReference>,
}

/// The critical panel.
#[derive(Clone, Debug, PartialEq)]
pub struct CriticalSummary {
    pub allergies: Vec<CriticalItem>,
    pub medications: Vec<CriticalItem>,
    pub chronic_conditions: Vec<CriticalItem>,
    pub code_status: Option<String>,
    pub alerts: Vec<CriticalItem>,
    pub recent_vitals: Vec<VitalSnapshot>,
    pub vital_trends: Vec<VitalTrend>,
    pub recent_diagnostics: Vec<DiagnosticSnapshot>,
}

impl Default for CriticalSummary {
    fn default() -> (r: Self)
        ensures
            r.allergies@.len() == 0,
            r.medications@.len() == 0,
            r.chronic_conditions@.len() == 0,
            r.code_status is None,
            r.alerts@.len() == 0,
            r.recent_vitals@.len() == 0,
            r.vital_trends@.len() == 0,
            r.recent_diagnostics@.len() == 0,
    {
        CriticalSummary {
            allergies: Vec::new(),
            medications: Vec::new(),
            chronic_conditions: Vec::new(),
            code_status: None,
            alerts: Vec::new(),
            recent_vitals: Vec::new(),
            vital_trends: Vec::new(),
            recent_diagnostics: Vec::new(),
        }
    }
}

/// The engine's output: the panel and the sorted timeline.
#[derive(Clone, Debug, PartialEq)]
pub struct TimelineSnapshot {
    pub generated_at: Timestamp,
    pub critical: CriticalSummary,
    pub events: Vec<TimelineEvent>,
}

impl TimelineSnapshot {
    /// The critical panel.
    pub fn critical_panel(&self) -> (r: &CriticalSummary)
        ensures
            *r == self.critical,
    {
        &self.critical
    }

    /// The events, in time order.
    pub fn timeline(&self) -> (r: &[TimelineEvent])
        ensures
            r@ == self.events@,
    {
        self.events.as_slice()
    }
}

/// Why a bundle could not be summarised.
#[derive(Clone, Debug, PartialEq, Eq)]
pub enum TimelineError {
    /// The bundle lacks its type marker or its entries.
    MissingData,
    /// The input is not JSON, or not a bundle.
    Parse(String),
    /// Reserved for callers.
    Other(String),
}

impl TimelineError {
    /// The message describing the error.
    pub open spec fn spec_message(&self) -> Seq<char> {
        match self {
            TimelineError::MissingData => "Dữ liệu đầu vào thiếu thông tin tối thiểu"@,
            TimelineError::Parse(m) => "Không đọc được dữ liệu: "@ + m@,
            TimelineError::Other(m) => "Lỗi khác: "@ + m@,
        }
    }

    /// The message describing the error.
    pub fn message(&self) -> (r: String)
        ensures
            r@ == self.spec_message(),
    {
        match self {
            TimelineError::MissingData => "Dữ liệu đầu vào thiếu thông tin tối thiểu".to_string(),
            TimelineError::Parse(m) => {
                let mut s = "Không đọc được dữ liệu: ".to_string();
                s.append(m.as_str());
                s
            },
            TimelineError::Other(m) => {
                let mut s = "Lỗi khác: ".to_string();
                s.append(m.as_str());
                s
            },
        }
    }
}

/// What a panel item says.
pub struct ItemView {
    pub label: Seq<char>,
    pub detail: Option<Seq<char>>,
    pub severity: Severity,
}

impl View for CriticalItem {
    type V = ItemView;

    open spec fn view(&self) -> ItemView {
        ItemView { label: self.label@, detail: opt_view(self.detail), severity: self.severity }
    }
}

/// What a back-pointer says.
pub struct ReferenceView {
    pub system: Option<Seq<char>>,
    pub reference: Option<Seq<char>>,
    pub display: Option<Seq<char>>,
}

impl View for ResourceReference {
    type V = ReferenceView;

    open spec fn view(&self) -> ReferenceView {
        ReferenceView {
            system: opt_view(self.system),
            reference: opt_view(self.reference),
            display: opt_view(self.display),
        }
    }
}

/// What an optional back-pointer says.
pub open spec fn source_view(r: Option<ResourceReference>) -> Option<ReferenceView> {
    match r {
        Some(r) => Some(r@),
        None => None,
    }
}

/// What a timeline event says.
pub struct EventView {
    pub id: Seq<char>,
    pub category: EventCategory,
    pub title: Seq<char>,
    pub detail: Option<Seq<char>>,
    pub occurred_at: Option<Timestamp>,
    pub severity: Severity,
    pub source: Option<ReferenceView>,
}

impl View for TimelineEvent {
    type V = EventView;

    open spec fn view(&self) -> EventView {
        EventView {
            id: self.id@,
            category: self.category,
            title: self.title@,
            detail: opt_view(self.detail),
            occurred_at: self.occurred_at,
            severity: self.severity,
            source: source_view(self.source),
        }
    }
}

/// What a vital-sign snapshot says.
pub struct VitalView {
    pub name: Seq<char>,
    pub value: Seq<char>,
    pub recorded_at: Option<Timestamp>,
    pub numeric_value: Option<Decimal>,
    pub unit: Option<Seq<char>>,
}

impl View for VitalSnapshot {
    type V = VitalView;

    open spec fn view(&self) -> VitalView {
        VitalView {
            name: self.name@,
            value: self.value@,
            recorded_at: self.recorded_at,
            numeric_value: self.numeric_value,
            unit: opt_view(self.unit),
        }
    }
}

/// What a trend point says.
pub struct PointView {
    pub recorded_at: Option<Timestamp>,
    pub value: Option<Decimal>,
    pub label: Option<Seq<char>>,
}

impl View for VitalTrendPoint {
    type V = PointView;

    open spec fn view(&self) -> PointView {
        PointView { recorded_at: self.recorded_at, value: self.value, label: opt_view(self.label) }
    }
}

/// The views of a list of values.
pub open spec fn views_of<T: View>(s: Seq<T>) -> Seq<T::V> {
    s.map_values(|x: T| x@)
}

/// What a vital-sign trend says.
pub struct TrendView {
    pub name: Seq<char>,
    pub unit: Option<Seq<char>>,
    pub points: Seq<PointView>,
}

impl View for VitalTrend {
    type V = TrendView;

    open spec fn view(&self) -> TrendView {
        TrendView { name: self.name@, unit: opt_view(self.unit), points: views_of(self.points@) }
    }
}

/// What a diagnostic snapshot says.
pub struct DiagnosticView {
    pub name: Seq<char>,
    pub value: Seq<char>,
    pub recorded_at: Option<Timestamp>,
    pub severity: Severity,
    pub kind: DiagnosticKind,
    pub unit: Option<Seq<char>>,
}

impl View for DiagnosticSnapshot {
    type V = DiagnosticView;

    open spec fn view(&self) -> DiagnosticView {
        DiagnosticView {
            name: self.name@,
            value: self.value@,
            recorded_at: self.recorded_at,
            severity: self.severity,
            kind: self.kind,
            unit: opt_view(self.unit),
        }
    }
}

/// What the critical panel says.
pub struct SummaryView {
    pub allergies: Seq<ItemView>,
    pub medications: Seq<ItemView>,
    pub chronic_conditions: Seq<ItemView>,
    pub code_status: Option<Seq<char>>,
    pub alerts: Seq<ItemView>,
    pub recent_vitals: Seq<VitalView>,
    pub vital_trends: Seq<TrendView>,
    pub recent_diagnostics: Seq<DiagnosticView>,
}

impl View for CriticalSummary {
    type V = SummaryView;

    open spec fn view(&self) -> SummaryView {
        SummaryView {
            allergies: views_of(self.allergies@),
            medications: views_of(self.medications@),
            chronic_conditions: views_of(self.chronic_conditions@),
            code_status: opt_view(self.code_status),
            alerts: views_of(self.alerts@),
            recent_vitals: views_of(self.recent_vitals@),
            vital_trends: views_of(self.vital_trends@),
            recent_diagnostics: views_of(self.recent_diagnostics@),
        }
    }
}

/// What a snapshot says.
pub struct SnapshotView {
    pub generated_at: Timestamp,
    pub critical: SummaryView,
    pub events: Seq<EventView>,
}

impl View for TimelineSnapshot {
    type V = SnapshotView;

    open spec fn view(&self) -> SnapshotView {
        SnapshotView {
            generated_at: self.generated_at,
            critical: self.critical@,
            events: views_of(self.events@),
        }
    }
}

} // verus!
