//! The aggregation state threaded through one pass over a bundle, and the
//! per-record handlers that add to it.

use vstd::prelude::*;
use crate::clock::{CalendarDate, DAY_NANOS, Timestamp, age_in_years, age_on, is_more_recent, is_recent_event, more_recent, parse_date, within_window, ymd_date};
use crate::decimal::{digits_of, format_natural};
use crate::extract::{codeable_opt, codeable_of, extract_datetime, first_instant, joined, join, names, opt_view, reference_of, make_reference, resource_id, resource_id_text, status_text, extract_status_code, views};
use crate::json::{Json, field, first_of_field, str_field, str_of, array_field};
use crate::model::{CriticalItem, DiagnosticSnapshot, DiagnosticView, EventCategory, EventView, ItemView, Severity, TimelineConfig, TimelineEvent, TrendView, VitalSnapshot, VitalTrend, VitalTrendPoint, VitalView, PointView, views_of};
use crate::text::{trim, trimmed};

verus! {

/// The latest code status seen, with its instant.
pub struct CodeStatusRecord {
    pub value: String,
    pub recorded_at: Option<Timestamp>,
}

/// What a code-status record says.
pub struct CodeStatusView {
    pub value: Seq<char>,
    pub recorded_at: Option<Timestamp>,
}

/// Per-bundle state: the anchor instant, the panel lists in the order
/// handlers added to them, the latest code status, the latest snapshot per
/// vital and per diagnostic name (in order of first appearance), the trend
/// series per vital name, and the unordered timeline events.
pub struct AggregateData {
    pub anchor: Option<Timestamp>,
    pub alerts: Vec<CriticalItem>,
    pub allergies: Vec<CriticalItem>,
    pub medications: Vec<CriticalItem>,
    pub chronic_conditions: Vec<CriticalItem>,
    pub code_status: Option<CodeStatusRecord>,
    pub vitals: Vec<VitalSnapshot>,
    pub vital_trends: Vec<VitalTrend>,
    pub diagnostics: Vec<DiagnosticSnapshot>,
    pub events: Vec<TimelineEvent>,
}

/// What the aggregation state says.
pub struct AggregateView {
    pub anchor: Option<Timestamp>,
    pub alerts: Seq<ItemView>,
    pub allergies: Seq<ItemView>,
    pub medications: Seq<ItemView>,
    pub chronic_conditions: Seq<ItemView>,
    pub code_status: Option<CodeStatusView>,
    pub vitals: Seq<VitalView>,
    pub vital_trends: Seq<TrendView>,
    pub diagnostics: Seq<DiagnosticView>,
    pub events: Seq<EventView>,
}

impl View for AggregateData {
    type V = AggregateView;

    open spec fn view(&self) -> AggregateView {
        AggregateView {
            anchor: self.anchor,
            alerts: views_of(self.alerts@),
            allergies: views_of(self.allergies@),
            medications: views_of(self.medications@),
            chronic_conditions: views_of(self.chronic_conditions@),
            code_status: match self.code_status {
                Some(c) => Some(CodeStatusView { value: c.value@, recorded_at: c.recorded_at }),
                None => None,
            },
            vitals: views_of(self.vitals@),
            vital_trends: views_of(self.vital_trends@),
            diagnostics: views_of(self.diagnostics@),
            events: views_of(self.events@),
        }
    }
}

/// The empty state for a bundle whose anchor is `anchor`.
pub open spec fn initial_view(anchor: Option<Timestamp>) -> AggregateView {
    AggregateView {
        anchor,
        alerts: Seq::empty(),
        allergies: Seq::empty(),
        medications: Seq::empty(),
        chronic_conditions: Seq::empty(),
        code_status: None,
        vitals: Seq::empty(),
        vital_trends: Seq::empty(),
        diagnostics: Seq::empty(),
        events: Seq::empty(),
    }
}

/// Phrases joined by spaces; nothing when there are none.
pub open spec fn phrases_detail(ps: Seq<Seq<char>>) -> Option<Seq<char>> {
    if ps.len() == 0 {
        None
    } else {
        Some(joined(ps, " "@))
    }
}

fn detail_of(ps: &Vec<String>) -> (r: Option<String>)
    ensures
        opt_view(r) == phrases_detail(views(ps@)),
{
    if ps.len() == 0 {
        None
    } else {
        Some(join(ps, " "))
    }
}

/// The event a handler records for a record.
pub open spec fn event_of(
    id: Seq<char>,
    category: EventCategory,
    title: Seq<char>,
    detail: Option<Seq<char>>,
    at: Option<Timestamp>,
    severity: Severity,
    r: Json,
) -> EventView {
    EventView { id, category, title, detail, occurred_at: at, severity, source: reference_of(r) }
}

/// The view with one more event.
pub open spec fn with_event(a: AggregateView, e: EventView) -> AggregateView {
    AggregateView { events: a.events.push(e), ..a }
}

/// A procedure: a moderate event titled by its coded name (or "Procedure"),
/// with its status as detail.
pub open spec fn procedure_step(a: AggregateView, r: Json) -> AggregateView {
    let name = match codeable_opt(field(r, "code"@)) {
        Some(t) => t,
        None => "Procedure"@,
    };
    with_event(
        a,
        event_of(
            resource_id_text(r, "procedure"@),
            EventCategory::Procedure,
            name,
            status_text(field(r, "status"@)),
            first_instant(r, seq!["performedDateTime"@, "performedPeriod"@]),
            Severity::Moderate,
            r,
        ),
    )
}

/// An encounter: an informational event titled "Encounter: " and its class,
/// else its first type, else "Encounter", with its first reason as detail.
pub open spec fn encounter_step(a: AggregateView, r: Json) -> AggregateView {
    let label = match codeable_opt(field(r, "class"@)) {
        Some(t) => t,
        None => match codeable_opt(first_of_field(r, "type"@)) {
            Some(t) => t,
            None => "Encounter"@,
        },
    };
    with_event(
        a,
        event_of(
            resource_id_text(r, "encounter"@),
            EventCategory::Encounter,
            "Encounter: "@ + label,
            codeable_opt(first_of_field(r, "reasonCode"@)),
            first_instant(r, seq!["period"@]),
            Severity::Info,
            r,
        ),
    )
}

/// The title of the first content attachment of a document.
pub open spec fn attachment_title(r: Json) -> Option<Seq<char>> {
    match first_of_field(r, "content"@) {
        Some(c) => match field(c, "attachment"@) {
            Some(att) => str_field(att, "title"@),
            None => None,
        },
        None => None,
    }
}

/// A document: a low event titled by its type, else its description, else
/// "Clinical document", with its first attachment title as detail.
pub open spec fn document_step(a: AggregateView, r: Json) -> AggregateView {
    let title = match codeable_opt(field(r, "type"@)) {
        Some(t) => t,
        None => match str_field(r, "description"@) {
            Some(d) => d,
            None => "Clinical document"@,
        },
    };
    with_event(
        a,
        event_of(
            resource_id_text(r, "document"@),
            EventCategory::Document,
            title,
            attachment_title(r),
            first_instant(r, seq!["date"@, "created"@]),
            Severity::Low,
            r,
        ),
    )
}

/// The instant a condition was recorded or began.
pub open spec fn condition_instant(r: Json) -> Option<Timestamp> {
    first_instant(r, seq!["recordedDate"@, "onsetDateTime"@, "onsetDate"@, "assertedDate"@])
}

/// The detail phrases of a condition: its status and its severity.
pub open spec fn condition_phrases(r: Json) -> Seq<Seq<char>> {
    (match status_text(field(r, "clinicalStatus"@)) {
        Some(s) => seq!["Status "@ + s + "."@],
        None => Seq::empty(),
    }) + (match status_text(field(r, "severity"@)) {
        Some(s) => seq!["Severity "@ + s + "."@],
        None => Seq::empty(),
    })
}

/// A condition with a coded name, recorded within `days` days of the anchor
/// (or at an unknown time, or with no anchor): a chronic-condition item and
/// a condition event, severity by its name.
pub open spec fn condition_step(a: AggregateView, r: Json, days: u32) -> AggregateView {
    let at = condition_instant(r);
    match codeable_opt(field(r, "code"@)) {
        None => a,
        Some(name) => if !within_window(a.anchor, at, DAY_NANOS as int, days as int) {
            a
        } else {
            let severity = crate::classify::condition_severity(name);
            let detail = phrases_detail(condition_phrases(r));
            AggregateView {
                chronic_conditions: a.chronic_conditions.push(
                    ItemView { label: "Chronic condition: "@ + name, detail, severity },
                ),
                events: a.events.push(
                    event_of(
                        resource_id_text(r, "condition"@),
                        EventCategory::Condition,
                        name,
                        detail,
                        at,
                        severity,
                        r,
                    ),
                ),
                ..a
            }
        },
    }
}

/// A patient's display name: first given name and family name, trimmed.
pub open spec fn patient_name(r: Json) -> Option<Seq<char>> {
    match first_of_field(r, "name"@) {
        None => None,
        Some(n) => {
            let given = match first_of_field(n, "given"@) {
                Some(g) => match str_of(g) {
                    Some(t) => t,
                    None => Seq::empty(),
                },
                None => Seq::empty(),
            };
            let family = match str_field(n, "family"@) {
                Some(f) => f,
                None => Seq::empty(),
            };
            let full = trimmed(given + " "@ + family);
            if full.len() == 0 {
                None
            } else {
                Some(full)
            }
        },
    }
}

/// A patient's age in whole years on `today`, from the birth date.
pub open spec fn patient_age(r: Json, today: Option<CalendarDate>) -> Option<int> {
    match str_field(r, "birthDate"@) {
        Some(b) => match (ymd_date(b), today) {
            (Some(birth), Some(t)) => age_on(birth, t),
            _ => None,
        },
        None => None,
    }
}

/// The detail phrases of a patient: "Age n", then the gender label.
pub open spec fn patient_phrases(r: Json, today: Option<CalendarDate>) -> Seq<Seq<char>> {
    (match patient_age(r, today) {
        Some(n) => seq!["Age "@ + digits_of(n as nat)],
        None => Seq::empty(),
    }) + (match str_field(r, "gender"@) {
        Some(g) => seq![
            if g == "male"@ {
                "Male"@
            } else if g == "female"@ {
                "Female"@
            } else {
                "Gender: "@ + g
            },
        ],
        None => Seq::empty(),
    })
}

/// A named patient: an informational alert "Patient: name" with age and
/// gender joined by " | ".
pub open spec fn patient_step(a: AggregateView, r: Json, today: Option<CalendarDate>) -> AggregateView {
    match patient_name(r) {
        None => a,
        Some(name) => {
            let ps = patient_phrases(r, today);
            AggregateView {
                alerts: a.alerts.push(
                    ItemView {
                        label: "Patient: "@ + name,
                        detail: if ps.len() == 0 { None } else { Some(joined(ps, " | "@)) },
                        severity: Severity::Info,
                    },
                ),
                ..a
            }
        },
    }
}

/// A copy of an optional text.
pub fn copy_text(o: &Option<String>) -> (r: Option<String>)
    ensures
        opt_view(r) == opt_view(*o),
{
    match o {
        Some(s) => Some(s.clone()),
        None => None,
    }
}

fn text3(a: &str, b: &str, c: &str) -> (r: String)
    ensures
        r@ == a@ + b@ + c@,
{
    let mut s = a.to_string();
    s.append(b);
    s.append(c);
    s
}

impl AggregateData {
    /// An empty state for a bundle whose anchor is `anchor`.
    pub fn with_anchor(anchor: Option<Timestamp>) -> (r: Self)
        ensures
            r@ == initial_view(anchor),
    {
        let r = AggregateData {
            anchor,
            alerts: Vec::new(),
            allergies: Vec::new(),
            medications: Vec::new(),
            chronic_conditions: Vec::new(),
            code_status: None,
            vitals: Vec::new(),
            vital_trends: Vec::new(),
            diagnostics: Vec::new(),
            events: Vec::new(),
        };
        assert(r@.alerts =~= Seq::<ItemView>::empty());
        assert(r@.allergies =~= Seq::<ItemView>::empty());
        assert(r@.medications =~= Seq::<ItemView>::empty());
        assert(r@.chronic_conditions =~= Seq::<ItemView>::empty());
        assert(r@.vitals =~= Seq::<VitalView>::empty());
        assert(r@.vital_trends =~= Seq::<TrendView>::empty());
        assert(r@.diagnostics =~= Seq::<DiagnosticView>::empty());
        assert(r@.events =~= Seq::<EventView>::empty());
        r
    }

    fn push_event(&mut self, e: TimelineEvent)
        ensures
            final(self)@ == with_event(old(self)@, e@),
    {
        self.events.push(e);
        assert(final(self)@.events =~= old(self)@.events.push(e@));
    }

    /// Records a procedure (see `procedure_step`).
    pub fn handle_procedure(&mut self, resource: &Json)
        ensures
            final(self)@ == procedure_step(old(self)@, *resource),
    {
        let name = match codeable_of(resource.get("code")) {
            Some(t) => t,
            None => "Procedure".to_string(),
        };
        let fields = ["performedDateTime", "performedPeriod"];
        let at = extract_datetime(resource, &fields);
        assert(names(fields@) =~= seq!["performedDateTime"@, "performedPeriod"@]);
        self.push_event(
            TimelineEvent {
                id: resource_id(resource, "procedure"),
                category: EventCategory::Procedure,
                title: name,
                detail: extract_status_code(resource.get("status")),
                occurred_at: at,
                severity: Severity::Moderate,
                source: make_reference(resource),
            },
        );
    }

    /// Records an encounter (see `encounter_step`).
    pub fn handle_encounter(&mut self, resource: &Json)
        ensures
            final(self)@ == encounter_step(old(self)@, *resource),
    {
        let label = match codeable_of(resource.get("class")) {
            Some(t) => t,
            None => match codeable_of(resource.first_of_field("type")) {
                Some(t) => t,
                None => "Encounter".to_string(),
            },
        };
        let fields = ["period"];
        let at = extract_datetime(resource, &fields);
        assert(names(fields@) =~= seq!["period"@]);
        let mut title = "Encounter: ".to_string();
        title.append(label.as_str());
        self.push_event(
            TimelineEvent {
                id: resource_id(resource, "encounter"),
                category: EventCategory::Encounter,
                title,
                detail: codeable_of(resource.first_of_field("reasonCode")),
                occurred_at: at,
                severity: Severity::Info,
                source: make_reference(resource),
            },
        );
    }

    /// Records a document (see `document_step`).
    pub fn handle_document(&mut self, resource: &Json)
        ensures
            final(self)@ == document_step(old(self)@, *resource),
    {
        let title = match codeable_of(resource.get("type")) {
            Some(t) => t,
            None => match resource.str_field("description") {
                Some(d) => d.to_string(),
                None => "Clinical document".to_string(),
            },
        };
        let fields = ["date", "created"];
        let at = extract_datetime(resource, &fields);
        assert(names(fields@) =~= seq!["date"@, "created"@]);
        let detail = match resource.first_of_field("content") {
            Some(c) => match c.get("attachment") {
                Some(att) => match att.str_field("title") {
                    Some(t) => Some(t.to_string()),
                    None => None,
                },
                None => None,
            },
            None => None,
        };
        self.push_event(
            TimelineEvent {
                id: resource_id(resource, "document"),
                category: EventCategory::Document,
                title,
                detail,
                occurred_at: at,
                severity: Severity::Low,
                source: make_reference(resource),
            },
        );
    }

    /// Records a condition (see `condition_step`).
    pub fn handle_condition(&mut self, resource: &Json, config: &TimelineConfig)
        ensures
            final(self)@ == condition_step(old(self)@, *resource, config.clinical_event_days),
    {
        let name = match codeable_of(resource.get("code")) {
            Some(t) => t,
            None => {
                return;
            },
        };
        let fields = ["recordedDate", "onsetDateTime", "onsetDate", "assertedDate"];
        let at = extract_datetime(resource, &fields);
        assert(names(fields@) =~= seq!["recordedDate"@, "onsetDateTime"@, "onsetDate"@, "assertedDate"@]);
        if !is_recent_event(self.anchor, at, config.clinical_event_days) {
            return;
        }
        let severity = crate::classify::map_condition_severity(name.as_str());
        let mut phrases: Vec<String> = Vec::new();
        match extract_status_code(resource.get("clinicalStatus")) {
            Some(s) => phrases.push(text3("Status ", s.as_str(), ".")),
            None => {},
        }
        match extract_status_code(resource.get("severity")) {
            Some(s) => phrases.push(text3("Severity ", s.as_str(), ".")),
            None => {},
        }
        assert(views(phrases@) =~= condition_phrases(*resource));
        let detail = detail_of(&phrases);
        let item = CriticalItem { label: text3("Chronic condition: ", name.as_str(), ""), detail: copy_text(&detail), severity };
        proof {
            reveal_strlit("");
        }
        assert(""@ =~= Seq::<char>::empty());
        self.chronic_conditions.push(item);
        self.events.push(
            TimelineEvent {
                id: resource_id(resource, "condition"),
                category: EventCategory::Condition,
                title: name,
                detail,
                occurred_at: at,
                severity,
                source: make_reference(resource),
            },
        );
        assert(final(self)@.chronic_conditions =~= condition_step(old(self)@, *resource, config.clinical_event_days).chronic_conditions);
        assert(final(self)@.events =~= condition_step(old(self)@, *resource, config.clinical_event_days).events);
    }

    /// Records a patient (see `patient_step`).
    pub fn handle_patient(&mut self, resource: &Json, today: Option<CalendarDate>)
        ensures
            final(self)@ == patient_step(old(self)@, *resource, today),
    {
        let name = match extract_patient_name(resource) {
            Some(n) => n,
            None => {
                return;
            },
        };
        let mut parts: Vec<String> = Vec::new();
        match extract_patient_age(resource, today) {
            Some(age) => {
                let mut p = "Age ".to_string();
                p.append(format_natural(age as u64).as_str());
                parts.push(p);
            },
            None => {},
        }
        match resource.str_field("gender") {
            Some(g) => {
                let label = if crate::text::same_text(g, "male") {
                    "Male".to_string()
                } else if crate::text::same_text(g, "female") {
                    "Female".to_string()
                } else {
                    text3("Gender: ", g, "")
                };
                parts.push(label);
            },
            None => {},
        }
        proof {
            reveal_strlit("");
        }
        assert(""@ =~= Seq::<char>::empty());
        assert(views(parts@) =~= patient_phrases(*resource, today));
        let detail = if parts.len() == 0 {
            None
        } else {
            Some(join(&parts, " | "))
        };
        self.alerts.push(
            CriticalItem { label: text3("Patient: ", name.as_str(), ""), detail, severity: Severity::Info },
        );
        assert(final(self)@.alerts =~= patient_step(old(self)@, *resource, today).alerts);
    }
}

/// A patient's display name (see `patient_name`).
pub fn extract_patient_name(resource: &Json) -> (r: Option<String>)
    ensures
        opt_view(r) == patient_name(*resource),
{
    let n = match resource.first_of_field("name") {
        Some(n) => n,
        None => {
            return None;
        },
    };
    let given: &str = match n.first_of_field("given") {
        Some(g) => match g.as_str() {
            Some(t) => t,
            None => "",
        },
        None => "",
    };
    let family: &str = match n.str_field("family") {
        Some(f) => f,
        None => "",
    };
    proof {
            reveal_strlit("");
        }
        assert(""@ =~= Seq::<char>::empty());
    let full = trim(text3(given, " ", family).as_str());
    if full.unicode_len() == 0 {
        None
    } else {
        Some(full)
    }
}

/// A patient's age on `today` (see `patient_age`).
pub fn extract_patient_age(resource: &Json, today: Option<CalendarDate>) -> (r: Option<i64>)
    ensures
        match r {
            Some(a) => patient_age(*resource, today) == Some(a as int) && a >= 0,
            None => patient_age(*resource, today) is None,
        },
{
    let b = match resource.str_field("birthDate") {
        Some(b) => b,
        None => {
            return None;
        },
    };
    match (parse_date(b), today) {
        (Some(birth), Some(t)) => age_in_years(birth, t),
        _ => None,
    }
}

/// The string elements of a list, in order.
pub open spec fn string_items(items: Seq<Json>) -> Seq<Seq<char>>
    decreases items.len(),
{
    if items.len() == 0 {
        Seq::empty()
    } else {
        match str_of(items.last()) {
            Some(t) => string_items(items.drop_last()).push(t),
            None => string_items(items.drop_last()),
        }
    }
}

/// Each text with its first character in upper case.
pub open spec fn capitalized_all(ts: Seq<Seq<char>>) -> Seq<Seq<char>> {
    ts.map_values(|t: Seq<char>| crate::text::capitalized(t))
}

/// The coded texts of a list of concepts, those without text left out.
pub open spec fn coded_texts(ms: Seq<Json>) -> Seq<Seq<char>>
    decreases ms.len(),
{
    if ms.len() == 0 {
        Seq::empty()
    } else {
        match crate::extract::codeable_text(ms.last()) {
            Some(t) => coded_texts(ms.drop_last()).push(t),
            None => coded_texts(ms.drop_last()),
        }
    }
}

/// The manifestation texts of a reaction.
pub open spec fn manifestation_texts(reaction: Json) -> Seq<Seq<char>> {
    match array_field(reaction, "manifestation"@) {
        Some(ms) => coded_texts(ms),
        None => Seq::empty(),
    }
}

/// The manifestation texts of all reactions, in order.
pub open spec fn reaction_texts(rs: Seq<Json>) -> Seq<Seq<char>>
    decreases rs.len(),
{
    if rs.len() == 0 {
        Seq::empty()
    } else {
        reaction_texts(rs.drop_last()) + manifestation_texts(rs.last())
    }
}

/// The reactions of an allergy, their manifestations joined by ", ".
pub open spec fn reactions_summary(r: Json) -> Option<Seq<char>> {
    match array_field(r, "reaction"@) {
        Some(rs) => if reaction_texts(rs).len() > 0 {
            Some(joined(reaction_texts(rs), ", "@))
        } else {
            None
        },
        None => None,
    }
}

/// The detail phrases of an allergy: its categories, its reactions, its criticality.
pub open spec fn allergy_phrases(r: Json) -> Seq<Seq<char>> {
    (match array_field(r, "category"@) {
        Some(items) => if string_items(items).len() > 0 {
            seq!["Category: "@ + joined(capitalized_all(string_items(items)), ", "@) + "."@]
        } else {
            Seq::empty()
        },
        None => Seq::empty(),
    }) + (match reactions_summary(r) {
        Some(t) => seq!["Reaction: "@ + t + "."@],
        None => Seq::empty(),
    }) + (match str_field(r, "criticality"@) {
        Some(c) => seq!["Criticality "@ + crate::text::upper_of(c) + "."@],
        None => Seq::empty(),
    })
}

/// An allergy with a coded name: an allergy item and a condition event,
/// both with the allergy's severity and detail.
pub open spec fn allergy_step(a: AggregateView, r: Json) -> AggregateView {
    match codeable_opt(field(r, "code"@)) {
        None => a,
        Some(label) => {
            let severity = crate::classify::allergy_severity(r);
            let detail = phrases_detail(allergy_phrases(r));
            AggregateView {
                allergies: a.allergies.push(
                    ItemView { label: "Allergy: "@ + label, detail, severity },
                ),
                events: a.events.push(
                    event_of(
                        resource_id_text(r, "allergy"@),
                        EventCategory::Condition,
                        "Allergy documented: "@ + label,
                        detail,
                        first_instant(r, seq!["recordedDate"@, "onsetDateTime"@]),
                        severity,
                        r,
                    ),
                ),
                ..a
            }
        },
    }
}

/// The reactions of an allergy (see `reactions_summary`).
pub fn summarize_reactions(resource: &Json) -> (r: Option<String>)
    ensures
        opt_view(r) == reactions_summary(*resource),
{
    let rs = match resource.array_field("reaction") {
        Some(rs) => rs,
        None => {
            return None;
        },
    };
    let mut parts: Vec<String> = Vec::new();
    let mut i: usize = 0;
    while i < rs.len()
        invariant
            i <= rs@.len(),
            views(parts@) == reaction_texts(rs@.subrange(0, i as int)),
        decreases rs.len() - i,
    {
        assert(rs@.subrange(0, i + 1).drop_last() =~= rs@.subrange(0, i as int));
        let ghost before = views(parts@);
        match rs[i].array_field("manifestation") {
            Some(ms) => {
                let mut j: usize = 0;
                while j < ms.len()
                    invariant
                        j <= ms@.len(),
                        views(parts@) == before + coded_texts(ms@.subrange(0, j as int)),
                    decreases ms.len() - j,
                {
                    assert(ms@.subrange(0, j + 1).drop_last() =~= ms@.subrange(0, j as int));
                    match crate::extract::extract_codeable_text(&ms[j]) {
                        Some(t) => {
                            let ghost b2 = views(parts@);
                            parts.push(t);
                            assert(views(parts@) =~= b2.push(t@));
                            assert(before + coded_texts(ms@.subrange(0, j + 1)) =~= (before + coded_texts(ms@.subrange(0, j as int))).push(t@));
                        },
                        None => {},
                    }
                    j += 1;
                }
                assert(ms@.subrange(0, j as int) =~= ms@);
            },
            None => {
                assert(before + Seq::<Seq<char>>::empty() =~= before);
            },
        }
        i += 1;
    }
    assert(rs@.subrange(0, i as int) =~= rs@);
    if parts.len() == 0 {
        None
    } else {
        Some(join(&parts, ", "))
    }
}

/// The name of a medication: its coded concept, else the display of its
/// reference, else "Medication not specified".
pub open spec fn medication_name(r: Json) -> Seq<char> {
    match codeable_opt(field(r, "medicationCodeableConcept"@)) {
        Some(t) => t,
        None => match field(r, "medicationReference"@) {
            Some(m) => match str_field(m, "display"@) {
                Some(d) => d,
                None => "Medication not specified"@,
            },
            None => "Medication not specified"@,
        },
    }
}

/// The status of a medication, "unknown" when absent.
pub open spec fn medication_status(r: Json) -> Seq<char> {
    match str_field(r, "status"@) {
        Some(s) => s,
        None => "unknown"@,
    }
}

/// Severity from a medication status: active or intended is high, on-hold
/// moderate, completed low, anything else moderate.
pub open spec fn medication_severity(st: Seq<char>) -> Severity {
    if st == "active"@ || st == "intended"@ {
        Severity::High
    } else if st == "on-hold"@ {
        Severity::Moderate
    } else if st == "completed"@ {
        Severity::Low
    } else {
        Severity::Moderate
    }
}

/// The phrase for a medication status.
pub open spec fn status_phrase(st: Seq<char>) -> Seq<char> {
    if st == "active"@ {
        "Active medication."@
    } else if st == "intended"@ {
        "Planned therapy."@
    } else if st == "completed"@ {
        "Course completed."@
    } else if st == "on-hold"@ {
        "Therapy on hold."@
    } else {
        "Status "@ + st + "."@
    }
}

/// A text without its trailing '.' characters.
pub open spec fn strip_dots(s: Seq<char>) -> Seq<char>
    decreases s.len(),
{
    if s.len() > 0 && s.last() == '.' {
        strip_dots(s.drop_last())
    } else {
        s
    }
}

/// The phrases of a medication's first dosage: its text (trimmed, ending in
/// one '.'), its route, its rate.
pub open spec fn dosage_phrases(r: Json) -> Seq<Seq<char>> {
    match first_of_field(r, "dosage"@) {
        None => Seq::empty(),
        Some(d) => (match str_field(d, "text"@) {
            Some(t) => if strip_dots(trimmed(t)).len() > 0 {
                seq![strip_dots(trimmed(t)) + "."@]
            } else {
                Seq::empty()
            },
            None => Seq::empty(),
        }) + (match codeable_opt(field(d, "route"@)) {
            Some(t) => if t.len() > 0 { seq!["Administer via "@ + t + "."@] } else { Seq::empty() },
            None => Seq::empty(),
        }) + (match field(d, "rateQuantity"@) {
            Some(q) => match crate::extract::quantity_text(q) {
                Some(t) => seq!["Rate "@ + t + "."@],
                None => Seq::empty(),
            },
            None => Seq::empty(),
        }),
    }
}

/// The detail phrases of a medication: status, indication, dosage.
pub open spec fn medication_phrases(r: Json) -> Seq<Seq<char>> {
    seq![status_phrase(medication_status(r))] + (match codeable_opt(first_of_field(r, "reasonCode"@)) {
        Some(t) => seq!["Indication: "@ + t + "."@],
        None => Seq::empty(),
    }) + dosage_phrases(r)
}

/// A medication statement or request: a medication item and a medication
/// event, severity by its status.
pub open spec fn medication_step(a: AggregateView, r: Json) -> AggregateView {
    let name = medication_name(r);
    let severity = medication_severity(medication_status(r));
    let detail = phrases_detail(medication_phrases(r));
    AggregateView {
        medications: a.medications.push(ItemView { label: "Medication: "@ + name, detail, severity }),
        events: a.events.push(
            event_of(
                resource_id_text(r, "medication"@),
                EventCategory::Medication,
                name,
                detail,
                first_instant(
                    r,
                    seq!["effectiveDateTime"@, "effectivePeriod"@, "dateAsserted"@, "authoredOn"@],
                ),
                severity,
                r,
            ),
        ),
        ..a
    }
}

/// The text without trailing '.' characters (see `strip_dots`).
fn strip_trailing_dots(t: &str) -> (r: String)
    ensures
        r@ == strip_dots(t@),
{
    let cs = crate::text::chars_of(t);
    let mut j = cs.len();
    assert(t@.subrange(0, j as int) =~= t@);
    while j > 0 && cs[j - 1] == '.'
        invariant
            cs@ == t@,
            j <= cs@.len(),
            strip_dots(t@) == strip_dots(t@.subrange(0, j as int)),
        decreases j,
    {
        assert(t@.subrange(0, j as int).drop_last() =~= t@.subrange(0, j - 1));
        j -= 1;
    }
    crate::text::string_of(&crate::text::slice(&cs, 0, j))
}

/// The phrases of a medication's first dosage (see `dosage_phrases`).
pub fn summarize_dosage(resource: &Json) -> (r: Vec<String>)
    ensures
        views(r@) == dosage_phrases(*resource),
{
    let mut phrases: Vec<String> = Vec::new();
    let d = match resource.first_of_field("dosage") {
        Some(d) => d,
        None => {
            assert(views(phrases@) =~= Seq::<Seq<char>>::empty());
            return phrases;
        },
    };
    match d.str_field("text") {
        Some(t) => {
            let cleaned = strip_trailing_dots(trim(t).as_str());
            if cleaned.unicode_len() > 0 {
                let mut p = cleaned;
                p.append(".");
                phrases.push(p);
            }
        },
        None => {},
    }
    match codeable_of(d.get("route")) {
        Some(t) => {
            if t.unicode_len() > 0 {
                phrases.push(text3("Administer via ", t.as_str(), "."));
            }
        },
        None => {},
    }
    match d.get("rateQuantity") {
        Some(q) => match crate::extract::format_quantity_value(q) {
            Some(t) => phrases.push(text3("Rate ", t.as_str(), ".")),
            None => {},
        },
        None => {},
    }
    assert(views(phrases@) =~= dosage_phrases(*resource));
    phrases
}

impl AggregateData {
    /// Records an allergy (see `allergy_step`).
    pub fn handle_allergy(&mut self, resource: &Json)
        ensures
            final(self)@ == allergy_step(old(self)@, *resource),
    {
        let label = match codeable_of(resource.get("code")) {
            Some(t) => t,
            None => {
                return;
            },
        };
        let severity = crate::classify::map_allergy_severity(resource);
        let mut phrases: Vec<String> = Vec::new();
        match resource.array_field("category") {
            Some(items) => {
                let mut caps: Vec<String> = Vec::new();
                let mut i: usize = 0;
                while i < items.len()
                    invariant
                        i <= items@.len(),
                        views(caps@) == capitalized_all(string_items(items@.subrange(0, i as int))),
                    decreases items.len() - i,
                {
                    assert(items@.subrange(0, i + 1).drop_last() =~= items@.subrange(0, i as int));
                    match items[i].as_str() {
                        Some(t) => {
                            let ghost b = views(caps@);
                            caps.push(crate::text::capitalize_first(t));
                            assert(views(caps@) =~= b.push(crate::text::capitalized(t@)));
                            assert(capitalized_all(string_items(items@.subrange(0, i + 1))) =~= capitalized_all(string_items(items@.subrange(0, i as int))).push(crate::text::capitalized(t@)));
                        },
                        None => {},
                    }
                    i += 1;
                }
                assert(items@.subrange(0, i as int) =~= items@);
                if caps.len() > 0 {
                    phrases.push(text3("Category: ", join(&caps, ", ").as_str(), "."));
                }
            },
            None => {},
        }
        match summarize_reactions(resource) {
            Some(t) => phrases.push(text3("Reaction: ", t.as_str(), ".")),
            None => {},
        }
        match resource.str_field("criticality") {
            Some(c) => phrases.push(text3("Criticality ", crate::text::to_upper(c).as_str(), ".")),
            None => {},
        }
        assert(views(phrases@) =~= allergy_phrases(*resource));
        let fields = ["recordedDate", "onsetDateTime"];
        let at = extract_datetime(resource, &fields);
        assert(names(fields@) =~= seq!["recordedDate"@, "onsetDateTime"@]);
        let detail = detail_of(&phrases);
        proof {
            reveal_strlit("");
        }
        self.allergies.push(
            CriticalItem { label: text3("Allergy: ", label.as_str(), ""), detail: copy_text(&detail), severity },
        );
        self.events.push(
            TimelineEvent {
                id: resource_id(resource, "allergy"),
                category: EventCategory::Condition,
                title: text3("Allergy documented: ", label.as_str(), ""),
                detail,
                occurred_at: at,
                severity,
                source: make_reference(resource),
            },
        );
        assert(""@ =~= Seq::<char>::empty());
        assert(final(self)@.allergies =~= allergy_step(old(self)@, *resource).allergies);
        assert(final(self)@.events =~= allergy_step(old(self)@, *resource).events);
    }

    /// Records a medication statement or request (see `medication_step`).
    pub fn handle_medication(&mut self, resource: &Json)
        ensures
            final(self)@ == medication_step(old(self)@, *resource),
    {
        let name = match codeable_of(resource.get("medicationCodeableConcept")) {
            Some(t) => t,
            None => match resource.get("medicationReference") {
                Some(m) => match m.str_field("display") {
                    Some(d) => d.to_string(),
                    None => "Medication not specified".to_string(),
                },
                None => "Medication not specified".to_string(),
            },
        };
        let status: &str = match resource.str_field("status") {
            Some(s) => s,
            None => "unknown",
        };
        let same = |a: &str, b: &str| -> (r: bool)
            ensures r == (a@ == b@),
        { crate::text::same_text(a, b) };
        let severity = if same(status, "active") || same(status, "intended") {
            Severity::High
        } else if same(status, "on-hold") {
            Severity::Moderate
        } else if same(status, "completed") {
            Severity::Low
        } else {
            Severity::Moderate
        };
        let phrase = if same(status, "active") {
            "Active medication.".to_string()
        } else if same(status, "intended") {
            "Planned therapy.".to_string()
        } else if same(status, "completed") {
            "Course completed.".to_string()
        } else if same(status, "on-hold") {
            "Therapy on hold.".to_string()
        } else {
            text3("Status ", status, ".")
        };
        let mut phrases: Vec<String> = Vec::new();
        phrases.push(phrase);
        match codeable_of(resource.first_of_field("reasonCode")) {
            Some(t) => phrases.push(text3("Indication: ", t.as_str(), ".")),
            None => {},
        }
        let dose = summarize_dosage(resource);
        let mut k: usize = 0;
        let ghost head = views(phrases@);
        while k < dose.len()
            invariant
                k <= dose@.len(),
                views(phrases@) == head + views(dose@).subrange(0, k as int),
            decreases dose.len() - k,
        {
            let ghost b = views(phrases@);
            let c = dose[k].clone();
            phrases.push(c);
            assert(views(phrases@) =~= b.push(c@));
            assert(views(dose@)[k as int] == c@);
            k += 1;
            assert(views(phrases@) =~= head + views(dose@).subrange(0, k as int));
        }
        assert(views(dose@).subrange(0, k as int) =~= views(dose@));
        assert(views(phrases@) =~= medication_phrases(*resource));
        let fields = ["effectiveDateTime", "effectivePeriod", "dateAsserted", "authoredOn"];
        let at = extract_datetime(resource, &fields);
        assert(names(fields@) =~= seq!["effectiveDateTime"@, "effectivePeriod"@, "dateAsserted"@, "authoredOn"@]);
        let detail = detail_of(&phrases);
        self.medications.push(
            CriticalItem { label: text3("Medication: ", name.as_str(), ""), detail: copy_text(&detail), severity },
        );
        self.events.push(
            TimelineEvent {
                id: resource_id(resource, "medication"),
                category: EventCategory::Medication,
                title: name,
                detail,
                occurred_at: at,
                severity,
                source: make_reference(resource),
            },
        );
        proof {
            reveal_strlit("");
        }
        assert(""@ =~= Seq::<char>::empty());
        assert(final(self)@.medications =~= medication_step(old(self)@, *resource).medications);
        assert(final(self)@.events =~= medication_step(old(self)@, *resource).events);
    }
}

/// Index of the first element that satisfies `p`; the length if none does.
pub open spec fn index_where<V>(s: Seq<V>, p: spec_fn(V) -> bool) -> nat
    decreases s.len(),
{
    if s.len() == 0 {
        0
    } else if p(s[0]) {
        0
    } else {
        1 + index_where(s.drop_first(), p)
    }
}

proof fn lemma_index_where<V>(s: Seq<V>, p: spec_fn(V) -> bool, i: int)
    requires
        0 <= i <= s.len(),
        forall|k: int| 0 <= k < i ==> !p(#[trigger] s[k]),
        i == s.len() || p(s[i]),
    ensures
        index_where(s, p) == i,
    decreases i,
{
    if i > 0 {
        let t = s.drop_first();
        assert(!p(s[0]));
        assert forall|k: int| 0 <= k < i - 1 implies !p(#[trigger] t[k]) by {
            assert(t[k] == s[k + 1]);
        }
        if i < s.len() {
            assert(t[i - 1] == s[i]);
        }
        lemma_index_where(t, p, i - 1);
    }
}

pub open spec fn vital_named(name: Seq<char>) -> spec_fn(VitalView) -> bool {
    |v: VitalView| v.name == name
}

pub open spec fn trend_named(name: Seq<char>) -> spec_fn(TrendView) -> bool {
    |t: TrendView| t.name == name
}

pub open spec fn diagnostic_named(name: Seq<char>) -> spec_fn(DiagnosticView) -> bool {
    |d: DiagnosticView| d.name == name
}

/// A new reading for a vital already held: a strictly later one replaces
/// it; otherwise the held one stays, taking only a unit or a number it lacks.
pub open spec fn merge_vital(held: VitalView, new: VitalView) -> VitalView {
    if more_recent(new.recorded_at, held.recorded_at) {
        new
    } else {
        VitalView {
            unit: if held.unit is None && new.unit is Some { new.unit } else { held.unit },
            numeric_value: if held.numeric_value is None && new.numeric_value is Some {
                new.numeric_value
            } else {
                held.numeric_value
            },
            ..held
        }
    }
}

/// The latest-vital list with a new reading merged into the entry of its name.
pub open spec fn upsert_vital_view(vs: Seq<VitalView>, v: VitalView) -> Seq<VitalView> {
    let i = index_where(vs, vital_named(v.name)) as int;
    if i < vs.len() {
        vs.update(i, merge_vital(vs[i], v))
    } else {
        vs.push(v)
    }
}

/// The latest-diagnostic list with a new result replacing the entry of its
/// name when strictly later.
pub open spec fn upsert_diagnostic_view(ds: Seq<DiagnosticView>, d: DiagnosticView) -> Seq<DiagnosticView> {
    let i = index_where(ds, diagnostic_named(d.name)) as int;
    if i < ds.len() {
        if more_recent(d.recorded_at, ds[i].recorded_at) {
            ds.update(i, d)
        } else {
            ds
        }
    } else {
        ds.push(d)
    }
}

/// The trend list with a point appended to the series of its name; the
/// first unit seen is kept.
pub open spec fn record_trend_view(ts: Seq<TrendView>, name: Seq<char>, p: PointView, unit: Option<Seq<char>>) -> Seq<TrendView> {
    let i = index_where(ts, trend_named(name)) as int;
    if i < ts.len() {
        ts.update(
            i,
            TrendView {
                unit: if ts[i].unit is None && unit is Some { unit } else { ts[i].unit },
                points: ts[i].points.push(p),
                ..ts[i]
            },
        )
    } else {
        ts.push(TrendView { name, unit, points: seq![p] })
    }
}

/// The name of an observation: its coded name, or "Observation".
pub open spec fn observation_name(r: Json) -> Seq<char> {
    match codeable_opt(field(r, "code"@)) {
        Some(t) => t,
        None => "Observation"@,
    }
}

/// An observation. A code status with a value becomes the held code status
/// unless the held one is strictly later, and adds a critical event
/// carrying the held value. Any other observation with a displayable value
/// adds an event with its classified severity; a vital sign also updates
/// its latest snapshot and its trend, and otherwise a lab or imaging study
/// updates its latest diagnostic.
pub open spec fn observation_step(a: AggregateView, r: Json) -> AggregateView {
    let name = observation_name(r);
    let at = crate::observation::observation_instant(r);
    if crate::observation::is_code_status(r) {
        match crate::observation::status_value(r) {
            None => a,
            Some(v) => {
                let cs = match a.code_status {
                    Some(e) => if more_recent(e.recorded_at, at) {
                        e
                    } else {
                        CodeStatusView { value: v, recorded_at: at }
                    },
                    None => CodeStatusView { value: v, recorded_at: at },
                };
                AggregateView {
                    code_status: Some(cs),
                    events: a.events.push(
                        event_of(
                            resource_id_text(r, "code-status"@),
                            EventCategory::Observation,
                            "Code status updated"@,
                            Some(cs.value),
                            at,
                            Severity::Critical,
                            r,
                        ),
                    ),
                    ..a
                }
            },
        }
    } else {
        match crate::observation::observation_value(r) {
            None => a,
            Some(detail) => {
                let severity = crate::classify::observation_severity(name, r, detail);
                let nums = crate::observation::observation_numbers(name, r, detail);
                let a1 = match crate::classify::vital_label(name) {
                    Some(l) => AggregateView {
                        vitals: upsert_vital_view(
                            a.vitals,
                            VitalView { name: l, value: detail, recorded_at: at, numeric_value: nums.0, unit: nums.1 },
                        ),
                        vital_trends: record_trend_view(
                            a.vital_trends,
                            l,
                            PointView { recorded_at: at, value: nums.0, label: Some(detail) },
                            nums.1,
                        ),
                        ..a
                    },
                    None => match crate::classify::diagnostic_kind(name, r) {
                        Some(k) => AggregateView {
                            diagnostics: upsert_diagnostic_view(
                                a.diagnostics,
                                DiagnosticView { name, value: detail, recorded_at: at, severity, kind: k, unit: nums.1 },
                            ),
                            ..a
                        },
                        None => a,
                    },
                };
                with_event(
                    a1,
                    event_of(
                        resource_id_text(r, "observation"@),
                        EventCategory::Observation,
                        name,
                        Some(detail),
                        at,
                        severity,
                        r,
                    ),
                )
            },
        }
    }
}

impl AggregateData {
    /// Merges a vital reading into the entry of its name (see `upsert_vital_view`).
    pub fn upsert_vital(&mut self, snapshot: VitalSnapshot)
        ensures
            final(self)@ == (AggregateView { vitals: upsert_vital_view(old(self)@.vitals, snapshot@), ..old(self)@ }),
    {
        let ghost vs = old(self)@.vitals;
        let ghost p = vital_named(snapshot@.name);
        let mut i: usize = 0;
        while i < self.vitals.len()
            invariant
                self@ == old(self)@,
                vs == old(self)@.vitals,
                p == vital_named(snapshot@.name),
                i <= vs.len(),
                forall|k: int| 0 <= k < i ==> !p(#[trigger] vs[k]),
            decreases self.vitals.len() - i,
        {
            assert(vs[i as int] == self.vitals@[i as int]@);
            if crate::text::same_text(self.vitals[i].name.as_str(), snapshot.name.as_str()) {
                proof {
                    lemma_index_where(vs, p, i as int);
                }
                let held = &self.vitals[i];
                if is_more_recent(snapshot.recorded_at, held.recorded_at) {
                    self.vitals[i] = snapshot;
                } else {
                    let unit = if held.unit.is_none() && snapshot.unit.is_some() {
                        snapshot.unit
                    } else {
                        copy_text(&held.unit)
                    };
                    let numeric_value = if held.numeric_value.is_none() && snapshot.numeric_value.is_some() {
                        snapshot.numeric_value
                    } else {
                        held.numeric_value
                    };
                    let merged = VitalSnapshot {
                        name: held.name.clone(),
                        value: held.value.clone(),
                        recorded_at: held.recorded_at,
                        numeric_value,
                        unit,
                    };
                    self.vitals[i] = merged;
                }
                assert(self@.vitals =~= upsert_vital_view(vs, snapshot@));
                return;
            }
            i += 1;
        }
        proof {
            lemma_index_where(vs, p, i as int);
        }
        self.vitals.push(snapshot);
        assert(self@.vitals =~= upsert_vital_view(vs, snapshot@));
    }

    /// Puts a diagnostic result in the entry of its name (see `upsert_diagnostic_view`).
    pub fn upsert_diagnostic(&mut self, snapshot: DiagnosticSnapshot)
        ensures
            final(self)@ == (AggregateView {
                diagnostics: upsert_diagnostic_view(old(self)@.diagnostics, snapshot@),
                ..old(self)@
            }),
    {
        let ghost ds = old(self)@.diagnostics;
        let ghost p = diagnostic_named(snapshot@.name);
        let mut i: usize = 0;
        while i < self.diagnostics.len()
            invariant
                self@ == old(self)@,
                ds == old(self)@.diagnostics,
                p == diagnostic_named(snapshot@.name),
                i <= ds.len(),
                forall|k: int| 0 <= k < i ==> !p(#[trigger] ds[k]),
            decreases self.diagnostics.len() - i,
        {
            assert(ds[i as int] == self.diagnostics@[i as int]@);
            if crate::text::same_text(self.diagnostics[i].name.as_str(), snapshot.name.as_str()) {
                proof {
                    lemma_index_where(ds, p, i as int);
                }
                if is_more_recent(snapshot.recorded_at, self.diagnostics[i].recorded_at) {
                    self.diagnostics[i] = snapshot;
                }
                assert(self@.diagnostics =~= upsert_diagnostic_view(ds, snapshot@));
                return;
            }
            i += 1;
        }
        proof {
            lemma_index_where(ds, p, i as int);
        }
        self.diagnostics.push(snapshot);
        assert(self@.diagnostics =~= upsert_diagnostic_view(ds, snapshot@));
    }

    /// Appends a point to the trend of `label` (see `record_trend_view`).
    pub fn record_vital_trend(&mut self, label: &str, point: VitalTrendPoint, unit: Option<String>)
        ensures
            final(self)@ == (AggregateView {
                vital_trends: record_trend_view(old(self)@.vital_trends, label@, point@, opt_view(unit)),
                ..old(self)@
            }),
    {
        let ghost ts = old(self)@.vital_trends;
        let ghost p = trend_named(label@);
        let mut i: usize = 0;
        while i < self.vital_trends.len()
            invariant
                self@ == old(self)@,
                ts == old(self)@.vital_trends,
                p == trend_named(label@),
                i <= ts.len(),
                forall|k: int| 0 <= k < i ==> !p(#[trigger] ts[k]),
            decreases self.vital_trends.len() - i,
        {
            assert(ts[i as int] == self.vital_trends@[i as int]@);
            if crate::text::same_text(self.vital_trends[i].name.as_str(), label) {
                proof {
                    lemma_index_where(ts, p, i as int);
                }
                let ghost pts = self.vital_trends@[i as int].points@;
                let t = &mut self.vital_trends[i];
                if t.unit.is_none() && unit.is_some() {
                    t.unit = unit;
                }
                t.points.push(point);
                assert(views_of(self.vital_trends@[i as int].points@) =~= views_of(pts).push(point@));
                assert(self@.vital_trends =~= record_trend_view(ts, label@, point@, opt_view(unit)));
                return;
            }
            i += 1;
        }
        proof {
            lemma_index_where(ts, p, i as int);
        }
        let mut points: Vec<VitalTrendPoint> = Vec::new();
        points.push(point);
        self.vital_trends.push(VitalTrend { name: label.to_string(), unit, points });
        assert(views_of(points@) =~= seq![point@]);
        assert(self@.vital_trends =~= record_trend_view(ts, label@, point@, opt_view(unit)));
    }
}

impl AggregateData {
    /// Records an observation (see `observation_step`).
    pub fn handle_observation(&mut self, resource: &Json)
        ensures
            final(self)@ == observation_step(old(self)@, *resource),
    {
        let name = match codeable_of(resource.get("code")) {
            Some(t) => t,
            None => "Observation".to_string(),
        };
        if crate::observation::observation_is_code_status(resource) {
            let value = match crate::observation::observation_value_text(resource) {
                Some(v) => v,
                None => {
                    return;
                },
            };
            let at = crate::observation::extract_observation_timestamp(resource);
            let keep = match &self.code_status {
                Some(existing) => is_more_recent(existing.recorded_at, at),
                None => false,
            };
            if !keep {
                self.code_status = Some(CodeStatusRecord { value, recorded_at: at });
            }
            let detail = match &self.code_status {
                Some(cs) => Some(cs.value.clone()),
                None => None,
            };
            self.push_event(
                TimelineEvent {
                    id: resource_id(resource, "code-status"),
                    category: EventCategory::Observation,
                    title: "Code status updated".to_string(),
                    detail,
                    occurred_at: at,
                    severity: Severity::Critical,
                    source: make_reference(resource),
                },
            );
            return;
        }
        let detail = match crate::observation::summarize_observation_value(resource) {
            Some(d) => d,
            None => {
                return;
            },
        };
        let at = crate::observation::extract_observation_timestamp(resource);
        let severity = crate::classify::classify_observation(name.as_str(), resource, detail.as_str());
        let event = TimelineEvent {
            id: resource_id(resource, "observation"),
            category: EventCategory::Observation,
            title: name.clone(),
            detail: Some(detail.clone()),
            occurred_at: at,
            severity,
            source: make_reference(resource),
        };
        match crate::classify::infer_vital_label(name.as_str()) {
            Some(label) => {
                let (numeric_value, unit) = crate::observation::observation_numeric_metadata(
                    name.as_str(),
                    resource,
                    detail.as_str(),
                );
                let snapshot = VitalSnapshot {
                    name: label.to_string(),
                    value: detail.clone(),
                    recorded_at: at,
                    numeric_value,
                    unit: copy_text(&unit),
                };
                self.upsert_vital(snapshot);
                self.record_vital_trend(
                    label,
                    VitalTrendPoint { recorded_at: at, value: numeric_value, label: Some(detail.clone()) },
                    unit,
                );
            },
            None => match crate::classify::guess_diagnostic_kind(name.as_str(), resource) {
                Some(kind) => {
                    let (_, unit) = crate::observation::observation_numeric_metadata(
                        name.as_str(),
                        resource,
                        detail.as_str(),
                    );
                    self.upsert_diagnostic(
                        DiagnosticSnapshot { name: name.clone(), value: detail.clone(), recorded_at: at, severity, kind, unit },
                    );
                },
                None => {},
            },
        }
        self.push_event(event);
    }
}

} // verus!
