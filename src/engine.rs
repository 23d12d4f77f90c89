//! The bundle-to-summary pass: anchor, dispatch of each record to its
//! handler, and finalisation into the snapshot.

use vstd::prelude::*;
use crate::aggregate::{AggregateData, AggregateView, allergy_step, condition_step, document_step, encounter_step, initial_view, medication_step, observation_step, patient_step, procedure_step};
use crate::clock::{CalendarDate, HOUR_NANOS, Timestamp, clock_now, is_recent_vital, time_key, time_key_of, utc_day, utc_day_of, within_window};
use crate::extract::{extract_datetime, first_instant, names};
use crate::json::{Json, array_field, field, str_field};
use crate::model::{CriticalItem, CriticalSummary, DiagnosticSnapshot, EventView, ItemView, PointView, SnapshotView, SummaryView, TimelineConfig, TimelineError, TimelineEvent, TimelineSnapshot, TrendView, VitalSnapshot, VitalTrend, VitalTrendPoint, VitalView, DiagnosticView, views_of};
use crate::observation::{condition_instant_of, observation_instant};
use crate::sorting::{Ranked, sort_ranked, stable_sort, take_first};
use crate::text::same_text;

verus! {

/// The kind of a record, empty when it has none.
pub open spec fn kind_of(r: Json) -> Seq<char> {
    match str_field(r, "resourceType"@) {
        Some(k) => k,
        None => Seq::empty(),
    }
}

/// One record handed to the handler of its kind; records of other kinds
/// leave the state as it is.
pub open spec fn resource_step(a: AggregateView, r: Json, config: TimelineConfig, today: Option<CalendarDate>) -> AggregateView {
    let k = kind_of(r);
    if k == "Patient"@ {
        patient_step(a, r, today)
    } else if k == "AllergyIntolerance"@ {
        allergy_step(a, r)
    } else if k == "MedicationStatement"@ || k == "MedicationRequest"@ {
        medication_step(a, r)
    } else if k == "Condition"@ {
        condition_step(a, r, config.clinical_event_days)
    } else if k == "Observation"@ {
        observation_step(a, r)
    } else if k == "Procedure"@ {
        procedure_step(a, r)
    } else if k == "Encounter"@ {
        encounter_step(a, r)
    } else if k == "DocumentReference"@ || k == "Composition"@ {
        document_step(a, r)
    } else {
        a
    }
}

/// One bundle entry: its embedded record, if it has one.
pub open spec fn entry_step(a: AggregateView, entry: Json, config: TimelineConfig, today: Option<CalendarDate>) -> AggregateView {
    match field(entry, "resource"@) {
        Some(r) => resource_step(a, r, config, today),
        None => a,
    }
}

/// The entries handled in order.
pub open spec fn fold_entries(a: AggregateView, entries: Seq<Json>, config: TimelineConfig, today: Option<CalendarDate>) -> AggregateView
    decreases entries.len(),
{
    if entries.len() == 0 {
        a
    } else {
        entry_step(fold_entries(a, entries.drop_last(), config, today), entries.last(), config, today)
    }
}

/// The instant of a record, probing the fields of its kind in order.
pub open spec fn resource_instant(r: Json) -> Option<Timestamp> {
    match str_field(r, "resourceType"@) {
        None => None,
        Some(k) => if k == "Observation"@ {
            observation_instant(r)
        } else if k == "Condition"@ {
            crate::aggregate::condition_instant(r)
        } else if k == "MedicationStatement"@ {
            first_instant(r, seq!["effectiveDateTime"@, "effectivePeriod"@, "dateAsserted"@, "authoredOn"@])
        } else if k == "MedicationRequest"@ {
            first_instant(r, seq!["authoredOn"@, "effectiveDateTime"@, "effectivePeriod"@])
        } else if k == "AllergyIntolerance"@ {
            first_instant(r, seq!["recordedDate"@, "onsetDateTime"@, "onsetDate"@])
        } else if k == "Procedure"@ {
            first_instant(r, seq!["performedDateTime"@, "performedPeriod"@])
        } else if k == "Encounter"@ {
            first_instant(r, seq!["period"@])
        } else if k == "DocumentReference"@ || k == "Composition"@ {
            first_instant(r, seq!["date"@, "created"@])
        } else {
            first_instant(r, seq!["effectiveDateTime"@, "issued"@, "date"@])
        },
    }
}

/// The instant of an entry's record.
pub open spec fn entry_instant(entry: Json) -> Option<Timestamp> {
    match field(entry, "resource"@) {
        Some(r) => resource_instant(r),
        None => None,
    }
}

/// The later of two optional instants, an absent one being the earliest.
pub open spec fn later_of(a: Option<Timestamp>, b: Option<Timestamp>) -> Option<Timestamp> {
    if time_key(b) > time_key(a) {
        b
    } else {
        a
    }
}

/// The anchor: the latest instant of any record of the bundle.
pub open spec fn anchor_of(entries: Seq<Json>) -> Option<Timestamp>
    decreases entries.len(),
{
    if entries.len() == 0 {
        None
    } else {
        later_of(anchor_of(entries.drop_last()), entry_instant(entries.last()))
    }
}

fn fields_instant(r: &Json, fields: &[&str]) -> (t: Option<Timestamp>)
    ensures
        t == first_instant(*r, names(fields@)),
{
    extract_datetime(r, fields)
}

/// The instant of a record (see `resource_instant`).
pub fn resource_timestamp(resource: &Json) -> (r: Option<Timestamp>)
    ensures
        r == resource_instant(*resource),
{
    let k = match resource.str_field("resourceType") {
        Some(k) => k,
        None => {
            return None;
        },
    };
    if same_text(k, "Observation") {
        crate::observation::extract_observation_timestamp(resource)
    } else if same_text(k, "Condition") {
        condition_instant_of(resource)
    } else if same_text(k, "MedicationStatement") {
        let f = ["effectiveDateTime", "effectivePeriod", "dateAsserted", "authoredOn"];
        assert(names(f@) =~= seq!["effectiveDateTime"@, "effectivePeriod"@, "dateAsserted"@, "authoredOn"@]);
        fields_instant(resource, &f)
    } else if same_text(k, "MedicationRequest") {
        let f = ["authoredOn", "effectiveDateTime", "effectivePeriod"];
        assert(names(f@) =~= seq!["authoredOn"@, "effectiveDateTime"@, "effectivePeriod"@]);
        fields_instant(resource, &f)
    } else if same_text(k, "AllergyIntolerance") {
        let f = ["recordedDate", "onsetDateTime", "onsetDate"];
        assert(names(f@) =~= seq!["recordedDate"@, "onsetDateTime"@, "onsetDate"@]);
        fields_instant(resource, &f)
    } else if same_text(k, "Procedure") {
        let f = ["performedDateTime", "performedPeriod"];
        assert(names(f@) =~= seq!["performedDateTime"@, "performedPeriod"@]);
        fields_instant(resource, &f)
    } else if same_text(k, "Encounter") {
        let f = ["period"];
        assert(names(f@) =~= seq!["period"@]);
        fields_instant(resource, &f)
    } else if same_text(k, "DocumentReference") || same_text(k, "Composition") {
        let f = ["date", "created"];
        assert(names(f@) =~= seq!["date"@, "created"@]);
        fields_instant(resource, &f)
    } else {
        let f = ["effectiveDateTime", "issued", "date"];
        assert(names(f@) =~= seq!["effectiveDateTime"@, "issued"@, "date"@]);
        fields_instant(resource, &f)
    }
}

/// The anchor of a bundle's entries (see `anchor_of`).
pub fn compute_anchor(entries: &Vec<Json>) -> (r: Option<Timestamp>)
    ensures
        r == anchor_of(entries@),
{
    let mut best: Option<Timestamp> = None;
    let mut i: usize = 0;
    while i < entries.len()
        invariant
            i <= entries@.len(),
            best == anchor_of(entries@.subrange(0, i as int)),
        decreases entries.len() - i,
    {
        assert(entries@.subrange(0, i + 1).drop_last() =~= entries@.subrange(0, i as int));
        let t = match entries[i].get("resource") {
            Some(r) => resource_timestamp(r),
            None => None,
        };
        if time_key_of(t) > time_key_of(best) {
            best = t;
        }
        i += 1;
    }
    assert(entries@.subrange(0, i as int) =~= entries@);
    best
}

impl AggregateData {
    /// Hands one record to the handler of its kind (see `resource_step`).
    pub fn handle_resource(&mut self, resource: &Json, config: &TimelineConfig, today: Option<CalendarDate>)
        ensures
            final(self)@ == resource_step(old(self)@, *resource, *config, today),
    {
        let k: &str = match resource.str_field("resourceType") {
            Some(k) => k,
            None => "",
        };
        proof {
            reveal_strlit("");
        }
        assert(k@ == crate::engine::kind_of(*resource));
        if same_text(k, "Patient") {
            self.handle_patient(resource, today);
        } else if same_text(k, "AllergyIntolerance") {
            self.handle_allergy(resource);
        } else if same_text(k, "MedicationStatement") || same_text(k, "MedicationRequest") {
            self.handle_medication(resource);
        } else if same_text(k, "Condition") {
            self.handle_condition(resource, config);
        } else if same_text(k, "Observation") {
            self.handle_observation(resource);
        } else if same_text(k, "Procedure") {
            self.handle_procedure(resource);
        } else if same_text(k, "Encounter") {
            self.handle_encounter(resource);
        } else if same_text(k, "DocumentReference") || same_text(k, "Composition") {
            self.handle_document(resource);
        }
    }
}

/// The vitals recorded within `hours` hours of the anchor (or at an unknown
/// time, or with no anchor), in order.
pub open spec fn recent_vitals(vs: Seq<VitalView>, anchor: Option<Timestamp>, hours: u32) -> Seq<VitalView>
    decreases vs.len(),
{
    if vs.len() == 0 {
        vs
    } else if within_window(anchor, vs.last().recorded_at, HOUR_NANOS as int, hours as int) {
        recent_vitals(vs.drop_last(), anchor, hours).push(vs.last())
    } else {
        recent_vitals(vs.drop_last(), anchor, hours)
    }
}

/// Each trend with its points in time order.
pub open spec fn trend_sorted(t: TrendView) -> TrendView {
    TrendView { points: sort_ranked(t.points, |x: PointView| <VitalTrendPoint as Ranked>::rank_of(x)), ..t }
}

/// The finalised panel: the four item lists most severe first (stable), the
/// latest code status, the recent vitals latest first, the trends with
/// points in time order and the trend with the latest point first, the
/// diagnostics latest first.
pub open spec fn summary_view(a: AggregateView, config: TimelineConfig) -> SummaryView {
    SummaryView {
        allergies: sort_ranked(a.allergies, |x: ItemView| <CriticalItem as Ranked>::rank_of(x)),
        medications: sort_ranked(a.medications, |x: ItemView| <CriticalItem as Ranked>::rank_of(x)),
        chronic_conditions: sort_ranked(a.chronic_conditions, |x: ItemView| <CriticalItem as Ranked>::rank_of(x)),
        code_status: match a.code_status {
            Some(c) => Some(c.value),
            None => None,
        },
        alerts: sort_ranked(a.alerts, |x: ItemView| <CriticalItem as Ranked>::rank_of(x)),
        recent_vitals: sort_ranked(
            recent_vitals(a.vitals, a.anchor, config.vital_recent_hours),
            |x: VitalView| <VitalSnapshot as Ranked>::rank_of(x),
        ),
        vital_trends: sort_ranked(
            a.vital_trends.map_values(|t: TrendView| trend_sorted(t)),
            |x: TrendView| <VitalTrend as Ranked>::rank_of(x),
        ),
        recent_diagnostics: sort_ranked(a.diagnostics, |x: DiagnosticView| <DiagnosticSnapshot as Ranked>::rank_of(x)),
    }
}

/// The events in time order.
pub open spec fn events_in_order(es: Seq<EventView>) -> Seq<EventView> {
    sort_ranked(es, |x: EventView| <TimelineEvent as Ranked>::rank_of(x))
}

/// The snapshot made from a final state.
pub open spec fn finalize_view(a: AggregateView, config: TimelineConfig, now: Timestamp) -> SnapshotView {
    SnapshotView { generated_at: now, critical: summary_view(a, config), events: events_in_order(a.events) }
}

/// The snapshot of a bundle's entries summarised at `now`: the state after
/// all entries, from an empty state anchored at the latest record instant,
/// patient ages taken on the UTC day of `now`.
pub open spec fn snapshot_of(entries: Seq<Json>, config: TimelineConfig, now: Timestamp) -> SnapshotView {
    finalize_view(
        fold_entries(initial_view(anchor_of(entries)), entries, config, utc_day_of(now.seconds as int)),
        config,
        now,
    )
}

impl TimelineSnapshot {
    /// A snapshot generated at `now`, its events put in time order.
    pub fn at(critical: CriticalSummary, events: Vec<TimelineEvent>, now: Timestamp) -> (r: Self)
        ensures
            r@ == (SnapshotView { generated_at: now, critical: critical@, events: events_in_order(views_of(events@)) }),
    {
        TimelineSnapshot { generated_at: now, critical, events: stable_sort(events) }
    }

    /// A snapshot generated now, its events put in time order.
    pub fn new(critical: CriticalSummary, events: Vec<TimelineEvent>) -> (r: Self)
        ensures
            r@.critical == critical@,
            r@.events == events_in_order(views_of(events@)),
    {
        Self::at(critical, events, clock_now())
    }
}

/// An empty snapshot generated now.
pub fn empty_snapshot() -> (r: TimelineSnapshot)
    ensures
        r@.critical == CriticalSummary::default_view(),
        r@.events.len() == 0,
{
    let c = CriticalSummary::default();
    assert(c@.allergies =~= Seq::<ItemView>::empty());
    assert(c@.medications =~= Seq::<ItemView>::empty());
    assert(c@.chronic_conditions =~= Seq::<ItemView>::empty());
    assert(c@.alerts =~= Seq::<ItemView>::empty());
    assert(c@.recent_vitals =~= Seq::<VitalView>::empty());
    assert(c@.vital_trends =~= Seq::<TrendView>::empty());
    assert(c@.recent_diagnostics =~= Seq::<DiagnosticView>::empty());
    let r = TimelineSnapshot::at(c, Vec::new(), clock_now());
    r
}

impl CriticalSummary {
    /// The view of an empty panel.
    pub open spec fn default_view() -> SummaryView {
        SummaryView {
            allergies: Seq::empty(),
            medications: Seq::empty(),
            chronic_conditions: Seq::empty(),
            code_status: None,
            alerts: Seq::empty(),
            recent_vitals: Seq::empty(),
            vital_trends: Seq::empty(),
            recent_diagnostics: Seq::empty(),
        }
    }
}

impl AggregateData {
    /// Turns the final state into the snapshot (see `finalize_view`).
    pub fn finalize(self, config: &TimelineConfig, now: Timestamp) -> (r: TimelineSnapshot)
        ensures
            r@ == finalize_view(self@, *config, now),
    {
        let ghost a = self@;
        let anchor = self.anchor;
        let hours = config.vital_recent_hours;
        let ghost vorig = views_of(self.vitals@);
        let n = self.vitals.len();
        let mut rest = self.vitals;
        let mut kept: Vec<VitalSnapshot> = Vec::new();
        let mut k: usize = 0;
        assert(vorig.subrange(0, 0) =~= Seq::<VitalView>::empty());
        assert(views_of(kept@) =~= Seq::<VitalView>::empty());
        assert(vorig.subrange(0, n as int) =~= vorig);
        while rest.len() > 0
            invariant
                vorig.len() == n,
                k + rest@.len() == n,
                views_of(rest@) == vorig.subrange(k as int, n as int),
                views_of(kept@) == recent_vitals(vorig.subrange(0, k as int), anchor, hours),
            decreases rest.len(),
        {
            let ghost before = rest@;
            let v = take_first(&mut rest);
            assert(views_of(before)[0] == before[0]@);
            assert(views_of(before)[0] == vorig.subrange(k as int, n as int)[0]);
            assert(v@ == vorig[k as int]);
            assert(vorig.subrange(0, k + 1).drop_last() =~= vorig.subrange(0, k as int));
            assert(views_of(rest@) =~= vorig.subrange(k + 1, n as int));
            if is_recent_vital(anchor, v.recorded_at, hours) {
                let ghost b = views_of(kept@);
                kept.push(v);
                assert(views_of(kept@) =~= b.push(v@));
            }
            k += 1;
        }
        assert(vorig.subrange(0, k as int) =~= vorig);
        let ghost torig = views_of(self.vital_trends@);
        let tn = self.vital_trends.len();
        let mut trest = self.vital_trends;
        let mut trends: Vec<VitalTrend> = Vec::new();
        let mut j: usize = 0;
        assert(torig.subrange(0, tn as int) =~= torig);
        assert(views_of(trends@) =~= torig.subrange(0, 0).map_values(|t: TrendView| trend_sorted(t)));
        while trest.len() > 0
            invariant
                torig.len() == tn,
                j + trest@.len() == tn,
                views_of(trest@) == torig.subrange(j as int, tn as int),
                views_of(trends@) == torig.subrange(0, j as int).map_values(|t: TrendView| trend_sorted(t)),
            decreases trest.len(),
        {
            let ghost before = trest@;
            let t = take_first(&mut trest);
            assert(views_of(before)[0] == before[0]@);
            assert(views_of(before)[0] == torig.subrange(j as int, tn as int)[0]);
            assert(t@ == torig[j as int]);
            assert(views_of(trest@) =~= torig.subrange(j + 1, tn as int));
            let VitalTrend { name, unit, points } = t;
            let sorted = stable_sort(points);
            let ghost b = views_of(trends@);
            let nt = VitalTrend { name, unit, points: sorted };
            trends.push(nt);
            assert(views_of(trends@) =~= b.push(nt@));
            assert(torig.subrange(0, j + 1).map_values(|t: TrendView| trend_sorted(t)) =~= torig.subrange(
                0,
                j as int,
            ).map_values(|t: TrendView| trend_sorted(t)).push(trend_sorted(torig[j as int])));
            j += 1;
        }
        assert(torig.subrange(0, j as int) =~= torig);
        let code_status = match self.code_status {
            Some(cs) => Some(cs.value),
            None => None,
        };
        let critical = CriticalSummary {
            allergies: stable_sort(self.allergies),
            medications: stable_sort(self.medications),
            chronic_conditions: stable_sort(self.chronic_conditions),
            code_status,
            alerts: stable_sort(self.alerts),
            recent_vitals: stable_sort(kept),
            vital_trends: stable_sort(trends),
            recent_diagnostics: stable_sort(self.diagnostics),
        };
        let r = TimelineSnapshot::at(critical, self.events, now);
        assert(r@.critical =~= summary_view(a, *config));
        r
    }
}

/// What summarising a bundle at `now` gives: without a string `resourceType`,
/// missing data; with one other than "Bundle", a parse error naming it;
/// a bundle without an `entry` array, missing data; else the snapshot of its
/// entries.
pub open spec fn outcome_matches(r: Result<TimelineSnapshot, TimelineError>, bundle: Json, config: TimelineConfig, now: Timestamp) -> bool {
    match str_field(bundle, "resourceType"@) {
        None => r == Err::<TimelineSnapshot, TimelineError>(TimelineError::MissingData),
        Some(k) => if k != "Bundle"@ {
            r matches Err(TimelineError::Parse(m)) && m@ == "Expected resourceType Bundle, received "@ + k
        } else {
            match array_field(bundle, "entry"@) {
                None => r == Err::<TimelineSnapshot, TimelineError>(TimelineError::MissingData),
                Some(entries) => r matches Ok(s) && s@ == snapshot_of(entries, config, now),
            }
        },
    }
}

/// Summarises a bundle as of the instant `now` (see `outcome_matches`).
pub fn summarize_bundle_at(bundle: &Json, config: &TimelineConfig, now: Timestamp) -> (r: Result<TimelineSnapshot, TimelineError>)
    ensures
        outcome_matches(r, *bundle, *config, now),
        r matches Ok(s) ==> forall|i: int, j: int|
            0 <= i < j < s@.events.len() ==> time_key(s@.events[i].occurred_at) <= time_key(
                s@.events[j].occurred_at,
            ),
{
    let kind = match bundle.str_field("resourceType") {
        Some(k) => k,
        None => {
            return Err(TimelineError::MissingData);
        },
    };
    if !same_text(kind, "Bundle") {
        let mut m = "Expected resourceType Bundle, received ".to_string();
        m.append(kind);
        return Err(TimelineError::Parse(m));
    }
    let entries = match bundle.array_field("entry") {
        Some(e) => e,
        None => {
            return Err(TimelineError::MissingData);
        },
    };
    let anchor = compute_anchor(entries);
    let today = utc_day(now.seconds);
    let mut aggregate = AggregateData::with_anchor(anchor);
    let mut i: usize = 0;
    while i < entries.len()
        invariant
            i <= entries@.len(),
            aggregate@ == fold_entries(initial_view(anchor), entries@.subrange(0, i as int), *config, today),
        decreases entries.len() - i,
    {
        assert(entries@.subrange(0, i + 1).drop_last() =~= entries@.subrange(0, i as int));
        match entries[i].get("resource") {
            Some(r) => aggregate.handle_resource(r, config, today),
            None => {},
        }
        i += 1;
    }
    assert(entries@.subrange(0, i as int) =~= entries@);
    proof {
        crate::laws::lemma_timeline_chronological(entries@, *config, now);
    }
    Ok(aggregate.finalize(config, now))
}

/// Summarises a bundle, stamping the snapshot with the current instant (see
/// `outcome_matches`, at the instant the snapshot carries).
pub fn summarize_bundle_value(bundle: &Json, config: &TimelineConfig) -> (r: Result<TimelineSnapshot, TimelineError>)
    ensures
        exists|now: Timestamp| outcome_matches(r, *bundle, *config, now),
        r matches Ok(s) ==> outcome_matches(r, *bundle, *config, s.generated_at),
        r matches Ok(s) ==> forall|i: int, j: int|
            0 <= i < j < s@.events.len() ==> time_key(s@.events[i].occurred_at) <= time_key(
                s@.events[j].occurred_at,
            ),
{
    let now = clock_now();
    let r = summarize_bundle_at(bundle, config, now);
    assert(outcome_matches(r, *bundle, *config, now));
    r
}

} // verus!
