//! Properties of the summary that hold for every bundle.

use vstd::prelude::*;
use crate::aggregate::{AggregateView, condition_step, initial_view};
use crate::clock::{Timestamp, time_key, utc_day_of};
use crate::engine::{anchor_of, entry_instant, fold_entries, outcome_matches, recent_vitals, snapshot_of};
use crate::extract::codeable_opt;
use crate::json::{Json, field};
use crate::model::{CriticalItem, EventView, ItemView, SnapshotView, TimelineConfig, TimelineError, TimelineEvent, TimelineSnapshot, VitalSnapshot, VitalView};
use crate::sorting::{Ranked, lemma_sort_ranked, lemma_sort_stable, sort_ranked, with_rank};

verus! {

/// The state after all entries of a bundle summarised at `now`, before finalisation.
pub open spec fn emitted(entries: Seq<Json>, config: TimelineConfig, now: Timestamp) -> AggregateView {
    fold_entries(initial_view(anchor_of(entries)), entries, config, utc_day_of(now.seconds as int))
}

/// The timeline of every bundle is in time order: occurrence instants never
/// decrease along it, events without an instant coming first.
pub proof fn lemma_timeline_chronological(entries: Seq<Json>, config: TimelineConfig, now: Timestamp)
    ensures
        ({
            let es = snapshot_of(entries, config, now).events;
            forall|i: int, j: int| 0 <= i < j < es.len() ==> time_key(es[i].occurred_at) <= time_key(es[j].occurred_at)
        }),
{
    lemma_sort_ranked(emitted(entries, config, now).events, |x: EventView| <TimelineEvent as Ranked>::rank_of(x));
}

/// The items of a list whose severity has rank `k`, in order.
pub open spec fn items_of_rank(s: Seq<ItemView>, k: int) -> Seq<ItemView> {
    with_rank(s, |x: ItemView| <CriticalItem as Ranked>::rank_of(x), k)
}

/// A panel list is sorted by severity, most severe first, and keeps the
/// handlers' order among items of equal severity.
pub open spec fn severity_sorted_stably(out: Seq<ItemView>, added: Seq<ItemView>) -> bool {
    &&& forall|i: int, j: int| 0 <= i < j < out.len() ==> out[i].severity.spec_rank() <= out[j].severity.spec_rank()
    &&& forall|k: int| #[trigger] items_of_rank(out, k) == items_of_rank(added, k)
}

proof fn lemma_list_sorted_stably(s: Seq<ItemView>)
    ensures
        severity_sorted_stably(sort_ranked(s, |x: ItemView| <CriticalItem as Ranked>::rank_of(x)), s),
{
    let rank = |x: ItemView| <CriticalItem as Ranked>::rank_of(x);
    lemma_sort_ranked(s, rank);
    assert forall|k: int| #[trigger] items_of_rank(sort_ranked(s, rank), k) == items_of_rank(s, k) by {
        lemma_sort_stable(s, rank, k);
    }
}

/// Each of the four panel lists of every bundle (allergies, medications,
/// chronic conditions, alerts) is sorted by severity, most severe first,
/// and items of equal severity keep the order in which handlers added them.
pub proof fn lemma_panel_lists_by_severity(entries: Seq<Json>, config: TimelineConfig, now: Timestamp)
    ensures
        ({
            let a = emitted(entries, config, now);
            let p = snapshot_of(entries, config, now).critical;
            &&& severity_sorted_stably(p.allergies, a.allergies)
            &&& severity_sorted_stably(p.medications, a.medications)
            &&& severity_sorted_stably(p.chronic_conditions, a.chronic_conditions)
            &&& severity_sorted_stably(p.alerts, a.alerts)
        }),
{
    let a = emitted(entries, config, now);
    lemma_list_sorted_stably(a.allergies);
    lemma_list_sorted_stably(a.medications);
    lemma_list_sorted_stably(a.chronic_conditions);
    lemma_list_sorted_stably(a.alerts);
}

/// Summarising the same bundle with the same configuration twice gives the
/// same snapshot but for the generation instant, as long as both runs fall
/// on the same UTC day (patient ages are taken on that day).
pub proof fn lemma_rerun_same_snapshot(entries: Seq<Json>, config: TimelineConfig, t1: Timestamp, t2: Timestamp)
    requires
        utc_day_of(t1.seconds as int) == utc_day_of(t2.seconds as int),
    ensures
        snapshot_of(entries, config, t1) == (SnapshotView { generated_at: t1, ..snapshot_of(entries, config, t2) }),
{
}

/// Two runs of the engine on one bundle and configuration, on the same UTC
/// day, both fail alike or both succeed with snapshots that differ only in
/// their generation instant.
pub proof fn lemma_rerun_same_outcome(
    r1: Result<TimelineSnapshot, TimelineError>,
    r2: Result<TimelineSnapshot, TimelineError>,
    bundle: Json,
    config: TimelineConfig,
    t1: Timestamp,
    t2: Timestamp,
)
    requires
        outcome_matches(r1, bundle, config, t1),
        outcome_matches(r2, bundle, config, t2),
        utc_day_of(t1.seconds as int) == utc_day_of(t2.seconds as int),
    ensures
        r1 is Ok <==> r2 is Ok,
        r1 matches Ok(s1) ==> r2 matches Ok(s2) && s1@ == (SnapshotView { generated_at: s1.generated_at, ..s2@ }),
        r1 == Err::<TimelineSnapshot, TimelineError>(TimelineError::MissingData) <==> r2 == Err::<TimelineSnapshot, TimelineError>(TimelineError::MissingData),
        r1 matches Err(TimelineError::Parse(m1)) ==> r2 matches Err(TimelineError::Parse(m2)) && m1@ == m2@,
{
    match crate::json::array_field(bundle, "entry"@) {
        Some(entries) => lemma_rerun_same_snapshot(entries, config, t1, t2),
        None => {},
    }
}

proof fn lemma_steps_keep_anchor(a: AggregateView, entries: Seq<Json>, config: TimelineConfig, today: Option<crate::clock::CalendarDate>)
    ensures
        fold_entries(a, entries, config, today).anchor == a.anchor,
    decreases entries.len(),
{
    if entries.len() > 0 {
        lemma_steps_keep_anchor(a, entries.drop_last(), config, today);
    }
}

/// A bundle none of whose records yields an instant has no anchor; then
/// every vital is recent, so the panel keeps all of them, and every
/// condition with a coded name is admitted whatever its age.
pub proof fn lemma_no_instants_no_anchor(entries: Seq<Json>, config: TimelineConfig, now: Timestamp)
    requires
        forall|i: int| 0 <= i < entries.len() ==> entry_instant(#[trigger] entries[i]) is None,
    ensures
        anchor_of(entries) is None,
        emitted(entries, config, now).anchor is None,
        snapshot_of(entries, config, now).critical.recent_vitals == sort_ranked(
            emitted(entries, config, now).vitals,
            |x: VitalView| <VitalSnapshot as Ranked>::rank_of(x),
        ),
        forall|a: AggregateView, r: Json|
            a.anchor is None && codeable_opt(field(r, "code"@)) is Some ==> (#[trigger] condition_step(
                a,
                r,
                config.clinical_event_days,
            )).chronic_conditions.len() == a.chronic_conditions.len() + 1,
    decreases entries.len(),
{
    if entries.len() > 0 {
        let init = entries.drop_last();
        assert forall|i: int| 0 <= i < init.len() implies entry_instant(#[trigger] init[i]) is None by {
            assert(init[i] == entries[i]);
        }
        lemma_no_instants_no_anchor(init, config, now);
        assert(entry_instant(entries[entries.len() - 1]) is None);
    }
    lemma_steps_keep_anchor(initial_view(anchor_of(entries)), entries, config, utc_day_of(now.seconds as int));
    lemma_all_recent(emitted(entries, config, now).vitals, config.vital_recent_hours);
}

/// Without an anchor every vital is recent.
pub proof fn lemma_all_recent(vs: Seq<VitalView>, hours: u32)
    ensures
        recent_vitals(vs, None, hours) == vs,
    decreases vs.len(),
{
    if vs.len() > 0 {
        lemma_all_recent(vs.drop_last(), hours);
        assert(vs.drop_last().push(vs.last()) =~= vs);
    }
}

} // verus!
