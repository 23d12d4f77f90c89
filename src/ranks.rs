//! The order each output list is sorted in.

use vstd::prelude::*;
use crate::clock::{Timestamp, time_key, time_key_of};
use crate::model::{CriticalItem, DiagnosticSnapshot, DiagnosticView, EventView, ItemView, PointView, TimelineEvent, TrendView, VitalSnapshot, VitalTrend, VitalTrendPoint, VitalView};
use crate::sorting::Ranked;

verus! {

/// Panel items: most severe first.
impl Ranked for CriticalItem {
    open spec fn rank_of(v: ItemView) -> int {
        v.severity.spec_rank() as int
    }

    fn rank(&self) -> (k: i128) {
        self.severity.rank() as i128
    }
}

/// Events: earliest first, those without an instant before all others.
impl Ranked for TimelineEvent {
    open spec fn rank_of(v: EventView) -> int {
        time_key(v.occurred_at)
    }

    fn rank(&self) -> (k: i128) {
        time_key_of(self.occurred_at)
    }
}

/// Vital snapshots: latest first, those without an instant last.
impl Ranked for VitalSnapshot {
    open spec fn rank_of(v: VitalView) -> int {
        -time_key(v.recorded_at)
    }

    fn rank(&self) -> (k: i128) {
        -time_key_of(self.recorded_at)
    }
}

/// Trend points: earliest first, those without an instant before all others.
impl Ranked for VitalTrendPoint {
    open spec fn rank_of(v: PointView) -> int {
        time_key(v.recorded_at)
    }

    fn rank(&self) -> (k: i128) {
        time_key_of(self.recorded_at)
    }
}

/// Diagnostic snapshots: latest first, those without an instant last.
impl Ranked for DiagnosticSnapshot {
    open spec fn rank_of(v: DiagnosticView) -> int {
        -time_key(v.recorded_at)
    }

    fn rank(&self) -> (k: i128) {
        -time_key_of(self.recorded_at)
    }
}

/// The latest instant among the points, if any has one.
pub open spec fn latest_time(ps: Seq<PointView>) -> Option<Timestamp>
    decreases ps.len(),
{
    if ps.len() == 0 {
        None
    } else {
        let rest = latest_time(ps.drop_last());
        let t = ps.last().recorded_at;
        if time_key(t) > time_key(rest) {
            t
        } else {
            rest
        }
    }
}

/// Trends: the one with the latest point first, those without instants last.
impl Ranked for VitalTrend {
    open spec fn rank_of(v: TrendView) -> int {
        -time_key(latest_time(v.points))
    }

    fn rank(&self) -> (k: i128) {
        let mut best: i128 = time_key_of(None);
        let mut i: usize = 0;
        while i < self.points.len()
            invariant
                i <= self.points@.len(),
                best as int == time_key(latest_time(crate::model::views_of(self.points@.subrange(0, i as int)))),
            decreases self.points.len() - i,
        {
            let ghost pre = crate::model::views_of(self.points@.subrange(0, i + 1));
            assert(pre.drop_last() =~= crate::model::views_of(self.points@.subrange(0, i as int)));
            let k = time_key_of(self.points[i].recorded_at);
            if k > best {
                best = k;
            }
            i += 1;
        }
        assert(self.points@.subrange(0, i as int) =~= self.points@);
        -best
    }
}

} // verus!
