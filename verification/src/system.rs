use vstd::prelude::*;

use crate::snapshot::Snapshot;
use crate::trend::{seeded_trends, Trend};
use crate::trigger::{diff, spec_diff, Trigger};

verus! {

/// The triggers one tick produces, concatenated across the sources in
/// enumeration order: a source whose refresh failed (`None`)
/// contributes nothing, a source whose refresh succeeded contributes
/// the detector's comparison of its stored reading with the fresh one.
pub open spec fn tick_triggers(
    trends: Seq<Trend>,
    readings: Seq<Option<Snapshot>>,
    low_thresh: u32,
) -> Seq<Trigger>
    recommends
        trends.len() == readings.len(),
    decreases readings.len(),
{
    if readings.len() == 0 {
        Seq::<Trigger>::empty()
    } else {
        tick_triggers(trends.drop_last(), readings.drop_last(), low_thresh) + (
        match readings.last() {
            Some(curr) => spec_diff(trends.last().prev, curr, low_thresh),
            None => Seq::<Trigger>::empty(),
        })
    }
}

/// A tick on which every reading that arrived equals the reading
/// already stored for its source raises nothing, however many sources
/// failed to refresh. In particular, the first tick after seeding is
/// quiet when the sources read the same as at startup.
pub proof fn lemma_unchanged_readings_quiet(
    trends: Seq<Trend>,
    readings: Seq<Option<Snapshot>>,
    low_thresh: u32,
)
    requires
        trends.len() == readings.len(),
        forall|i: int|
            0 <= i < readings.len() && readings[i] is Some ==> readings[i]->0 == trends[i].prev,
    ensures
        tick_triggers(trends, readings, low_thresh) =~= Seq::<Trigger>::empty(),
    decreases readings.len(),
{
    if readings.len() > 0 {
        lemma_unchanged_readings_quiet(trends.drop_last(), readings.drop_last(), low_thresh);
        if readings.last() is Some {
            crate::trigger::lemma_same_reading_no_triggers(trends.last().prev, low_thresh);
        }
    }
}

/// Owns the collection of trends, one per monitored power source, and
/// the configured low-charge threshold, fixed for the process lifetime.
/// No other component mutates the trends.
pub struct System {
    /// One trend per monitored source, in enumeration order.
    pub trends: Vec<Trend>,
    /// Low-charge threshold shared by all sources, in units of
    /// 1/`CHARGE_SCALE`.
    pub low_threshold: u32,
}

impl System {
    /// Builds the tracker from the per-source load results of the
    /// provider's enumeration and the configured threshold. A source
    /// that failed to load (`None`) is skipped and never monitored; a
    /// failure of the enumeration itself is fatal to the caller and
    /// never reaches this constructor.
    pub fn load(loaded: Vec<Option<Snapshot>>, low_threshold: u32) -> (system: System)
        ensures
            system.trends@ == seeded_trends(loaded@),
            system.low_threshold == low_threshold,
    {
        System { trends: Trend::from_batteries(loaded), low_threshold }
    }

    /// One tick: hands the detector, for each source in order, the
    /// stored reading and the fresh one, and returns the concatenated
    /// triggers. A source whose refresh failed (`None`) contributes no
    /// triggers and keeps its stored reading untouched, so the next
    /// successful tick compares against the last known-good reading; a
    /// source whose refresh succeeded has its stored reading replaced
    /// by the fresh one. The threshold never changes.
    pub fn step(&mut self, readings: &Vec<Option<Snapshot>>) -> (triggers: Vec<Trigger>)
        requires
            readings@.len() == old(self).trends@.len(),
        ensures
            final(self).low_threshold == old(self).low_threshold,
            final(self).trends@.len() == old(self).trends@.len(),
            forall|i: int|
                0 <= i < readings@.len() && readings@[i] is None
                    ==> final(self).trends@[i] == old(self).trends@[i],
            forall|i: int|
                0 <= i < readings@.len() && readings@[i] is Some
                    ==> final(self).trends@[i].prev == readings@[i]->0,
            triggers@ == tick_triggers(old(self).trends@, readings@, old(self).low_threshold),
    {
        let ghost init_trends = self.trends@;
        let ghost thresh = self.low_threshold;

        let mut triggers: Vec<Trigger> = Vec::new();
        let mut updated: Vec<Trend> = Vec::new();
        let n = self.trends.len();
        let mut i: usize = 0;
        while i < n
            invariant
                i <= n,
                n == init_trends.len(),
                self.trends@ == init_trends,
                self.low_threshold == thresh,
                readings@.len() == n,
                updated@.len() == i,
                forall|j: int|
                    0 <= j < i && readings@[j] is None ==> updated@[j] == init_trends[j],
                forall|j: int|
                    0 <= j < i && readings@[j] is Some ==> updated@[j].prev == readings@[j]->0,
                triggers@ == tick_triggers(
                    init_trends.take(i as int),
                    readings@.take(i as int),
                    thresh,
                ),
            decreases n - i,
        {
            match readings[i] {
                Some(curr) => {
                    let mut fresh = diff(&self.trends[i].prev, &curr, self.low_threshold);
                    triggers.append(&mut fresh);
                    updated.push(Trend { prev: curr });
                },
                None => {
                    updated.push(self.trends[i]);
                },
            }
            proof {
                assert(init_trends.take(i + 1).drop_last() =~= init_trends.take(i as int));
                assert(readings@.take(i + 1).drop_last() =~= readings@.take(i as int));
                assert(triggers@ =~= tick_triggers(
                    init_trends.take(i + 1),
                    readings@.take(i + 1),
                    thresh,
                ));
            }
            i = i + 1;
        }
        self.trends = updated;
        proof {
            assert(init_trends.take(n as int) =~= init_trends);
            assert(readings@.take(n as int) =~= readings@);
        }
        triggers
    }
}

} // verus!
