use vstd::prelude::*;

use crate::snapshot::Snapshot;

verus! {

/// Per-source record, created once at startup and kept for the life of
/// the process: the last reading that was successfully observed for the
/// source. It is seeded with the first reading at creation time, not
/// with a default value, so the first tick never reports a spurious
/// transition.
#[derive(Clone, Copy, Debug)]
pub struct Trend {
    /// The last successfully observed reading; left untouched across a
    /// tick on which the source's refresh failed.
    pub prev: Snapshot,
}

/// The trends seeded from per-source load results, in enumeration
/// order: one per source that loaded, none for a source that failed to
/// load (such a source is never monitored and never retried).
pub open spec fn seeded_trends(loaded: Seq<Option<Snapshot>>) -> Seq<Trend>
    decreases loaded.len(),
{
    if loaded.len() == 0 {
        Seq::<Trend>::empty()
    } else {
        let rest = seeded_trends(loaded.drop_last());
        match loaded.last() {
            Some(first) => rest.push(Trend { prev: first }),
            None => rest,
        }
    }
}

impl Trend {
    /// Builds one trend per source whose first reading could be loaded,
    /// in enumeration order; a source that failed to load (`None`) is
    /// skipped for the process lifetime.
    pub fn from_batteries(loaded: Vec<Option<Snapshot>>) -> (trends: Vec<Trend>)
        ensures
            trends@ == seeded_trends(loaded@),
    {
        let mut trends: Vec<Trend> = Vec::new();
        let mut i: usize = 0;
        while i < loaded.len()
            invariant
                i <= loaded@.len(),
                trends@ == seeded_trends(loaded@.take(i as int)),
            decreases loaded@.len() - i,
        {
            match loaded[i] {
                Some(first) => trends.push(Trend { prev: first }),
                None => {},
            }
            proof {
                assert(loaded@.take(i + 1).drop_last() =~= loaded@.take(i as int));
                assert(loaded@.take(i + 1).last() == loaded@[i as int]);
            }
            i = i + 1;
        }
        proof {
            assert(loaded@.take(loaded@.len() as int) =~= loaded@);
        }
        trends
    }
}

impl From<Snapshot> for Trend {
    /// Seeds a trend with a source's first reading.
    fn from(first: Snapshot) -> (trend: Trend) {
        Trend { prev: first }
    }
}

impl vstd::std_specs::convert::FromSpecImpl<Snapshot> for Trend {
    open spec fn obeys_from_spec() -> bool {
        true
    }

    open spec fn from_spec(first: Snapshot) -> Trend {
        Trend { prev: first }
    }
}

} // verus!
