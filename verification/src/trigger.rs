use vstd::prelude::*;

use crate::snapshot::{PowerState, Snapshot};

verus! {

/// A discrete alert raised when a power source's observed state changes
/// in a way the user cares about. It carries no payload: display text,
/// icon and urgency are derived from the kind at delivery time.
#[derive(Clone, Copy, Debug, PartialEq, Eq, Structural)]
pub enum Trigger {
    Plugged,
    Unplugged,
    Full,
    Low,
}

/// The notification title for a trigger kind.
pub open spec fn spec_summary(t: Trigger) -> Seq<char> {
    match t {
        Trigger::Plugged => "Plugged In"@,
        Trigger::Unplugged => "Unplugged"@,
        Trigger::Full => "Fully Charged"@,
        Trigger::Low => "Low Battery"@,
    }
}

/// The icon name for a trigger kind.
pub open spec fn spec_icon(t: Trigger) -> Seq<char> {
    match t {
        Trigger::Plugged => "battery-charging-050"@,
        Trigger::Unplugged => "battery-050"@,
        Trigger::Full => "battery-full-charged"@,
        Trigger::Low => "battery-caution"@,
    }
}

impl Trigger {
    /// The notification title derived from this kind.
    pub fn summary(&self) -> (r: &'static str)
        ensures
            r@ == spec_summary(*self),
    {
        match self {
            Trigger::Plugged => "Plugged In",
            Trigger::Unplugged => "Unplugged",
            Trigger::Full => "Fully Charged",
            Trigger::Low => "Low Battery",
        }
    }

    /// The icon name derived from this kind.
    pub fn icon(&self) -> (r: &'static str)
        ensures
            r@ == spec_icon(*self),
    {
        match self {
            Trigger::Plugged => "battery-charging-050",
            Trigger::Unplugged => "battery-050",
            Trigger::Full => "battery-full-charged",
            Trigger::Low => "battery-caution",
        }
    }

    /// Only a low-charge alert is delivered with critical urgency.
    pub fn is_critical(&self) -> (r: bool)
        ensures
            r == (*self == Trigger::Low),
    {
        matches!(self, Trigger::Low)
    }
}

/// The charge crossed the threshold downward between the two readings:
/// it is at or under the threshold now and was above it before.
pub open spec fn crossed_below(prev: Snapshot, curr: Snapshot, low_thresh: u32) -> bool {
    curr.charge <= low_thresh && prev.charge > low_thresh
}

/// The triggers one source raises on one tick, in fixed rule order:
/// first `Low` when the charge crossed the threshold downward, then the
/// state-edge triggers, raised only when the observed state changed:
/// `Plugged` on a change to charging, `Unplugged` on a change to
/// discharging (followed by `Low` when the charge is already at or
/// under the threshold and the crossing rule did not fire), `Full` on a
/// change to full, and nothing on a change to unknown. `Low` appears at
/// most once even when both rules that can raise it hold.
pub open spec fn spec_diff(prev: Snapshot, curr: Snapshot, low_thresh: u32) -> Seq<Trigger> {
    let crossing = if crossed_below(prev, curr, low_thresh) {
        seq![Trigger::Low]
    } else {
        Seq::<Trigger>::empty()
    };
    let edge = if prev.state == curr.state {
        Seq::<Trigger>::empty()
    } else {
        match curr.state {
            PowerState::Charging => seq![Trigger::Plugged],
            PowerState::Discharging => if curr.charge <= low_thresh
                && !crossed_below(prev, curr, low_thresh) {
                seq![Trigger::Unplugged, Trigger::Low]
            } else {
                seq![Trigger::Unplugged]
            },
            PowerState::Full => seq![Trigger::Full],
            PowerState::Unknown => Seq::<Trigger>::empty(),
        }
    };
    crossing + edge
}

/// Compares two consecutive readings of one source and returns the
/// triggers to raise, in rule order. Total: any combination of states,
/// charges and threshold is acceptable, and none ever fails.
pub fn diff(prev: &Snapshot, curr: &Snapshot, low_thresh: u32) -> (triggers: Vec<Trigger>)
    ensures
        triggers@ == spec_diff(*prev, *curr, low_thresh),
{
    let mut triggers: Vec<Trigger> = Vec::new();

    let crossed = curr.did_deplete(prev, low_thresh);
    if crossed {
        triggers.push(Trigger::Low);
    }

    if curr.did_plug(prev) {
        triggers.push(Trigger::Plugged);
    }
    if curr.did_unplug(prev) {
        triggers.push(Trigger::Unplugged);
        if curr.is_below(low_thresh) && !crossed {
            triggers.push(Trigger::Low);
        }
    }
    if curr.did_fill(prev) {
        triggers.push(Trigger::Full);
    }

    proof {
        assert(triggers@ =~= spec_diff(*prev, *curr, low_thresh));
    }
    triggers
}

/// A reading compared against itself raises nothing: a fresh trend,
/// seeded with its first reading, is quiet on its first tick, and a
/// source whose reading did not change is quiet on every later tick,
/// whatever its state, charge and threshold.
pub proof fn lemma_same_reading_no_triggers(r: Snapshot, low_thresh: u32)
    ensures
        spec_diff(r, r, low_thresh) =~= Seq::<Trigger>::empty(),
{
}

/// Detection is edge-triggered, never level-triggered: while the
/// observed state does not change, only `Low` can be raised, however
/// long the state persists and whatever the charges are.
pub proof fn lemma_no_edge_without_state_change(prev: Snapshot, curr: Snapshot, low_thresh: u32)
    requires
        prev.state == curr.state,
    ensures
        forall|i: int|
            0 <= i < spec_diff(prev, curr, low_thresh).len()
                ==> spec_diff(prev, curr, low_thresh)[i] == Trigger::Low,
{
}

/// `Low` is raised at most once per source per tick, even when both the
/// crossing rule and the unplug rule would raise it independently.
pub proof fn lemma_low_at_most_once(prev: Snapshot, curr: Snapshot, low_thresh: u32)
    ensures
        forall|i: int, j: int|
            0 <= i < j < spec_diff(prev, curr, low_thresh).len()
                ==> !(spec_diff(prev, curr, low_thresh)[i] == Trigger::Low
                    && spec_diff(prev, curr, low_thresh)[j] == Trigger::Low),
{
}

} // verus!
