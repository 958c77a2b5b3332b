use powalert::snapshot::{PowerState, Snapshot, CHARGE_SCALE, DEFAULT_THRESHOLD};
use powalert::trigger::{diff, Trigger};

fn reading(state: PowerState, charge: u32) -> Snapshot {
    Snapshot { state, charge, ..Snapshot::default() }
}

#[test]
fn test_did_plug() {
    let curr = Snapshot { state: PowerState::Charging, ..Snapshot::default() };

    let prev = Snapshot::default();

    assert_eq!(curr.did_plug(&prev), true)
}

#[test]
fn test_did_unplug() {
    let curr = Snapshot { state: PowerState::Discharging, ..Snapshot::default() };

    let prev = Snapshot::default();

    assert_eq!(curr.did_unplug(&prev), true)
}

#[test]
fn test_did_fill() {
    let curr = Snapshot { state: PowerState::Full, ..Snapshot::default() };

    let prev = Snapshot::default();

    assert_eq!(curr.did_fill(&prev), true)
}

#[test]
fn test_is_below() {
    let low_thresh: u32 = 2000;
    let test_charge: u32 = 1000;

    let curr = Snapshot { charge: test_charge, ..Snapshot::default() };

    assert_eq!(curr.is_below(low_thresh), true)
}

#[test]
fn test_did_deplete() {
    let low_thresh: u32 = 2000;
    let low_charge: u32 = 1000;
    let high_charge: u32 = 3000;

    let curr = Snapshot { charge: low_charge, ..Snapshot::default() };

    let prev = Snapshot { charge: high_charge, ..Snapshot::default() };

    assert_eq!(curr.did_deplete(&prev, low_thresh), true)
}

#[test]
fn first_tick_is_quiet() {
    // A trend seeded with its first reading raises nothing when that
    // reading comes around again.
    let first = reading(PowerState::Discharging, 1500);
    assert_eq!(diff(&first, &first, DEFAULT_THRESHOLD), vec![]);
}

#[test]
fn same_reading_never_triggers() {
    // Feeding the same reading as previous and current never yields a
    // trigger, for any state and charge, below the threshold or not.
    let states = [
        PowerState::Unknown,
        PowerState::Charging,
        PowerState::Discharging,
        PowerState::Full,
    ];
    for state in states {
        for charge in [0u32, 1000, 2000, 2001, 9999, CHARGE_SCALE] {
            let r = reading(state, charge);
            assert_eq!(diff(&r, &r, DEFAULT_THRESHOLD), vec![]);
        }
    }
}

#[test]
fn unchanged_state_yields_no_edge_trigger() {
    // Holding one state across a charge change is never an edge.
    let states = [
        PowerState::Unknown,
        PowerState::Charging,
        PowerState::Discharging,
        PowerState::Full,
    ];
    for state in states {
        let prev = reading(state, 9000);
        let curr = reading(state, 8000);
        assert_eq!(diff(&prev, &curr, DEFAULT_THRESHOLD), vec![]);
    }
}

#[test]
fn threshold_crossing_at_boundary() {
    // A reading exactly at the threshold counts as low.
    let prev = reading(PowerState::Discharging, 2100);
    let curr = reading(PowerState::Discharging, 2000);
    assert_eq!(diff(&prev, &curr, 2000), vec![Trigger::Low]);
}

#[test]
fn no_retrigger_while_at_threshold() {
    // Staying at or under the threshold does not raise Low again.
    let prev = reading(PowerState::Discharging, 2000);
    let curr = reading(PowerState::Discharging, 2000);
    assert_eq!(diff(&prev, &curr, 2000), vec![]);
}

#[test]
fn unplug_below_threshold_deduplicates_low() {
    // The unplug rule raises Low for a source already low while
    // charging, and Low appears exactly once.
    let prev = reading(PowerState::Charging, 1000);
    let curr = reading(PowerState::Discharging, 1000);
    assert_eq!(diff(&prev, &curr, 2000), vec![Trigger::Unplugged, Trigger::Low]);
}

#[test]
fn plug_in_yields_plugged_only() {
    let prev = reading(PowerState::Discharging, 5000);
    let curr = reading(PowerState::Charging, 5500);
    assert_eq!(diff(&prev, &curr, 2000), vec![Trigger::Plugged]);
}

#[test]
fn fill_yields_full_only() {
    let prev = reading(PowerState::Charging, 9900);
    let curr = reading(PowerState::Full, 10000);
    assert_eq!(diff(&prev, &curr, 2000), vec![Trigger::Full]);
}

#[test]
fn crossing_and_unplug_yield_one_low() {
    // Both the crossing rule and the unplug rule hold; the crossing
    // fires first and the unplug rule's Low is suppressed.
    let prev = reading(PowerState::Charging, 5000);
    let curr = reading(PowerState::Discharging, 1000);
    assert_eq!(diff(&prev, &curr, 2000), vec![Trigger::Low, Trigger::Unplugged]);
}

#[test]
fn edge_to_unknown_is_quiet() {
    let prev = reading(PowerState::Discharging, 5000);
    let curr = reading(PowerState::Unknown, 5000);
    assert_eq!(diff(&prev, &curr, 2000), vec![]);
}

#[test]
fn default_snapshot_is_unknown_and_empty() {
    let snap = Snapshot::default();
    assert_eq!(snap.state, PowerState::Unknown);
    assert_eq!(snap.charge, 0);
    assert_eq!(snap.full_time, None);
    assert_eq!(snap.empty_time, None);
    assert_eq!(PowerState::default(), PowerState::Unknown);
}

#[test]
fn snapshot_getters_return_fields() {
    let snap = Snapshot {
        state: PowerState::Charging,
        charge: 4200,
        full_time: Some(360),
        empty_time: Some(7200),
    };
    assert_eq!(snap.charge(), 4200);
    assert_eq!(snap.full_time(), Some(360));
    assert_eq!(snap.empty_time(), Some(7200));
}
