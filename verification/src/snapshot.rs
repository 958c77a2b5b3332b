use vstd::prelude::*;

verus! {

/// Number of charge units in a full charge: charge ratios are held as
/// integers in units of 1/10000 of capacity, so that comparisons against
/// the low threshold are exact.
pub const CHARGE_SCALE: u32 = 10000;

/// Default low-charge threshold: two tenths of a full charge.
pub const DEFAULT_THRESHOLD: u32 = 2000;

/// Operating mode reported by a power source. Anything a provider
/// reports beyond these modes is read as `Unknown`.
#[derive(Clone, Copy, Debug, PartialEq, Eq, Structural)]
pub enum PowerState {
    Unknown,
    Charging,
    Discharging,
    Full,
}

impl Default for PowerState {
    /// A mode that has not been observed yet reads as `Unknown`.
    fn default() -> (r: Self)
        ensures
            r == PowerState::Unknown,
    {
        PowerState::Unknown
    }
}

/// One sample of a power source's observable state at one instant,
/// immutable once constructed. The charge is always well-defined, even
/// when the state is `Unknown`; the time estimates may be absent when
/// the provider could not estimate them.
#[derive(Clone, Copy, Debug)]
pub struct Snapshot {
    /// Operating mode at sampling time.
    pub state: PowerState,
    /// Fraction of capacity, in units of 1/`CHARGE_SCALE`.
    pub charge: u32,
    /// Estimated whole seconds until the source is full, if estimated.
    pub full_time: Option<u64>,
    /// Estimated whole seconds until the source is empty, if estimated.
    pub empty_time: Option<u64>,
}

impl Snapshot {
    /// True when this sample's charge is at or under the threshold; a
    /// reading exactly at the threshold counts as low.
    pub open spec fn spec_is_below(&self, low_thresh: u32) -> bool {
        self.charge <= low_thresh
    }

    pub fn charge(&self) -> (r: u32)
        ensures
            r == self.charge,
    {
        self.charge
    }

    pub fn full_time(&self) -> (r: Option<u64>)
        ensures
            r == self.full_time,
    {
        self.full_time
    }

    pub fn empty_time(&self) -> (r: Option<u64>)
        ensures
            r == self.empty_time,
    {
        self.empty_time
    }

    /// The source went onto external power on this tick: it is charging
    /// now and was not on the previous reading.
    pub fn did_plug(&self, prev: &Snapshot) -> (r: bool)
        ensures
            r == (self.state == PowerState::Charging && prev.state != self.state),
    {
        (self.state == PowerState::Charging) && (prev.state != self.state)
    }

    /// External power was removed on this tick: the source is
    /// discharging now and was not on the previous reading.
    pub fn did_unplug(&self, prev: &Snapshot) -> (r: bool)
        ensures
            r == (self.state == PowerState::Discharging && prev.state != self.state),
    {
        (self.state == PowerState::Discharging) && (prev.state != self.state)
    }

    /// The source reached a full charge on this tick: it reads full now
    /// and did not on the previous reading.
    pub fn did_fill(&self, prev: &Snapshot) -> (r: bool)
        ensures
            r == (self.state == PowerState::Full && prev.state != self.state),
    {
        (self.state == PowerState::Full) && (prev.state != self.state)
    }

    /// The charge crossed the threshold downward on this tick: it is at
    /// or under the threshold now and was above it on the previous
    /// reading.
    pub fn did_deplete(&self, prev: &Snapshot, low_thresh: u32) -> (r: bool)
        ensures
            r == (self.spec_is_below(low_thresh) && prev.charge > low_thresh),
    {
        self.is_below(low_thresh) && (prev.charge > low_thresh)
    }

    /// The charge is at or under the threshold.
    #[verifier::when_used_as_spec(spec_is_below)]
    pub fn is_below(&self, low_thresh: u32) -> (r: bool)
        ensures
            r == self.spec_is_below(low_thresh),
    {
        self.charge <= low_thresh
    }
}

impl Default for Snapshot {
    /// A sample of an unobserved source: unknown mode, empty charge, no
    /// time estimates.
    fn default() -> (r: Self)
        ensures
            r.state == PowerState::Unknown,
            r.charge == 0,
            r.full_time is None,
            r.empty_time is None,
    {
        Snapshot { state: PowerState::Unknown, charge: 0, full_time: None, empty_time: None }
    }
}

} // verus!
