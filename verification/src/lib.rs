//! Battery state monitoring core: edge-triggered detection of power
//! transitions (plugged in, unplugged, fully charged, low charge) over
//! periodic per-source readings, with de-duplicated alert generation.

pub mod notification;
pub mod snapshot;
pub mod system;
pub mod trend;
pub mod trigger;
