//! Pacing of the full sales synchronisation.
use vstd::prelude::*;

verus! {

/// Spacing of the per-skin requests of a full synchronisation.
pub const SYNC_INTERVAL_MS: u64 = 100;

} // verus!
