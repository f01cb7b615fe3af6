//! Auxiliary signal extraction. The observed containers carry no
//! auxiliary series, so this always yields the empty collection; the
//! entity and its wiring stay in place for when population is taken up.

use crate::domain::BiosignalData;
use vstd::prelude::*;

verus! {

/// Yields the (empty) auxiliary signal collection of a recording.
pub fn parse_biosignals() -> (r: BiosignalData)
    ensures
        r.time@.len() == 0,
        r.auxilaries@.len() == 0,
{
    BiosignalData { time: Vec::new(), auxilaries: Vec::new() }
}

} // verus!
