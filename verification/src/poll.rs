//! The poll loop's decision: when a fade run starts, and in which direction.
//!
//! The driver queries the detector at a fixed interval and remembers the
//! extent recorded at the last transition.  A fade starts exactly when the
//! freshly detected extent differs structurally from the recorded one
//! (absent equals absent); it dims when a fullscreen region is present and
//! restores otherwise.  A run then blocks until completion, so a state flip
//! during a run is seen only at the next poll after it ends.

use crate::detector::Application;
use crate::geometry::{opt_geometry_eq, Geometry};
use vstd::prelude::*;

verus! {

/// The extent of the current fullscreen state: absent when no eligible
/// window was detected.
pub open spec fn current_extent(current: Option<Application>) -> Option<Geometry> {
    match current {
        Some(a) => Some(a.extent),
        None => None,
    }
}

/// What one poll tick asks the fade controller to do: the direction and the
/// reference extent for the exemption test.
#[derive(Clone, Copy, Debug)]
pub struct FadeRequest {
    pub fade_out: bool,
    pub reference: Option<Geometry>,
}

/// What the driver carries between polls: the extent recorded at the end of
/// the last transition.
pub struct PollState {
    pub last_extent: Option<Geometry>,
}

impl PollState {
    /// At startup nothing is recorded, so a first poll that already sees a
    /// fullscreen window starts a dim run.
    pub fn new() -> (r: PollState)
        ensures
            r.last_extent is None,
    {
        PollState { last_extent: None }
    }

    /// One poll tick's decision.  The no-op law: a detector answer whose
    /// extent equals the recorded one — in particular the same absent state
    /// tick after tick — triggers nothing and changes nothing.  On a changed
    /// extent, exactly one run is requested and the extent is recorded.
    pub fn poll_decision(&mut self, current: &Option<Application>) -> (r: Option<FadeRequest>)
        ensures
            (current_extent(*current) == old(self).last_extent) ==> (r is None && *final(self)
                == *old(self)),
            (current_extent(*current) != old(self).last_extent) ==> (r matches Some(req)
                && req.fade_out == (*current is Some) && req.reference == current_extent(*current)
                && final(self).last_extent == current_extent(*current)),
    {
        let cur: Option<Geometry> = match current {
            Some(a) => Some(a.extent),
            None => None,
        };
        if opt_geometry_eq(&cur, &self.last_extent) {
            None
        } else {
            let fade_out = cur.is_some();
            self.last_extent = cur;
            Some(FadeRequest { fade_out, reference: cur })
        }
    }
}

} // verus!
