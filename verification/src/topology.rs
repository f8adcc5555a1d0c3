//! The display topology matcher: which monitor placement drives which screen.
//!
//! The graphics server reports each monitor as an extent plus the raw
//! identity blocks of the outputs driving it.  Matching attaches to each
//! screen the first placement whose identity records contain the screen's
//! record; unmatched screens keep no placement and are then never exempt
//! from dimming.  Matching runs once at startup; later topology changes are
//! out of scope.

use crate::geometry::Geometry;
use crate::identity::{edid_parse, parse_identity_block, IdentityRecord};
use crate::registry::{Screen, ScreenModel};
use vstd::prelude::*;

verus! {

/// One monitor as the graphics server places it: its extent on the desktop
/// and the identity records of the outputs it drives.  Immutable after
/// construction.
pub struct MonitorPlacement {
    pub extent: Geometry,
    pub outputs: Vec<IdentityRecord>,
}

/// The mathematical shape of a placement.
pub struct PlacementModel {
    pub extent: Geometry,
    pub outputs: Seq<IdentityRecord>,
}

impl View for MonitorPlacement {
    type V = PlacementModel;

    open spec fn view(&self) -> PlacementModel {
        PlacementModel { extent: self.extent, outputs: self.outputs@ }
    }
}

/// The identity records among a list of raw identity blocks: whole blocks
/// that parse contribute their record, in order; the rest are skipped.
pub open spec fn records_of_outputs(raws: Seq<Vec<u8>>) -> Seq<IdentityRecord>
    decreases raws.len(),
{
    if raws.len() == 0 {
        Seq::empty()
    } else {
        let prefix = records_of_outputs(raws.drop_last());
        let bytes = raws.last()@;
        if bytes.len() < 128 {
            prefix
        } else {
            match edid_parse(bytes) {
                None => prefix,
                Some(block) => prefix.push(block.record),
            }
        }
    }
}

impl MonitorPlacement {
    /// Builds a placement from the raw identity blocks the graphics server
    /// handed over for one monitor.
    pub fn from_raw_outputs(extent: Geometry, raw_outputs: &Vec<Vec<u8>>) -> (r: MonitorPlacement)
        ensures
            r@.extent == extent,
            r@.outputs == records_of_outputs(raw_outputs@),
    {
        let n: usize = raw_outputs.len();
        let mut outputs: Vec<IdentityRecord> = Vec::new();
        let mut k: usize = 0;
        proof {
            assert(raw_outputs@.take(0) =~= Seq::<Vec<u8>>::empty());
            assert(outputs@ =~= records_of_outputs(raw_outputs@.take(0)));
        }
        while k < n
            invariant
                n == raw_outputs@.len(),
                k <= n,
                outputs@ == records_of_outputs(raw_outputs@.take(k as int)),
            decreases n - k,
        {
            let bytes = &raw_outputs[k];
            if bytes.len() >= 128 {
                match parse_identity_block(bytes) {
                    Some(block) => outputs.push(block.record),
                    None => {},
                }
            }
            proof {
                assert(raw_outputs@.take(k as int + 1).drop_last() =~= raw_outputs@.take(k as int));
                assert(raw_outputs@.take(k as int + 1).last() == raw_outputs@[k as int]);
            }
            k += 1;
        }
        proof {
            assert(raw_outputs@.take(n as int) =~= raw_outputs@);
        }
        MonitorPlacement { extent, outputs }
    }

    /// Whether this placement's extent is exactly the given window extent.
    pub fn matches_window_geometry(&self, geometry: &Geometry) -> (r: bool)
        ensures
            r == (self.extent == *geometry),
    {
        self.extent == *geometry
    }

    /// Whether one of this placement's outputs carries the given record.
    pub fn has_identity(&self, id: &IdentityRecord) -> (r: bool)
        ensures
            r == self@.outputs.contains(*id),
    {
        let n: usize = self.outputs.len();
        let mut k: usize = 0;
        while k < n
            invariant
                n == self.outputs@.len(),
                k <= n,
                forall|j: int| 0 <= j < k ==> self.outputs@[j] != *id,
            decreases n - k,
        {
            if self.outputs[k] == *id {
                return true;
            }
            k += 1;
        }
        false
    }
}

/// Whether the detected fullscreen extent covers exactly the given matched
/// placement: false wherever either side is absent.
pub fn is_screen_fullscreen(
    app_geometry: Option<&Geometry>,
    placement: Option<&MonitorPlacement>,
) -> (r: bool)
    ensures
        r == (match (app_geometry, placement) {
            (Some(g), Some(p)) => p.extent == *g,
            _ => false,
        }),
{
    match (app_geometry, placement) {
        (Some(g), Some(p)) => p.matches_window_geometry(g),
        _ => false,
    }
}

/// The lowest placement index at or past `k` whose outputs contain `id`.
pub open spec fn first_match_from(
    id: IdentityRecord,
    placements: Seq<PlacementModel>,
    k: int,
) -> Option<usize>
    decreases placements.len() - k,
{
    if k < 0 || k >= placements.len() {
        None
    } else if placements[k].outputs.contains(id) {
        Some(k as usize)
    } else {
        first_match_from(id, placements, k + 1)
    }
}

/// The first placement whose outputs contain `id`, if any.
pub open spec fn first_match(id: IdentityRecord, placements: Seq<PlacementModel>) -> Option<usize> {
    first_match_from(id, placements, 0)
}

/// Finds the first placement carrying `id`.
pub fn find_placement(id: &IdentityRecord, placements: &Vec<MonitorPlacement>) -> (r: Option<usize>)
    ensures
        r == first_match(*id, placements@.map(|i: int, p: MonitorPlacement| p@)),
{
    let ghost pm = placements@.map(|i: int, p: MonitorPlacement| p@);
    let n: usize = placements.len();
    let mut k: usize = 0;
    while k < n
        invariant
            n == placements@.len(),
            pm == placements@.map(|i: int, p: MonitorPlacement| p@),
            k <= n,
            first_match_from(*id, pm, k as int) == first_match(*id, pm),
        decreases n - k,
    {
        if placements[k].has_identity(id) {
            proof {
                assert(pm[k as int] == placements@[k as int]@);
            }
            return Some(k);
        }
        proof {
            assert(pm[k as int] == placements@[k as int]@);
        }
        k += 1;
    }
    None
}

/// Attaches to every screen the first placement that carries its identity
/// record; a screen no placement carries stays unmatched.  Runs once at
/// startup.
pub fn match_placements(screens: &mut Vec<Screen>, placements: &Vec<MonitorPlacement>)
    ensures
        final(screens)@.len() == old(screens)@.len(),
        forall|i: int|
            0 <= i < old(screens)@.len() ==> final(screens)@[i]@ == (ScreenModel {
                placement: first_match(
                    old(screens)@[i]@.identity,
                    placements@.map(|j: int, p: MonitorPlacement| p@),
                ),
                ..old(screens)@[i]@
            }),
{
    let n: usize = screens.len();
    let mut k: usize = 0;
    while k < n
        invariant
            n == screens@.len(),
            screens@.len() == old(screens)@.len(),
            k <= n,
            forall|i: int|
                k <= i < old(screens)@.len() ==> screens@[i] == old(screens)@[i],
            forall|i: int|
                0 <= i < k ==> screens@[i]@ == (ScreenModel {
                    placement: first_match(
                        old(screens)@[i]@.identity,
                        placements@.map(|j: int, p: MonitorPlacement| p@),
                    ),
                    ..old(screens)@[i]@
                }),
        decreases n - k,
    {
        let idx = find_placement(&screens[k].identity, placements);
        screens[k].placement = idx;
        k += 1;
    }
}

} // verus!
