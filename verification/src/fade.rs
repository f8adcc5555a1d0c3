//! The fade controller: what every screen's brightness must be at each tick
//! of a timed run.
//!
//! A run fixes a direction (dim while a fullscreen region is present,
//! restore otherwise) and a reference extent, then interpolates linearly
//! from a shared timer: at elapsed time t of duration D a screen moving
//! toward zero is set to (1 - t/D) of its default brightness, one moving
//! toward its default to t/D of it, with t capped at D so the final write
//! lands exactly on the target.  Brightness is always computed from the
//! default, never from the screen's value at the start of the run, so a
//! screen that joins mid-way still converges to the right endpoint.  The
//! caller drives the timer and carries out the writes each tick asks for;
//! a screen already at its directional extreme is not written again.

use crate::geometry::Geometry;
use crate::registry::{Screen, ScreenModel};
use crate::topology::{MonitorPlacement, PlacementModel};
use vstd::arithmetic::div_mod::{
    lemma_div_is_ordered, lemma_div_multiples_vanish, lemma_div_pos_is_pos,
};
use vstd::arithmetic::mul::{lemma_mul_inequality, lemma_mul_nonnegative};
use vstd::prelude::*;

verus! {

/// Duration of a fade run and the spacing of its ticks, both positive
/// millisecond spans.
#[derive(Clone, Copy, Debug)]
pub struct FadeTiming {
    pub duration_ms: u64,
    pub interval_ms: u64,
}

impl FadeTiming {
    pub open spec fn wf(self) -> bool {
        self.duration_ms > 0 && self.interval_ms > 0
    }

    pub fn new(duration_ms: u64, interval_ms: u64) -> (r: FadeTiming)
        requires
            duration_ms > 0,
            interval_ms > 0,
        ensures
            r == (FadeTiming { duration_ms, interval_ms }),
            r.wf(),
    {
        FadeTiming { duration_ms, interval_ms }
    }
}

/// The elapsed time counted by a tick, capped at the run's duration:
/// progress never passes 1, so an overshooting final tick still lands on
/// the target.
pub open spec fn capped_elapsed(elapsed_ms: u64, duration_ms: u64) -> int {
    if elapsed_ms >= duration_ms {
        duration_ms as int
    } else {
        elapsed_ms as int
    }
}

/// Target of a screen moving toward zero: (1 - t/D) of its default.
pub open spec fn dim_target(default: u16, elapsed_ms: u64, duration_ms: u64) -> int
    recommends
        duration_ms > 0,
{
    (default as int) * ((duration_ms as int) - capped_elapsed(elapsed_ms, duration_ms)) / (
    duration_ms as int)
}

/// Target of a screen moving toward its default: t/D of it.
pub open spec fn restore_target(default: u16, elapsed_ms: u64, duration_ms: u64) -> int
    recommends
        duration_ms > 0,
{
    (default as int) * capped_elapsed(elapsed_ms, duration_ms) / (duration_ms as int)
}

/// Both targets stay between 0 and the default.
pub proof fn lemma_target_bounds(default: u16, elapsed_ms: u64, duration_ms: u64)
    requires
        duration_ms > 0,
    ensures
        0 <= dim_target(default, elapsed_ms, duration_ms) <= default,
        0 <= restore_target(default, elapsed_ms, duration_ms) <= default,
{
    let d = duration_ms as int;
    let e = capped_elapsed(elapsed_ms, duration_ms);
    let b = default as int;
    assert(0 <= e <= d);
    lemma_mul_nonnegative(b, d - e);
    lemma_mul_nonnegative(b, e);
    lemma_div_pos_is_pos(b * (d - e), d);
    lemma_div_pos_is_pos(b * e, d);
    lemma_mul_inequality(d - e, d, b);
    lemma_mul_inequality(e, d, b);
    lemma_div_is_ordered(b * (d - e), b * d, d);
    lemma_div_is_ordered(b * e, b * d, d);
    lemma_div_multiples_vanish(b, d);
    assert(b * d == d * b);
}

/// Whether this screen is exempt in a run with the given reference extent:
/// its matched placement's extent equals the reference.
pub open spec fn screen_exempt(
    s: ScreenModel,
    placements: Seq<PlacementModel>,
    reference: Option<Geometry>,
) -> bool {
    match (reference, s.placement) {
        (Some(g), Some(p)) => (p as int) < placements.len() && placements[p as int].extent == g,
        _ => false,
    }
}

/// Whether this screen moves toward zero this run: the run dims and the
/// screen is not exempt.  Exempt screens, and every screen of a restore
/// run, move toward their default.
pub open spec fn moves_toward_zero(
    s: ScreenModel,
    placements: Seq<PlacementModel>,
    fade_out: bool,
    reference: Option<Geometry>,
) -> bool {
    fade_out && !screen_exempt(s, placements, reference)
}

/// Whether the tick leaves the screen alone: it already sits at its
/// directional extreme, so another write would be redundant.
pub open spec fn tick_skips(s: ScreenModel, toward_zero: bool) -> bool {
    if toward_zero {
        s.current_brightness == 0
    } else {
        s.current_brightness >= s.default_brightness
    }
}

/// The brightness the screen holds after the tick.
pub open spec fn tick_brightness(
    s: ScreenModel,
    toward_zero: bool,
    elapsed_ms: u64,
    duration_ms: u64,
) -> int {
    if tick_skips(s, toward_zero) {
        s.current_brightness as int
    } else if toward_zero {
        dim_target(s.default_brightness, elapsed_ms, duration_ms)
    } else {
        restore_target(s.default_brightness, elapsed_ms, duration_ms)
    }
}

/// The screen after the tick: only its current brightness moves.
pub open spec fn tick_screen(
    s: ScreenModel,
    placements: Seq<PlacementModel>,
    fade_out: bool,
    reference: Option<Geometry>,
    elapsed_ms: u64,
    duration_ms: u64,
) -> ScreenModel {
    let tz = moves_toward_zero(s, placements, fade_out, reference);
    ScreenModel {
        current_brightness: tick_brightness(s, tz, elapsed_ms, duration_ms) as u16,
        ..s
    }
}

/// The whole screen list after the tick.
pub open spec fn tick_screens(
    screens: Seq<ScreenModel>,
    placements: Seq<PlacementModel>,
    fade_out: bool,
    reference: Option<Geometry>,
    elapsed_ms: u64,
    duration_ms: u64,
) -> Seq<ScreenModel> {
    screens.map(
        |i: int, s: ScreenModel| tick_screen(s, placements, fade_out, reference, elapsed_ms, duration_ms),
    )
}

/// One brightness write the caller must carry out: the screen's position in
/// the list and the value to send to its control handle.
#[derive(Clone, Copy, Debug, PartialEq, Eq, Structural)]
pub struct BrightnessWrite {
    pub screen: usize,
    pub value: u16,
}

/// The writes one tick performs, in screen order: every screen not at its
/// directional extreme is written its interpolation target.
pub open spec fn tick_writes(
    screens: Seq<ScreenModel>,
    placements: Seq<PlacementModel>,
    fade_out: bool,
    reference: Option<Geometry>,
    elapsed_ms: u64,
    duration_ms: u64,
) -> Seq<BrightnessWrite>
    decreases screens.len(),
{
    if screens.len() == 0 {
        Seq::empty()
    } else {
        let prefix = tick_writes(
            screens.drop_last(),
            placements,
            fade_out,
            reference,
            elapsed_ms,
            duration_ms,
        );
        let s = screens.last();
        let tz = moves_toward_zero(s, placements, fade_out, reference);
        if tick_skips(s, tz) {
            prefix
        } else {
            prefix.push(
                BrightnessWrite {
                    screen: (screens.len() - 1) as usize,
                    value: tick_brightness(s, tz, elapsed_ms, duration_ms) as u16,
                },
            )
        }
    }
}

/// Whether this screen is exempt, on real values.
fn screen_is_exempt(
    s: &Screen,
    placements: &Vec<MonitorPlacement>,
    reference: &Option<Geometry>,
) -> (r: bool)
    ensures
        r == screen_exempt(s@, placements@.map(|i: int, p: MonitorPlacement| p@), *reference),
{
    let g = match reference {
        Some(g) => g,
        None => {
            return false;
        },
    };
    let p = match s.placement {
        Some(p) => p,
        None => {
            return false;
        },
    };
    if p >= placements.len() {
        return false;
    }
    proof {
        assert(placements@.map(|i: int, q: MonitorPlacement| q@)[p as int] == placements@[p as int]@);
    }
    placements[p].matches_window_geometry(g)
}

/// The interpolation target, on real values.
fn tick_value(default: u16, toward_zero: bool, elapsed_ms: u64, duration_ms: u64) -> (r: u16)
    requires
        duration_ms > 0,
    ensures
        toward_zero ==> r as int == dim_target(default, elapsed_ms, duration_ms),
        !toward_zero ==> r as int == restore_target(default, elapsed_ms, duration_ms),
{
    let e: u64 = if elapsed_ms >= duration_ms {
        duration_ms
    } else {
        elapsed_ms
    };
    let span: u64 = if toward_zero {
        duration_ms - e
    } else {
        e
    };
    proof {
        assert((default as int) * (span as int) <= u128::MAX) by (nonlinear_arith)
            requires
                default <= u16::MAX,
                span <= u64::MAX,
        ;
        lemma_target_bounds(default, elapsed_ms, duration_ms);
    }
    let num: u128 = (default as u128) * (span as u128);
    let q: u128 = num / (duration_ms as u128);
    q as u16
}

/// One tick of a fade run: moves every screen to its interpolation target
/// for the shared timer's elapsed time, skipping screens already at their
/// directional extreme, and returns the brightness writes the caller must
/// now send to the control handles, in screen order.
pub fn fade_tick(
    screens: &mut Vec<Screen>,
    placements: &Vec<MonitorPlacement>,
    fade_out: bool,
    reference: &Option<Geometry>,
    elapsed_ms: u64,
    timing: &FadeTiming,
) -> (writes: Vec<BrightnessWrite>)
    requires
        timing.wf(),
    ensures
        final(screens)@.len() == old(screens)@.len(),
        forall|i: int|
            0 <= i < old(screens)@.len() ==> final(screens)@[i]@ == tick_screen(
                old(screens)@[i]@,
                placements@.map(|j: int, p: MonitorPlacement| p@),
                fade_out,
                *reference,
                elapsed_ms,
                timing.duration_ms,
            ),
        writes@ == tick_writes(
            old(screens)@.map(|i: int, s: Screen| s@),
            placements@.map(|j: int, p: MonitorPlacement| p@),
            fade_out,
            *reference,
            elapsed_ms,
            timing.duration_ms,
        ),
{
    let ghost sm = old(screens)@.map(|i: int, s: Screen| s@);
    let ghost pm = placements@.map(|j: int, p: MonitorPlacement| p@);
    let duration_ms = timing.duration_ms;
    let n: usize = screens.len();
    let mut writes: Vec<BrightnessWrite> = Vec::new();
    let mut k: usize = 0;
    proof {
        assert(sm.take(0) =~= Seq::<ScreenModel>::empty());
        assert(writes@ =~= tick_writes(sm.take(0), pm, fade_out, *reference, elapsed_ms, duration_ms));
    }
    while k < n
        invariant
            n == screens@.len(),
            screens@.len() == old(screens)@.len(),
            sm == old(screens)@.map(|i: int, s: Screen| s@),
            pm == placements@.map(|j: int, p: MonitorPlacement| p@),
            duration_ms == timing.duration_ms,
            duration_ms > 0,
            k <= n,
            forall|i: int| k <= i < n ==> screens@[i] == old(screens)@[i],
            forall|i: int|
                0 <= i < k ==> screens@[i]@ == tick_screen(
                    sm[i],
                    pm,
                    fade_out,
                    *reference,
                    elapsed_ms,
                    duration_ms,
                ),
            writes@ == tick_writes(sm.take(k as int), pm, fade_out, *reference, elapsed_ms, duration_ms),
        decreases n - k,
    {
        proof {
            assert(sm[k as int] == old(screens)@[k as int]@);
        }
        let exempt = screen_is_exempt(&screens[k], placements, reference);
        let toward_zero = fade_out && !exempt;
        let current = screens[k].current_brightness;
        let default = screens[k].default_brightness;
        let skip = if toward_zero {
            current == 0
        } else {
            current >= default
        };
        if !skip {
            let value = tick_value(default, toward_zero, elapsed_ms, duration_ms);
            proof {
                lemma_target_bounds(default, elapsed_ms, duration_ms);
            }
            screens[k].current_brightness = value;
            writes.push(BrightnessWrite { screen: k, value });
        }
        proof {
            assert(sm.take(k as int + 1).drop_last() =~= sm.take(k as int));
            assert(sm.take(k as int + 1).last() == sm[k as int]);
            assert(writes@ =~= tick_writes(
                sm.take(k as int + 1),
                pm,
                fade_out,
                *reference,
                elapsed_ms,
                duration_ms,
            ));
        }
        k += 1;
    }
    proof {
        assert(sm.take(n as int) =~= sm);
        assert forall|i: int| 0 <= i < old(screens)@.len() implies screens@[i]@ == tick_screen(
            old(screens)@[i]@,
            pm,
            fade_out,
            *reference,
            elapsed_ms,
            duration_ms,
        ) by {
            assert(sm[i] == old(screens)@[i]@);
            assert(screens@[i]@ == tick_screen(sm[i], pm, fade_out, *reference, elapsed_ms, duration_ms));
        }
    }
    writes
}

/// The screens after a whole run: one tick per entry of `elapsed_times`, in
/// order, all against the same direction, reference extent and duration.
pub open spec fn run_screens(
    screens: Seq<ScreenModel>,
    placements: Seq<PlacementModel>,
    fade_out: bool,
    reference: Option<Geometry>,
    elapsed_times: Seq<u64>,
    duration_ms: u64,
) -> Seq<ScreenModel>
    decreases elapsed_times.len(),
{
    if elapsed_times.len() == 0 {
        screens
    } else {
        tick_screens(
            run_screens(
                screens,
                placements,
                fade_out,
                reference,
                elapsed_times.drop_last(),
                duration_ms,
            ),
            placements,
            fade_out,
            reference,
            elapsed_times.last(),
            duration_ms,
        )
    }
}

/// Law (shape): a run only ever moves a screen's current brightness.  Its
/// identity, name, default and placement stay, and a screen that starts at
/// or below its default never passes it.
pub proof fn lemma_run_keeps_shape(
    screens: Seq<ScreenModel>,
    placements: Seq<PlacementModel>,
    fade_out: bool,
    reference: Option<Geometry>,
    elapsed_times: Seq<u64>,
    duration_ms: u64,
    i: int,
)
    requires
        duration_ms > 0,
        0 <= i < screens.len(),
        screens[i].current_brightness <= screens[i].default_brightness,
    ensures
        ({
            let after = run_screens(
                screens,
                placements,
                fade_out,
                reference,
                elapsed_times,
                duration_ms,
            );
            &&& after.len() == screens.len()
            &&& after[i] == (ScreenModel {
                current_brightness: after[i].current_brightness,
                ..screens[i]
            })
            &&& after[i].current_brightness <= after[i].default_brightness
        }),
    decreases elapsed_times.len(),
{
    if elapsed_times.len() > 0 {
        lemma_run_keeps_shape(
            screens,
            placements,
            fade_out,
            reference,
            elapsed_times.drop_last(),
            duration_ms,
            i,
        );
        let mid = run_screens(
            screens,
            placements,
            fade_out,
            reference,
            elapsed_times.drop_last(),
            duration_ms,
        );
        lemma_target_bounds(mid[i].default_brightness, elapsed_times.last(), duration_ms);
    }
}

/// Law (completion): however a run reached its last tick — the one whose
/// elapsed time is at or past the duration — that tick leaves every screen
/// moving toward zero at exactly 0 and every other screen at exactly its
/// default, provided the screen began the run at or below its default.
pub proof fn lemma_run_completion(
    screens: Seq<ScreenModel>,
    placements: Seq<PlacementModel>,
    fade_out: bool,
    reference: Option<Geometry>,
    elapsed_times: Seq<u64>,
    duration_ms: u64,
    i: int,
)
    requires
        duration_ms > 0,
        elapsed_times.len() > 0,
        elapsed_times.last() >= duration_ms,
        0 <= i < screens.len(),
        screens[i].current_brightness <= screens[i].default_brightness,
    ensures
        ({
            let after = run_screens(
                screens,
                placements,
                fade_out,
                reference,
                elapsed_times,
                duration_ms,
            );
            &&& moves_toward_zero(screens[i], placements, fade_out, reference)
                ==> after[i].current_brightness == 0
            &&& !moves_toward_zero(screens[i], placements, fade_out, reference)
                ==> after[i].current_brightness == screens[i].default_brightness
        }),
{
    lemma_run_keeps_shape(
        screens,
        placements,
        fade_out,
        reference,
        elapsed_times.drop_last(),
        duration_ms,
        i,
    );
    let mid = run_screens(
        screens,
        placements,
        fade_out,
        reference,
        elapsed_times.drop_last(),
        duration_ms,
    );
    let d = duration_ms as int;
    let b = mid[i].default_brightness as int;
    assert(capped_elapsed(elapsed_times.last(), duration_ms) == d);
    assert(b * (d - d) == 0);
    vstd::arithmetic::div_mod::lemma_div_of0(d);
    lemma_div_multiples_vanish(b, d);
    assert(b * d == d * b);
}

/// Law (exemption correctness): in one completed dim run whose reference
/// extent is `g`, a screen whose matched placement has extent `g` ends at
/// its default brightness, while every other screen ends at 0 — within the
/// same run.
pub proof fn lemma_exemption_correctness(
    screens: Seq<ScreenModel>,
    placements: Seq<PlacementModel>,
    g: Geometry,
    elapsed_times: Seq<u64>,
    duration_ms: u64,
    i: int,
)
    requires
        duration_ms > 0,
        elapsed_times.len() > 0,
        elapsed_times.last() >= duration_ms,
        0 <= i < screens.len(),
        screens[i].current_brightness <= screens[i].default_brightness,
    ensures
        ({
            let after = run_screens(
                screens,
                placements,
                true,
                Some(g),
                elapsed_times,
                duration_ms,
            );
            &&& screen_exempt(screens[i], placements, Some(g)) ==> after[i].current_brightness
                == screens[i].default_brightness
            &&& !screen_exempt(screens[i], placements, Some(g)) ==> after[i].current_brightness
                == 0
        }),
{
    lemma_run_completion(screens, placements, true, Some(g), elapsed_times, duration_ms, i);
}

/// Whether the shared timer has carried the run to completion: the loop's
/// exit test, progress at or past 1.
pub fn fade_complete(elapsed_ms: u64, timing: &FadeTiming) -> (r: bool)
    ensures
        r == (elapsed_ms >= timing.duration_ms),
{
    elapsed_ms >= timing.duration_ms
}

} // verus!
