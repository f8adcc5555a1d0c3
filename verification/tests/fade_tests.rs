//! The fade controller: whole simulated runs, tick by tick.

use screen_dimmer::fade::{fade_complete, fade_tick, BrightnessWrite, FadeTiming};
use screen_dimmer::geometry::Geometry;
use screen_dimmer::identity::IdentityRecord;
use screen_dimmer::registry::Screen;
use screen_dimmer::topology::MonitorPlacement;

fn record(tag: u8) -> IdentityRecord {
    IdentityRecord {
        vendor0: b'A',
        vendor1: b'B',
        vendor2: b'C',
        product: tag as u16,
        serial: tag as u32,
        week: 1,
        year: 20,
    }
}

fn screen(tag: u8, default: u16, current: u16, placement: Option<usize>) -> Screen {
    Screen {
        device: tag as usize,
        identity: record(tag),
        name: vec![tag],
        default_brightness: default,
        current_brightness: current,
        placement,
    }
}

/// Drives a whole run as the daemon would: ticks spaced by the interval
/// until the shared timer passes the duration.  Returns all writes.
fn run(
    screens: &mut Vec<Screen>,
    placements: &Vec<MonitorPlacement>,
    fade_out: bool,
    reference: &Option<Geometry>,
    timing: &FadeTiming,
) -> Vec<BrightnessWrite> {
    let mut all: Vec<BrightnessWrite> = Vec::new();
    let mut elapsed: u64 = 0;
    loop {
        let mut writes = fade_tick(screens, placements, fade_out, reference, elapsed, timing);
        all.append(&mut writes);
        if fade_complete(elapsed, timing) {
            break;
        }
        elapsed += timing.interval_ms;
    }
    all
}

#[test]
fn exempt_screen_restored_others_dimmed() {
    // Two screens with defaults 100 and 60; the fullscreen region equals the
    // extent of the placement matched to the first screen.
    let a_extent = Geometry::new(0, 0, 1920, 1080);
    let b_extent = Geometry::new(1920, 0, 1280, 1024);
    let placements = vec![
        MonitorPlacement { extent: a_extent, outputs: vec![record(1)] },
        MonitorPlacement { extent: b_extent, outputs: vec![record(2)] },
    ];
    let mut screens = vec![screen(1, 100, 40, Some(0)), screen(2, 60, 60, Some(1))];
    let timing = FadeTiming::new(1000, 10);
    run(&mut screens, &placements, true, &Some(a_extent), &timing);
    assert_eq!(screens[0].current_brightness, 100); // exempt: back to default
    assert_eq!(screens[1].current_brightness, 0); // dimmed to zero
}

#[test]
fn completed_restore_reaches_default_exactly() {
    let placements: Vec<MonitorPlacement> = Vec::new();
    let mut screens = vec![screen(1, 100, 37, None), screen(2, 60, 0, None)];
    let timing = FadeTiming::new(1000, 10);
    run(&mut screens, &placements, false, &None, &timing);
    assert_eq!(screens[0].current_brightness, 100);
    assert_eq!(screens[1].current_brightness, 60);
}

#[test]
fn completed_dim_reaches_zero_exactly() {
    let placements: Vec<MonitorPlacement> = Vec::new();
    let mut screens = vec![screen(1, 100, 100, None), screen(2, 60, 23, None)];
    let timing = FadeTiming::new(1000, 10);
    let g = Geometry::new(0, 0, 1, 1); // matches no placement
    run(&mut screens, &placements, true, &Some(g), &timing);
    assert_eq!(screens[0].current_brightness, 0);
    assert_eq!(screens[1].current_brightness, 0);
}

#[test]
fn write_budget_per_run() {
    // fade_time 1000 ms at a 10 ms interval: at most ~100 writes per screen.
    let placements: Vec<MonitorPlacement> = Vec::new();
    let mut screens = vec![screen(1, 100, 100, None), screen(2, 60, 0, None)];
    let timing = FadeTiming::new(1000, 10);
    let g = Geometry::new(0, 0, 1, 1);
    let writes = run(&mut screens, &placements, true, &Some(g), &timing);
    let to_first: usize = writes.iter().filter(|w| w.screen == 0).count();
    let to_second: usize = writes.iter().filter(|w| w.screen == 1).count();
    assert!(to_first <= 101, "{to_first} writes");
    // The second screen starts at its extreme and is skipped every tick.
    assert_eq!(to_second, 0);
}

#[test]
fn interpolation_is_computed_from_default() {
    // Half-way through a dim run a screen sits at half its default, whatever
    // brightness it started from.
    let placements: Vec<MonitorPlacement> = Vec::new();
    let mut screens = vec![screen(1, 100, 9, None)];
    let timing = FadeTiming::new(1000, 10);
    let g = Geometry::new(0, 0, 1, 1);
    let writes = fade_tick(&mut screens, &placements, true, &Some(g), 500, &timing);
    assert_eq!(screens[0].current_brightness, 50);
    assert_eq!(writes.len(), 1);
    assert_eq!(writes[0], BrightnessWrite { screen: 0, value: 50 });
}

#[test]
fn overshooting_final_tick_is_clamped() {
    // A final tick past the duration still lands exactly on the target.
    let placements: Vec<MonitorPlacement> = Vec::new();
    let mut screens = vec![screen(1, 100, 40, None), screen(2, 60, 20, None)];
    let timing = FadeTiming::new(1000, 10);
    let g = Geometry::new(0, 0, 1, 1);
    fade_tick(&mut screens, &placements, false, &None, 1497, &timing);
    assert_eq!(screens[0].current_brightness, 100);
    assert_eq!(screens[1].current_brightness, 60);
    fade_tick(&mut screens, &placements, true, &Some(g), 2001, &timing);
    assert_eq!(screens[0].current_brightness, 0);
    assert_eq!(screens[1].current_brightness, 0);
}

#[test]
fn screens_at_extremes_are_not_written() {
    let placements: Vec<MonitorPlacement> = Vec::new();
    let mut screens = vec![screen(1, 100, 0, None), screen(2, 60, 60, None)];
    let timing = FadeTiming::new(1000, 10);
    let g = Geometry::new(0, 0, 1, 1);
    // Dimming: the first screen is already at 0.
    let writes = fade_tick(&mut screens, &placements, true, &Some(g), 0, &timing);
    assert!(writes.iter().all(|w| w.screen != 0));
    // Restoring: the second screen is already at its default.
    let mut screens = vec![screen(1, 100, 0, None), screen(2, 60, 60, None)];
    let writes = fade_tick(&mut screens, &placements, false, &None, 0, &timing);
    assert!(writes.iter().all(|w| w.screen != 1));
}
