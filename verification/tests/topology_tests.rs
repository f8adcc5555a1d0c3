//! The topology matcher: placements and identity correlation.

use screen_dimmer::geometry::Geometry;
use screen_dimmer::identity::IdentityRecord;
use screen_dimmer::registry::Screen;
use screen_dimmer::topology::{is_screen_fullscreen, match_placements, MonitorPlacement};

fn record(tag: u8) -> IdentityRecord {
    IdentityRecord {
        vendor0: b'A',
        vendor1: b'B',
        vendor2: b'C',
        product: tag as u16,
        serial: tag as u32,
        week: 1,
        year: 20,
    }
}

fn screen(tag: u8, default: u16, current: u16) -> Screen {
    Screen {
        device: tag as usize,
        identity: record(tag),
        name: vec![tag],
        default_brightness: default,
        current_brightness: current,
        placement: None,
    }
}

/// A 128-byte identity block the parser accepts, with the given vendor
/// letters and product number and no product name.
fn edid_block(vendor: [u8; 3], product: u16, serial: u32) -> Vec<u8> {
    let mut b = vec![0u8; 128];
    b[0..8].copy_from_slice(&[0x00, 0xFF, 0xFF, 0xFF, 0xFF, 0xFF, 0xFF, 0x00]);
    let v: u16 = (((vendor[0] - 0x40) as u16) << 10)
        | (((vendor[1] - 0x40) as u16) << 5)
        | ((vendor[2] - 0x40) as u16);
    b[8] = (v >> 8) as u8;
    b[9] = v as u8;
    b[10] = product as u8;
    b[11] = (product >> 8) as u8;
    b[12..16].copy_from_slice(&serial.to_le_bytes());
    b[16] = 7;
    b[17] = 30;
    b[18] = 1;
    b[19] = 3;
    b
}

#[test]
fn placement_from_raw_outputs() {
    let extent = Geometry::new(0, 0, 1920, 1080);
    let raw = vec![
        edid_block([b'X', b'Y', b'Z'], 77, 4242),
        vec![0u8; 128], // rejected: no header tag
        vec![1u8; 32],  // rejected: short read
    ];
    let p = MonitorPlacement::from_raw_outputs(extent, &raw);
    assert_eq!(p.extent, extent);
    assert_eq!(p.outputs.len(), 1);
    assert_eq!(p.outputs[0].product, 77);
    assert_eq!(p.outputs[0].serial, 4242);
    assert_eq!(p.outputs[0].vendor0, b'X');
    assert_eq!(p.outputs[0].week, 7);
    assert_eq!(p.outputs[0].year, 30);
}

#[test]
fn screens_get_first_matching_placement() {
    let mut screens = vec![screen(1, 100, 50), screen(2, 60, 30), screen(3, 80, 10)];
    let placements = vec![
        MonitorPlacement { extent: Geometry::new(0, 0, 1920, 1080), outputs: vec![record(2)] },
        MonitorPlacement {
            extent: Geometry::new(1920, 0, 1280, 1024),
            outputs: vec![record(1), record(2)],
        },
    ];
    match_placements(&mut screens, &placements);
    assert_eq!(screens[0].placement, Some(1));
    assert_eq!(screens[1].placement, Some(0)); // the first match wins
    assert_eq!(screens[2].placement, None); // unmatched screens stay unmatched
    // matching touches nothing else
    assert_eq!(screens[0].current_brightness, 50);
    assert_eq!(screens[0].default_brightness, 100);
    assert_eq!(screens[0].name, vec![1]);
}

#[test]
fn placement_identity_membership() {
    let p = MonitorPlacement {
        extent: Geometry::new(0, 0, 800, 600),
        outputs: vec![record(4), record(5)],
    };
    assert!(p.has_identity(&record(5)));
    assert!(!p.has_identity(&record(6)));
    assert!(p.matches_window_geometry(&Geometry::new(0, 0, 800, 600)));
    assert!(!p.matches_window_geometry(&Geometry::new(0, 0, 800, 601)));
}

#[test]
fn fullscreen_needs_both_sides() {
    let g = Geometry::new(0, 0, 640, 480);
    let p = MonitorPlacement { extent: g, outputs: Vec::new() };
    assert!(is_screen_fullscreen(Some(&g), Some(&p)));
    assert!(!is_screen_fullscreen(None, Some(&p)));
    assert!(!is_screen_fullscreen(Some(&g), None));
    assert!(!is_screen_fullscreen(Some(&Geometry::new(1, 0, 640, 480)), Some(&p)));
}
