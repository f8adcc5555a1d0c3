//! The screen registry against real identity blocks.

use screen_dimmer::registry::{build_screens, bus_name_ignored, BrightnessOverride, DeviceProbe};

/// A 128-byte identity block in the layout the parser expects: the fixed
/// 8-byte header tag, vendor letters packed 5 bits each, little-endian
/// product and serial, and four 18-byte descriptors.  When a product name is
/// given it fills the third descriptor (tag 0xFC), padded with a newline and
/// spaces as real devices pad it.
fn edid_block(
    vendor: [u8; 3],
    product: u16,
    serial: u32,
    week: u8,
    year: u8,
    product_name: Option<&str>,
) -> Vec<u8> {
    let mut b = vec![0u8; 128];
    b[0..8].copy_from_slice(&[0x00, 0xFF, 0xFF, 0xFF, 0xFF, 0xFF, 0xFF, 0x00]);
    let v: u16 = (((vendor[0] - 0x40) as u16) << 10)
        | (((vendor[1] - 0x40) as u16) << 5)
        | ((vendor[2] - 0x40) as u16);
    b[8] = (v >> 8) as u8;
    b[9] = v as u8;
    b[10] = product as u8;
    b[11] = (product >> 8) as u8;
    b[12..16].copy_from_slice(&serial.to_le_bytes());
    b[16] = week;
    b[17] = year;
    b[18] = 1;
    b[19] = 3;
    if let Some(name) = product_name {
        let d: usize = 54 + 2 * 18; // third descriptor
        b[d + 3] = 0xFC;
        let text = name.as_bytes();
        assert!(text.len() <= 13);
        b[d + 5..d + 5 + text.len()].copy_from_slice(text);
        for i in text.len()..13 {
            b[d + 5 + i] = if i == text.len() { 0x0A } else { 0x20 };
        }
    }
    b
}

fn probe(bus: &str, identity: Option<Vec<u8>>, brightness: Option<(u16, u16)>) -> DeviceProbe {
    DeviceProbe {
        bus_name: Some(bus.as_bytes().to_vec()),
        identity_bytes: identity,
        brightness,
    }
}

#[test]
fn bus_prefixes_recognised() {
    assert!(bus_name_ignored(&b"SMBus I801 adapter".to_vec()));
    assert!(bus_name_ignored(&b"soc:i2cdsi".to_vec()));
    assert!(bus_name_ignored(&b"smu".to_vec()));
    assert!(bus_name_ignored(&b"mac-io something".to_vec()));
    assert!(bus_name_ignored(&b"u4".to_vec()));
    assert!(!bus_name_ignored(&b"i915 gmbus dpb".to_vec()));
    assert!(!bus_name_ignored(&b"AUX A/DDI A/PHY A".to_vec()));
}

#[test]
fn smbus_device_never_registered() {
    // Its identity read would succeed; the bus prefix alone keeps it out.
    let block = edid_block([b'S', b'A', b'M'], 596, 1, 27, 17, Some("SyncMaster"));
    let probes = vec![probe("SMBus I801 adapter", Some(block), Some((70, 100)))];
    let screens = build_screens(&probes, &Vec::new(), &Vec::new());
    assert_eq!(screens.len(), 0);
}

#[test]
fn registry_accepts_a_display() {
    let block = edid_block([b'S', b'A', b'M'], 596, 12345, 27, 17, Some("SyncMaster"));
    let probes = vec![probe("i915 gmbus dpb", Some(block), Some((70, 100)))];
    let screens = build_screens(&probes, &Vec::new(), &Vec::new());
    assert_eq!(screens.len(), 1);
    assert_eq!(screens[0].name, b"SyncMaster".to_vec());
    assert_eq!(screens[0].device, 0);
    assert_eq!(screens[0].current_brightness, 70);
    assert_eq!(screens[0].default_brightness, 100);
    assert_eq!(screens[0].placement, None);
    assert_eq!(screens[0].identity.product, 596);
    assert_eq!(screens[0].identity.serial, 12345);
    assert_eq!(screens[0].identity.vendor0, b'S');
    assert_eq!(screens[0].identity.vendor1, b'A');
    assert_eq!(screens[0].identity.vendor2, b'M');
}

#[test]
fn failed_brightness_query_degrades() {
    let block = edid_block([b'A', b'B', b'C'], 1, 2, 3, 4, Some("PANEL"));
    let probes = vec![probe("i915 gmbus dpb", Some(block), None)];
    let screens = build_screens(&probes, &Vec::new(), &Vec::new());
    assert_eq!(screens.len(), 1);
    assert_eq!(screens[0].current_brightness, 0);
    assert_eq!(screens[0].default_brightness, 100);
}

#[test]
fn override_caps_default() {
    let block = edid_block([b'D', b'M', b'A'], 9, 9, 9, 9, Some("DM-163BD-MPGR"));
    let probes = vec![probe("i915 gmbus dpb", Some(block), Some((80, 100)))];
    let overrides = vec![BrightnessOverride {
        product_name: b"DM-163BD-MPGR".to_vec(),
        default_brightness: 50,
    }];
    let screens = build_screens(&probes, &Vec::new(), &overrides);
    assert_eq!(screens.len(), 1);
    assert_eq!(screens[0].name, b"DM-163BD-MPGR".to_vec());
    assert_eq!(screens[0].default_brightness, 50);
    assert_eq!(screens[0].current_brightness, 80);
}

#[test]
fn ignore_list_removes_named_screen() {
    let block_a = edid_block([b'A', b'A', b'A'], 1, 1, 1, 1, Some("KEEP ME"));
    let block_b = edid_block([b'B', b'B', b'B'], 2, 2, 2, 2, Some("DROP ME"));
    let probes = vec![
        probe("i915 gmbus dpb", Some(block_a), Some((10, 100))),
        probe("i915 gmbus dpc", Some(block_b), Some((20, 100))),
    ];
    let ignore = vec![b"DROP ME".to_vec()];
    let screens = build_screens(&probes, &ignore, &Vec::new());
    assert_eq!(screens.len(), 1);
    assert_eq!(screens[0].name, b"KEEP ME".to_vec());
    assert_eq!(screens[0].device, 0);
}

#[test]
fn missing_product_name_skipped() {
    let block = edid_block([b'N', b'O', b'P'], 5, 5, 5, 5, None);
    let probes = vec![probe("i915 gmbus dpb", Some(block), Some((50, 100)))];
    let screens = build_screens(&probes, &Vec::new(), &Vec::new());
    assert_eq!(screens.len(), 0);
}

#[test]
fn unparsable_identity_skipped() {
    // A zero-filled block misses the header tag; a short read misses bytes.
    let probes = vec![
        probe("i915 gmbus dpb", Some(vec![0u8; 128]), Some((50, 100))),
        probe("i915 gmbus dpc", Some(vec![0u8; 64]), Some((50, 100))),
        probe("i915 gmbus dpd", None, Some((50, 100))),
        DeviceProbe { bus_name: None, identity_bytes: None, brightness: None },
    ];
    let screens = build_screens(&probes, &Vec::new(), &Vec::new());
    assert_eq!(screens.len(), 0);
}

#[test]
fn device_indices_follow_probe_order() {
    let block_a = edid_block([b'A', b'A', b'A'], 1, 1, 1, 1, Some("FIRST"));
    let block_b = edid_block([b'B', b'B', b'B'], 2, 2, 2, 2, Some("SECOND"));
    let probes = vec![
        probe("SMBus I801 adapter", None, None),
        probe("i915 gmbus dpb", Some(block_a), Some((10, 100))),
        probe("i915 gmbus dpc", Some(block_b), Some((20, 90))),
    ];
    let screens = build_screens(&probes, &Vec::new(), &Vec::new());
    assert_eq!(screens.len(), 2);
    assert_eq!(screens[0].name, b"FIRST".to_vec());
    assert_eq!(screens[0].device, 1);
    assert_eq!(screens[1].name, b"SECOND".to_vec());
    assert_eq!(screens[1].device, 2);
}
