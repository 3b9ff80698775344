use esparrier::hid_report_writer::{report_write_deadline_ms, HidReport};
use esparrier::synergy_hid::{
    modifier_mask_to_synergy, synergy_mouse_button, synergy_to_hid, KeyCode, ReportType,
    SynergyHid,
};

const HID_KEY_A: u8 = 0x04;
const HID_KEY_B: u8 = 0x05;

#[test]
fn test_key() {
    let mut hid = SynergyHid::new(false);
    assert_eq!(
        hid.key_down(0x0000, 0x0000, 0x0000),
        (
            ReportType::Keyboard,
            HidReport::Keyboard([1, 0, 0, 0, 0, 0, 0, 0, 0])
        )
    );
    assert_eq!(
        hid.key_down('A' as u16, 0x0000, 0x0000),
        (
            ReportType::Keyboard,
            HidReport::Keyboard([1, 0, 0, HID_KEY_A, 0, 0, 0, 0, 0])
        )
    );
    assert_eq!(
        hid.key_down('B' as u16, 0x0000, 0x0000),
        (
            ReportType::Keyboard,
            HidReport::Keyboard([1, 0, 0, HID_KEY_A, HID_KEY_B, 0, 0, 0, 0])
        )
    );
    assert_eq!(
        hid.key_up('B' as u16, 0x0000, 0x0000),
        (
            ReportType::Keyboard,
            HidReport::Keyboard([1, 0, 0, HID_KEY_A, 0, 0, 0, 0, 0])
        )
    );
    // Wrong key up, report is cleared
    assert_eq!(
        hid.key_up('C' as u16, 0x0000, 0x0000),
        (
            ReportType::Keyboard,
            HidReport::Keyboard([1, 0, 0, 0, 0, 0, 0, 0, 0])
        )
    );
    // kKeyAudioMute(0xE0AD) -> HID_USAGE_CONSUMER_MUTE(0x00E2)
    assert_eq!(
        hid.key_down(0xE0AD, 0x0000, 1),
        (ReportType::Consumer, HidReport::Consumer([3, 0x00, 0xE2]))
    );
}

#[test]
fn key_a_down_up_reports() {
    // DKDN key=0x61 emits usage 0x04 in the first slot; DKUP clears it.
    let mut hid = SynergyHid::new(false);
    let (_, down) = hid.key_down(0x61, 0, 30);
    assert_eq!(down, HidReport::Keyboard([1, 0, 0, 0x04, 0, 0, 0, 0, 0]));
    let (_, up) = hid.key_up(0x61, 0, 30);
    assert_eq!(up, HidReport::Keyboard([1, 0, 0, 0, 0, 0, 0, 0, 0]));
}

#[test]
fn key_up_releases_the_recorded_key() {
    // The release names another key code, but the slot that button 30
    // allocated for 0x61 is the one released.
    let mut hid = SynergyHid::new(false);
    hid.key_down(0x61, 0, 30);
    let (_, up) = hid.key_up(0x7a, 0, 30);
    assert_eq!(up, HidReport::Keyboard([1, 0, 0, 0, 0, 0, 0, 0, 0]));
    // A fresh release on the same (now empty) button clears everything.
    hid.key_down(0x62, 0, 31);
    let (_, up2) = hid.key_up(0, 0, 30);
    assert_eq!(up2, HidReport::Keyboard([1, 0, 0, 0, 0, 0, 0, 0, 0]));
}

#[test]
fn modifier_keys_set_bits() {
    let mut hid = SynergyHid::new(false);
    let (_, r) = hid.key_down(0xefe1, 0, 40); // left shift -> usage 0xE1 -> bit 1
    assert_eq!(r, HidReport::Keyboard([1, 0x02, 0, 0, 0, 0, 0, 0, 0]));
    let (_, r2) = hid.key_down(0xefe3, 0, 41); // left control -> bit 0
    assert_eq!(r2, HidReport::Keyboard([1, 0x03, 0, 0, 0, 0, 0, 0, 0]));
    let (_, r3) = hid.key_up(0, 0, 40);
    assert_eq!(r3, HidReport::Keyboard([1, 0x01, 0, 0, 0, 0, 0, 0, 0]));
}

#[test]
fn rollover_overflow_discards_newest() {
    let mut hid = SynergyHid::new(false);
    for (i, key) in [0x61u16, 0x62, 0x63, 0x64, 0x65, 0x66].iter().enumerate() {
        hid.key_down(*key, 0, 10 + i as u16);
    }
    let (_, full) = hid.key_down(0x67, 0, 16);
    // The seventh press found no free slot and was discarded.
    assert_eq!(
        full,
        HidReport::Keyboard([1, 0, 0, 0x04, 0x05, 0x06, 0x07, 0x08, 0x09])
    );
}

#[test]
fn key_table_maps_the_pinned_codes() {
    assert_eq!(synergy_to_hid(0x61), KeyCode::Key(0x04));
    assert_eq!(synergy_to_hid(0x41), KeyCode::Key(0x04));
    assert_eq!(synergy_to_hid(0x7a), KeyCode::Key(0x1d));
    assert_eq!(synergy_to_hid(0x31), KeyCode::Key(0x1e));
    assert_eq!(synergy_to_hid(0x30), KeyCode::Key(0x27));
    assert_eq!(synergy_to_hid(0xef0d), KeyCode::Key(0x28));
    assert_eq!(synergy_to_hid(0xefbe), KeyCode::Key(0x3a));
    assert_eq!(synergy_to_hid(0xe0ad), KeyCode::Consumer(0x00e2));
    assert_eq!(synergy_to_hid(0x0000), KeyCode::Unmapped);
    assert_eq!(synergy_to_hid(0xabcd), KeyCode::Unmapped);
}

#[test]
fn modifier_mask_decomposes_exactly() {
    assert_eq!(modifier_mask_to_synergy(0x0000), Vec::<u16>::new());
    assert_eq!(modifier_mask_to_synergy(0x0002), vec![0xefe1]);
    assert_eq!(modifier_mask_to_synergy(0x0004), vec![0xefe3]);
    assert_eq!(modifier_mask_to_synergy(0x0008), vec![0xefe9]);
    assert_eq!(modifier_mask_to_synergy(0x0010), vec![0xefe7]);
    assert_eq!(modifier_mask_to_synergy(0x0020), vec![0xefeb]);
    // A combination comes out in ascending bit order.
    assert_eq!(
        modifier_mask_to_synergy(0x0036),
        vec![0xefe1, 0xefe3, 0xefe7, 0xefeb]
    );
    // Unassigned bits synthesise nothing.
    assert_eq!(modifier_mask_to_synergy(0xffc1), vec![]);
}

#[test]
fn mouse_buttons_map_and_latch() {
    assert_eq!(synergy_mouse_button(1), 1);
    assert_eq!(synergy_mouse_button(2), 2);
    assert_eq!(synergy_mouse_button(3), 4);
    assert_eq!(synergy_mouse_button(4), 0);
    assert_eq!(synergy_mouse_button(-1), 0);
    let mut hid = SynergyHid::new(false);
    let (_, down) = hid.mouse_down(1);
    assert_eq!(down, HidReport::Mouse([2, 1, 0, 0, 0, 0, 0, 0]));
    let (_, down3) = hid.mouse_down(3);
    assert_eq!(down3, HidReport::Mouse([2, 5, 0, 0, 0, 0, 0, 0]));
    let (_, up) = hid.mouse_up(1);
    assert_eq!(up, HidReport::Mouse([2, 4, 0, 0, 0, 0, 0, 0]));
}

#[test]
fn cursor_position_is_little_endian_and_clamped() {
    let mut hid = SynergyHid::new(false);
    let (_, r) = hid.set_cursor_position(0x4000, 0x4000);
    assert_eq!(r, HidReport::Mouse([2, 0, 0x00, 0x40, 0x00, 0x40, 0, 0]));
    let (_, c) = hid.set_cursor_position(0xffff, 0x8000);
    assert_eq!(c, HidReport::Mouse([2, 0, 0xff, 0x7f, 0xff, 0x7f, 0, 0]));
}

#[test]
fn wheel_divides_clamps_and_flips() {
    let mut hid = SynergyHid::new(false);
    // y is vertical: it lands in the wheel byte; x lands in the pan byte.
    let (_, r) = hid.mouse_scroll(0, 120);
    assert_eq!(r, HidReport::Mouse([2, 0, 0, 0, 0, 0, 1, 0]));
    let (_, r2) = hid.mouse_scroll(-240, 360);
    assert_eq!(r2, HidReport::Mouse([2, 0, 0, 0, 0, 0, 3, 0xfe]));
    // Saturation at the byte range.
    let (_, r3) = hid.mouse_scroll(0, 32767);
    assert_eq!(r3, HidReport::Mouse([2, 0, 0, 0, 0, 0, 127, 0]));
    let (_, r4) = hid.mouse_scroll(0, -32768);
    assert_eq!(r4, HidReport::Mouse([2, 0, 0, 0, 0, 0, 0x80, 0]));
    // A flipped wheel negates both axes.
    let mut flipped = SynergyHid::new(true);
    let (_, f) = flipped.mouse_scroll(120, 240);
    assert_eq!(f, HidReport::Mouse([2, 0, 0, 0, 0, 0, 0xfe, 0xff]));
}

#[test]
fn clear_and_is_empty() {
    let mut hid = SynergyHid::new(false);
    assert!(hid.is_empty());
    hid.key_down(0x61, 0, 30);
    hid.mouse_down(1);
    hid.key_down(0xe0ad, 0, 31);
    assert!(!hid.is_empty());
    assert_eq!(
        hid.clear(ReportType::Keyboard),
        (
            ReportType::Keyboard,
            HidReport::Keyboard([1, 0, 0, 0, 0, 0, 0, 0, 0])
        )
    );
    assert_eq!(
        hid.clear(ReportType::Mouse),
        (ReportType::Mouse, HidReport::Mouse([2, 0, 0, 0, 0, 0, 0, 0]))
    );
    assert_eq!(
        hid.clear(ReportType::Consumer),
        (ReportType::Consumer, HidReport::Consumer([3, 0, 0]))
    );
    assert!(hid.is_empty());
}

#[test]
fn report_sizes_and_descriptor() {
    assert_eq!(ReportType::Keyboard.get_report_size(), 9);
    assert_eq!(ReportType::Mouse.get_report_size(), 8);
    assert_eq!(ReportType::Consumer.get_report_size(), 3);
    assert_eq!(ReportType::get_max_report_size(), 9);
    let (max, descriptor) = SynergyHid::get_report_descriptor();
    assert_eq!(max, 9);
    // The three collections carry report IDs 1, 2 and 3.
    assert!(descriptor.windows(2).any(|w| w == [0x85, 1]));
    assert!(descriptor.windows(2).any(|w| w == [0x85, 2]));
    assert!(descriptor.windows(2).any(|w| w == [0x85, 3]));
}

#[test]
fn report_constructors_prefix_ids() {
    assert_eq!(
        HidReport::keyboard([9, 8, 7, 6, 5, 4, 3, 2]),
        HidReport::Keyboard([1, 9, 8, 7, 6, 5, 4, 3, 2])
    );
    assert_eq!(
        HidReport::mouse([9, 8, 7, 6, 5, 4, 3]),
        HidReport::Mouse([2, 9, 8, 7, 6, 5, 4, 3])
    );
    assert_eq!(HidReport::consumer([0, 0xe2]), HidReport::Consumer([3, 0, 0xe2]));
}

#[test]
fn write_deadline_is_clamped() {
    assert_eq!(report_write_deadline_ms(1), 10);
    assert_eq!(report_write_deadline_ms(5), 15);
    assert_eq!(report_write_deadline_ms(40), 100);
    assert_eq!(report_write_deadline_ms(255), 100);
}
