use controlay::config::{BTN_A, BTN_B, BTN_BACK, BTN_DPAD_DOWN, BTN_DPAD_LEFT, BTN_DPAD_RIGHT, BTN_DPAD_UP, BTN_GUIDE, BTN_START, BTN_X, BTN_Y};
use controlay::protocol::{
    classify_slot_packet, dpad_for, ds4_flags, get_empty_ds4_report, get_empty_x360_report,
    parse_ds4_state, parse_x360_state, read_i16_le, read_u16_le, scale_axis, Ds4Dpad, SlotPacket,
    DS4_CIRCLE, DS4_CROSS, DS4_OPTIONS, DS4_SHARE, DS4_SPECIAL_PS, DS4_SQUARE, DS4_TRIANGLE,
    PKT_BATTERY, PKT_STATE,
};
use controlay::events::AppInfo;

fn payload(buttons: u16, lt: u8, rt: u8, axes: [i16; 4]) -> Vec<u8> {
    let mut v = buttons.to_le_bytes().to_vec();
    v.push(lt);
    v.push(rt);
    for a in axes {
        v.extend_from_slice(&a.to_le_bytes());
    }
    v
}

#[test]
fn little_endian_reads_match_std() {
    let data = [0x34, 0x12, 0xff, 0xff, 0x00, 0x80, 0xff, 0x7f];
    assert_eq!(read_u16_le(&data, 0), 0x1234);
    assert_eq!(read_i16_le(&data, 2), -1);
    assert_eq!(read_i16_le(&data, 4), i16::MIN);
    assert_eq!(read_i16_le(&data, 6), i16::MAX);
    for v in [-32768i16, -300, -1, 0, 1, 255, 256, 32767] {
        let b = v.to_le_bytes();
        assert_eq!(read_i16_le(&b, 0), v);
    }
}

#[test]
fn scale_axis_exact_values() {
    assert_eq!(scale_axis(0, false), 128);
    assert_eq!(scale_axis(0, true), 127);
    assert_eq!(scale_axis(i16::MIN, false), 0);
    assert_eq!(scale_axis(i16::MAX, false), 255);
    assert_eq!(scale_axis(i16::MAX, true), 0);
    assert_eq!(scale_axis(-256, false), 127);
    for v in (i16::MIN..=i16::MAX).step_by(97) {
        let expected = ((v as i32 + 32768) >> 8) as u8;
        assert_eq!(scale_axis(v, false), expected);
        assert_eq!(scale_axis(v, true), !expected);
    }
}

#[test]
fn x360_report_copies_buttons_and_triggers() {
    let data = payload(BTN_A | BTN_DPAD_UP, 10, 200, [100, -100, 32767, -32768]);
    let r = parse_x360_state(&data, &|v: i16| v);
    assert_eq!(r.buttons, BTN_A | BTN_DPAD_UP);
    assert_eq!(r.left_trigger, 10);
    assert_eq!(r.right_trigger, 200);
    assert_eq!((r.thumb_lx, r.thumb_ly, r.thumb_rx, r.thumb_ry), (100, -100, 32767, -32768));
}

#[test]
fn x360_report_applies_deadzone_to_every_axis() {
    let data = payload(0, 0, 0, [1000, 2000, 3000, 4000]);
    let r = parse_x360_state(&data, &|v: i16| if v < 2500 { 0 } else { v / 2 });
    assert_eq!((r.thumb_lx, r.thumb_ly, r.thumb_rx, r.thumb_ry), (0, 0, 1500, 2000));
}

#[test]
fn ds4_report_maps_buttons() {
    let data = payload(BTN_A | BTN_B | BTN_X | BTN_Y | BTN_START | BTN_BACK | BTN_GUIDE, 5, 6, [0; 4]);
    let r = parse_ds4_state(&data, &|v: i16| v);
    assert_eq!(
        r.buttons,
        DS4_CROSS | DS4_CIRCLE | DS4_SQUARE | DS4_TRIANGLE | DS4_OPTIONS | DS4_SHARE
    );
    assert_eq!(r.special, DS4_SPECIAL_PS);
    assert_eq!(r.dpad, Ds4Dpad::Neutral);
    assert_eq!((r.trigger_left, r.trigger_right), (5, 6));
    assert_eq!((r.thumb_lx, r.thumb_ly, r.thumb_rx, r.thumb_ry), (128, 127, 128, 127));
}

#[test]
fn ds4_report_scales_and_inverts_sticks() {
    let data = payload(0, 0, 0, [32767, 32767, -32768, -32768]);
    let r = parse_ds4_state(&data, &|v: i16| v);
    assert_eq!((r.thumb_lx, r.thumb_ly, r.thumb_rx, r.thumb_ry), (255, 0, 0, 255));
    assert_eq!(r.special, 0);
}

#[test]
fn ds4_flags_leave_dpad_and_trigger_bits_clear() {
    assert_eq!(ds4_flags(0xffff) & 0x0c0f, 0);
    assert_eq!(ds4_flags(0), 0);
    assert_eq!(ds4_flags(BTN_DPAD_UP | BTN_GUIDE), 0);
}

#[test]
fn dpad_directions() {
    assert_eq!(dpad_for(0), Ds4Dpad::Neutral);
    assert_eq!(dpad_for(BTN_DPAD_UP), Ds4Dpad::North);
    assert_eq!(dpad_for(BTN_DPAD_UP | BTN_DPAD_RIGHT), Ds4Dpad::NorthEast);
    assert_eq!(dpad_for(BTN_DPAD_UP | BTN_DPAD_LEFT), Ds4Dpad::NorthWest);
    assert_eq!(dpad_for(BTN_DPAD_DOWN), Ds4Dpad::South);
    assert_eq!(dpad_for(BTN_DPAD_DOWN | BTN_DPAD_RIGHT), Ds4Dpad::SouthEast);
    assert_eq!(dpad_for(BTN_DPAD_DOWN | BTN_DPAD_LEFT), Ds4Dpad::SouthWest);
    assert_eq!(dpad_for(BTN_DPAD_RIGHT), Ds4Dpad::East);
    assert_eq!(dpad_for(BTN_DPAD_LEFT), Ds4Dpad::West);
    // Up wins over down; left and right cancel.
    assert_eq!(dpad_for(BTN_DPAD_UP | BTN_DPAD_DOWN), Ds4Dpad::North);
    assert_eq!(dpad_for(BTN_DPAD_LEFT | BTN_DPAD_RIGHT), Ds4Dpad::Neutral);
    assert_eq!(dpad_for(BTN_DPAD_UP | BTN_DPAD_LEFT | BTN_DPAD_RIGHT), Ds4Dpad::Neutral);
}

#[test]
fn empty_reports() {
    let x = get_empty_x360_report();
    assert_eq!((x.buttons, x.left_trigger, x.thumb_lx, x.thumb_ry), (0, 0, 0, 0));
    let d = get_empty_ds4_report();
    assert_eq!((d.thumb_lx, d.thumb_ly, d.thumb_rx, d.thumb_ry), (128, 128, 128, 128));
    assert_eq!(d.dpad, Ds4Dpad::Neutral);
    assert_eq!((d.buttons, d.special, d.trigger_left, d.trigger_right), (0, 0, 0, 0));
}

#[test]
fn slot_packets_are_classified_by_type_and_length() {
    let mut buf = [0u8; 64];
    buf[0] = PKT_STATE;
    assert_eq!(classify_slot_packet(&buf, 14), SlotPacket::State);
    assert_eq!(classify_slot_packet(&buf, 12), SlotPacket::State);
    assert_eq!(classify_slot_packet(&buf, 11), SlotPacket::Ignored);
    buf[0] = PKT_BATTERY;
    buf[2] = 42;
    buf[3] = 0xff;
    assert_eq!(
        classify_slot_packet(&buf, 4),
        SlotPacket::Battery(AppInfo { controller_battery: 42, phone_battery: -1 })
    );
    assert_eq!(classify_slot_packet(&buf, 3), SlotPacket::Ignored);
    buf[0] = 9;
    assert_eq!(classify_slot_packet(&buf, 64), SlotPacket::Ignored);
}
