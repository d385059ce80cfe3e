//! The wire protocol spoken by the phone, and the controller reports built
//! from it.
//!
//! A state payload is 12 bytes: the Xbox 360 button word (little endian), the
//! left and right triggers, then the four stick axes as little-endian signed
//! 16-bit values (left X, left Y, right X, right Y).

use vstd::prelude::*;

use crate::config::{
    BTN_A, BTN_B, BTN_BACK, BTN_DPAD_DOWN, BTN_DPAD_LEFT, BTN_DPAD_RIGHT, BTN_DPAD_UP, BTN_GUIDE,
    BTN_DPAD_ALL, BTN_LEFT_SHOULDER, BTN_LEFT_THUMB, BTN_RIGHT_SHOULDER, BTN_RIGHT_THUMB, BTN_START,
    BTN_X, BTN_Y,
};
use crate::events::AppInfo;

verus! {

/// First byte of a datagram that carries controller state.
pub const PKT_STATE: u8 = 0x01;
/// First byte of a datagram that carries battery levels.
pub const PKT_BATTERY: u8 = 0x02;

// DualShock 4 face and shoulder buttons, as bits of the report's button word.
// The low four bits of that word hold the d-pad and are never used as flags.
pub const DS4_SQUARE: u16 = 0x0010;
pub const DS4_CROSS: u16 = 0x0020;
pub const DS4_CIRCLE: u16 = 0x0040;
pub const DS4_TRIANGLE: u16 = 0x0080;
pub const DS4_SHOULDER_LEFT: u16 = 0x0100;
pub const DS4_SHOULDER_RIGHT: u16 = 0x0200;
pub const DS4_TRIGGER_LEFT: u16 = 0x0400;
pub const DS4_TRIGGER_RIGHT: u16 = 0x0800;
pub const DS4_SHARE: u16 = 0x1000;
pub const DS4_OPTIONS: u16 = 0x2000;
pub const DS4_THUMB_LEFT: u16 = 0x4000;
pub const DS4_THUMB_RIGHT: u16 = 0x8000;

/// The PS button in the DualShock 4 special-button byte.
pub const DS4_SPECIAL_PS: u8 = 0x01;

/// Direction of the DualShock 4 d-pad.
#[derive(Debug, PartialEq, Eq, Structural, Clone, Copy)]
pub enum Ds4Dpad {
    North,
    NorthEast,
    East,
    SouthEast,
    South,
    SouthWest,
    West,
    NorthWest,
    Neutral,
}

/// One frame of Xbox 360 input.
#[derive(Debug, PartialEq, Eq, Structural, Clone, Copy)]
pub struct X360State {
    pub buttons: u16,
    pub left_trigger: u8,
    pub right_trigger: u8,
    pub thumb_lx: i16,
    pub thumb_ly: i16,
    pub thumb_rx: i16,
    pub thumb_ry: i16,
}

/// One frame of DualShock 4 input. Sticks are `0..=255` with 128 at the
/// centre; `buttons` holds the face and shoulder flags, `dpad` the d-pad.
#[derive(Debug, PartialEq, Eq, Structural, Clone, Copy)]
pub struct Ds4State {
    pub thumb_lx: u8,
    pub thumb_ly: u8,
    pub thumb_rx: u8,
    pub thumb_ry: u8,
    pub buttons: u16,
    pub dpad: Ds4Dpad,
    pub special: u8,
    pub trigger_left: u8,
    pub trigger_right: u8,
}

/// The unsigned little-endian 16-bit value at `off`.
pub open spec fn le_u16(data: Seq<u8>, off: int) -> int {
    data[off] + 256 * data[off + 1]
}

/// The signed (two's complement) little-endian 16-bit value at `off`.
pub open spec fn le_i16(data: Seq<u8>, off: int) -> int {
    if data[off + 1] < 128 {
        le_u16(data, off)
    } else {
        le_u16(data, off) - 65536
    }
}

/// Reads the unsigned little-endian 16-bit value at `off`.
pub fn read_u16_le(data: &[u8], off: usize) -> (v: u16)
    requires
        off + 1 < data@.len(),
    ensures
        v == le_u16(data@, off as int),
{
    let _ = data.len();
    data[off] as u16 + data[off + 1] as u16 * 256
}

/// Reads the signed little-endian 16-bit value at `off`.
pub fn read_i16_le(data: &[u8], off: usize) -> (v: i16)
    requires
        off + 1 < data@.len(),
    ensures
        v == le_i16(data@, off as int),
{
    let _ = data.len();
    let u = read_u16_le(data, off) as i32;
    if data[off + 1] < 128 {
        u as i16
    } else {
        (u - 65536) as i16
    }
}

/// Maps a signed stick value onto `0..=255`, 128 at the centre; `invert`
/// mirrors the result.
pub open spec fn spec_scale_axis(val: i16, invert: bool) -> int {
    let scaled = (val + 32768) / 256;
    if invert {
        255 - scaled
    } else {
        scaled
    }
}

/// Maps a signed stick value onto a DualShock 4 axis byte.
pub fn scale_axis(val: i16, invert: bool) -> (r: u8)
    ensures
        r == spec_scale_axis(val, invert),
{
    let scaled = ((val as i32 + 32768) / 256) as u8;
    if invert {
        255 - scaled
    } else {
        scaled
    }
}

/// The d-pad direction for the d-pad bits of an Xbox 360 button word. Up
/// wins over down; left and right together cancel.
pub open spec fn spec_dpad_for(buttons: u16) -> Ds4Dpad {
    let up = buttons & BTN_DPAD_UP != 0;
    let down = buttons & BTN_DPAD_DOWN != 0;
    let left = buttons & BTN_DPAD_LEFT != 0;
    let right = buttons & BTN_DPAD_RIGHT != 0;
    if up && !left && right {
        Ds4Dpad::NorthEast
    } else if up && left && !right {
        Ds4Dpad::NorthWest
    } else if up && !left && !right {
        Ds4Dpad::North
    } else if !up && down && !left && right {
        Ds4Dpad::SouthEast
    } else if !up && down && left && !right {
        Ds4Dpad::SouthWest
    } else if !up && down && !left && !right {
        Ds4Dpad::South
    } else if !up && !down && !left && right {
        Ds4Dpad::East
    } else if !up && !down && left && !right {
        Ds4Dpad::West
    } else {
        Ds4Dpad::Neutral
    }
}

/// Chooses the DualShock 4 d-pad direction for an Xbox 360 button word.
pub fn dpad_for(buttons: u16) -> (d: Ds4Dpad)
    ensures
        d == spec_dpad_for(buttons),
        d == spec_dpad_for(buttons & BTN_DPAD_ALL),
{
    proof {
        lemma_dpad_reads_only_dpad_bits(buttons, 0);
    }
    let up = buttons & BTN_DPAD_UP != 0;
    let down = buttons & BTN_DPAD_DOWN != 0;
    let left = buttons & BTN_DPAD_LEFT != 0;
    let right = buttons & BTN_DPAD_RIGHT != 0;
    match (up, down, left, right) {
        (true, _, false, true) => Ds4Dpad::NorthEast,
        (true, _, true, false) => Ds4Dpad::NorthWest,
        (true, _, false, false) => Ds4Dpad::North,
        (false, true, false, true) => Ds4Dpad::SouthEast,
        (false, true, true, false) => Ds4Dpad::SouthWest,
        (false, true, false, false) => Ds4Dpad::South,
        (false, false, false, true) => Ds4Dpad::East,
        (false, false, true, false) => Ds4Dpad::West,
        _ => Ds4Dpad::Neutral,
    }
}

/// The d-pad direction depends on the four d-pad bits of the button word and
/// on nothing else: masking the word down to those bits, or pressing any other
/// buttons besides, leaves the direction as it was.
pub proof fn lemma_dpad_reads_only_dpad_bits(buttons: u16, others: u16)
    ensures
        spec_dpad_for(buttons) == spec_dpad_for(buttons & BTN_DPAD_ALL),
        others & BTN_DPAD_ALL == 0 ==> spec_dpad_for(buttons | others) == spec_dpad_for(buttons),
{
    assert(BTN_DPAD_ALL == 0x000fu16) by (bit_vector);
    let m = buttons & 0x000fu16;
    assert({
        &&& (m & 0x0001u16 != 0) == (buttons & 0x0001u16 != 0)
        &&& (m & 0x0002u16 != 0) == (buttons & 0x0002u16 != 0)
        &&& (m & 0x0004u16 != 0) == (buttons & 0x0004u16 != 0)
        &&& (m & 0x0008u16 != 0) == (buttons & 0x0008u16 != 0)
    }) by (bit_vector)
        requires
            m == buttons & 0x000fu16,
    ;
    if others & BTN_DPAD_ALL == 0 {
        let w = buttons | others;
        assert({
            &&& (w & 0x0001u16 != 0) == (buttons & 0x0001u16 != 0)
            &&& (w & 0x0002u16 != 0) == (buttons & 0x0002u16 != 0)
            &&& (w & 0x0004u16 != 0) == (buttons & 0x0004u16 != 0)
            &&& (w & 0x0008u16 != 0) == (buttons & 0x0008u16 != 0)
        }) by (bit_vector)
            requires
                w == buttons | others,
                others & 0x000fu16 == 0,
        ;
    }
}

/// What each combination of d-pad bits means: up or down alone, left or right
/// alone, and the diagonals; up wins over down, and left with right cancels.
pub proof fn lemma_dpad_directions(buttons: u16)
    ensures
        ({
            let up = buttons & BTN_DPAD_UP != 0;
            let down = buttons & BTN_DPAD_DOWN != 0;
            let left = buttons & BTN_DPAD_LEFT != 0;
            let right = buttons & BTN_DPAD_RIGHT != 0;
            &&& (up && !left && !right) ==> spec_dpad_for(buttons) == Ds4Dpad::North
            &&& (!up && down && !left && !right) ==> spec_dpad_for(buttons) == Ds4Dpad::South
            &&& (!up && !down && left && !right) ==> spec_dpad_for(buttons) == Ds4Dpad::West
            &&& (!up && !down && !left && right) ==> spec_dpad_for(buttons) == Ds4Dpad::East
            &&& (up && !left && right) ==> spec_dpad_for(buttons) == Ds4Dpad::NorthEast
            &&& (up && left && !right) ==> spec_dpad_for(buttons) == Ds4Dpad::NorthWest
            &&& (!up && down && !left && right) ==> spec_dpad_for(buttons) == Ds4Dpad::SouthEast
            &&& (!up && down && left && !right) ==> spec_dpad_for(buttons) == Ds4Dpad::SouthWest
            &&& ((left && right) || (!up && !down && !left && !right)) ==> spec_dpad_for(buttons)
                == Ds4Dpad::Neutral
        }),
{
}

/// `flag` when `button` is pressed in `buttons`, else nothing.
pub open spec fn flag_if(buttons: u16, button: u16, flag: u16) -> u16 {
    if buttons & button != 0 {
        flag
    } else {
        0
    }
}

/// The DualShock 4 face and shoulder flags for an Xbox 360 button word:
/// A, B, X, Y become cross, circle, square, triangle; the shoulders, stick
/// clicks, start and back map to their DualShock 4 counterparts.
pub open spec fn spec_ds4_flags(buttons: u16) -> u16 {
    flag_if(buttons, BTN_A, DS4_CROSS) | flag_if(buttons, BTN_B, DS4_CIRCLE) | flag_if(
        buttons,
        BTN_X,
        DS4_SQUARE,
    ) | flag_if(buttons, BTN_Y, DS4_TRIANGLE) | flag_if(
        buttons,
        BTN_LEFT_SHOULDER,
        DS4_SHOULDER_LEFT,
    ) | flag_if(buttons, BTN_RIGHT_SHOULDER, DS4_SHOULDER_RIGHT) | flag_if(
        buttons,
        BTN_LEFT_THUMB,
        DS4_THUMB_LEFT,
    ) | flag_if(buttons, BTN_RIGHT_THUMB, DS4_THUMB_RIGHT) | flag_if(buttons, BTN_START, DS4_OPTIONS)
        | flag_if(buttons, BTN_BACK, DS4_SHARE)
}

/// Adds `flag` to `acc` when `button` is pressed in `buttons`.
fn add_flag(acc: u16, buttons: u16, button: u16, flag: u16) -> (r: u16)
    ensures
        r == acc | flag_if(buttons, button, flag),
{
    if buttons & button != 0 {
        acc | flag
    } else {
        acc | 0
    }
}

/// Computes the DualShock 4 face and shoulder flags for an Xbox 360 button word.
pub fn ds4_flags(buttons: u16) -> (r: u16)
    ensures
        r == spec_ds4_flags(buttons),
{
    let mut f: u16 = 0;
    f = add_flag(f, buttons, BTN_A, DS4_CROSS);
    assert(f == flag_if(buttons, BTN_A, DS4_CROSS)) by (bit_vector)
        requires
            f == 0u16 | flag_if(buttons, BTN_A, DS4_CROSS),
    ;
    f = add_flag(f, buttons, BTN_B, DS4_CIRCLE);
    f = add_flag(f, buttons, BTN_X, DS4_SQUARE);
    f = add_flag(f, buttons, BTN_Y, DS4_TRIANGLE);
    f = add_flag(f, buttons, BTN_LEFT_SHOULDER, DS4_SHOULDER_LEFT);
    f = add_flag(f, buttons, BTN_RIGHT_SHOULDER, DS4_SHOULDER_RIGHT);
    f = add_flag(f, buttons, BTN_LEFT_THUMB, DS4_THUMB_LEFT);
    f = add_flag(f, buttons, BTN_RIGHT_THUMB, DS4_THUMB_RIGHT);
    f = add_flag(f, buttons, BTN_START, DS4_OPTIONS);
    f = add_flag(f, buttons, BTN_BACK, DS4_SHARE);
    f
}

/// Whether `deadzone` may be applied to any stick value.
pub open spec fn accepts_any_axis<F: Fn(i16) -> i16>(deadzone: F) -> bool {
    forall|v: i16| #[trigger] deadzone.requires((v,))
}

/// Builds an Xbox 360 report from a 12-byte state payload: the button word
/// and the triggers as sent, each stick axis passed through `deadzone`.
pub fn parse_x360_state<F: Fn(i16) -> i16>(data: &[u8], deadzone: &F) -> (r: X360State)
    requires
        data@.len() >= 12,
        accepts_any_axis(*deadzone),
    ensures
        r.buttons == le_u16(data@, 0),
        r.left_trigger == data@[2],
        r.right_trigger == data@[3],
        deadzone.ensures((le_i16(data@, 4) as i16,), r.thumb_lx),
        deadzone.ensures((le_i16(data@, 6) as i16,), r.thumb_ly),
        deadzone.ensures((le_i16(data@, 8) as i16,), r.thumb_rx),
        deadzone.ensures((le_i16(data@, 10) as i16,), r.thumb_ry),
{
    let lx = read_i16_le(data, 4);
    let ly = read_i16_le(data, 6);
    let rx = read_i16_le(data, 8);
    let ry = read_i16_le(data, 10);
    X360State {
        buttons: read_u16_le(data, 0),
        left_trigger: data[2],
        right_trigger: data[3],
        thumb_lx: deadzone(lx),
        thumb_ly: deadzone(ly),
        thumb_rx: deadzone(rx),
        thumb_ry: deadzone(ry),
    }
}

/// Builds a DualShock 4 report from a 12-byte state payload. Buttons are
/// mapped from their Xbox 360 counterparts, guide becomes PS, the triggers are
/// copied, and each stick axis goes through `deadzone` and is then scaled to
/// `0..=255`, the Y axes inverted.
pub fn parse_ds4_state<F: Fn(i16) -> i16>(data: &[u8], deadzone: &F) -> (r: Ds4State)
    requires
        data@.len() >= 12,
        accepts_any_axis(*deadzone),
    ensures
        r.buttons == spec_ds4_flags(le_u16(data@, 0) as u16),
        r.dpad == spec_dpad_for(le_u16(data@, 0) as u16),
        r.dpad == spec_dpad_for(le_u16(data@, 0) as u16 & BTN_DPAD_ALL),
        r.special == if le_u16(data@, 0) as u16 & BTN_GUIDE != 0 {
            DS4_SPECIAL_PS
        } else {
            0
        },
        r.trigger_left == data@[2],
        r.trigger_right == data@[3],
        exists|v: i16|
            deadzone.ensures((le_i16(data@, 4) as i16,), v) && r.thumb_lx == spec_scale_axis(
                v,
                false,
            ),
        exists|v: i16|
            deadzone.ensures((le_i16(data@, 6) as i16,), v) && r.thumb_ly == spec_scale_axis(
                v,
                true,
            ),
        exists|v: i16|
            deadzone.ensures((le_i16(data@, 8) as i16,), v) && r.thumb_rx == spec_scale_axis(
                v,
                false,
            ),
        exists|v: i16|
            deadzone.ensures((le_i16(data@, 10) as i16,), v) && r.thumb_ry == spec_scale_axis(
                v,
                true,
            ),
{
    let buttons = read_u16_le(data, 0);
    let special: u8 = if buttons & BTN_GUIDE != 0 {
        DS4_SPECIAL_PS
    } else {
        0
    };
    let lx = deadzone(read_i16_le(data, 4));
    let ly = deadzone(read_i16_le(data, 6));
    let rx = deadzone(read_i16_le(data, 8));
    let ry = deadzone(read_i16_le(data, 10));
    Ds4State {
        thumb_lx: scale_axis(lx, false),
        thumb_ly: scale_axis(ly, true),
        thumb_rx: scale_axis(rx, false),
        thumb_ry: scale_axis(ry, true),
        buttons: ds4_flags(buttons),
        dpad: dpad_for(buttons),
        special,
        trigger_left: data[2],
        trigger_right: data[3],
    }
}

/// The Xbox 360 report of an idle pad: everything zero.
pub fn get_empty_x360_report() -> (r: X360State)
    ensures
        r == (X360State {
            buttons: 0,
            left_trigger: 0,
            right_trigger: 0,
            thumb_lx: 0,
            thumb_ly: 0,
            thumb_rx: 0,
            thumb_ry: 0,
        }),
{
    X360State {
        buttons: 0,
        left_trigger: 0,
        right_trigger: 0,
        thumb_lx: 0,
        thumb_ly: 0,
        thumb_rx: 0,
        thumb_ry: 0,
    }
}

/// The DualShock 4 report of an idle pad: sticks centred at 128, no buttons,
/// d-pad neutral, triggers released.
pub fn get_empty_ds4_report() -> (r: Ds4State)
    ensures
        r == (Ds4State {
            thumb_lx: 128,
            thumb_ly: 128,
            thumb_rx: 128,
            thumb_ry: 128,
            buttons: 0,
            dpad: Ds4Dpad::Neutral,
            special: 0,
            trigger_left: 0,
            trigger_right: 0,
        }),
{
    Ds4State {
        thumb_lx: 128,
        thumb_ly: 128,
        thumb_rx: 128,
        thumb_ry: 128,
        buttons: 0,
        dpad: Ds4Dpad::Neutral,
        special: 0,
        trigger_left: 0,
        trigger_right: 0,
    }
}

/// What a datagram routed to a slot asks for.
#[derive(Debug, PartialEq, Eq, Structural, Clone, Copy)]
pub enum SlotPacket {
    /// A controller state; its 12-byte payload starts at offset 2.
    State,
    /// Battery levels of the controller and the phone.
    Battery(AppInfo),
    /// Anything else, including packets too short for their type.
    Ignored,
}

/// The meaning of a slot's datagram `packet` of which the first `len` bytes
/// were received (the rest of the buffer is zero).
pub open spec fn spec_classify_slot_packet(packet: Seq<u8>, len: int) -> SlotPacket {
    if packet[0] == PKT_STATE && len >= 12 {
        SlotPacket::State
    } else if packet[0] == PKT_BATTERY && len >= 4 {
        SlotPacket::Battery(
            AppInfo { controller_battery: packet[2] as i8, phone_battery: packet[3] as i8 },
        )
    } else {
        SlotPacket::Ignored
    }
}

/// Reads the type byte of a slot's datagram and, for battery packets, the
/// levels that it carries.
pub fn classify_slot_packet(packet: &[u8], len: usize) -> (r: SlotPacket)
    requires
        packet@.len() >= 4,
    ensures
        r == spec_classify_slot_packet(packet@, len as int),
{
    if packet[0] == PKT_STATE && len >= 12 {
        SlotPacket::State
    } else if packet[0] == PKT_BATTERY && len >= 4 {
        SlotPacket::Battery(
            AppInfo { controller_battery: packet[2] as i8, phone_battery: packet[3] as i8 },
        )
    } else {
        SlotPacket::Ignored
    }
}

/// The scaled axis grows with the stick value, is 128 at the centre, and the
/// inverted axis is its mirror image.
pub proof fn lemma_scale_axis_shape(a: i16, b: i16)
    ensures
        a <= b ==> spec_scale_axis(a, false) <= spec_scale_axis(b, false),
        0 <= spec_scale_axis(a, false) <= 255,
        spec_scale_axis(a, true) == 255 - spec_scale_axis(a, false),
        spec_scale_axis(0, false) == 128,
        spec_scale_axis(0, true) == 127,
{
    if a <= b {
        assert((a + 32768) / 256 <= (b + 32768) / 256) by (nonlinear_arith)
            requires
                a + 32768 <= b + 32768,
                0 <= a + 32768,
        ;
    }
}

/// Each mapped Xbox 360 button sets exactly its DualShock 4 counterpart, and
/// the d-pad bits of the DualShock 4 word stay clear.
pub proof fn lemma_ds4_flags_mapping(buttons: u16)
    ensures
        (spec_ds4_flags(buttons) & DS4_CROSS != 0) == (buttons & BTN_A != 0),
        (spec_ds4_flags(buttons) & DS4_CIRCLE != 0) == (buttons & BTN_B != 0),
        (spec_ds4_flags(buttons) & DS4_SQUARE != 0) == (buttons & BTN_X != 0),
        (spec_ds4_flags(buttons) & DS4_TRIANGLE != 0) == (buttons & BTN_Y != 0),
        (spec_ds4_flags(buttons) & DS4_SHOULDER_LEFT != 0) == (buttons & BTN_LEFT_SHOULDER != 0),
        (spec_ds4_flags(buttons) & DS4_SHOULDER_RIGHT != 0) == (buttons & BTN_RIGHT_SHOULDER
            != 0),
        (spec_ds4_flags(buttons) & DS4_THUMB_LEFT != 0) == (buttons & BTN_LEFT_THUMB != 0),
        (spec_ds4_flags(buttons) & DS4_THUMB_RIGHT != 0) == (buttons & BTN_RIGHT_THUMB != 0),
        (spec_ds4_flags(buttons) & DS4_OPTIONS != 0) == (buttons & BTN_START != 0),
        (spec_ds4_flags(buttons) & DS4_SHARE != 0) == (buttons & BTN_BACK != 0),
        spec_ds4_flags(buttons) & (DS4_TRIGGER_LEFT | DS4_TRIGGER_RIGHT | 0x000fu16) == 0,
{
    let a = flag_if(buttons, BTN_A, DS4_CROSS);
    let b = flag_if(buttons, BTN_B, DS4_CIRCLE);
    let x = flag_if(buttons, BTN_X, DS4_SQUARE);
    let y = flag_if(buttons, BTN_Y, DS4_TRIANGLE);
    let ls = flag_if(buttons, BTN_LEFT_SHOULDER, DS4_SHOULDER_LEFT);
    let rs = flag_if(buttons, BTN_RIGHT_SHOULDER, DS4_SHOULDER_RIGHT);
    let lt = flag_if(buttons, BTN_LEFT_THUMB, DS4_THUMB_LEFT);
    let rt = flag_if(buttons, BTN_RIGHT_THUMB, DS4_THUMB_RIGHT);
    let st = flag_if(buttons, BTN_START, DS4_OPTIONS);
    let bk = flag_if(buttons, BTN_BACK, DS4_SHARE);
    let f = spec_ds4_flags(buttons);
    assert(0x0400u16 | 0x0800u16 | 0x000fu16 == 0x0c0fu16) by (bit_vector);
    assert(f == a | b | x | y | ls | rs | lt | rt | st | bk);
    assert({
        &&& (f & 0x0020 != 0) == (a != 0)
        &&& (f & 0x0040 != 0) == (b != 0)
        &&& (f & 0x0010 != 0) == (x != 0)
        &&& (f & 0x0080 != 0) == (y != 0)
        &&& (f & 0x0100 != 0) == (ls != 0)
        &&& (f & 0x0200 != 0) == (rs != 0)
        &&& (f & 0x4000 != 0) == (lt != 0)
        &&& (f & 0x8000 != 0) == (rt != 0)
        &&& (f & 0x2000 != 0) == (st != 0)
        &&& (f & 0x1000 != 0) == (bk != 0)
        &&& f & 0x0c0fu16 == 0
    }) by (bit_vector)
        requires
            f == a | b | x | y | ls | rs | lt | rt | st | bk,
            a == 0 || a == 0x0020,
            b == 0 || b == 0x0040,
            x == 0 || x == 0x0010,
            y == 0 || y == 0x0080,
            ls == 0 || ls == 0x0100,
            rs == 0 || rs == 0x0200,
            lt == 0 || lt == 0x4000,
            rt == 0 || rt == 0x8000,
            st == 0 || st == 0x2000,
            bk == 0 || bk == 0x1000,
    ;
}

} // verus!
