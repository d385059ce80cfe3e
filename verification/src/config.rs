//! Settings shared by the receiver, and the button bits of the wire protocol.

use vstd::prelude::*;

verus! {

/// Number of controller slots (players).
pub const SLOT_COUNT: usize = 4;

/// Largest magnitude that a stick axis reports.
pub const MAX_STICK_VALUE: i16 = 32767;

// XInput / Xbox 360 digital bits, as they appear in the state packet.
pub const BTN_DPAD_UP: u16 = 0x0001;
pub const BTN_DPAD_DOWN: u16 = 0x0002;
pub const BTN_DPAD_LEFT: u16 = 0x0004;
pub const BTN_DPAD_RIGHT: u16 = 0x0008;
pub const BTN_START: u16 = 0x0010;
pub const BTN_BACK: u16 = 0x0020;
pub const BTN_LEFT_THUMB: u16 = 0x0040;
pub const BTN_RIGHT_THUMB: u16 = 0x0080;
pub const BTN_LEFT_SHOULDER: u16 = 0x0100;
pub const BTN_RIGHT_SHOULDER: u16 = 0x0200;
pub const BTN_GUIDE: u16 = 0x0400;
pub const BTN_A: u16 = 0x1000;
pub const BTN_B: u16 = 0x2000;
pub const BTN_X: u16 = 0x4000;
pub const BTN_Y: u16 = 0x8000;

/// All four d-pad directions.
pub const BTN_DPAD_ALL: u16 = BTN_DPAD_UP | BTN_DPAD_DOWN | BTN_DPAD_LEFT | BTN_DPAD_RIGHT;

pub const ANTI_DOUBLE_CLICK_WINDOW_DEFAULT_MS: u16 = 50;
pub const ANTI_DOUBLE_CLICK_WINDOW_MIN_MS: u16 = 10;
pub const ANTI_DOUBLE_CLICK_WINDOW_MAX_MS: u16 = 150;

/// Which virtual controller a slot presents to the host.
#[derive(Debug, PartialEq, Eq, Structural, Clone, Copy)]
pub enum ControllerType {
    X360,
    DS4,
}

/// Colour scheme of the user interface.
#[derive(Debug, PartialEq, Eq, Structural, Clone, Copy)]
pub enum ThemeMode {
    System,
    Light,
    Dark,
}

/// Per-button rising-edge cooldown. A second press of the same selected button
/// inside `window_ms` is dropped; releases are never delayed.
#[derive(Debug, Clone, Copy)]
pub struct AntiDoubleClickConfig {
    pub enabled: bool,
    pub window_ms: u16,
    /// Bitmask of buttons to filter (same bits as the state packet).
    pub buttons: u16,
}

impl AntiDoubleClickConfig {
    /// Whether the filter does anything at all with these settings.
    pub open spec fn is_active(self) -> bool {
        self.enabled && self.buttons != 0 && self.window_ms != 0
    }
}

impl Default for AntiDoubleClickConfig {
    fn default() -> (cfg: Self)
        ensures
            !cfg.enabled,
            cfg.window_ms == ANTI_DOUBLE_CLICK_WINDOW_DEFAULT_MS,
            cfg.buttons == BTN_DPAD_ALL,
    {
        AntiDoubleClickConfig {
            enabled: false,
            window_ms: ANTI_DOUBLE_CLICK_WINDOW_DEFAULT_MS,
            buttons: BTN_DPAD_ALL,
        }
    }
}

} // verus!
