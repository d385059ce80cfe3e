use controlay::config::{AntiDoubleClickConfig, BTN_A, BTN_DPAD_DOWN, BTN_DPAD_UP};
use controlay::debounce::ButtonDebouncer;

fn cfg(window_ms: u16, buttons: u16) -> AntiDoubleClickConfig {
    AntiDoubleClickConfig {
        enabled: true,
        window_ms,
        buttons,
    }
}

/// A monotonic clock reading, in nanoseconds, to start a scenario from.
fn t0() -> u64 {
    7_000_000_000
}

fn at(start: u64, ms: u64) -> u64 {
    start + ms * 1_000_000
}

#[test]
fn ghost_press_inside_window_is_dropped() {
    let mut d = ButtonDebouncer::default();
    let start = t0();
    let filter = cfg(50, BTN_DPAD_UP);

    assert_eq!(d.apply(BTN_DPAD_UP, &filter, start), BTN_DPAD_UP);
    assert_eq!(d.apply(0, &filter, at(start, 10)), 0);
    assert_eq!(d.apply(BTN_DPAD_UP, &filter, at(start, 20)), 0);
    assert_eq!(d.apply(0, &filter, at(start, 30)), 0);
}

#[test]
fn press_after_window_is_accepted() {
    let mut d = ButtonDebouncer::default();
    let start = t0();
    let filter = cfg(50, BTN_DPAD_UP);

    assert_eq!(d.apply(BTN_DPAD_UP, &filter, start), BTN_DPAD_UP);
    assert_eq!(d.apply(0, &filter, at(start, 10)), 0);
    assert_eq!(d.apply(BTN_DPAD_UP, &filter, at(start, 60)), BTN_DPAD_UP);
}

#[test]
fn mash_with_interleaved_ghosts_keeps_real_presses() {
    let mut d = ButtonDebouncer::default();
    let start = t0();
    let filter = cfg(50, BTN_DPAD_UP);

    for i in 0..4 {
        let t = i * 80;
        assert_eq!(d.apply(BTN_DPAD_UP, &filter, at(start, t)), BTN_DPAD_UP);
        assert_eq!(d.apply(0, &filter, at(start, t + 8)), 0);
        // Hardware ghost ~15ms after the real tap.
        assert_eq!(d.apply(BTN_DPAD_UP, &filter, at(start, t + 15)), 0);
        assert_eq!(d.apply(0, &filter, at(start, t + 22)), 0);
    }
}

#[test]
fn hold_is_not_treated_as_a_new_press() {
    let mut d = ButtonDebouncer::default();
    let start = t0();
    let filter = cfg(50, BTN_DPAD_UP);

    assert_eq!(d.apply(BTN_DPAD_UP, &filter, start), BTN_DPAD_UP);
    assert_eq!(d.apply(BTN_DPAD_UP, &filter, at(start, 8)), BTN_DPAD_UP);
    assert_eq!(d.apply(BTN_DPAD_UP, &filter, at(start, 16)), BTN_DPAD_UP);
}

#[test]
fn suppressed_press_stays_down_until_physical_release() {
    let mut d = ButtonDebouncer::default();
    let start = t0();
    let filter = cfg(50, BTN_DPAD_UP);

    assert_eq!(d.apply(BTN_DPAD_UP, &filter, start), BTN_DPAD_UP);
    assert_eq!(d.apply(0, &filter, at(start, 5)), 0);
    assert_eq!(d.apply(BTN_DPAD_UP, &filter, at(start, 15)), 0);
    // Still physically held inside the window: keep reporting released.
    assert_eq!(d.apply(BTN_DPAD_UP, &filter, at(start, 25)), 0);
    assert_eq!(d.apply(0, &filter, at(start, 40)), 0);
}

#[test]
fn other_buttons_are_unaffected() {
    let mut d = ButtonDebouncer::default();
    let start = t0();
    let filter = cfg(50, BTN_DPAD_UP);

    assert_eq!(d.apply(BTN_DPAD_UP, &filter, start), BTN_DPAD_UP);
    assert_eq!(
        d.apply(BTN_DPAD_UP | BTN_DPAD_DOWN, &filter, at(start, 10)),
        BTN_DPAD_UP | BTN_DPAD_DOWN
    );
    assert_eq!(d.apply(BTN_A, &filter, at(start, 15)), BTN_A);
}

#[test]
fn unmasked_button_is_never_filtered() {
    let mut d = ButtonDebouncer::default();
    let start = t0();
    let filter = cfg(50, BTN_DPAD_UP);

    assert_eq!(d.apply(BTN_A, &filter, start), BTN_A);
    assert_eq!(d.apply(0, &filter, at(start, 5)), 0);
    assert_eq!(d.apply(BTN_A, &filter, at(start, 10)), BTN_A);
}

#[test]
fn disabled_is_passthrough() {
    let mut d = ButtonDebouncer::default();
    let start = t0();
    let filter = AntiDoubleClickConfig {
        enabled: false,
        window_ms: 50,
        buttons: BTN_DPAD_UP,
    };

    assert_eq!(d.apply(BTN_DPAD_UP, &filter, start), BTN_DPAD_UP);
    assert_eq!(d.apply(0, &filter, at(start, 5)), 0);
    assert_eq!(d.apply(BTN_DPAD_UP, &filter, at(start, 10)), BTN_DPAD_UP);
}

#[test]
fn different_direction_is_not_blocked() {
    let mut d = ButtonDebouncer::default();
    let start = t0();
    let filter = cfg(50, BTN_DPAD_UP | BTN_DPAD_DOWN);

    assert_eq!(d.apply(BTN_DPAD_UP, &filter, start), BTN_DPAD_UP);
    assert_eq!(d.apply(0, &filter, at(start, 8)), 0);
    assert_eq!(
        d.apply(BTN_DPAD_DOWN, &filter, at(start, 16)),
        BTN_DPAD_DOWN
    );
}

// Further scenarios for the laws of the filter.

#[test]
fn press_exactly_at_window_end_is_accepted() {
    let mut d = ButtonDebouncer::default();
    let start = t0();
    let filter = cfg(50, BTN_DPAD_UP);

    assert_eq!(d.apply(BTN_DPAD_UP, &filter, start), BTN_DPAD_UP);
    assert_eq!(d.apply(0, &filter, at(start, 10)), 0);
    assert_eq!(d.apply(BTN_DPAD_UP, &filter, at(start, 50)), BTN_DPAD_UP);
}

#[test]
fn press_one_nanosecond_before_window_end_is_dropped() {
    let mut d = ButtonDebouncer::default();
    let start = t0();
    let filter = cfg(50, BTN_DPAD_UP);

    assert_eq!(d.apply(BTN_DPAD_UP, &filter, start), BTN_DPAD_UP);
    assert_eq!(d.apply(0, &filter, at(start, 10)), 0);
    assert_eq!(d.apply(BTN_DPAD_UP, &filter, at(start, 50) - 1), 0);
}

#[test]
fn clock_going_backwards_counts_as_inside_window() {
    let mut d = ButtonDebouncer::default();
    let start = t0();
    let filter = cfg(50, BTN_DPAD_UP);

    assert_eq!(d.apply(BTN_DPAD_UP, &filter, start), BTN_DPAD_UP);
    assert_eq!(d.apply(0, &filter, start + 1), 0);
    assert_eq!(d.apply(BTN_DPAD_UP, &filter, start - 1_000_000_000), 0);
}

#[test]
fn zero_window_or_empty_mask_is_passthrough() {
    let mut d = ButtonDebouncer::default();
    let start = t0();
    for filter in [cfg(0, BTN_DPAD_UP), cfg(50, 0)] {
        assert_eq!(d.apply(BTN_DPAD_UP, &filter, start), BTN_DPAD_UP);
        assert_eq!(d.apply(0, &filter, at(start, 1)), 0);
        assert_eq!(d.apply(BTN_DPAD_UP, &filter, at(start, 2)), BTN_DPAD_UP);
    }
}

#[test]
fn reset_forgets_recent_presses() {
    let mut d = ButtonDebouncer::default();
    let start = t0();
    let filter = cfg(50, BTN_DPAD_UP);

    assert_eq!(d.apply(BTN_DPAD_UP, &filter, start), BTN_DPAD_UP);
    assert_eq!(d.apply(0, &filter, at(start, 5)), 0);
    d.reset();
    assert_eq!(d.apply(BTN_DPAD_UP, &filter, at(start, 10)), BTN_DPAD_UP);
}

#[test]
fn clone_keeps_the_filter_state() {
    let mut d = ButtonDebouncer::default();
    let start = t0();
    let filter = cfg(50, BTN_DPAD_UP);

    assert_eq!(d.apply(BTN_DPAD_UP, &filter, start), BTN_DPAD_UP);
    assert_eq!(d.apply(0, &filter, at(start, 5)), 0);
    let mut copy = d.clone();
    assert_eq!(copy.apply(BTN_DPAD_UP, &filter, at(start, 10)), 0);
}

#[test]
fn default_filter_settings() {
    let c = AntiDoubleClickConfig::default();
    assert!(!c.enabled);
    assert_eq!(c.window_ms, 50);
    assert_eq!(c.buttons, 0x000f);
}
