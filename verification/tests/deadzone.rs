use controlay::deadzone::{deadzone_zone, DeadzoneZone};

#[test]
fn inside_inner_threshold_is_centred() {
    assert_eq!(deadzone_zone(100, 4915, 29490), DeadzoneZone::Inside);
    assert_eq!(deadzone_zone(-4914, 4915, 29490), DeadzoneZone::Inside);
    assert_eq!(DeadzoneZone::Inside.fixed_output(), Some(0));
}

#[test]
fn beyond_outer_threshold_saturates_with_sign() {
    let z = deadzone_zone(30000, 4915, 29490);
    assert_eq!(z, DeadzoneZone::Saturated { positive: true });
    assert_eq!(z.fixed_output(), Some(32767));
    let z = deadzone_zone(-29490, 4915, 29490);
    assert_eq!(z, DeadzoneZone::Saturated { positive: false });
    assert_eq!(z.fixed_output(), Some(-32767));
}

#[test]
fn between_thresholds_ramps_from_inner() {
    assert_eq!(
        deadzone_zone(5000, 4915, 29490),
        DeadzoneZone::Ramp { offset: 85, positive: true }
    );
    assert_eq!(
        deadzone_zone(-5000, 4915, 29490),
        DeadzoneZone::Ramp { offset: 85, positive: false }
    );
    assert_eq!(DeadzoneZone::Ramp { offset: 85, positive: true }.fixed_output(), None);
}

#[test]
fn most_negative_value_reads_as_full_negative() {
    assert_eq!(deadzone_zone(i16::MIN, 0, 40000i32 as i16), deadzone_zone(-32767, 0, 40000i32 as i16));
    assert_eq!(
        deadzone_zone(i16::MIN, 100, 32767),
        DeadzoneZone::Saturated { positive: false }
    );
}

#[test]
fn zero_with_empty_range_saturates_negative() {
    assert_eq!(deadzone_zone(0, 0, 0), DeadzoneZone::Saturated { positive: false });
}

#[test]
fn negative_inner_threshold_does_not_overflow() {
    assert_eq!(
        deadzone_zone(32767, -5, i16::MAX),
        DeadzoneZone::Saturated { positive: true }
    );
    assert_eq!(
        deadzone_zone(32000, -100, i16::MAX),
        DeadzoneZone::Ramp { offset: 32100, positive: true }
    );
}
