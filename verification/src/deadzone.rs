//! Which part of a stick's travel a raw axis value falls in.
//!
//! Values whose magnitude is below the inner threshold read as centred, values
//! at or beyond the outer threshold read as fully deflected, and values in
//! between are rescaled (by the caller, from the offset past the inner
//! threshold) to cover the whole range.

use vstd::prelude::*;

use crate::config::MAX_STICK_VALUE;

verus! {

/// Where an axis value lies relative to the deadzone thresholds.
#[derive(Debug, PartialEq, Eq, Structural, Clone, Copy)]
pub enum DeadzoneZone {
    /// Inside the inner deadzone: reads as centred.
    Inside,
    /// At or beyond the outer threshold: reads as fully deflected.
    Saturated { positive: bool },
    /// Between the thresholds, `offset` past the inner one.
    Ramp { offset: i32, positive: bool },
}

/// The magnitude of an axis value, with the most negative value read as the
/// negative of the largest.
pub open spec fn axis_magnitude(value: i16) -> int {
    if value == i16::MIN {
        MAX_STICK_VALUE as int
    } else if value < 0 {
        -value
    } else {
        value as int
    }
}

/// The zone of `value` for thresholds `inner` and `outer`.
pub open spec fn spec_deadzone_zone(value: i16, inner: i16, outer: i16) -> DeadzoneZone {
    let m = axis_magnitude(value);
    if m < inner {
        DeadzoneZone::Inside
    } else if m >= outer {
        DeadzoneZone::Saturated { positive: value > 0 }
    } else {
        DeadzoneZone::Ramp { offset: (m - inner) as i32, positive: value > 0 }
    }
}

/// Classifies one axis value against the deadzone thresholds.
pub fn deadzone_zone(value: i16, inner: i16, outer: i16) -> (z: DeadzoneZone)
    ensures
        z == spec_deadzone_zone(value, inner, outer),
{
    let v: i16 = if value == i16::MIN {
        -MAX_STICK_VALUE
    } else {
        value
    };
    let abs_val: i16 = if v < 0 {
        -v
    } else {
        v
    };
    if abs_val < inner {
        return DeadzoneZone::Inside;
    }
    if abs_val >= outer {
        return DeadzoneZone::Saturated { positive: v > 0 };
    }
    DeadzoneZone::Ramp { offset: abs_val as i32 - inner as i32, positive: v > 0 }
}

impl DeadzoneZone {
    /// The output for a zone whose output does not depend on the scale:
    /// zero inside, the full deflection with the input's sign when saturated.
    pub fn fixed_output(self) -> (r: Option<i16>)
        ensures
            r == match self {
                DeadzoneZone::Inside => Some(0i16),
                DeadzoneZone::Saturated { positive } => Some(
                    if positive {
                        MAX_STICK_VALUE
                    } else {
                        (-MAX_STICK_VALUE) as i16
                    },
                ),
                DeadzoneZone::Ramp { .. } => None,
            },
    {
        match self {
            DeadzoneZone::Inside => Some(0),
            DeadzoneZone::Saturated { positive } => Some(
                if positive {
                    MAX_STICK_VALUE
                } else {
                    -MAX_STICK_VALUE
                },
            ),
            DeadzoneZone::Ramp { .. } => None,
        }
    }
}

/// Opposite stick positions fall in the same zone with the opposite sign, and
/// the most negative value behaves like the negative of the largest.
pub proof fn lemma_deadzone_symmetric(value: i16, inner: i16, outer: i16)
    requires
        value != 0,
        value != i16::MIN,
    ensures
        spec_deadzone_zone((-value) as i16, inner, outer) == match spec_deadzone_zone(
            value,
            inner,
            outer,
        ) {
            DeadzoneZone::Inside => DeadzoneZone::Inside,
            DeadzoneZone::Saturated { positive } => DeadzoneZone::Saturated { positive: !positive },
            DeadzoneZone::Ramp { offset, positive } => DeadzoneZone::Ramp {
                offset,
                positive: !positive,
            },
        },
        spec_deadzone_zone(i16::MIN, inner, outer) == spec_deadzone_zone(
            -32767i16,
            inner,
            outer,
        ),
{
}

} // verus!
