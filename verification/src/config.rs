//! The configuration record of a simulation run and its defaulting policy.
//!
//! Every field is the bit pattern of an IEEE-754 double. The caller hands in
//! each raw value already parsed to bits — `None` where the value was absent
//! or not a floating-point numeral — and it resolves silently to the field's
//! documented default in that case: a missing or malformed value is never an
//! error.

use vstd::prelude::*;

verus! {

/// Bits of the default initial speed, fifty metres per second.
pub const DEFAULT_V0: u64 = 0x4049_0000_0000_0000;

/// Bits of the default launch angle, forty-five degrees.
pub const DEFAULT_ANGLE_DEG: u64 = 0x4046_8000_0000_0000;

/// Bits of the default initial height, zero metres.
pub const DEFAULT_Y0: u64 = 0;

/// Bits of the default gravity magnitude, nine hundred and eighty-one
/// hundredths of a metre per second squared.
pub const DEFAULT_G: u64 = 0x4023_9EB8_51EB_851F;

/// Bits of the default mass, one kilogram.
pub const DEFAULT_M: u64 = 0x3FF0_0000_0000_0000;

/// Bits of the default drag coefficient, five hundredths.
pub const DEFAULT_C: u64 = 0x3FA9_9999_9999_999A;

/// Bits of the default timestep, one hundredth of a second.
pub const DEFAULT_DT: u64 = 0x3F84_7AE1_47AE_147B;

/// The immutable configuration of one run, each field the bits of a double.
#[derive(Clone, Copy, PartialEq, Eq, Structural, Debug)]
pub struct Config {
    /// Initial speed (m/s).
    pub v0: u64,
    /// Launch angle (degrees).
    pub angle_deg: u64,
    /// Initial height (m).
    pub y0: u64,
    /// Gravity magnitude (m/s^2).
    pub gravity: u64,
    /// Mass (kg).
    pub mass: u64,
    /// Drag coefficient (kg/m); zero disables drag.
    pub drag: u64,
    /// Timestep (s).
    pub dt: u64,
}

/// What a raw configuration value resolves to: its own bits where it was
/// present and parsed, the default otherwise.
pub open spec fn resolved_value(parsed: Option<u64>, default: u64) -> u64 {
    match parsed {
        Some(bits) => bits,
        None => default,
    }
}

/// Resolve one raw configuration value against its default.
pub fn resolve_value(parsed: Option<u64>, default: u64) -> (r: u64)
    ensures
        r == resolved_value(parsed, default),
{
    match parsed {
        Some(bits) => bits,
        None => default,
    }
}

/// Build a configuration from the seven raw values, resolving each against
/// its documented default.
pub fn config_from_raw(
    v0: Option<u64>,
    angle_deg: Option<u64>,
    y0: Option<u64>,
    gravity: Option<u64>,
    mass: Option<u64>,
    drag: Option<u64>,
    dt: Option<u64>,
) -> (c: Config)
    ensures
        c.v0 == resolved_value(v0, DEFAULT_V0),
        c.angle_deg == resolved_value(angle_deg, DEFAULT_ANGLE_DEG),
        c.y0 == resolved_value(y0, DEFAULT_Y0),
        c.gravity == resolved_value(gravity, DEFAULT_G),
        c.mass == resolved_value(mass, DEFAULT_M),
        c.drag == resolved_value(drag, DEFAULT_C),
        c.dt == resolved_value(dt, DEFAULT_DT),
{
    Config {
        v0: resolve_value(v0, DEFAULT_V0),
        angle_deg: resolve_value(angle_deg, DEFAULT_ANGLE_DEG),
        y0: resolve_value(y0, DEFAULT_Y0),
        gravity: resolve_value(gravity, DEFAULT_G),
        mass: resolve_value(mass, DEFAULT_M),
        drag: resolve_value(drag, DEFAULT_C),
        dt: resolve_value(dt, DEFAULT_DT),
    }
}

} // verus!
