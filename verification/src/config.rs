use vstd::prelude::*;

verus! {

/// Fixed-point iterations spent on Kepler's equation per body and frame. The
/// count is a constant so that a frame costs the same whatever the orbit; the
/// accuracy it buys falls as the eccentricity approaches 1.
pub const KEPLER_ROUNDS: u64 = 3;

/// Spin of the star, in thousandths of a radian per second of frame time.
pub const STAR_SPIN_MILLI: u64 = 100;

/// Largest camera pitch either way, in thousandths of a radian.
pub const PITCH_LIMIT_MILLI: u64 = 700;

/// The constants of a simulation, handed to whatever needs them.
#[derive(Clone, Copy, Debug, PartialEq, Eq, Structural)]
pub struct SimConfig {
    /// Gravitational constant in billionths.
    pub gravity_nano: u64,
    /// Simulated seconds per second of frame time, in thousandths.
    pub time_scale_milli: u64,
    pub star_mass_milli: u64,
    pub star_radius_milli: u64,
    /// Own spin of the star's body record, in thousandths of a radian per
    /// second.
    pub star_body_spin_milli: u64,
    pub min_distance_milli: u64,
}

impl SimConfig {
    /// The values of the standard scene.
    pub open spec fn standard_values() -> SimConfig {
        SimConfig {
            gravity_nano: 66_743,
            time_scale_milli: 1_000,
            star_mass_milli: 100_000_000_000,
            star_radius_milli: 10_000,
            star_body_spin_milli: 10,
            min_distance_milli: 1_000,
        }
    }

    /// The configuration of the standard scene.
    pub fn standard() -> (cfg: SimConfig)
        ensures
            cfg == Self::standard_values(),
    {
        SimConfig {
            gravity_nano: 66_743,
            time_scale_milli: 1_000,
            star_mass_milli: 100_000_000_000,
            star_radius_milli: 10_000,
            star_body_spin_milli: 10,
            min_distance_milli: 1_000,
        }
    }
}

} // verus!
