use vstd::prelude::*;

verus! {

/// Number of stored counts per unit: a field whose name ends in `_milli`
/// holds thousandths of its unit, one that ends in `_millideg` thousandths of
/// a degree.
pub const MILLI: u64 = 1000;

/// Keplerian elements of one orbit as the planet table records them.
#[derive(Clone, Copy, Debug, PartialEq, Eq, Structural)]
pub struct OrbitalElements {
    pub semi_major_axis_milli: u64,
    pub eccentricity_milli: u64,
    pub inclination_millideg: u64,
    pub periapsis_millideg: u64,
    pub mean_anomaly_millideg: u64,
    pub period_milli: u64,
}

impl OrbitalElements {
    /// The orbit is a closed ellipse that can be advanced in time:
    /// eccentricity in `[0, 1)`, positive semi-major axis, positive period.
    /// Outside these bounds the orbit pass divides by zero or leaves the
    /// ellipse, and the positions it yields mean nothing.
    pub open spec fn valid(self) -> bool {
        &&& self.eccentricity_milli < MILLI
        &&& self.semi_major_axis_milli > 0
        &&& self.period_milli > 0
    }

    /// Tests the three conditions of [`Self::valid`].
    pub fn is_valid(&self) -> (ok: bool)
        ensures
            ok == self.valid(),
    {
        self.eccentricity_milli < MILLI && self.semi_major_axis_milli > 0 && self.period_milli > 0
    }
}

} // verus!
