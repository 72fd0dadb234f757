use vstd::prelude::*;
use crate::elements::OrbitalElements;

verus! {

/// The planets of the table, from the innermost outwards.
#[derive(Clone, Copy, Debug, PartialEq, Eq, Structural)]
pub enum Planet {
    Mercury,
    Venus,
    Earth,
    Mars,
    Jupiter,
    Saturn,
    Uranus,
    Neptune,
}

/// A display colour, each channel in thousandths of full intensity.
#[derive(Clone, Copy, Debug, PartialEq, Eq, Structural)]
pub struct Rgb {
    pub red_milli: u64,
    pub green_milli: u64,
    pub blue_milli: u64,
}

/// One row of the planet table.
#[derive(Clone, Copy, Debug, PartialEq, Eq, Structural)]
pub struct PlanetRecord {
    pub planet: Planet,
    pub mass_milli: u64,
    pub radius_milli: u64,
    pub elements: OrbitalElements,
    pub color: Rgb,
    /// Self-rotation in thousandths of a radian per second of simulated time.
    pub spin_milli: u64,
}

/// The name under which a planet is shown.
pub open spec fn label_of(planet: Planet) -> Seq<char> {
    match planet {
        Planet::Mercury => "水星"@,
        Planet::Venus => "金星"@,
        Planet::Earth => "地球"@,
        Planet::Mars => "火星"@,
        Planet::Jupiter => "木星"@,
        Planet::Saturn => "土星"@,
        Planet::Uranus => "天王星"@,
        Planet::Neptune => "海王星"@,
    }
}

/// The table itself: the row of each planet.
pub open spec fn record_of(planet: Planet) -> PlanetRecord {
    match planet {
        Planet::Mercury => PlanetRecord {
            planet,
            mass_milli: 300_000,
            radius_milli: 1_000,
            elements: OrbitalElements {
                semi_major_axis_milli: 20_000,
                eccentricity_milli: 205,
                inclination_millideg: 7_000,
                periapsis_millideg: 29_000,
                mean_anomaly_millideg: 0,
                period_milli: 7_600,
            },
            color: Rgb { red_milli: 700, green_milli: 700, blue_milli: 700 },
            spin_milli: 50,
        },
        Planet::Venus => PlanetRecord {
            planet,
            mass_milli: 800_000,
            radius_milli: 1_500,
            elements: OrbitalElements {
                semi_major_axis_milli: 30_000,
                eccentricity_milli: 7,
                inclination_millideg: 3_400,
                periapsis_millideg: 55_000,
                mean_anomaly_millideg: 0,
                period_milli: 19_400,
            },
            color: Rgb { red_milli: 900, green_milli: 700, blue_milli: 500 },
            spin_milli: 20,
        },
        Planet::Earth => PlanetRecord {
            planet,
            mass_milli: 1_000_000,
            radius_milli: 1_700,
            elements: OrbitalElements {
                semi_major_axis_milli: 40_000,
                eccentricity_milli: 17,
                inclination_millideg: 0,
                periapsis_millideg: 114_000,
                mean_anomaly_millideg: 0,
                period_milli: 31_500,
            },
            color: Rgb { red_milli: 200, green_milli: 400, blue_milli: 800 },
            spin_milli: 30,
        },
        Planet::Mars => PlanetRecord {
            planet,
            mass_milli: 600_000,
            radius_milli: 1_300,
            elements: OrbitalElements {
                semi_major_axis_milli: 55_000,
                eccentricity_milli: 93,
                inclination_millideg: 1_900,
                periapsis_millideg: 286_000,
                mean_anomaly_millideg: 0,
                period_milli: 59_300,
            },
            color: Rgb { red_milli: 800, green_milli: 400, blue_milli: 200 },
            spin_milli: 40,
        },
        Planet::Jupiter => PlanetRecord {
            planet,
            mass_milli: 10_000_000,
            radius_milli: 4_000,
            elements: OrbitalElements {
                semi_major_axis_milli: 90_000,
                eccentricity_milli: 48,
                inclination_millideg: 1_300,
                periapsis_millideg: 275_000,
                mean_anomaly_millideg: 0,
                period_milli: 374_300,
            },
            color: Rgb { red_milli: 800, green_milli: 700, blue_milli: 500 },
            spin_milli: 100,
        },
        Planet::Saturn => PlanetRecord {
            planet,
            mass_milli: 8_000_000,
            radius_milli: 3_500,
            elements: OrbitalElements {
                semi_major_axis_milli: 120_000,
                eccentricity_milli: 56,
                inclination_millideg: 2_500,
                periapsis_millideg: 336_000,
                mean_anomaly_millideg: 0,
                period_milli: 929_000,
            },
            color: Rgb { red_milli: 900, green_milli: 800, blue_milli: 600 },
            spin_milli: 90,
        },
        Planet::Uranus => PlanetRecord {
            planet,
            mass_milli: 4_000_000,
            radius_milli: 2_500,
            elements: OrbitalElements {
                semi_major_axis_milli: 150_000,
                eccentricity_milli: 46,
                inclination_millideg: 800,
                periapsis_millideg: 99_000,
                mean_anomaly_millideg: 0,
                period_milli: 2_650_000,
            },
            color: Rgb { red_milli: 500, green_milli: 800, blue_milli: 900 },
            spin_milli: 70,
        },
        Planet::Neptune => PlanetRecord {
            planet,
            mass_milli: 3_800_000,
            radius_milli: 2_400,
            elements: OrbitalElements {
                semi_major_axis_milli: 180_000,
                eccentricity_milli: 10,
                inclination_millideg: 1_800,
                periapsis_millideg: 276_000,
                mean_anomaly_millideg: 0,
                period_milli: 5_200_000,
            },
            color: Rgb { red_milli: 200, green_milli: 400, blue_milli: 900 },
            spin_milli: 60,
        },
    }
}

/// The rows of the table in the order in which the scene is populated.
pub open spec fn table() -> Seq<PlanetRecord> {
    seq![
        record_of(Planet::Mercury),
        record_of(Planet::Venus),
        record_of(Planet::Earth),
        record_of(Planet::Mars),
        record_of(Planet::Jupiter),
        record_of(Planet::Saturn),
        record_of(Planet::Uranus),
        record_of(Planet::Neptune),
    ]
}

impl Planet {
    /// The display name of the planet.
    pub fn label(self) -> (s: &'static str)
        ensures
            s@ == label_of(self),
    {
        match self {
            Planet::Mercury => "水星",
            Planet::Venus => "金星",
            Planet::Earth => "地球",
            Planet::Mars => "火星",
            Planet::Jupiter => "木星",
            Planet::Saturn => "土星",
            Planet::Uranus => "天王星",
            Planet::Neptune => "海王星",
        }
    }
}

/// Builds one row from its cells, in the order of the table's columns: mass,
/// radius, the six orbital elements, the three colour channels, spin.
fn row(planet: Planet, mass_milli: u64, radius_milli: u64, cells: [u64; 6], rgb: [u64; 3], spin_milli: u64) -> (r: PlanetRecord)
    ensures
        r == (PlanetRecord {
            planet,
            mass_milli,
            radius_milli,
            elements: OrbitalElements {
                semi_major_axis_milli: cells[0],
                eccentricity_milli: cells[1],
                inclination_millideg: cells[2],
                periapsis_millideg: cells[3],
                mean_anomaly_millideg: cells[4],
                period_milli: cells[5],
            },
            color: Rgb { red_milli: rgb[0], green_milli: rgb[1], blue_milli: rgb[2] },
            spin_milli,
        }),
{
    PlanetRecord {
        planet,
        mass_milli,
        radius_milli,
        elements: OrbitalElements {
            semi_major_axis_milli: cells[0],
            eccentricity_milli: cells[1],
            inclination_millideg: cells[2],
            periapsis_millideg: cells[3],
            mean_anomaly_millideg: cells[4],
            period_milli: cells[5],
        },
        color: Rgb { red_milli: rgb[0], green_milli: rgb[1], blue_milli: rgb[2] },
        spin_milli,
    }
}

/// Looks a planet up in the table.
pub fn record(planet: Planet) -> (r: PlanetRecord)
    ensures
        r == record_of(planet),
{
    match planet {
        Planet::Mercury => row(planet, 300_000, 1_000, [20_000, 205, 7_000, 29_000, 0, 7_600], [700, 700, 700], 50),
        Planet::Venus => row(planet, 800_000, 1_500, [30_000, 7, 3_400, 55_000, 0, 19_400], [900, 700, 500], 20),
        Planet::Earth => row(planet, 1_000_000, 1_700, [40_000, 17, 0, 114_000, 0, 31_500], [200, 400, 800], 30),
        Planet::Mars => row(planet, 600_000, 1_300, [55_000, 93, 1_900, 286_000, 0, 59_300], [800, 400, 200], 40),
        Planet::Jupiter => row(planet, 10_000_000, 4_000, [90_000, 48, 1_300, 275_000, 0, 374_300], [800, 700, 500], 100),
        Planet::Saturn => row(planet, 8_000_000, 3_500, [120_000, 56, 2_500, 336_000, 0, 929_000], [900, 800, 600], 90),
        Planet::Uranus => row(planet, 4_000_000, 2_500, [150_000, 46, 800, 99_000, 0, 2_650_000], [500, 800, 900], 70),
        Planet::Neptune => row(planet, 3_800_000, 2_400, [180_000, 10, 1_800, 276_000, 0, 5_200_000], [200, 400, 900], 60),
    }
}

/// The whole table, innermost planet first.
pub fn catalog() -> (rows: Vec<PlanetRecord>)
    ensures
        rows@ == table(),
{
    let mut rows: Vec<PlanetRecord> = Vec::new();
    rows.push(record(Planet::Mercury));
    rows.push(record(Planet::Venus));
    rows.push(record(Planet::Earth));
    rows.push(record(Planet::Mars));
    rows.push(record(Planet::Jupiter));
    rows.push(record(Planet::Saturn));
    rows.push(record(Planet::Uranus));
    rows.push(record(Planet::Neptune));
    rows
}

/// Every row of the table describes its own planet, and its orbit is valid:
/// a closed ellipse with a positive period.
pub proof fn lemma_table_rows_are_valid(planet: Planet)
    ensures
        record_of(planet).planet == planet,
        record_of(planet).elements.valid(),
{
}

/// The table lists each planet exactly once.
pub proof fn lemma_table_lists_each_planet_once(planet: Planet)
    ensures
        exists|i: int| 0 <= i < table().len() && table()[i] == record_of(planet),
        forall|i: int, j: int|
            0 <= i < table().len() && 0 <= j < table().len() && table()[i].planet == table()[j].planet
                ==> i == j,
        table().len() == 8,
{
    let i: int = match planet {
        Planet::Mercury => 0,
        Planet::Venus => 1,
        Planet::Earth => 2,
        Planet::Mars => 3,
        Planet::Jupiter => 4,
        Planet::Saturn => 5,
        Planet::Uranus => 6,
        Planet::Neptune => 7,
    };
    assert(table()[i] == record_of(planet));
}

} // verus!
