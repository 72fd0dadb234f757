use vstd::prelude::*;
use crate::catalog::{catalog, record_of, table, Planet, PlanetRecord};
use crate::config::SimConfig;

verus! {

/// What a body is. This is the one place that says which body is the star:
/// both the orbit pass and the star's spin go by it.
#[derive(Clone, Copy, Debug, PartialEq, Eq, Structural)]
pub enum BodyKind {
    Star,
    Planet,
}

/// The physical record of a body, fixed once the scene is built.
#[derive(Clone, Copy, Debug, PartialEq, Eq, Structural)]
pub struct CelestialBody {
    pub kind: BodyKind,
    pub mass_milli: u64,
    pub radius_milli: u64,
    /// Self-rotation in thousandths of a radian per second of simulated time.
    pub spin_milli: u64,
}

/// One body of the scene: its record and, for a planet, its table row.
#[derive(Clone, Copy, Debug, PartialEq, Eq)]
pub struct SceneEntry {
    pub body: CelestialBody,
    pub row: Option<PlanetRecord>,
}

impl CelestialBody {
    /// The star that a configuration describes.
    pub open spec fn star_of(cfg: SimConfig) -> CelestialBody {
        CelestialBody {
            kind: BodyKind::Star,
            mass_milli: cfg.star_mass_milli,
            radius_milli: cfg.star_radius_milli,
            spin_milli: cfg.star_body_spin_milli,
        }
    }

    /// The body that a table row describes.
    pub open spec fn planet_of(row: PlanetRecord) -> CelestialBody {
        CelestialBody {
            kind: BodyKind::Planet,
            mass_milli: row.mass_milli,
            radius_milli: row.radius_milli,
            spin_milli: row.spin_milli,
        }
    }

    /// Makes the star of a configuration.
    pub fn star(cfg: &SimConfig) -> (body: CelestialBody)
        ensures
            body == Self::star_of(*cfg),
    {
        CelestialBody {
            kind: BodyKind::Star,
            mass_milli: cfg.star_mass_milli,
            radius_milli: cfg.star_radius_milli,
            spin_milli: cfg.star_body_spin_milli,
        }
    }

    /// Makes the body of a table row.
    pub fn planet(row: &PlanetRecord) -> (body: CelestialBody)
        ensures
            body == Self::planet_of(*row),
    {
        CelestialBody {
            kind: BodyKind::Planet,
            mass_milli: row.mass_milli,
            radius_milli: row.radius_milli,
            spin_milli: row.spin_milli,
        }
    }

    /// Whether this body is the star.
    pub fn is_star(&self) -> (yes: bool)
        ensures
            yes == (self.kind == BodyKind::Star),
    {
        match self.kind {
            BodyKind::Star => true,
            BodyKind::Planet => false,
        }
    }
}

/// The scene entry of a table row.
pub open spec fn planet_entry(row: PlanetRecord) -> SceneEntry {
    SceneEntry { body: CelestialBody::planet_of(row), row: Some(row) }
}

/// The bodies of a scene: the star, then the planets in table order.
pub open spec fn scene_of(cfg: SimConfig) -> Seq<SceneEntry> {
    seq![SceneEntry { body: CelestialBody::star_of(cfg), row: None }] + table().map_values(
        |row: PlanetRecord| planet_entry(row),
    )
}

/// Lists the bodies to create when the scene is set up.
pub fn scene(cfg: &SimConfig) -> (entries: Vec<SceneEntry>)
    ensures
        entries@ == scene_of(*cfg),
{
    let rows: Vec<PlanetRecord> = catalog();
    let mut entries: Vec<SceneEntry> = Vec::new();
    entries.push(SceneEntry { body: CelestialBody::star(cfg), row: None });
    let mut i: usize = 0;
    while i < rows.len()
        invariant
            rows@ == table(),
            i <= rows.len(),
            entries@ == seq![SceneEntry { body: CelestialBody::star_of(*cfg), row: None }]
                + table().subrange(0, i as int).map_values(|row: PlanetRecord| planet_entry(row)),
        decreases rows.len() - i,
    {
        let row: PlanetRecord = rows[i];
        entries.push(SceneEntry { body: CelestialBody::planet(&row), row: Some(row) });
        i += 1;
    }
    assert(table().subrange(0, i as int) == table());
    entries
}

/// A scene holds exactly one star, and it comes first; every other entry is
/// a planet with its row, and every planet of the table has its entry.
pub proof fn lemma_scene_has_one_star(cfg: SimConfig)
    ensures
        scene_of(cfg).len() == 9,
        forall|i: int|
            0 <= i < 9 ==> ((#[trigger] scene_of(cfg)[i]).body.kind == BodyKind::Star <==> i == 0),
        forall|i: int|
            0 <= i < 9 ==> ((#[trigger] scene_of(cfg)[i]).row is None <==> i == 0),
        forall|i: int|
            1 <= i < 9 ==> #[trigger] scene_of(cfg)[i] == planet_entry(table()[i - 1]),
{
}

/// Each planet of the table stands in the scene.
pub proof fn lemma_scene_holds_every_planet(cfg: SimConfig, planet: Planet)
    ensures
        exists|i: int| 1 <= i < 9 && scene_of(cfg)[i] == planet_entry(record_of(planet)),
{
    crate::catalog::lemma_table_lists_each_planet_once(planet);
    let k: int = choose|k: int| 0 <= k < table().len() && table()[k] == record_of(planet);
    lemma_scene_has_one_star(cfg);
    assert(scene_of(cfg)[k + 1] == planet_entry(table()[k]));
}

} // verus!
