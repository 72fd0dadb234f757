use orrery::body::{scene, BodyKind, CelestialBody, SceneEntry};
use orrery::catalog::{catalog, record, Planet};
use orrery::config::{SimConfig, KEPLER_ROUNDS, PITCH_LIMIT_MILLI, STAR_SPIN_MILLI};

#[test]
fn standard_configuration() {
    let cfg = SimConfig::standard();
    assert_eq!(
        cfg,
        SimConfig {
            gravity_nano: 66_743,
            time_scale_milli: 1_000,
            star_mass_milli: 100_000_000_000,
            star_radius_milli: 10_000,
            star_body_spin_milli: 10,
            min_distance_milli: 1_000,
        }
    );
}

#[test]
fn standard_configuration_in_single_precision() {
    let cfg = SimConfig::standard();
    assert_eq!((cfg.gravity_nano as f64 / 1.0e9) as f32, 6.67430e-5_f32);
    assert_eq!((cfg.time_scale_milli as f64 / 1000.0) as f32, 1.0_f32);
    assert_eq!((cfg.star_mass_milli as f64 / 1000.0) as f32, 1.0e8_f32);
    assert_eq!((cfg.star_radius_milli as f64 / 1000.0) as f32, 10.0_f32);
    assert_eq!((cfg.star_body_spin_milli as f64 / 1000.0) as f32, 0.01_f32);
    assert_eq!((cfg.min_distance_milli as f64 / 1000.0) as f32, 1.0_f32);
}

#[test]
fn fixed_rates_and_limits() {
    assert_eq!(KEPLER_ROUNDS, 3);
    assert_eq!((STAR_SPIN_MILLI as f64 / 1000.0) as f32, 0.1_f32);
    assert_eq!((PITCH_LIMIT_MILLI as f64 / 1000.0) as f32, 0.7_f32);
}

#[test]
fn star_body() {
    let star = CelestialBody::star(&SimConfig::standard());
    assert_eq!(
        star,
        CelestialBody {
            kind: BodyKind::Star,
            mass_milli: 100_000_000_000,
            radius_milli: 10_000,
            spin_milli: 10,
        }
    );
    assert!(star.is_star());
}

#[test]
fn star_body_follows_the_configuration() {
    let mut cfg = SimConfig::standard();
    cfg.star_mass_milli = 5;
    cfg.star_radius_milli = 6;
    cfg.star_body_spin_milli = 7;
    let star = CelestialBody::star(&cfg);
    assert_eq!(
        star,
        CelestialBody { kind: BodyKind::Star, mass_milli: 5, radius_milli: 6, spin_milli: 7 }
    );
}

#[test]
fn planet_body() {
    let jupiter = CelestialBody::planet(&record(Planet::Jupiter));
    assert_eq!(
        jupiter,
        CelestialBody {
            kind: BodyKind::Planet,
            mass_milli: 10_000_000,
            radius_milli: 4_000,
            spin_milli: 100,
        }
    );
    assert!(!jupiter.is_star());
}

#[test]
fn scene_has_exactly_one_star() {
    let entries = scene(&SimConfig::standard());
    assert_eq!(entries.len(), 9);
    let stars = entries.iter().filter(|e| e.body.kind == BodyKind::Star).count();
    assert_eq!(stars, 1);
    assert_eq!(entries[0].body.kind, BodyKind::Star);
    assert_eq!(entries[0].row, None);
}

#[test]
fn scene_lists_the_planets_in_table_order() {
    let cfg = SimConfig::standard();
    let entries = scene(&cfg);
    let rows = catalog();
    assert_eq!(entries[0], SceneEntry { body: CelestialBody::star(&cfg), row: None });
    for (entry, row) in entries[1..].iter().zip(rows.iter()) {
        assert_eq!(*entry, SceneEntry { body: CelestialBody::planet(row), row: Some(*row) });
        assert_eq!(entry.body.kind, BodyKind::Planet);
    }
    assert_eq!(entries[3].row.map(|row| row.planet), Some(Planet::Earth));
    assert_eq!(entries[8].row.map(|row| row.planet), Some(Planet::Neptune));
}
