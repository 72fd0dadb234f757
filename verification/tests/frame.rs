use orrery::body::{scene, BodyKind, CelestialBody};
use orrery::catalog::{record, Planet};
use orrery::config::SimConfig;
use orrery::frame::{plan_update, BodyUpdate, Spin};

#[test]
fn star_is_never_repositioned() {
    let star = CelestialBody::star(&SimConfig::standard());
    let update = plan_update(&star);
    assert!(!update.reposition);
    assert_eq!(update.spin, Spin::FrameTime { rate_milli: 100 });
}

#[test]
fn star_spin_ignores_its_own_record() {
    let star = CelestialBody {
        kind: BodyKind::Star,
        mass_milli: 1,
        radius_milli: 1,
        spin_milli: 12_345,
    };
    assert_eq!(
        plan_update(&star),
        BodyUpdate { reposition: false, spin: Spin::FrameTime { rate_milli: 100 } }
    );
}

#[test]
fn planet_is_repositioned_and_spins_at_its_own_rate() {
    let mars = CelestialBody::planet(&record(Planet::Mars));
    assert_eq!(
        plan_update(&mars),
        BodyUpdate { reposition: true, spin: Spin::SimulatedTime { rate_milli: 40 } }
    );
}

#[test]
fn one_frame_of_the_standard_scene() {
    let entries = scene(&SimConfig::standard());
    let repositioned = entries.iter().filter(|e| plan_update(&e.body).reposition).count();
    assert_eq!(repositioned, 8);
    for entry in entries.iter() {
        let update = plan_update(&entry.body);
        match entry.row {
            None => {
                assert_eq!(
                    update,
                    BodyUpdate { reposition: false, spin: Spin::FrameTime { rate_milli: 100 } }
                );
            }
            Some(row) => {
                assert_eq!(
                    update,
                    BodyUpdate {
                        reposition: true,
                        spin: Spin::SimulatedTime { rate_milli: row.spin_milli },
                    }
                );
            }
        }
    }
}
