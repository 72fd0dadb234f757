use vstd::prelude::*;
use crate::body::{scene_of, BodyKind, CelestialBody};
use crate::config::{SimConfig, STAR_SPIN_MILLI};

verus! {

/// How a body turns about its vertical axis during one frame. Either way the
/// turn is added to the orientation that the body already has.
#[derive(Clone, Copy, Debug, PartialEq, Eq, Structural)]
pub enum Spin {
    /// So many thousandths of a radian per second of frame time, whatever
    /// the time scale.
    FrameTime { rate_milli: u64 },
    /// So many thousandths of a radian per second of simulated time, that is
    /// of frame time multiplied by the time scale.
    SimulatedTime { rate_milli: u64 },
}

/// What one frame does to one body.
#[derive(Clone, Copy, Debug, PartialEq, Eq, Structural)]
pub struct BodyUpdate {
    /// Whether the orbit pass advances the body's mean anomaly and
    /// overwrites its position with the one that follows from it.
    pub reposition: bool,
    pub spin: Spin,
}

/// The update that a body is due in every frame: a planet is repositioned
/// and turns at its own rate in simulated time; the star is left where it is
/// and turns at the fixed star rate in frame time.
pub open spec fn update_of(body: CelestialBody) -> BodyUpdate {
    BodyUpdate {
        reposition: body.kind == BodyKind::Planet,
        spin: if body.kind == BodyKind::Star {
            Spin::FrameTime { rate_milli: STAR_SPIN_MILLI }
        } else {
            Spin::SimulatedTime { rate_milli: body.spin_milli }
        },
    }
}

/// Decides what a frame does to a body.
pub fn plan_update(body: &CelestialBody) -> (update: BodyUpdate)
    ensures
        update == update_of(*body),
{
    match body.kind {
        BodyKind::Star => BodyUpdate {
            reposition: false,
            spin: Spin::FrameTime { rate_milli: STAR_SPIN_MILLI },
        },
        BodyKind::Planet => BodyUpdate {
            reposition: true,
            spin: Spin::SimulatedTime { rate_milli: body.spin_milli },
        },
    }
}

/// The orbit pass never writes the position of a star, whatever its record
/// holds: all that a frame does to it is to turn it, at a tenth of a radian
/// per second of frame time.
pub proof fn lemma_star_is_only_turned(body: CelestialBody)
    requires
        body.kind == BodyKind::Star,
    ensures
        !update_of(body).reposition,
        update_of(body).spin == (Spin::FrameTime { rate_milli: 100 }),
{
}

/// In a scene the frame repositions every body but the first, which is the
/// star: the planets, each turning at the rate of its table row.
pub proof fn lemma_scene_moves_the_planets_only(cfg: SimConfig)
    ensures
        forall|i: int|
            0 <= i < scene_of(cfg).len() ==> (update_of(#[trigger] scene_of(cfg)[i].body).reposition
                <==> i != 0),
        forall|i: int|
            1 <= i < scene_of(cfg).len() ==> update_of(#[trigger] scene_of(cfg)[i].body).spin == (
            Spin::SimulatedTime { rate_milli: scene_of(cfg)[i].row->0.spin_milli }),
{
    crate::body::lemma_scene_has_one_star(cfg);
}

} // verus!
