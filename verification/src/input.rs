use vstd::prelude::*;

verus! {

/// Which of the six movement keys are held down in a frame.
#[derive(Clone, Copy, Debug, PartialEq, Eq, Structural)]
pub struct KeyState {
    pub forward: bool,
    pub back: bool,
    pub left: bool,
    pub right: bool,
    pub up: bool,
    pub down: bool,
}

/// A basis vector of the camera's own frame.
#[derive(Clone, Copy, Debug, PartialEq, Eq, Structural)]
pub enum Axis {
    Forward,
    Right,
    Up,
}

/// One contribution to the direction of travel: a basis vector, added when
/// `positive` and subtracted when not.
#[derive(Clone, Copy, Debug, PartialEq, Eq, Structural)]
pub struct Step {
    pub axis: Axis,
    pub positive: bool,
}

/// Speeds of the camera, in thousandths: units per second for travel,
/// radians per unit of pointer motion for looking around.
#[derive(Clone, Copy, Debug, PartialEq, Eq, Structural)]
pub struct Player {
    pub move_speed_milli: u64,
    pub look_speed_milli: u64,
}

/// The step of a key if it is held, nothing if not.
pub open spec fn held(pressed: bool, axis: Axis, positive: bool) -> Seq<Step> {
    if pressed {
        seq![Step { axis, positive }]
    } else {
        Seq::empty()
    }
}

/// The steps of a frame, in the order in which the keys are read: forward,
/// back, left, right, up, down.
pub open spec fn steps_of(keys: KeyState) -> Seq<Step> {
    held(keys.forward, Axis::Forward, true) + held(keys.back, Axis::Forward, false) + held(
        keys.left,
        Axis::Right,
        false,
    ) + held(keys.right, Axis::Right, true) + held(keys.up, Axis::Up, true) + held(
        keys.down,
        Axis::Up,
        false,
    )
}

/// The signed number of basis vectors that a step adds along `axis`.
pub open spec fn weight(step: Step, axis: Axis) -> int {
    if step.axis != axis {
        0
    } else if step.positive {
        1
    } else {
        -1
    }
}

/// The coefficient of `axis` in the sum of the steps.
pub open spec fn net(steps: Seq<Step>, axis: Axis) -> int
    decreases steps.len(),
{
    if steps.len() == 0 {
        0
    } else {
        net(steps.drop_last(), axis) + weight(steps.last(), axis)
    }
}

/// 1 for a held key, 0 for a released one.
pub open spec fn count(pressed: bool) -> int {
    if pressed {
        1
    } else {
        0
    }
}

impl KeyState {
    /// No key is held.
    pub open spec fn idle(self) -> bool {
        !self.forward && !self.back && !self.left && !self.right && !self.up && !self.down
    }

    /// The state in which no key is held.
    pub fn released() -> (keys: KeyState)
        ensures
            keys.idle(),
    {
        KeyState { forward: false, back: false, left: false, right: false, up: false, down: false }
    }

    /// Tests whether no key is held.
    pub fn is_idle(&self) -> (yes: bool)
        ensures
            yes == self.idle(),
    {
        !self.forward && !self.back && !self.left && !self.right && !self.up && !self.down
    }
}

impl Player {
    /// The camera speeds of the standard scene.
    pub fn standard() -> (player: Player)
        ensures
            player == (Player { move_speed_milli: 100_000, look_speed_milli: 1 }),
    {
        Player { move_speed_milli: 100_000, look_speed_milli: 1 }
    }
}

/// Turns the keys of a frame into the steps that make up the direction of
/// travel. The caller adds or subtracts the basis vectors in this order,
/// and moves only if the sum is not the zero vector.
pub fn movement_steps(keys: &KeyState) -> (steps: Vec<Step>)
    ensures
        steps@ == steps_of(*keys),
{
    let mut steps: Vec<Step> = Vec::new();
    if keys.forward {
        steps.push(Step { axis: Axis::Forward, positive: true });
    }
    if keys.back {
        steps.push(Step { axis: Axis::Forward, positive: false });
    }
    if keys.left {
        steps.push(Step { axis: Axis::Right, positive: false });
    }
    if keys.right {
        steps.push(Step { axis: Axis::Right, positive: true });
    }
    if keys.up {
        steps.push(Step { axis: Axis::Up, positive: true });
    }
    if keys.down {
        steps.push(Step { axis: Axis::Up, positive: false });
    }
    steps
}

/// The net coefficient of a concatenation is the sum of the parts'.
proof fn lemma_net_concat(a: Seq<Step>, b: Seq<Step>, axis: Axis)
    ensures
        net(a + b, axis) == net(a, axis) + net(b, axis),
    decreases b.len(),
{
    if b.len() == 0 {
        assert(a + b == a);
    } else {
        assert((a + b).drop_last() == a + b.drop_last());
        lemma_net_concat(a, b.drop_last(), axis);
    }
}

/// The net coefficient of one key's contribution.
proof fn lemma_net_held(pressed: bool, of: Axis, positive: bool, axis: Axis)
    ensures
        net(held(pressed, of, positive), axis) == if pressed {
            weight(Step { axis: of, positive }, axis)
        } else {
            0
        },
{
    if pressed {
        let s: Seq<Step> = held(pressed, of, positive);
        assert(s.drop_last().len() == 0);
        assert(net(s.drop_last(), axis) == 0);
    }
}

/// With no key held a frame yields no step, so the camera stays where it is;
/// and only then.
pub proof fn lemma_no_keys_no_steps(keys: KeyState)
    ensures
        steps_of(keys).len() == 0 <==> keys.idle(),
{
}

/// There is one step for each held key.
pub proof fn lemma_one_step_per_key(keys: KeyState)
    ensures
        steps_of(keys).len() == count(keys.forward) + count(keys.back) + count(keys.left) + count(
            keys.right,
        ) + count(keys.up) + count(keys.down),
{
}

/// Along each axis the steps sum to the key that points along it minus the
/// key that points against it: two opposite keys cancel.
pub proof fn lemma_opposite_keys_cancel(keys: KeyState)
    ensures
        net(steps_of(keys), Axis::Forward) == count(keys.forward) - count(keys.back),
        net(steps_of(keys), Axis::Right) == count(keys.right) - count(keys.left),
        net(steps_of(keys), Axis::Up) == count(keys.up) - count(keys.down),
{
    let k0 = held(keys.forward, Axis::Forward, true);
    let k1 = held(keys.back, Axis::Forward, false);
    let k2 = held(keys.left, Axis::Right, false);
    let k3 = held(keys.right, Axis::Right, true);
    let k4 = held(keys.up, Axis::Up, true);
    let k5 = held(keys.down, Axis::Up, false);
    assert forall|axis: Axis|
        net(steps_of(keys), axis) == net(k0, axis) + net(k1, axis) + net(k2, axis) + net(k3, axis)
            + net(k4, axis) + net(k5, axis) by {
        lemma_net_concat(k0, k1, axis);
        lemma_net_concat(k0 + k1, k2, axis);
        lemma_net_concat(k0 + k1 + k2, k3, axis);
        lemma_net_concat(k0 + k1 + k2 + k3, k4, axis);
        lemma_net_concat(k0 + k1 + k2 + k3 + k4, k5, axis);
    }
    assert forall|axis: Axis|
        #![trigger net(k0, axis)]
        net(k0, axis) == count(keys.forward) * weight(Step { axis: Axis::Forward, positive: true }, axis)
            && net(k1, axis) == count(keys.back) * weight(Step { axis: Axis::Forward, positive: false }, axis)
            && net(k2, axis) == count(keys.left) * weight(Step { axis: Axis::Right, positive: false }, axis)
            && net(k3, axis) == count(keys.right) * weight(Step { axis: Axis::Right, positive: true }, axis)
            && net(k4, axis) == count(keys.up) * weight(Step { axis: Axis::Up, positive: true }, axis)
            && net(k5, axis) == count(keys.down) * weight(Step { axis: Axis::Up, positive: false }, axis) by {
        lemma_net_held(keys.forward, Axis::Forward, true, axis);
        lemma_net_held(keys.back, Axis::Forward, false, axis);
        lemma_net_held(keys.left, Axis::Right, false, axis);
        lemma_net_held(keys.right, Axis::Right, true, axis);
        lemma_net_held(keys.up, Axis::Up, true, axis);
        lemma_net_held(keys.down, Axis::Up, false, axis);
    }
}

} // verus!
