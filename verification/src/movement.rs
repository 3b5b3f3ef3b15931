//! Deterministic movement integration shared by client prediction and
//! server authority.
//!
//! Each direction flag independently adds or subtracts `MOVE_SPEED` along
//! its axis; opposite flags cancel and diagonal motion is the unmodified
//! sum of both axes. The same function runs on both roles, so predicted and
//! authoritative positions can only diverge through packet loss, never
//! through arithmetic. At the very edge of the representable range the step
//! saturates instead of overflowing.

use vstd::prelude::*;

use crate::protocol::Direction;
use crate::protocol::Inputs;
use crate::protocol::PlayerPosition;
use crate::protocol::MOVE_SPEED;

verus! {

/// Signed displacement along the x axis that one input asks for.
pub open spec fn step_dx(input: Inputs) -> int {
    match input {
        Inputs::Direction(d) => (if d.right {
            MOVE_SPEED as int
        } else {
            0
        }) - (if d.left {
            MOVE_SPEED as int
        } else {
            0
        }),
        _ => 0,
    }
}

/// Signed displacement along the y axis that one input asks for.
pub open spec fn step_dy(input: Inputs) -> int {
    match input {
        Inputs::Direction(d) => (if d.up {
            MOVE_SPEED as int
        } else {
            0
        }) - (if d.down {
            MOVE_SPEED as int
        } else {
            0
        }),
        _ => 0,
    }
}

/// Addition that clamps at the ends of the `i64` range.
pub open spec fn sat_add(x: i64, d: int) -> i64 {
    if x + d > i64::MAX {
        i64::MAX
    } else if x + d < i64::MIN {
        i64::MIN
    } else {
        (x + d) as i64
    }
}

/// One integration step, as the contracts state it.
pub open spec fn step_pos(p: PlayerPosition, input: Inputs) -> PlayerPosition {
    PlayerPosition { x: sat_add(p.x, step_dx(input)), y: sat_add(p.y, step_dy(input)) }
}

/// The result of integrating a whole sequence of inputs in order.
pub open spec fn apply_all(p: PlayerPosition, inputs: Seq<Inputs>) -> PlayerPosition
    decreases inputs.len(),
{
    if inputs.len() == 0 {
        p
    } else {
        apply_all(step_pos(p, inputs[0]), inputs.skip(1))
    }
}

/// A position far enough from the ends of the range that a step cannot
/// saturate.
pub open spec fn has_room(p: PlayerPosition) -> bool {
    &&& i64::MIN + MOVE_SPEED <= p.x <= i64::MAX - MOVE_SPEED
    &&& i64::MIN + MOVE_SPEED <= p.y <= i64::MAX - MOVE_SPEED
}

/// Saturating add of a displacement no larger than one step.
fn sat_add_exec(x: i64, d: i64) -> (r: i64)
    requires
        -MOVE_SPEED <= d <= MOVE_SPEED,
    ensures
        r == sat_add(x, d as int),
{
    if d >= 0 {
        if x > i64::MAX - d {
            i64::MAX
        } else {
            x + d
        }
    } else {
        if x < i64::MIN - d {
            i64::MIN
        } else {
            x + d
        }
    }
}

/// Apply one input to a position: each active direction flag moves the
/// position by `MOVE_SPEED` along its axis; spawn, delete and no-input
/// leave it unchanged.
pub fn shared_movement_behaviour(position: &mut PlayerPosition, input: &Inputs)
    ensures
        *final(position) == step_pos(*old(position), *input),
{
    if let Inputs::Direction(direction) = input {
        let mut dx: i64 = 0;
        let mut dy: i64 = 0;
        if direction.up {
            dy = dy + MOVE_SPEED;
        }
        if direction.down {
            dy = dy - MOVE_SPEED;
        }
        if direction.left {
            dx = dx - MOVE_SPEED;
        }
        if direction.right {
            dx = dx + MOVE_SPEED;
        }
        position.x = sat_add_exec(position.x, dx);
        position.y = sat_add_exec(position.y, dy);
    }
}

/// For every combination of direction flags, away from the saturation
/// edge, one step adds exactly the summed per-axis displacement: opposite
/// flags cancel, and a diagonal is the plain sum of both axes.
pub proof fn lemma_direction_integration(p: PlayerPosition, d: Direction)
    requires
        has_room(p),
    ensures
        step_pos(p, Inputs::Direction(d)).x == p.x + (if d.right {
            MOVE_SPEED as int
        } else {
            0
        }) - (if d.left {
            MOVE_SPEED as int
        } else {
            0
        }),
        step_pos(p, Inputs::Direction(d)).y == p.y + (if d.up {
            MOVE_SPEED as int
        } else {
            0
        }) - (if d.down {
            MOVE_SPEED as int
        } else {
            0
        }),
        d.left == d.right ==> step_pos(p, Inputs::Direction(d)).x == p.x,
        d.up == d.down ==> step_pos(p, Inputs::Direction(d)).y == p.y,
{
}

/// Integrating the same input over and over moves exactly one step's
/// displacement per application, as long as the run stays inside the
/// representable range. In particular, when some packets of a uniform run
/// are lost, the final position is the start plus one step for each input
/// actually applied — the divergence from the no-loss run is exactly the
/// dropped count times the step.
pub proof fn lemma_uniform_integration(start: PlayerPosition, inputs: Seq<Inputs>, input: Inputs)
    requires
        forall|i: int| 0 <= i < inputs.len() ==> inputs[i] == input,
        i64::MIN <= start.x + step_dx(input) * inputs.len() <= i64::MAX,
        i64::MIN <= start.y + step_dy(input) * inputs.len() <= i64::MAX,
    ensures
        apply_all(start, inputs).x == start.x + step_dx(input) * inputs.len(),
        apply_all(start, inputs).y == start.y + step_dy(input) * inputs.len(),
    decreases inputs.len(),
{
    let dx = step_dx(input);
    let dy = step_dy(input);
    assert(dx == -(MOVE_SPEED as int) || dx == 0 || dx == MOVE_SPEED as int);
    assert(dy == -(MOVE_SPEED as int) || dy == 0 || dy == MOVE_SPEED as int);
    if inputs.len() == 0 {
    } else {
        let n = inputs.len() as int;
        let tail = inputs.skip(1);
        assert(inputs[0] == input);
        assert(forall|i: int| 0 <= i < tail.len() ==> tail[i] == input);
        assert(dx * n == dx + dx * (n - 1)) by (nonlinear_arith);
        assert(dy * n == dy + dy * (n - 1)) by (nonlinear_arith);
        assert((dx >= 0 && n >= 1) ==> (0 <= dx * (n - 1) && dx <= dx * n)) by (nonlinear_arith);
        assert((dx <= 0 && n >= 1) ==> (dx * (n - 1) <= 0 && dx * n <= dx)) by (nonlinear_arith);
        assert((dy >= 0 && n >= 1) ==> (0 <= dy * (n - 1) && dy <= dy * n)) by (nonlinear_arith);
        assert((dy <= 0 && n >= 1) ==> (dy * (n - 1) <= 0 && dy * n <= dy)) by (nonlinear_arith);
        assert(i64::MIN <= start.x + dx <= i64::MAX);
        assert(i64::MIN <= start.y + dy <= i64::MAX);
        let mid = step_pos(start, input);
        assert(mid.x == start.x + dx && mid.y == start.y + dy);
        lemma_uniform_integration(mid, tail, input);
    }
}

/// A non-direction input never moves a position.
pub proof fn lemma_non_direction_is_still(p: PlayerPosition, input: Inputs)
    requires
        !(input is Direction),
    ensures
        step_pos(p, input) == p,
{
    assert(step_pos(p, input).x == p.x);
    assert(step_pos(p, input).y == p.y);
    assert(step_pos(p, input) =~= p);
}

} // verus!
