//! Player input turned into actions: a movement intent, a camera drag and
//! one-off requests.
use crate::fixed::{unit_spec, within2, Vec2, Vec3, MAX_COORD, SCALE};
use crate::round::GameState;
use vstd::prelude::*;

verus! {

/// Most mouse-motion events that one frame may report.
pub const MAX_EVENTS: usize = 1_000_000;

/// The actions of the current frame.
#[derive(Clone, Copy, Debug, PartialEq, Eq, Structural)]
pub struct Actions {
    /// Desired push direction, a unit vector (x: right, y: forward).
    pub player_movement: Option<Vec2>,
    /// Mouse motion summed over the frame.
    pub camera_movement: Option<Vec2>,
}

/// One-off requests of the player.
#[derive(Clone, Copy, Debug, PartialEq, Eq, Structural)]
pub enum BurstActions {
    /// Reload the current level.
    Reset,
}

/// Which movement keys are held.
#[derive(Clone, Copy, Debug, PartialEq, Eq, Structural)]
pub struct MovementKeys {
    pub up: bool,
    pub down: bool,
    pub left: bool,
    pub right: bool,
}

pub open spec fn key_axis(positive: bool, negative: bool) -> int {
    (if positive { SCALE as int } else { 0 }) - (if negative { SCALE as int } else { 0 })
}

/// The movement intent of the held keys: `(right - left, up - down)`,
/// normalized; none when the keys cancel out.
pub open spec fn movement_of(keys: MovementKeys) -> Option<Vec2> {
    let x = key_axis(keys.right, keys.left);
    let y = key_axis(keys.up, keys.down);
    if x == 0 && y == 0 {
        None
    } else {
        match unit_spec(Vec3 { x: x as i64, y: 0, z: y as i64 }) {
            Some(u) => Some(Vec2 { x: u.x, y: u.z }),
            None => None,
        }
    }
}

pub open spec fn sum_motion(s: Seq<Vec2>) -> Vec2
    decreases s.len(),
{
    if s.len() == 0 {
        Vec2 { x: 0, y: 0 }
    } else {
        let p = sum_motion(s.drop_last());
        Vec2 { x: (p.x + s.last().x) as i64, y: (p.y + s.last().y) as i64 }
    }
}

fn key_value(positive: bool, negative: bool) -> (r: i64)
    ensures
        r == key_axis(positive, negative),
{
    let p: i64 = if positive { SCALE } else { 0 };
    let n: i64 = if negative { SCALE } else { 0 };
    p - n
}

/// Sets this frame's actions from the held keys and the mouse motion: the
/// movement intent is the normalized key direction (none when it is zero),
/// the camera movement the sum of the motions (none when there are none).
pub fn set_movement_actions(actions: &mut Actions, keys: &MovementKeys, mouse_motion: &Vec<Vec2>)
    requires
        mouse_motion@.len() <= MAX_EVENTS,
        forall|i: int| 0 <= i < mouse_motion@.len() ==> within2(#[trigger] mouse_motion@[i], MAX_COORD as int),
    ensures
        final(actions).player_movement == movement_of(*keys),
        final(actions).camera_movement == if mouse_motion@.len() == 0 {
            None
        } else {
            Some(sum_motion(mouse_motion@))
        },
        final(actions).player_movement matches Some(m) ==> within2(m, SCALE as int),
{
    let x = key_value(keys.right, keys.left);
    let y = key_value(keys.up, keys.down);
    if x == 0 && y == 0 {
        actions.player_movement = None;
    } else {
        let v = Vec3 { x, y: 0, z: y };
        actions.player_movement = match v.normalize() {
            Some(u) => Some(Vec2 { x: u.x, y: u.z }),
            None => None,
        };
    }
    if mouse_motion.len() == 0 {
        actions.camera_movement = None;
    } else {
        let mut sum = Vec2::zero();
        let mut i: usize = 0;
        while i < mouse_motion.len()
            invariant
                i <= mouse_motion@.len() <= MAX_EVENTS,
                forall|j: int| 0 <= j < mouse_motion@.len() ==> within2(#[trigger] mouse_motion@[j], MAX_COORD as int),
                sum == sum_motion(mouse_motion@.take(i as int)),
                within2(sum, MAX_COORD * i),
            decreases mouse_motion.len() - i,
        {
            let m = mouse_motion[i];
            proof {
                assert(mouse_motion@.take(i + 1).drop_last() =~= mouse_motion@.take(i as int));
                assert(MAX_COORD * (i + 1) <= MAX_COORD * MAX_EVENTS) by (nonlinear_arith)
                    requires
                        i < MAX_EVENTS,
                ;
                assert(MAX_COORD * (i + 1) == MAX_COORD * i + MAX_COORD) by (nonlinear_arith);
            }
            sum = Vec2 { x: sum.x + m.x, y: sum.y + m.y };
            i = i + 1;
        }
        assert(mouse_motion@.take(mouse_motion@.len() as int) =~= mouse_motion@);
        actions.camera_movement = Some(sum);
    }
}

/// The phase that this frame's one-off requests lead to: a reset reloads
/// the level.
pub fn reset(burst_actions: &Vec<BurstActions>) -> (r: Option<GameState>)
    ensures
        r == if exists|i: int| 0 <= i < burst_actions@.len() && #[trigger] burst_actions@[i]
            == BurstActions::Reset {
            Some(GameState::LoadLevel)
        } else {
            None
        },
{
    let mut i: usize = 0;
    while i < burst_actions.len()
        invariant
            i <= burst_actions@.len(),
            forall|j: int| 0 <= j < i ==> #[trigger] burst_actions@[j] != BurstActions::Reset,
        decreases burst_actions.len() - i,
    {
        if burst_actions[i] == BurstActions::Reset {
            return Some(GameState::LoadLevel);
        }
        i = i + 1;
    }
    None
}

} // verus!
