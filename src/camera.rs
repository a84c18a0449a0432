//! The orbit camera: yaw and pitch steered by the mouse, and a distance
//! that shrinks when something stands between the ball and the camera.
use crate::ball::MAX_DT;
use crate::fixed::{abs, added, fmul, lemma_fmul_bound, scaled, within, within2, Vec2, Vec3, MAX_COORD, SCALE};
use vstd::prelude::*;

verus! {

/// Radians of turn per unit of mouse motion per second (0.2).
pub const SENSITIVITY: i64 = 200;

/// Yaw is kept within one turn of this many (milli)radians, by remainder.
pub const YAW_WRAP: i64 = 360_000;

/// Lowest pitch (-1.1 radians).
pub const PITCH_MIN: i64 = -1100;

/// Highest pitch (0.2 radians).
pub const PITCH_MAX: i64 = 200;

/// Gap kept between the camera and an obstacle in front of it (2 units).
pub const CAMERA_GAP: i64 = 2000;

/// Orbit of the camera around the ball; angles in thousandths of a radian.
#[derive(Clone, Copy, Debug, PartialEq, Eq, Structural)]
pub struct CameraControls {
    pub radius: i64,
    pub pitch: i64,
    pub yaw: i64,
}

/// Remainder of a division that rounds toward zero (its sign is the sign of `a`).
pub open spec fn rem_trunc(a: int, m: int) -> int {
    if a >= 0 { a % m } else { -((-a) % m) }
}

pub open spec fn clamp(a: int, lo: int, hi: int) -> int {
    if a < lo { lo } else if a > hi { hi } else { a }
}

/// Camera turn over a frame: movement times sensitivity times frame time.
pub open spec fn turn(m: int, dt: int) -> int {
    fmul(fmul(m, SENSITIVITY as int), dt)
}

/// The controls after a frame of mouse motion `m` (zero when none).
pub open spec fn steered(c: CameraControls, m: Vec2, dt: int) -> CameraControls {
    CameraControls {
        radius: c.radius,
        yaw: rem_trunc(c.yaw - turn(m.x as int, dt), YAW_WRAP as int) as i64,
        pitch: clamp(c.pitch - turn(m.y as int, dt), PITCH_MIN as int, PITCH_MAX as int) as i64,
    }
}

/// Where the camera stands: back from the target along `direction` by
/// the radius, or short of an obstacle hit at distance `hit` by `CAMERA_GAP`.
pub open spec fn camera_position_spec(target: Vec3, direction: Vec3, radius: int, hit: Option<i64>) -> Vec3 {
    match hit {
        Some(toi) => added(target, scaled(direction, toi - CAMERA_GAP)),
        None => added(target, scaled(direction, radius)),
    }
}

proof fn lemma_turn_bound(m: int, dt: int)
    requires
        abs(m) <= MAX_COORD,
        0 <= dt <= MAX_DT,
    ensures
        abs(fmul(m, SENSITIVITY as int)) <= MAX_COORD,
        abs(turn(m, dt)) <= MAX_COORD * 1000,
{
    lemma_fmul_bound(m, SENSITIVITY as int, MAX_COORD as int, SENSITIVITY as int);
    vstd::arithmetic::div_mod::lemma_div_is_ordered(MAX_COORD * SENSITIVITY, MAX_COORD * SCALE, SCALE as int);
    vstd::arithmetic::div_mod::lemma_div_by_multiple(MAX_COORD as int, SCALE as int);
    lemma_fmul_bound(fmul(m, SENSITIVITY as int), dt, MAX_COORD as int, MAX_DT as int);
    vstd::arithmetic::div_mod::lemma_div_by_multiple(MAX_COORD * 1000, SCALE as int);
}

fn rem_wrap(a: i64) -> (r: i64)
    requires
        a > i64::MIN,
    ensures
        r == rem_trunc(a as int, YAW_WRAP as int),
        abs(r as int) < YAW_WRAP,
{
    if a >= 0 {
        a % YAW_WRAP
    } else {
        let m: i64 = -a;
        -(m % YAW_WRAP)
    }
}

impl CameraControls {
    pub open spec fn wf(&self) -> bool {
        &&& 0 <= self.radius <= MAX_COORD
        &&& PITCH_MIN <= self.pitch <= PITCH_MAX
        &&& abs(self.yaw as int) < YAW_WRAP
    }

    /// The starting orbit: level yaw, a slight downward pitch, 27 units away.
    pub fn new() -> (r: CameraControls)
        ensures
            r == (CameraControls { radius: 27_000, pitch: -500i64, yaw: 0 }),
            r.wf(),
    {
        CameraControls { radius: 27_000, pitch: -500, yaw: 0 }
    }

    /// Turns the camera by a frame of mouse motion: yaw and pitch decrease
    /// by motion times sensitivity times frame time; yaw wraps by
    /// remainder, pitch is clamped to `[PITCH_MIN, PITCH_MAX]`.
    pub fn camera_control(&mut self, movement: Option<Vec2>, dt: i64)
        requires
            old(self).wf(),
            0 <= dt <= MAX_DT,
            movement matches Some(m) ==> within2(m, MAX_COORD as int),
        ensures
            *final(self) == steered(
                *old(self),
                match movement {
                    Some(m) => m,
                    None => Vec2 { x: 0, y: 0 },
                },
                dt as int,
            ),
            final(self).wf(),
    {
        let m = match movement {
            Some(m) => m,
            None => Vec2::zero(),
        };
        proof {
            lemma_turn_bound(m.x as int, dt as int);
            lemma_turn_bound(m.y as int, dt as int);
        }
        let dx = crate::fixed::fixed_mul(crate::fixed::fixed_mul(m.x, SENSITIVITY), dt);
        let dy = crate::fixed::fixed_mul(crate::fixed::fixed_mul(m.y, SENSITIVITY), dt);
        self.yaw = rem_wrap(self.yaw - dx);
        let p = self.pitch - dy;
        self.pitch = if p < PITCH_MIN {
            PITCH_MIN
        } else if p > PITCH_MAX {
            PITCH_MAX
        } else {
            p
        };
    }
}

/// Places the camera behind the target along `direction` (a unit vector
/// pointing from the target to the camera): at `radius`, or, when a ray
/// along it hit something at distance `hit`, `CAMERA_GAP` short of it.
pub fn camera_position(target: &Vec3, direction: &Vec3, radius: i64, hit: Option<i64>) -> (r: Vec3)
    requires
        within(*target, MAX_COORD as int),
        within(*direction, SCALE as int),
        0 <= radius <= MAX_COORD,
        hit matches Some(toi) ==> 0 <= toi <= MAX_COORD,
    ensures
        r == camera_position_spec(*target, *direction, radius as int, hit),
{
    let distance: i64 = match hit {
        Some(toi) => toi - CAMERA_GAP,
        None => radius,
    };
    proof {
        lemma_fmul_bound(direction.x as int, distance as int, SCALE as int, MAX_COORD as int);
        lemma_fmul_bound(direction.y as int, distance as int, SCALE as int, MAX_COORD as int);
        lemma_fmul_bound(direction.z as int, distance as int, SCALE as int, MAX_COORD as int);
        vstd::arithmetic::div_mod::lemma_div_by_multiple(MAX_COORD as int, SCALE as int);
        assert(SCALE * MAX_COORD == MAX_COORD * SCALE);
    }
    let offset = direction.scale(distance);
    target.add(&offset)
}

} // verus!
