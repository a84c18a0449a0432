//! The ball: its energy, the impulses that player input gives it, and the
//! rolling friction that slows it down.
use crate::fixed::{
    abs, added, fmul, lemma_fmul_bound, lemma_fmul_unit, scaled, unit_spec, within, within2, Vec2,
    Vec3, MAX_COORD, SCALE,
};
use vstd::prelude::*;

verus! {

/// Energy of a fresh ball (120 units).
pub const MAX_BALL_ENERGY: i64 = 120_000;

/// Force of a player push per second (10 units).
pub const BALL_FORCE: i64 = 10_000;

/// Speed that a club hit adds along the club's facing (50 units).
pub const CLUB_FORCE: i64 = 50_000;

/// Longest frame that the controller accepts (1000 seconds).
pub const MAX_DT: i64 = 1_000_000;

/// Largest configurable force (a million units).
pub const MAX_FORCE: i64 = 1_000_000_000;

/// The tunable constants of ball movement.
#[derive(Clone, Copy, Debug, PartialEq, Eq, Structural)]
pub struct BallConfig {
    /// Energy of a fresh ball.
    pub max_energy: i64,
    /// Push force per second of input.
    pub force: i64,
}

impl BallConfig {
    pub open spec fn wf(&self) -> bool {
        0 < self.max_energy <= MAX_COORD && 0 <= self.force <= MAX_FORCE
    }

    pub fn new(max_energy: i64, force: i64) -> (r: BallConfig)
        ensures
            r == (BallConfig { max_energy, force }),
    {
        BallConfig { max_energy, force }
    }
}

impl Default for BallConfig {
    fn default() -> (r: BallConfig)
        ensures
            r == (BallConfig { max_energy: MAX_BALL_ENERGY, force: BALL_FORCE }),
    {
        BallConfig { max_energy: MAX_BALL_ENERGY, force: BALL_FORCE }
    }
}

/// The ball's gameplay state: the energy left for player pushes.
#[derive(Clone, Copy, Debug, PartialEq, Eq, Structural)]
pub struct Ball {
    pub energy: i64,
}

/// Linear and angular velocity of a body.
#[derive(Clone, Copy, Debug, PartialEq, Eq, Structural)]
pub struct Velocity {
    pub linvel: Vec3,
    pub angvel: Vec3,
}

/// What one simulation tick hands to the movement step: the player's
/// intent (a unit 2D vector, or none), the camera's forward and right axes,
/// and the frame time in milliseconds.
#[derive(Clone, Copy, Debug, PartialEq, Eq, Structural)]
pub struct MoveTick {
    pub intent: Option<Vec2>,
    pub forward: Vec3,
    pub right: Vec3,
    pub dt: i64,
}

impl MoveTick {
    pub open spec fn wf(&self) -> bool {
        &&& 0 <= self.dt <= MAX_DT
        &&& within(self.forward, SCALE as int)
        &&& within(self.right, SCALE as int)
        &&& (self.intent matches Some(i) ==> within2(i, SCALE as int))
    }
}

/// Magnitude of the push that a frame of `dt` gives at `force`.
pub open spec fn impulse_magnitude(dt: int, force: int) -> int {
    fmul(dt, force)
}

/// Direction of a push: `right * intent.x + forward * intent.y`, with both
/// camera axes flattened to the horizontal plane and normalized, and the
/// sum normalized again. `None` when any of them has no direction.
pub open spec fn movement_direction(intent: Vec2, forward: Vec3, right: Vec3) -> Option<Vec3> {
    match (
        unit_spec(Vec3 { x: forward.x, y: 0, z: forward.z }),
        unit_spec(Vec3 { x: right.x, y: 0, z: right.z }),
    ) {
        (Some(f), Some(r)) => unit_spec(added(scaled(r, intent.x as int), scaled(f, intent.y as int))),
        _ => None,
    }
}

/// One movement tick: the energy afterwards and the impulse given, if any.
/// No impulse without intent or once the energy is used up; otherwise the
/// push costs its own magnitude in energy.
pub open spec fn movement_step(energy: int, config: BallConfig, tick: MoveTick) -> (int, Option<Vec3>) {
    match tick.intent {
        None => (energy, None),
        Some(intent) => {
            if energy <= 0 {
                (energy, None)
            } else {
                match movement_direction(intent, tick.forward, tick.right) {
                    None => (energy, None),
                    Some(d) => {
                        let m = impulse_magnitude(tick.dt as int, config.force as int);
                        (energy - m, Some(scaled(d, m)))
                    },
                }
            }
        },
    }
}

/// The energy after the ticks of `ticks`, in order.
pub open spec fn energy_after(energy: int, config: BallConfig, ticks: Seq<MoveTick>) -> int
    decreases ticks.len(),
{
    if ticks.len() == 0 {
        energy
    } else {
        movement_step(energy_after(energy, config, ticks.drop_last()), config, ticks.last()).0
    }
}

/// Damping factor of rolling friction over `dt`: `max(0, 1 - 0.5 * dt)`.
pub open spec fn damping_factor(dt: int) -> int {
    if SCALE - dt / 2 > 0 { SCALE - dt / 2 } else { 0 }
}

pub open spec fn decayed(v: Velocity, dt: int) -> Velocity {
    Velocity {
        linvel: scaled(v.linvel, damping_factor(dt)),
        angvel: scaled(v.angvel, damping_factor(dt)),
    }
}

proof fn lemma_scaled_unit(v: Vec3, k: int, bound: int)
    requires
        within(v, bound),
        abs(k) <= SCALE,
    ensures
        within(scaled(v, k), bound),
        abs(fmul(v.x as int, k)) <= bound,
        abs(fmul(v.y as int, k)) <= bound,
        abs(fmul(v.z as int, k)) <= bound,
{
    lemma_fmul_unit(v.x as int, k, bound);
    lemma_fmul_unit(v.y as int, k, bound);
    lemma_fmul_unit(v.z as int, k, bound);
}

/// Flattens an axis to the horizontal plane and normalizes it.
fn flat_unit(axis: &Vec3) -> (r: Option<Vec3>)
    requires
        within(*axis, SCALE as int),
    ensures
        r == unit_spec(Vec3 { x: axis.x, y: 0, z: axis.z }),
        r matches Some(u) ==> within(u, SCALE as int),
{
    axis.horizontal().normalize()
}

/// The push direction for a movement intent, relative to the camera.
pub fn movement_direction_of(intent: &Vec2, forward: &Vec3, right: &Vec3) -> (r: Option<Vec3>)
    requires
        within2(*intent, SCALE as int),
        within(*forward, SCALE as int),
        within(*right, SCALE as int),
    ensures
        r == movement_direction(*intent, *forward, *right),
        r matches Some(u) ==> within(u, SCALE as int),
{
    let f = match flat_unit(forward) {
        Some(f) => f,
        None => return None,
    };
    let r = match flat_unit(right) {
        Some(r) => r,
        None => return None,
    };
    proof {
        lemma_scaled_unit(r, intent.x as int, SCALE as int);
        lemma_scaled_unit(f, intent.y as int, SCALE as int);
    }
    let a = r.scale(intent.x);
    let b = f.scale(intent.y);
    let sum = a.add(&b);
    sum.normalize()
}

impl Ball {
    /// A ball with full energy.
    pub fn full(config: &BallConfig) -> (r: Ball)
        ensures
            r.energy == config.max_energy,
    {
        Ball { energy: config.max_energy }
    }

    pub fn with_energy(energy: i64) -> (r: Ball)
        ensures
            r.energy == energy,
    {
        Ball { energy }
    }

    pub fn energy(&self) -> (r: i64)
        ensures
            r == self.energy,
    {
        self.energy
    }

    /// One movement tick: returns the impulse to give the ball, if any, and
    /// takes its magnitude from the energy. Without intent, or once the
    /// energy is at or below zero, there is no impulse and nothing changes.
    pub fn apply_movement(&mut self, config: &BallConfig, tick: &MoveTick) -> (r: Option<Vec3>)
        requires
            config.wf(),
            tick.wf(),
        ensures
            (final(self).energy as int, r) == movement_step(old(self).energy as int, *config, *tick),
            tick.intent is None || old(self).energy <= 0 ==> r is None && final(self).energy == old(
                self,
            ).energy,
            r is Some ==> final(self).energy == old(self).energy - impulse_magnitude(
                tick.dt as int,
                config.force as int,
            ),
    {
        let intent = match tick.intent {
            Some(i) => i,
            None => return None,
        };
        if self.energy <= 0 {
            return None;
        }
        let dir = match movement_direction_of(&intent, &tick.forward, &tick.right) {
            Some(d) => d,
            None => return None,
        };
        proof {
            lemma_fmul_bound(tick.dt as int, config.force as int, MAX_DT as int, MAX_FORCE as int);
        }
        let magnitude = crate::fixed::fixed_mul(tick.dt, config.force);
        proof {
            assert(0 <= magnitude <= MAX_COORD);
            crate::fixed::lemma_scaled_axis(dir, magnitude as int);
        }
        let impulse = dir.scale(magnitude);
        self.energy = self.energy - magnitude;
        Some(impulse)
    }

    /// Height of the energy gauge: energy over maximum, in thousandths of a percent.
    pub fn energy_percent(&self, config: &BallConfig) -> (r: i64)
        requires
            config.wf(),
            abs(self.energy as int) <= MAX_COORD,
        ensures
            r == crate::fixed::div_trunc(self.energy * 100_000, config.max_energy as int),
    {
        proof {
            lemma_div_trunc_le(self.energy as int, 100_000, config.max_energy as int);
        }
        crate::fixed::mul_div(self.energy, 100_000, config.max_energy)
    }
}

proof fn lemma_div_trunc_le(a: int, k: int, d: int)
    requires
        abs(a) <= MAX_COORD,
        0 < k <= 100_000,
        d >= 1,
    ensures
        abs(crate::fixed::div_trunc(a * k, d)) <= 100_000_000_000_000_000,
{
    let p = abs(a * k);
    assert(0 <= p <= 100_000_000_000_000_000) by (nonlinear_arith)
        requires
            abs(a) <= MAX_COORD,
            0 < k <= 100_000,
            p == abs(a * k),
            abs(a) == if a < 0 { -a } else { a },
            p == if a * k < 0 { -(a * k) } else { a * k },
    ;
    vstd::arithmetic::div_mod::lemma_div_is_ordered_by_denominator(p, 1, d);
    vstd::arithmetic::div_mod::lemma_div_pos_is_pos(p, d);
    assert(p / 1 == p);
}

/// Rolling friction over a frame of `dt` milliseconds: linear and angular
/// velocity are both multiplied by `max(0, 1 - 0.5 * dt)`.
pub fn decay_velocity(v: &Velocity, dt: i64) -> (r: Velocity)
    requires
        within(v.linvel, MAX_COORD as int),
        within(v.angvel, MAX_COORD as int),
        0 <= dt,
    ensures
        r == decayed(*v, dt as int),
        within(r.linvel, MAX_COORD as int),
        within(r.angvel, MAX_COORD as int),
{
    let half: i64 = dt / 2;
    let factor: i64 = if half < SCALE { SCALE - half } else { 0 };
    proof {
        lemma_scaled_unit(v.linvel, factor as int, MAX_COORD as int);
        lemma_scaled_unit(v.angvel, factor as int, MAX_COORD as int);
    }
    Velocity { linvel: v.linvel.scale(factor), angvel: v.angvel.scale(factor) }
}

/// A club hit: adds `CLUB_FORCE` along the club's (unit) facing.
pub fn club_hit(velocity: &Vec3, facing: &Vec3) -> (r: Vec3)
    requires
        within(*velocity, MAX_COORD as int),
        within(*facing, SCALE as int),
    ensures
        r == added(*velocity, scaled(*facing, CLUB_FORCE as int)),
{
    proof {
        crate::fixed::lemma_scaled_axis(*facing, CLUB_FORCE as int);
    }
    let push = facing.scale(CLUB_FORCE);
    velocity.add(&push)
}

proof fn lemma_step_non_increasing(energy: int, config: BallConfig, tick: MoveTick)
    requires
        config.wf(),
        tick.wf(),
    ensures
        movement_step(energy, config, tick).0 <= energy,
        energy <= 0 ==> movement_step(energy, config, tick).1 is None,
{
    lemma_fmul_bound(tick.dt as int, config.force as int, MAX_DT as int, MAX_FORCE as int);
}

/// Energy never grows over a run of movement ticks, and once it is at or
/// below zero no tick produces an impulse.
pub proof fn lemma_energy_never_increases(energy: int, config: BallConfig, ticks: Seq<MoveTick>)
    requires
        config.wf(),
        forall|i: int| 0 <= i < ticks.len() ==> #[trigger] ticks[i].wf(),
    ensures
        forall|i: int, j: int|
            0 <= i <= j <= ticks.len() ==> #[trigger] energy_after(energy, config, ticks.take(j))
                <= #[trigger] energy_after(energy, config, ticks.take(i)),
        forall|i: int|
            0 <= i < ticks.len() && energy_after(energy, config, ticks.take(i)) <= 0 ==> (
            #[trigger] movement_step(energy_after(energy, config, ticks.take(i)), config, ticks[i])).1 is None,
        energy_after(energy, config, ticks) <= energy,
{
    assert forall|k: int| 0 <= k < ticks.len() implies energy_after(energy, config, ticks.take(k + 1))
        == movement_step(energy_after(energy, config, ticks.take(k)), config, ticks[k]).0 by {
        assert(ticks.take(k + 1).drop_last() =~= ticks.take(k));
    }
    assert forall|i: int, j: int| 0 <= i <= j <= ticks.len() implies #[trigger] energy_after(
        energy,
        config,
        ticks.take(j),
    ) <= #[trigger] energy_after(energy, config, ticks.take(i)) by {
        lemma_prefix_monotone(energy, config, ticks, i, j);
    }
    assert forall|i: int|
        0 <= i < ticks.len() && energy_after(energy, config, ticks.take(i)) <= 0 implies (
    #[trigger] movement_step(energy_after(energy, config, ticks.take(i)), config, ticks[i])).1 is None by {
        lemma_step_non_increasing(energy_after(energy, config, ticks.take(i)), config, ticks[i]);
    }
    assert(ticks.take(ticks.len() as int) =~= ticks);
    assert(ticks.take(0) =~= Seq::<MoveTick>::empty());
    lemma_prefix_monotone(energy, config, ticks, 0, ticks.len() as int);
}

proof fn lemma_prefix_monotone(energy: int, config: BallConfig, ticks: Seq<MoveTick>, i: int, j: int)
    requires
        config.wf(),
        forall|k: int| 0 <= k < ticks.len() ==> #[trigger] ticks[k].wf(),
        0 <= i <= j <= ticks.len(),
    ensures
        energy_after(energy, config, ticks.take(j)) <= energy_after(energy, config, ticks.take(i)),
    decreases j - i,
{
    if i < j {
        lemma_prefix_monotone(energy, config, ticks, i, j - 1);
        assert(ticks.take(j).drop_last() =~= ticks.take(j - 1));
        assert(ticks.take(j).last() == ticks[j - 1]);
        lemma_step_non_increasing(energy_after(energy, config, ticks.take(j - 1)), config, ticks[j - 1]);
    }
}

} // verus!
