//! The round: win/lose evaluation, the delay after a win, the level index
//! and the game phases around a round.
use crate::ball::{Ball, BallConfig};
use vstd::prelude::*;

verus! {

/// A ball at or below this height has fallen off the course (-10 units).
pub const FLOOR_THRESHOLD: i64 = -10_000;

/// A ball at or below this speed has come to rest (0.05 units per second).
pub const STOP_THRESHOLD: i64 = 50;

/// Delay between a win and the next level, in milliseconds.
pub const WIN_DELAY_MS: u64 = 3000;

/// How the current round stands.
#[derive(Clone, Copy, Debug, PartialEq, Eq, Structural)]
pub enum RoundOutcome {
    InProgress,
    Won,
    Lost,
}

/// The phases of the game.
#[derive(Clone, Copy, Debug, PartialEq, Eq, Structural)]
pub enum GameState {
    /// Assets are loading.
    Loading,
    /// A round is being played.
    Playing,
    /// The level at the level index is to be loaded.
    LoadLevel,
    /// The main menu.
    Menu,
    /// The screen after the last level.
    Win,
}

/// Which level to load next, an index into the list of levels.
#[derive(Clone, Copy, Debug, PartialEq, Eq, Structural)]
pub struct LevelIndex(pub usize);

/// The outcome that a tick's readings give: a hole contact wins whatever
/// else holds; a fall below the floor, or a ball out of energy that has
/// come to rest, loses.
pub open spec fn outcome_of(height: int, speed: int, energy: int, hole_contact: bool) -> RoundOutcome {
    if hole_contact {
        RoundOutcome::Won
    } else if height <= FLOOR_THRESHOLD || (energy <= 0 && speed <= STOP_THRESHOLD) {
        RoundOutcome::Lost
    } else {
        RoundOutcome::InProgress
    }
}

/// Decides the round from the ball's height, its speed, its energy and
/// whether it touched the hole.
pub fn evaluate_outcome(height: i64, speed: i64, energy: i64, hole_contact: bool) -> (r: RoundOutcome)
    ensures
        r == outcome_of(height as int, speed as int, energy as int, hole_contact),
        hole_contact ==> r == RoundOutcome::Won,
        !hole_contact && height <= FLOOR_THRESHOLD ==> r == RoundOutcome::Lost,
        !hole_contact && energy <= 0 && speed <= STOP_THRESHOLD ==> r == RoundOutcome::Lost,
        !hole_contact && height > FLOOR_THRESHOLD && (energy > 0 || speed > STOP_THRESHOLD) ==> r
            == RoundOutcome::InProgress,
{
    if hole_contact {
        RoundOutcome::Won
    } else if height <= FLOOR_THRESHOLD || (energy <= 0 && speed <= STOP_THRESHOLD) {
        RoundOutcome::Lost
    } else {
        RoundOutcome::InProgress
    }
}

/// A one-shot timer counted in milliseconds.
#[derive(Clone, Copy, Debug, PartialEq, Eq, Structural)]
pub struct RoundTimer {
    pub duration: u64,
    pub elapsed: u64,
}

impl RoundTimer {
    pub open spec fn wf(&self) -> bool {
        self.elapsed <= self.duration
    }

    pub open spec fn finished_spec(&self) -> bool {
        self.elapsed >= self.duration
    }

    /// The timer after `dt` more milliseconds, and whether it finished on
    /// that tick. A finished timer stays as it is.
    pub open spec fn ticked(&self, dt: int) -> (RoundTimer, bool) {
        if self.finished_spec() {
            (*self, false)
        } else if dt >= self.duration - self.elapsed {
            (RoundTimer { duration: self.duration, elapsed: self.duration }, true)
        } else {
            (RoundTimer { duration: self.duration, elapsed: (self.elapsed + dt) as u64 }, false)
        }
    }

    pub fn new(duration: u64) -> (r: RoundTimer)
        ensures
            r == (RoundTimer { duration, elapsed: 0 }),
            r.wf(),
    {
        RoundTimer { duration, elapsed: 0 }
    }

    pub fn finished(&self) -> (r: bool)
        ensures
            r == self.finished_spec(),
    {
        self.elapsed >= self.duration
    }

    /// Advances the timer; returns true exactly on the tick that finishes it.
    pub fn tick(&mut self, dt: u64) -> (r: bool)
        requires
            old(self).wf(),
        ensures
            (*final(self), r) == old(self).ticked(dt as int),
            final(self).wf(),
    {
        if self.elapsed >= self.duration {
            false
        } else if dt >= self.duration - self.elapsed {
            self.elapsed = self.duration;
            true
        } else {
            self.elapsed = self.elapsed + dt;
            false
        }
    }
}

/// What one tick of the round reports to the game around it.
#[derive(Clone, Copy, Debug, PartialEq, Eq, Structural)]
pub enum RoundEvent {
    /// Nothing changed.
    Nothing,
    /// The ball reached the hole; the win delay has started.
    Won,
    /// The round is lost; the level is to be reloaded.
    Lost,
    /// The win delay is over and another level follows.
    NextLevel,
    /// The win delay is over and it was the last level.
    AllLevelsDone,
}

pub open spec fn event_state(e: RoundEvent) -> Option<GameState> {
    match e {
        RoundEvent::Lost => Some(GameState::LoadLevel),
        RoundEvent::NextLevel => Some(GameState::LoadLevel),
        RoundEvent::AllLevelsDone => Some(GameState::Menu),
        _ => None,
    }
}

impl RoundEvent {
    /// The game phase that the event leads to, if any.
    pub fn next_state(&self) -> (r: Option<GameState>)
        ensures
            r == event_state(*self),
    {
        match self {
            RoundEvent::Lost => Some(GameState::LoadLevel),
            RoundEvent::NextLevel => Some(GameState::LoadLevel),
            RoundEvent::AllLevelsDone => Some(GameState::Menu),
            _ => None,
        }
    }
}

/// The readings of one tick that bear on the outcome.
#[derive(Clone, Copy, Debug, PartialEq, Eq, Structural)]
pub struct Observation {
    /// Frame time, in milliseconds.
    pub dt: u64,
    /// Height of the ball.
    pub height: i64,
    /// Speed of the ball.
    pub speed: i64,
    /// Whether the ball entered the hole on this tick.
    pub hole_contact: bool,
}

/// Why a level could not be started.
#[derive(Clone, Copy, Debug, PartialEq, Eq, Structural)]
pub enum LevelError {
    /// The level index is past the last level.
    NoSuchLevel,
}

/// Owns the ball's energy and the round's outcome, and turns each tick's
/// readings into outcome changes and game-phase changes.
#[derive(Clone, Copy, Debug, PartialEq, Eq, Structural)]
pub struct RoundController {
    pub config: BallConfig,
    pub ball: Ball,
    pub outcome: RoundOutcome,
    pub timer: RoundTimer,
    pub level_index: LevelIndex,
    pub level_count: usize,
}

/// The level index after a finished level, and the phase that follows:
/// the next level, or the menu when none is left.
pub open spec fn advanced(index: int, level_count: int) -> (int, GameState) {
    if index + 1 >= level_count {
        (index + 1, GameState::Menu)
    } else {
        (index + 1, GameState::LoadLevel)
    }
}

/// Moves the level index on by one after a win; returns `Menu` when no
/// level is left, else `LoadLevel`.
pub fn advance_level(level_index: &mut LevelIndex, level_count: usize) -> (r: GameState)
    requires
        old(level_index).0 < usize::MAX,
    ensures
        (final(level_index).0 as int, r) == advanced(old(level_index).0 as int, level_count as int),
{
    level_index.0 = level_index.0 + 1;
    if level_index.0 >= level_count {
        GameState::Menu
    } else {
        GameState::LoadLevel
    }
}

/// One tick of the round. While it is in progress, the readings decide it;
/// a win starts the win delay, a loss asks for a reload. A decided round
/// stays decided: a won round only counts down its delay, and moves the
/// level index on when the delay ends.
pub open spec fn round_step(c: RoundController, obs: Observation) -> (RoundController, RoundEvent) {
    match c.outcome {
        RoundOutcome::InProgress => {
            match outcome_of(obs.height as int, obs.speed as int, c.ball.energy as int, obs.hole_contact) {
                RoundOutcome::Won => (
                    RoundController {
                        outcome: RoundOutcome::Won,
                        timer: RoundTimer { duration: WIN_DELAY_MS, elapsed: 0 },
                        ..c
                    },
                    RoundEvent::Won,
                ),
                RoundOutcome::Lost => (RoundController { outcome: RoundOutcome::Lost, ..c }, RoundEvent::Lost),
                RoundOutcome::InProgress => (c, RoundEvent::Nothing),
            }
        },
        RoundOutcome::Won => {
            let (t, done) = c.timer.ticked(obs.dt as int);
            if done {
                let (i, next) = advanced(c.level_index.0 as int, c.level_count as int);
                (
                    RoundController { timer: t, level_index: LevelIndex(i as usize), ..c },
                    if next == GameState::Menu { RoundEvent::AllLevelsDone } else { RoundEvent::NextLevel },
                )
            } else {
                (RoundController { timer: t, ..c }, RoundEvent::Nothing)
            }
        },
        RoundOutcome::Lost => (c, RoundEvent::Nothing),
    }
}

/// The controller after a run of ticks, in order.
pub open spec fn run_rounds(c: RoundController, obs: Seq<Observation>) -> RoundController
    decreases obs.len(),
{
    if obs.len() == 0 {
        c
    } else {
        round_step(run_rounds(c, obs.drop_last()), obs.last()).0
    }
}

impl RoundController {
    /// The level index stays within the list of levels while a round can
    /// still end in a win that moves it on.
    pub open spec fn wf(&self) -> bool {
        &&& self.config.wf()
        &&& self.timer.wf()
        &&& self.level_count < usize::MAX
        &&& self.level_index.0 <= self.level_count
        &&& (self.outcome is InProgress ==> self.level_index.0 < self.level_count)
        &&& (self.outcome is Won && !self.timer.finished_spec() ==> self.level_index.0
            < self.level_count)
    }

    /// A controller at the first level, with a round in progress and a
    /// full ball.
    pub fn new(config: BallConfig, level_count: usize) -> (r: RoundController)
        requires
            config.wf(),
            0 < level_count < usize::MAX,
        ensures
            r.wf(),
            r.config == config,
            r.ball.energy == config.max_energy,
            r.outcome == RoundOutcome::InProgress,
            r.level_index == LevelIndex(0),
            r.level_count == level_count,
    {
        RoundController {
            config,
            ball: Ball::full(&config),
            outcome: RoundOutcome::InProgress,
            timer: RoundTimer::new(WIN_DELAY_MS),
            level_index: LevelIndex(0),
            level_count,
        }
    }

    /// One tick of the round; see `round_step`.
    pub fn tick(&mut self, obs: &Observation) -> (r: RoundEvent)
        requires
            old(self).wf(),
        ensures
            (*final(self), r) == round_step(*old(self), *obs),
            final(self).wf(),
    {
        match self.outcome {
            RoundOutcome::InProgress => {
                let o = evaluate_outcome(obs.height, obs.speed, self.ball.energy, obs.hole_contact);
                match o {
                    RoundOutcome::Won => {
                        self.outcome = RoundOutcome::Won;
                        self.timer = RoundTimer::new(WIN_DELAY_MS);
                        RoundEvent::Won
                    },
                    RoundOutcome::Lost => {
                        self.outcome = RoundOutcome::Lost;
                        RoundEvent::Lost
                    },
                    RoundOutcome::InProgress => RoundEvent::Nothing,
                }
            },
            RoundOutcome::Won => {
                let done = self.timer.tick(obs.dt);
                if done {
                    let next = advance_level(&mut self.level_index, self.level_count);
                    match next {
                        GameState::Menu => RoundEvent::AllLevelsDone,
                        _ => RoundEvent::NextLevel,
                    }
                } else {
                    RoundEvent::Nothing
                }
            },
            RoundOutcome::Lost => RoundEvent::Nothing,
        }
    }

    /// Starts a round at the current level: a full ball and an open
    /// outcome. Returns the index of the level to load, or `NoSuchLevel`
    /// when the index is past the last level (nothing changes then).
    pub fn start_round(&mut self) -> (r: Result<usize, LevelError>)
        requires
            old(self).wf(),
        ensures
            final(self).wf(),
            old(self).level_index.0 < old(self).level_count ==> r == Ok::<usize, LevelError>(
                old(self).level_index.0,
            ) && *final(self) == (RoundController {
                ball: Ball { energy: old(self).config.max_energy },
                outcome: RoundOutcome::InProgress,
                ..*old(self)
            }),
            old(self).level_index.0 >= old(self).level_count ==> r == Err::<usize, LevelError>(
                LevelError::NoSuchLevel,
            ) && *final(self) == *old(self),
    {
        if self.level_index.0 >= self.level_count {
            return Err(LevelError::NoSuchLevel);
        }
        self.ball = Ball::full(&self.config);
        self.outcome = RoundOutcome::InProgress;
        Ok(self.level_index.0)
    }

    /// The player starts the game from the menu: back to the first level.
    pub fn play(&mut self) -> (r: GameState)
        requires
            old(self).wf(),
        ensures
            final(self).wf(),
            r == GameState::LoadLevel,
            *final(self) == (RoundController { level_index: LevelIndex(0), ..*old(self) }),
    {
        self.level_index = LevelIndex(0);
        GameState::LoadLevel
    }
}

/// A won round stays won: no run of ticks, whatever it reads (a fall below
/// the floor, a ball at rest without energy), turns it into a loss, and no
/// tick of it asks for a reload.
pub proof fn lemma_won_is_latched(c: RoundController, obs: Seq<Observation>)
    requires
        c.outcome == RoundOutcome::Won,
    ensures
        run_rounds(c, obs).outcome == RoundOutcome::Won,
        forall|i: int|
            0 <= i < obs.len() ==> (#[trigger] round_step(run_rounds(c, obs.take(i)), obs[i])).1
                != RoundEvent::Lost,
    decreases obs.len(),
{
    if obs.len() > 0 {
        lemma_won_is_latched(c, obs.drop_last());
        assert forall|i: int| 0 <= i < obs.len() implies (#[trigger] round_step(
            run_rounds(c, obs.take(i)),
            obs[i],
        )).1 != RoundEvent::Lost by {
            lemma_won_prefix(c, obs, i);
        }
    }
}

proof fn lemma_won_prefix(c: RoundController, obs: Seq<Observation>, i: int)
    requires
        c.outcome == RoundOutcome::Won,
        0 <= i <= obs.len(),
    ensures
        run_rounds(c, obs.take(i)).outcome == RoundOutcome::Won,
    decreases i,
{
    if i > 0 {
        lemma_won_prefix(c, obs, i - 1);
        assert(obs.take(i).drop_last() =~= obs.take(i - 1));
    }
}

/// A lost round stays lost until the next round starts.
pub proof fn lemma_lost_is_latched(c: RoundController, obs: Seq<Observation>)
    requires
        c.outcome == RoundOutcome::Lost,
    ensures
        run_rounds(c, obs) == c,
    decreases obs.len(),
{
    if obs.len() > 0 {
        lemma_lost_is_latched(c, obs.drop_last());
    }
}

} // verus!
