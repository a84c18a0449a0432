use minigolf::ball::{club_hit, decay_velocity, movement_direction_of, Ball, BallConfig, MoveTick, Velocity};
use minigolf::fixed::{Vec2, Vec3};

fn tick(intent: Option<Vec2>, dt: i64) -> MoveTick {
    MoveTick {
        intent,
        forward: Vec3::new(0, 0, -1000),
        right: Vec3::new(1000, 0, 0),
        dt,
    }
}

#[test]
fn impulse_equal_to_energy_empties_the_ball() {
    let config = BallConfig::new(50_000, 10_000);
    let mut ball = Ball::with_energy(50_000);
    let impulse = ball.apply_movement(&config, &tick(Some(Vec2::new(0, 1000)), 5000));
    assert_eq!(impulse, Some(Vec3::new(0, 0, -50_000)));
    assert_eq!(ball.energy(), 0);
    assert_eq!(ball.apply_movement(&config, &tick(Some(Vec2::new(0, 1000)), 5000)), None);
    assert_eq!(ball.apply_movement(&config, &tick(Some(Vec2::new(1000, 0)), 16)), None);
    assert_eq!(ball.energy(), 0);
}

#[test]
fn energy_never_grows_over_ticks() {
    let config = BallConfig::default();
    let mut ball = Ball::full(&config);
    assert_eq!(ball.energy(), 120_000);
    let mut last = ball.energy();
    let intents = [Some(Vec2::new(0, 1000)), None, Some(Vec2::new(707, 707)), Some(Vec2::new(-1000, 0))];
    for _ in 0..300 {
        for intent in intents.iter() {
            let before = ball.energy();
            let impulse = ball.apply_movement(&config, &tick(*intent, 16));
            assert!(ball.energy() <= last);
            if before <= 0 {
                assert_eq!(impulse, None);
            }
            if intent.is_some() && before > 0 {
                assert_eq!(ball.energy(), before - 160);
            } else {
                assert_eq!(ball.energy(), before);
            }
            last = ball.energy();
        }
    }
    assert!(ball.energy() <= 0);
}

#[test]
fn no_intent_no_impulse() {
    let config = BallConfig::default();
    let mut ball = Ball::full(&config);
    assert_eq!(ball.apply_movement(&config, &tick(None, 16)), None);
    assert_eq!(ball.energy(), 120_000);
}

#[test]
fn camera_looking_straight_down_gives_no_push() {
    let config = BallConfig::default();
    let mut ball = Ball::full(&config);
    let t = MoveTick {
        intent: Some(Vec2::new(0, 1000)),
        forward: Vec3::new(0, -1000, 0),
        right: Vec3::new(1000, 0, 0),
        dt: 16,
    };
    assert_eq!(ball.apply_movement(&config, &t), None);
    assert_eq!(ball.energy(), 120_000);
}

#[test]
fn push_direction_follows_camera() {
    let f = Vec3::new(0, 0, -1000);
    let r = Vec3::new(1000, 0, 0);
    assert_eq!(movement_direction_of(&Vec2::new(707, 707), &f, &r), Some(Vec3::new(707, 0, -707)));
    assert_eq!(movement_direction_of(&Vec2::new(1000, 0), &f, &r), Some(Vec3::new(1000, 0, 0)));
    // a tilted camera is flattened first
    let tilted = Vec3::new(0, -600, -800);
    assert_eq!(movement_direction_of(&Vec2::new(0, 1000), &tilted, &r), Some(Vec3::new(0, 0, -1000)));
}

#[test]
fn push_scales_with_frame_time() {
    let config = BallConfig::default();
    let mut ball = Ball::full(&config);
    let impulse = ball.apply_movement(&config, &tick(Some(Vec2::new(1000, 0)), 16));
    assert_eq!(impulse, Some(Vec3::new(160, 0, 0)));
    assert_eq!(ball.energy(), 119_840);
}

#[test]
fn damping_halves_velocity_over_one_second() {
    let v = Velocity { linvel: Vec3::new(10_000, 0, 0), angvel: Vec3::new(0, 2000, 0) };
    let r = decay_velocity(&v, 1000);
    assert_eq!(r.linvel, Vec3::new(5000, 0, 0));
    assert_eq!(r.angvel, Vec3::new(0, 1000, 0));
}

#[test]
fn damping_factor_floors_at_zero() {
    let v = Velocity { linvel: Vec3::new(10_000, -3, 7), angvel: Vec3::new(1, 2, 3) };
    let r = decay_velocity(&v, 3000);
    assert_eq!(r.linvel, Vec3::zero());
    assert_eq!(r.angvel, Vec3::zero());
}

#[test]
fn damping_over_a_short_frame() {
    let v = Velocity { linvel: Vec3::new(10_000, -10_000, -1001), angvel: Vec3::zero() };
    let r = decay_velocity(&v, 16);
    assert_eq!(r.linvel, Vec3::new(9920, -9920, -992));
    assert_eq!(decay_velocity(&v, 0).linvel, v.linvel);
}

#[test]
fn energy_gauge_percent() {
    let config = BallConfig::default();
    assert_eq!(Ball::with_energy(60_000).energy_percent(&config), 50_000);
    assert_eq!(Ball::with_energy(120_000).energy_percent(&config), 100_000);
    assert_eq!(Ball::with_energy(-1200).energy_percent(&config), -1000);
}

#[test]
fn club_hit_adds_speed_along_facing() {
    let r = club_hit(&Vec3::new(1000, 0, 0), &Vec3::new(0, 0, -1000));
    assert_eq!(r, Vec3::new(1000, 0, -50_000));
}
