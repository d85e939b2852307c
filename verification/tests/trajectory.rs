use ballistics::fixed::{MUZZLE_VELOCITY, POS_LIMIT, SCALE};
use ballistics::{Projectile, SimError, SimulationParameters, Vec3};

fn zero_wind_params(caliber: i64, ballistic_coefficient: i64) -> SimulationParameters {
    SimulationParameters::new(Vec3 { x: 0, y: 0, z: 0 }, caliber, ballistic_coefficient)
        .expect("parameters are valid")
}

#[test]
fn parameters_reject_zero_caliber() {
    let r = SimulationParameters::new(Vec3 { x: 0, y: 0, z: 0 }, 0, 400_000);
    assert_eq!(r, Err(SimError::InvalidParameter));
}

#[test]
fn parameters_reject_zero_ballistic_coefficient() {
    let r = SimulationParameters::new(Vec3 { x: 0, y: 0, z: 0 }, 7_620, 0);
    assert_eq!(r, Err(SimError::InvalidParameter));
}

#[test]
fn parameters_reject_negative_values() {
    let wind = Vec3 { x: 0, y: 0, z: 0 };
    assert!(SimulationParameters::new(wind, -7_620, 400_000).is_err());
    assert!(SimulationParameters::new(wind, 7_620, -400_000).is_err());
}

#[test]
fn parameters_accept_valid_snapshot() {
    let wind = Vec3 { x: 3_000_000, y: 0, z: -1_000_000 };
    let p = SimulationParameters::new(wind, 7_620, 400_000).expect("valid");
    assert_eq!(p.wind, wind);
    assert_eq!(p.caliber, 7_620);
    assert_eq!(p.ballistic_coefficient, 400_000);
}

#[test]
fn step_rejects_non_positive_dt() {
    let params = zero_wind_params(7_620, 400_000);
    let mut p = Projectile::new();
    assert_eq!(p.step(&params, 0), Err(SimError::InvalidParameter));
    assert_eq!(p.step(&params, -10_000), Err(SimError::InvalidParameter));
    assert_eq!(p.velocity, Vec3 { x: 0, y: 0, z: 0 });
    assert_eq!(p.position, Vec3 { x: 0, y: 0, z: 0 });
}

#[test]
fn zero_speed_step_applies_gravity_only() {
    // At rest with zero wind, one 0.01 s step lowers the vertical velocity by
    // exactly 9.81 * 0.01 m/s and leaves the horizontal velocity untouched.
    let params = zero_wind_params(7_620, 400_000);
    let mut p = Projectile::new();
    assert_eq!(p.step(&params, 10_000), Ok(()));
    assert_eq!(p.velocity, Vec3 { x: 0, y: -98_100, z: 0 });
    assert_eq!(p.position, Vec3 { x: 0, y: -981, z: 0 });
}

#[test]
fn position_update_uses_post_step_velocity() {
    // Gravity only, dt = 1 s, starting at rest: after one step the velocity
    // is (0, -9.81) and the position is already (0, -9.81), not (0, 0) --
    // the semi-implicit scheme moves with the updated velocity.
    let params = zero_wind_params(7_620, 400_000);
    let mut p = Projectile::new();
    assert_eq!(p.step(&params, 1_000_000), Ok(()));
    assert_eq!(p.velocity, Vec3 { x: 0, y: -9_810_000, z: 0 });
    assert_eq!(p.position, Vec3 { x: 0, y: -9_810_000, z: 0 });
}

#[test]
fn wind_accelerates_resting_projectile() {
    // Wind 5 m/s along x, at rest, dt = 0.01 s.
    let wind = Vec3 { x: 5_000_000, y: 0, z: 0 };
    let params = SimulationParameters::new(wind, 7_620, 400_000).expect("valid");
    let mut p = Projectile::new();
    assert_eq!(p.step(&params, 10_000), Ok(()));
    assert_eq!(p.velocity, Vec3 { x: 50_000, y: -98_100, z: 0 });
    assert_eq!(p.position, Vec3 { x: 500, y: -981, z: 0 });
}

#[test]
fn launch_decomposes_muzzle_velocity_horizontal() {
    // Elevation 0: cos = 1, sin = 0, so the velocity is (850, 0, 0) exactly.
    let mut p = Projectile::new();
    p.launch(SCALE, 0, MUZZLE_VELOCITY);
    assert_eq!(p.velocity, Vec3 { x: 850_000_000, y: 0, z: 0 });
    assert_eq!(p.position, Vec3 { x: 0, y: 0, z: 0 });
}

#[test]
fn launch_decomposes_muzzle_velocity_vertical() {
    // Elevation 90 degrees: cos = 0, sin = 1, so the velocity is (0, 850, 0).
    let mut p = Projectile::new();
    p.launch(0, SCALE, MUZZLE_VELOCITY);
    assert_eq!(p.velocity, Vec3 { x: 0, y: 850_000_000, z: 0 });
}

#[test]
fn launch_at_45_degrees() {
    // cos 45 = sin 45 = 0.707107 in fixed point.
    let mut p = Projectile::new();
    p.launch(707_107, 707_107, MUZZLE_VELOCITY);
    assert_eq!(p.velocity, Vec3 { x: 601_040_950, y: 601_040_950, z: 0 });
}

#[test]
fn launch_keeps_position_and_clears_z() {
    let mut p = Projectile {
        position: Vec3 { x: 5, y: 6, z: 7 },
        velocity: Vec3 { x: 8, y: 9, z: 10 },
    };
    p.launch(707_107, -707_107, MUZZLE_VELOCITY);
    assert_eq!(p.position, Vec3 { x: 5, y: 6, z: 7 });
    assert_eq!(p.velocity, Vec3 { x: 601_040_950, y: -601_040_950, z: 0 });
}

#[test]
fn drag_decomposes_along_velocity_direction() {
    // Velocity (3, 0, 4) m/s has speed exactly 5 m/s; caliber 1 m and
    // ballistic coefficient 1 give a drag of 15.3125 m/s^2, split 3/5 on x
    // and 4/5 on z. One 0.001 s step, every rounding toward zero:
    let params = zero_wind_params(1_000_000, 1_000_000);
    let mut p = Projectile {
        position: Vec3 { x: 0, y: 0, z: 0 },
        velocity: Vec3 { x: 3_000_000, y: 0, z: 4_000_000 },
    };
    assert_eq!(p.step(&params, 1_000), Ok(()));
    assert_eq!(p.velocity, Vec3 { x: 2_990_813, y: -9_810, z: 3_987_750 });
    assert_eq!(p.position, Vec3 { x: 2_990, y: -9, z: 3_987 });
}

#[test]
fn drag_decays_horizontal_speed() {
    // Purely horizontal motion, no wind: the x velocity shrinks every step
    // and never flips sign, while gravity builds up a vertical velocity.
    let params = zero_wind_params(1_000_000, 1_000_000);
    let mut p = Projectile {
        position: Vec3 { x: 0, y: 0, z: 0 },
        velocity: Vec3 { x: 10_000_000, y: 0, z: 0 },
    };
    assert_eq!(p.step(&params, 1_000), Ok(()));
    assert_eq!(p.velocity.x, 9_938_750);
    assert_eq!(p.velocity.y, -9_810);
    let mut last = p.velocity.x;
    for _ in 0..5 {
        assert_eq!(p.step(&params, 1_000), Ok(()));
        assert!(p.velocity.x <= last);
        assert!(p.velocity.x >= 0);
        last = p.velocity.x;
    }
}

#[test]
fn canonical_scenario_exceeds_representable_drag_impulse() {
    // Elevation 45 degrees, muzzle 850 m/s, caliber 0.00762 m, coefficient
    // 0.4, dt 0.01 s. The drag model yields about 1.9e10 m/s^2 at that speed,
    // so the very first step would throw the velocity far beyond the
    // representable range; the step reports that and mutates nothing.
    let params = zero_wind_params(7_620, 400_000);
    let mut p = Projectile::new();
    p.launch(707_107, 707_107, MUZZLE_VELOCITY);
    let before = p;
    assert_eq!(p.step(&params, 10_000), Err(SimError::OutOfRange));
    assert_eq!(p.velocity, before.velocity);
    assert_eq!(p.position, before.position);
}

#[test]
fn drag_beyond_limit_is_rejected() {
    // A one-micrometre caliber at 2000 m/s: the drag magnitude exceeds what a
    // step will integrate.
    let params = zero_wind_params(1, 1);
    let mut p = Projectile {
        position: Vec3 { x: 0, y: 0, z: 0 },
        velocity: Vec3 { x: 2_000_000_000, y: 0, z: 0 },
    };
    assert_eq!(p.step(&params, 10_000), Err(SimError::OutOfRange));
    assert_eq!(p.velocity.x, 2_000_000_000);
}

#[test]
fn position_leaving_range_is_rejected() {
    let params = zero_wind_params(1_000_000, 1_000_000);
    let mut p = Projectile {
        position: Vec3 { x: POS_LIMIT, y: 0, z: 0 },
        velocity: Vec3 { x: 1_000_000, y: 0, z: 0 },
    };
    assert_eq!(p.step(&params, 1_000_000), Err(SimError::OutOfRange));
    assert_eq!(p.position.x, POS_LIMIT);
    assert_eq!(p.velocity.x, 1_000_000);
}
