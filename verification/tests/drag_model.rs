use ballistics::drag_magnitude;
use ballistics::fixed::{BC_LIMIT, CALIBER_LIMIT};

#[test]
fn drag_is_zero_at_zero_speed() {
    // caliber 0.00762 m, ballistic coefficient 0.4
    assert_eq!(drag_magnitude(0, 7_620, 400_000), 0);
}

#[test]
fn drag_exact_value_small_speed() {
    // speed 2 m/s, caliber 1 m, ballistic coefficient 0.5:
    // 0.5 * 1.225 * 2^2 / (0.5 * 1^2) = 4.9 m/s^2 exactly.
    assert_eq!(drag_magnitude(2_000_000, 1_000_000, 500_000), -4_900_000);
}

#[test]
fn drag_exact_value_muzzle_speed() {
    // speed 850 m/s, caliber 0.00762 m, ballistic coefficient 0.4: about
    // 1.9e10 m/s^2, the exact rounded-up fixed-point quotient.
    assert_eq!(
        drag_magnitude(850_000_000, 7_620, 400_000),
        -19_053_466_926_378_298
    );
}

#[test]
fn drag_is_negative_for_any_motion() {
    // Even the smallest representable speed against the largest caliber and
    // coefficient meets a strictly negative drag: rounding is away from zero.
    assert_eq!(drag_magnitude(1, CALIBER_LIMIT, BC_LIMIT), -1);
    assert!(drag_magnitude(350_000_000, 7_620, 400_000) < 0);
    assert!(drag_magnitude(1_000, 1_000_000, 1_000_000) < 0);
}
