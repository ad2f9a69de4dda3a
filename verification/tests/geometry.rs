use evosim::chance::{
    centred, draw_around_zero, draw_many, draw_shifts, draw_unit, draw_units,
};
use evosim::fixed::SCALE;
use evosim::geometry::{
    cos, heading_from_draws, measure, normalize, random_direction, rotate_direction, sin, Point,
    DIAGONAL,
};
use rand::rngs::StdRng;
use rand::SeedableRng;

#[test]
fn cosine_and_sine_of_fixed_angles() {
    assert_eq!(cos(0), SCALE);
    assert_eq!(sin(0), 0);
    assert_eq!(cos(SCALE), 540_302_579);
    assert_eq!(sin(SCALE), 841_471_010);
    assert_eq!(cos(500_000_000), 877_582_561);
    assert_eq!(sin(500_000_000), 479_425_538);
    assert_eq!(cos(-500_000_000), 877_582_561);
    assert_eq!(sin(-500_000_000), -479_425_538);
}

#[test]
fn measure_is_the_length_rounded_down() {
    assert_eq!(measure(3 * SCALE, 4 * SCALE), 5 * SCALE);
    assert_eq!(measure(0, 0), 0);
    assert_eq!(measure(30 * SCALE, 30 * SCALE), 42_426_406_871);
    assert_eq!(measure(-3, 4), 5);
}

#[test]
fn normalize_scales_to_length_one() {
    assert_eq!(normalize(3 * SCALE, 4 * SCALE), Point { x: 600_000_000, y: 800_000_000 });
    assert_eq!(normalize(-250_000_000, 250_000_000), Point { x: -707_106_782, y: 707_106_782 });
    assert_eq!(normalize(0, -7 * SCALE), Point { x: 0, y: -SCALE });
}

#[test]
fn normalize_replaces_a_vector_too_short() {
    assert_eq!(normalize(0, 0), Point { x: DIAGONAL, y: DIAGONAL });
    assert_eq!(normalize(5_000_000, 5_000_000), Point { x: DIAGONAL, y: DIAGONAL });
    assert_eq!(normalize(10_000_000, 0), Point { x: DIAGONAL, y: DIAGONAL });
    assert_eq!(normalize(10_000_001, 0), Point { x: SCALE, y: 0 });
}

#[test]
fn rotate_direction_turns_clockwise_from_the_old_heading() {
    let east = Point { x: SCALE, y: 0 };
    assert_eq!(rotate_direction(east, 0), east);
    assert_eq!(rotate_direction(east, 500_000_000), Point { x: 877_582_562, y: -479_425_538 });
    let north = Point { x: 0, y: SCALE };
    assert_eq!(rotate_direction(north, SCALE), Point { x: 841_470_868, y: 540_302_488 });
}

#[test]
fn rotate_direction_keeps_the_length_near_one() {
    let mut h = Point { x: SCALE, y: 0 };
    for step in 0..1000 {
        let angle = (step % 21 - 10) * 100_000_000;
        h = rotate_direction(h, angle);
        let square = (h.x as i128) * (h.x as i128) + (h.y as i128) * (h.y as i128);
        let one = (SCALE as i128) * (SCALE as i128);
        assert!((square - one).abs() < 4 * SCALE as i128);
    }
}

#[test]
fn heading_from_draws_points_along_the_draws() {
    assert_eq!(heading_from_draws(300_000_000, 400_000_000), Point { x: 600_000_000, y: 800_000_000 });
    assert_eq!(heading_from_draws(0, 0), Point { x: DIAGONAL, y: DIAGONAL });
}

#[test]
fn random_direction_is_a_heading() {
    let mut rng = StdRng::seed_from_u64(1);
    for _ in 0..200 {
        let h = random_direction(&mut rng);
        assert!(h.x.abs() <= SCALE && h.y.abs() <= SCALE);
        let square = (h.x as i128) * (h.x as i128) + (h.y as i128) * (h.y as i128);
        let one = (SCALE as i128) * (SCALE as i128);
        assert!((square - one).abs() < one / 1_000_000);
    }
}

#[test]
fn draws_stay_in_their_range() {
    let mut rng = StdRng::seed_from_u64(9);
    let mut low = false;
    let mut high = false;
    for _ in 0..2000 {
        let u = draw_unit(&mut rng);
        assert!(0 <= u && u < SCALE);
        low = low || u < SCALE / 4;
        high = high || u > 3 * (SCALE / 4);
        let d = draw_around_zero(&mut rng, 250_000_000);
        assert!(-250_000_000 <= d && d < 250_000_000);
    }
    assert!(low && high);
    for u in draw_units(&mut rng) {
        assert!(0 <= u && u < SCALE);
    }
    for d in draw_shifts(&mut rng, 1) {
        assert!(d == -1 || d == 0);
    }
    let many = draw_many(&mut rng, 100);
    assert_eq!(many.len(), 100);
    assert!(many.iter().all(|u| 0 <= *u && *u < SCALE));
    assert!(draw_many(&mut rng, 0).is_empty());
}

#[test]
fn equal_seeds_give_equal_draws() {
    let mut a = StdRng::seed_from_u64(77);
    let mut b = StdRng::seed_from_u64(77);
    assert_eq!(draw_many(&mut a, 50), draw_many(&mut b, 50));
}

#[test]
fn headings_are_as_long_as_one() {
    assert!(Point { x: SCALE, y: 0 }.is_unit());
    assert!(Point { x: -600_000_000, y: 800_000_000 }.is_unit());
    assert!(Point { x: DIAGONAL, y: DIAGONAL }.is_unit());
    assert!(!Point { x: 0, y: 0 }.is_unit());
    assert!(!Point { x: SCALE, y: SCALE }.is_unit());
    assert!(!Point { x: SCALE + 1, y: 0 }.is_unit());
    assert!(!Point { x: 999_000_000, y: 0 }.is_unit());
    let mut rng = StdRng::seed_from_u64(21);
    for _ in 0..500 {
        assert!(random_direction(&mut rng).is_unit());
    }
    let mut h = Point { x: 0, y: -SCALE };
    for step in 0..500 {
        h = rotate_direction(h, (step % 7 - 3) * 333_333_333);
        assert!(h.is_unit());
    }
}

#[test]
fn centred_moves_a_draw_down_by_the_span() {
    assert_eq!(centred(0, 250_000_000), -250_000_000);
    assert_eq!(centred(250_000_000, 250_000_000), 0);
    assert_eq!(centred(499_999_999, 250_000_000), 249_999_999);
    assert_eq!(centred(1, 1), 0);
}
