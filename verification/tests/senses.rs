use evosim::config::Config;
use evosim::entity::{Food, Organism};
use evosim::fixed::SCALE;
use evosim::genome::Genome;
use evosim::geometry::Point;
use evosim::senses::{cone, decide, is_cornered, lived, sense, share, smell, strength, Cone};

fn observer() -> Organism {
    Organism {
        position: Point { x: 0, y: 0 },
        heading: Point { x: SCALE, y: 0 },
        speed: 4 * SCALE,
        energy: 2_100_000_000,
        age: 50,
        lifetime: 100,
        genome: Genome::planned(),
        pregnant: false,
        size: 15 * SCALE,
    }
}

fn food(x: i64, y: i64) -> Food {
    Food { position: Point { x: x * SCALE, y: y * SCALE }, energy: 200_000_000, age: 1, lifetime: 100 }
}

#[test]
fn share_is_a_fraction_of_the_whole() {
    assert_eq!(share(1_900_000_000, 3_800_000_000), 500_000_000);
    assert_eq!(share(0, 5), 0);
    assert_eq!(share(5, 5), SCALE);
    assert_eq!(share(1, 3), 333_333_333);
}

#[test]
fn share_confines_the_part_and_survives_an_empty_whole() {
    assert_eq!(share(-4, 5), 0);
    assert_eq!(share(9, 5), SCALE);
    assert_eq!(share(3, 0), 0);
    assert_eq!(share(3, -2), 0);
}

#[test]
fn lived_is_the_share_of_the_lifetime() {
    assert_eq!(lived(50, 100), 500_000_000);
    assert_eq!(lived(3, 7), 428_571_428);
    assert_eq!(lived(100, 100), SCALE);
    assert_eq!(lived(101, 100), SCALE);
    assert_eq!(lived(0, 0), SCALE);
    assert_eq!(lived(0, 9), 0);
}

#[test]
fn cone_is_judged_by_the_angle_to_the_heading() {
    let east = Point { x: SCALE, y: 0 };
    assert_eq!(cone(50 * SCALE, 0, east), Some(Cone::Ahead));
    assert_eq!(cone(50 * SCALE, 4 * SCALE, east), Some(Cone::Ahead));
    assert_eq!(cone(50 * SCALE, 6 * SCALE, east), Some(Cone::Right));
    assert_eq!(cone(50 * SCALE, -6 * SCALE, east), Some(Cone::Left));
    assert_eq!(cone(30 * SCALE, 30 * SCALE, east), Some(Cone::Right));
    assert_eq!(cone(30 * SCALE, -30 * SCALE, east), Some(Cone::Left));
    assert_eq!(cone(10 * SCALE, 16 * SCALE, east), None);
    assert_eq!(cone(0, 50 * SCALE, east), None);
    assert_eq!(cone(-50 * SCALE, 0, east), None);
    assert_eq!(cone(0, 0, east), None);
}

#[test]
fn cone_turns_with_the_heading() {
    let north = Point { x: 0, y: SCALE };
    assert_eq!(cone(0, 50 * SCALE, north), Some(Cone::Ahead));
    assert_eq!(cone(30 * SCALE, 30 * SCALE, north), Some(Cone::Left));
    assert_eq!(cone(-30 * SCALE, 30 * SCALE, north), Some(Cone::Right));
}

#[test]
fn strength_falls_with_the_distance() {
    let vision = 100 * SCALE;
    assert_eq!(strength(0, vision), 500_000_000);
    assert_eq!(strength(50 * SCALE, vision), 333_333_333);
    assert_eq!(strength(30 * SCALE, vision), 384_615_384);
    assert_eq!(strength(99 * SCALE, vision), 251_256_281);
}

#[test]
fn smell_adds_up_the_food_in_each_cone() {
    let foods = vec![food(50, 0), food(30, 30), food(30, -30), food(50, 4), food(50, 6), food(0, 50)];
    let (left, ahead, right) = smell(&observer(), &foods, 100 * SCALE);
    assert_eq!(left, 351_058_494);
    assert_eq!(ahead, 666_312_055);
    assert_eq!(right, 683_596_588);
}

#[test]
fn smell_ignores_food_beyond_vision() {
    let foods = vec![food(100, 0), food(200, 0), food(0, -150)];
    assert_eq!(smell(&observer(), &foods, 100 * SCALE), (0, 0, 0));
    let near = vec![food(99, 0)];
    assert_eq!(smell(&observer(), &near, 100 * SCALE), (0, 251_256_281, 0));
    assert_eq!(smell(&observer(), &Vec::new(), 100 * SCALE), (0, 0, 0));
}

#[test]
fn smell_is_at_most_one_in_each_cone() {
    let foods = vec![food(10, 0); 5];
    let (left, ahead, right) = smell(&observer(), &foods, 100 * SCALE);
    assert_eq!((left, ahead, right), (0, SCALE, 0));
}

#[test]
fn cornered_near_an_edge_and_heading_toward_it() {
    let arena = Config::default().arena;
    let o = Organism { position: Point { x: 550 * SCALE, y: 0 }, ..observer() };
    assert!(is_cornered(&o, &arena));
    assert!(!is_cornered(&Organism { heading: Point { x: -SCALE, y: 0 }, ..o }, &arena));
    assert!(!is_cornered(&Organism { position: Point { x: 480 * SCALE, y: 0 }, ..o }, &arena));
    let low = Organism {
        position: Point { x: 0, y: -280 * SCALE },
        heading: Point { x: 600_000_000, y: -800_000_000 },
        ..observer()
    };
    assert!(is_cornered(&low, &arena));
    assert!(!is_cornered(&observer(), &arena));
}

#[test]
fn sense_gathers_the_eight_senses_in_order() {
    let cfg = Config::default();
    let foods = vec![food(50, 0), food(30, -30)];
    assert_eq!(
        sense(&observer(), &foods, &cfg),
        [
            500_000_000,
            500_000_000,
            500_000_000,
            500_000_000,
            500_000_000,
            351_058_494,
            333_333_333,
            0,
        ]
    );
}

#[test]
fn sense_of_food_ahead_is_minus_one_when_cornered() {
    let cfg = Config::default();
    let o = Organism { position: Point { x: 550 * SCALE, y: 0 }, ..observer() };
    let foods = vec![food(560, 0)];
    let senses = sense(&o, &foods, &cfg);
    assert_eq!(senses[6], -SCALE);
    assert_eq!(senses[1], 958_333_333);
    let turned = Organism { heading: Point { x: -SCALE, y: 0 }, ..o };
    assert_eq!(sense(&turned, &vec![food(540, 0)], &cfg)[6], 454_545_454);
}

#[test]
fn decide_turns_toward_food_and_speeds_up_for_food_ahead() {
    let cfg = Config::default();
    let foods = vec![food(50, 0), food(30, -30)];
    let o = observer();
    let d = decide(&o, &foods, &cfg);
    assert_eq!(d.heading, Point { x: 999_960_728, y: -8_862_463 });
    assert_eq!(d.speed, 4_298_227_483);
    assert_eq!(d, Organism { heading: d.heading, speed: d.speed, ..o });
}
