use evosim::arena::Collision;
use evosim::config::Config;
use evosim::entity::{size_of, Food, Growth, Organism, Pheromone};
use evosim::fixed::{LIMIT, SCALE};
use evosim::genome::Genome;
use evosim::geometry::Point;

fn organism(energy: i64) -> Organism {
    Organism {
        position: Point { x: 0, y: 0 },
        heading: Point { x: 600_000_000, y: 800_000_000 },
        speed: 8 * SCALE,
        energy,
        age: 30,
        lifetime: 100,
        genome: Genome::planned(),
        pregnant: false,
        size: 15 * SCALE,
    }
}

#[test]
fn size_is_base_size_times_root_of_energy() {
    let cfg = Config::default();
    assert_eq!(size_of(SCALE, &cfg), 15 * SCALE);
    assert_eq!(size_of(500_000_000, &cfg), 10_606_601_715);
    assert_eq!(size_of(2_700_000_000, &cfg), 24_647_515_080);
    assert_eq!(size_of(4 * SCALE, &cfg), 30 * SCALE);
}

#[test]
fn size_confines_the_energy_to_the_living_range() {
    let cfg = Config::default();
    assert_eq!(size_of(9 * SCALE, &cfg), size_of(4 * SCALE, &cfg));
    assert_eq!(size_of(0, &cfg), size_of(200_000_000, &cfg));
    assert_eq!(size_of(-SCALE, &cfg), size_of(200_000_000, &cfg));
}

#[test]
fn advance_moves_along_the_heading_and_charges_energy() {
    let cfg = Config::default();
    let o = organism(SCALE);
    let moved = o.advance(&cfg).unwrap();
    assert_eq!(moved.position, Point { x: 400_000_008, y: 533_333_344 });
    assert_eq!(moved.energy, 998_998_720);
    assert_eq!(moved, Organism { position: moved.position, energy: moved.energy, ..o });
}

#[test]
fn advance_charges_for_the_square_of_the_speed() {
    let cfg = Config::default();
    let o = Organism { speed: 4 * SCALE, heading: Point { x: SCALE, y: 0 }, ..organism(2_500_000_000) };
    let moved = o.advance(&cfg).unwrap();
    assert_eq!(moved.energy, 2_497_499_680);
    assert_eq!(moved.position, Point { x: 333_333_340, y: 0 });
    let still = Organism { speed: 0, ..o }.advance(&cfg).unwrap();
    assert_eq!(still.energy, 2_497_500_000);
    assert_eq!(still.position, o.position);
}

#[test]
fn organism_leaving_the_arena_is_destroyed_on_that_tick() {
    let cfg = Config::default();
    let edge = Organism {
        position: Point { x: 600 * SCALE - 1, y: 0 },
        heading: Point { x: SCALE, y: 0 },
        ..organism(SCALE)
    };
    assert_eq!(edge.advance(&cfg), None);
    let top = Organism {
        position: Point { x: 0, y: 300 * SCALE },
        heading: Point { x: 0, y: SCALE },
        ..organism(SCALE)
    };
    assert_eq!(top.advance(&cfg), None);
    let turned = Organism { heading: Point { x: 0, y: -SCALE }, ..top };
    assert!(turned.advance(&cfg).is_some());
}

#[test]
fn metabolize_charges_the_upkeep() {
    let cfg = Config::default();
    assert_eq!(organism(SCALE).metabolize(&cfg).energy, 999_000_000);
    let costly = Config { upkeep: 300_000_000, ..cfg };
    assert_eq!(organism(SCALE).metabolize(&costly).energy, 700_000_000);
    assert_eq!(organism(-LIMIT).metabolize(&costly).energy, -LIMIT);
}

#[test]
fn feeding_a_fertile_organism_with_a_lucky_draw_makes_it_pregnant() {
    let cfg = Config::default();
    let o = organism(2_500_000_000);
    let fed = o.feed(200_000_000, 0, &cfg);
    assert_eq!(fed.energy, 2_700_000_000);
    assert!(fed.pregnant);
    assert_eq!(fed, Organism { energy: 2_700_000_000, pregnant: true, ..o });
    let lucky_edge = o.feed(200_000_000, 499_999_999, &cfg);
    assert!(lucky_edge.pregnant);
}

#[test]
fn feeding_without_luck_youth_or_energy_does_not() {
    let cfg = Config::default();
    let o = organism(2_500_000_000);
    assert!(!o.feed(200_000_000, 500_000_000, &cfg).pregnant);
    let young = Organism { age: 25, ..o };
    assert!(!young.feed(200_000_000, 0, &cfg).pregnant);
    let hungry = organism(1_800_000_000);
    let fed = hungry.feed(200_000_000, 0, &cfg);
    assert_eq!(fed.energy, 2 * SCALE);
    assert!(!fed.pregnant);
}

#[test]
fn feeding_keeps_a_pregnancy_and_stops_at_the_limit() {
    let cfg = Config::default();
    let o = Organism { pregnant: true, ..organism(SCALE) };
    assert!(o.feed(200_000_000, SCALE - 1, &cfg).pregnant);
    assert_eq!(organism(LIMIT - 5).feed(200_000_000, SCALE - 1, &cfg).energy, LIMIT);
}

#[test]
fn growth_kills_outside_the_living_range() {
    let cfg = Config::default();
    assert_eq!(organism(199_999_999).grow(&cfg), Growth::Dies);
    assert_eq!(organism(4 * SCALE + 1).grow(&cfg), Growth::Dies);
    assert_eq!(organism(-SCALE).grow(&cfg), Growth::Dies);
    assert_eq!(Organism { pregnant: true, ..organism(5 * SCALE) }.grow(&cfg), Growth::Dies);
}

#[test]
fn growth_resizes_the_living() {
    let cfg = Config::default();
    let o = organism(2_700_000_000);
    assert_eq!(o.grow(&cfg), Growth::Lives(Organism { size: 24_647_515_080, ..o }));
    let low = organism(200_000_000);
    assert_eq!(low.grow(&cfg), Growth::Lives(Organism { size: size_of(200_000_000, &cfg), ..low }));
    let high = organism(4 * SCALE);
    assert_eq!(high.grow(&cfg), Growth::Lives(Organism { size: 30 * SCALE, ..high }));
}

#[test]
fn growth_of_a_pregnant_organism_resets_it() {
    let cfg = Config::default();
    let o = Organism { pregnant: true, ..organism(2_700_000_000) };
    let expected = Organism { energy: SCALE, pregnant: false, size: 15 * SCALE, ..o };
    assert_eq!(o.grow(&cfg), Growth::Breeds(expected));
}

#[test]
fn child_starts_at_its_parent_with_the_energy_of_a_child() {
    let cfg = Config::default();
    let parent = Organism { position: Point { x: 7, y: -9 }, age: 60, ..organism(SCALE) };
    let genome = Genome::planned().mutate_with(&[0; 27], &[1; 27], SCALE);
    let heading = Point { x: 0, y: SCALE };
    let c = parent.child(genome, heading, &cfg);
    assert_eq!(
        c,
        Organism {
            position: Point { x: 7, y: -9 },
            heading,
            speed: 8 * SCALE,
            energy: 500_000_000,
            age: 1,
            lifetime: 100,
            genome,
            pregnant: false,
            size: 10_606_601_715,
        }
    );
}

#[test]
fn founder_starts_with_the_starting_energy() {
    let cfg = Config::default();
    let heading = Point { x: SCALE, y: 0 };
    let f = Organism::founder(Point { x: 1, y: 2 }, heading, Genome::planned(), &cfg);
    assert_eq!(
        f,
        Organism {
            position: Point { x: 1, y: 2 },
            heading,
            speed: 8 * SCALE,
            energy: SCALE,
            age: 1,
            lifetime: 100,
            genome: Genome::planned(),
            pregnant: false,
            size: 15 * SCALE,
        }
    );
    assert!(f.is_valid());
}

#[test]
fn ageing_destroys_beyond_the_lifetime() {
    let o = organism(SCALE);
    assert_eq!(o.grow_older(), Some(Organism { age: 31, ..o }));
    let last = Organism { age: 100, ..o };
    assert_eq!(last.grow_older(), Some(Organism { age: 101, ..o }));
    assert_eq!(Organism { age: 101, ..o }.grow_older(), None);
    let food = Food { position: Point { x: 0, y: 0 }, energy: 1, age: 100, lifetime: 100 };
    assert_eq!(food.grow_older(), Some(Food { age: 101, ..food }));
    assert_eq!(Food { age: 101, ..food }.grow_older(), None);
    let mark = Pheromone { position: Point { x: 0, y: 0 }, age: 10, lifetime: 10, color: [0, 0, 0] };
    assert_eq!(mark.grow_older(), Some(Pheromone { age: 11, ..mark }));
    assert_eq!(Pheromone { age: 11, ..mark }.grow_older(), None);
}

#[test]
fn steer_turns_and_changes_speed() {
    let cfg = Config::default();
    let o = Organism { heading: Point { x: SCALE, y: 0 }, speed: 4 * SCALE, ..organism(SCALE) };
    let s = o.steer(500_000_000, 250_000_000, &cfg);
    assert_eq!(s.heading, Point { x: 877_582_562, y: -479_425_538 });
    assert_eq!(s.speed, 4_250_000_000);
    assert_eq!(s, Organism { heading: s.heading, speed: s.speed, ..o });
}

#[test]
fn steer_keeps_the_speed_between_zero_and_the_greatest() {
    let cfg = Config::default();
    let fast = Organism { speed: 8 * SCALE - 1, ..organism(SCALE) };
    assert_eq!(fast.steer(0, SCALE, &cfg).speed, 8 * SCALE);
    let slow = Organism { speed: 1, ..organism(SCALE) };
    assert_eq!(slow.steer(0, -SCALE, &cfg).speed, 0);
}

#[test]
fn bounce_reflects_the_heading_only() {
    let o = organism(SCALE);
    let b = o.bounce(Collision::Left);
    assert_eq!(b, Organism { heading: Point { x: -600_000_000, y: 800_000_000 }, ..o });
    assert_eq!(o.bounce(Collision::Right), o);
}

#[test]
fn deposit_leaves_a_mark_in_the_colour_of_the_genome() {
    let cfg = Config::default();
    let mut genes = [0i64; 27];
    genes[0] = -SCALE;
    genes[1] = SCALE;
    genes[2] = 500_000_000;
    let o = Organism { genome: Genome { genes }, position: Point { x: 3, y: 4 }, ..organism(SCALE) };
    assert_eq!(
        o.deposit(&cfg),
        Pheromone { position: Point { x: 3, y: 4 }, age: 1, lifetime: 10, color: [0, SCALE, 750_000_000] }
    );
}

#[test]
fn opacity_falls_linearly_with_age() {
    let mark = Pheromone { position: Point { x: 0, y: 0 }, age: 1, lifetime: 10, color: [0, 0, 0] };
    assert_eq!(mark.opacity(), 900_000_000);
    assert_eq!(Pheromone { age: 0, ..mark }.opacity(), SCALE);
    assert_eq!(Pheromone { age: 5, ..mark }.opacity(), 500_000_000);
    assert_eq!(Pheromone { age: 9, ..mark }.opacity(), 100_000_000);
    assert_eq!(Pheromone { age: 10, ..mark }.opacity(), 0);
    assert_eq!(Pheromone { age: 11, ..mark }.opacity(), 0);
    assert_eq!(Pheromone { age: 3, lifetime: 7, ..mark }.opacity(), 571_428_572);
    assert_eq!(Pheromone { age: 0, lifetime: 0, ..mark }.opacity(), 0);
}

#[test]
fn food_is_made_fresh() {
    let cfg = Config::default();
    let f = Food::new(Point { x: 5, y: 6 }, &cfg);
    assert_eq!(f, Food { position: Point { x: 5, y: 6 }, energy: 200_000_000, age: 1, lifetime: 100 });
    assert!(f.is_valid());
    assert_eq!(f.body(&cfg).size, Point { x: 4 * SCALE, y: 4 * SCALE });
}

#[test]
fn validity_of_records() {
    assert!(organism(SCALE).is_valid());
    assert!(!Organism { speed: -1, ..organism(SCALE) }.is_valid());
    assert!(!Organism { heading: Point { x: SCALE + 1, y: 0 }, ..organism(SCALE) }.is_valid());
    assert!(!Organism { lifetime: u64::MAX, ..organism(SCALE) }.is_valid());
    let food = Food { position: Point { x: 0, y: 0 }, energy: -1, age: 1, lifetime: 1 };
    assert!(!food.is_valid());
    let mark = Pheromone { position: Point { x: 0, y: 0 }, age: 1, lifetime: 1, color: [0, SCALE + 1, 0] };
    assert!(!mark.is_valid());
}
