use evosim::clock::Clock;
use evosim::collisions::{check_for_collisions, CollisionEvent};
use evosim::config::Config;
use evosim::entity::{size_of, Food, Organism, Pheromone};
use evosim::fixed::SCALE;
use evosim::genome::{Genome, MUTATION_SPAN};
use evosim::geometry::Point;
use evosim::growth::{generate_food, grow_organism, random_position, startup};
use evosim::stages::{
    adjust_direction, age_foods, age_organisms, age_pheromones, age_progression, apply_direction,
    metabolize,
};
use evosim::world::World;
use rand::rngs::StdRng;
use rand::SeedableRng;

fn organism(x: i64, y: i64, energy: i64) -> Organism {
    Organism {
        position: Point { x: x * SCALE, y: y * SCALE },
        heading: Point { x: SCALE, y: 0 },
        speed: 8 * SCALE,
        energy,
        age: 30,
        lifetime: 100,
        genome: Genome::planned(),
        pregnant: false,
        size: 15 * SCALE,
    }
}

fn food(x: i64, y: i64) -> Food {
    Food { position: Point { x: x * SCALE, y: y * SCALE }, energy: 200_000_000, age: 1, lifetime: 100 }
}

#[test]
fn integrate_moves_every_organism_and_drops_those_that_leave() {
    let cfg = Config::default();
    let inside = organism(0, 0, SCALE);
    let leaving = organism(600, 0, SCALE);
    let staying = Organism { heading: Point { x: -SCALE, y: 0 }, ..organism(600, 0, SCALE) };
    let moved = apply_direction(&vec![inside, leaving, staying], &cfg);
    assert_eq!(moved.len(), 2);
    assert_eq!(moved[0], inside.advance(&cfg).unwrap());
    assert_eq!(moved[0].position, Point { x: 666_666_680, y: 0 });
    assert_eq!(moved[1], staying.advance(&cfg).unwrap());
    assert_eq!(moved[1].position, Point { x: 600 * SCALE - 666_666_680, y: 0 });
}

#[test]
fn organism_that_left_is_not_seen_by_collisions_or_growth() {
    let cfg = Config::default();
    let leaving = Organism { pregnant: true, ..organism(600, 0, SCALE) };
    let mut world = World {
        config: cfg,
        clock: Clock::default(),
        organisms: vec![leaving],
        foods: vec![food(600, 0)],
        pheromones: Vec::new(),
    };
    assert!(world.is_valid());
    let mut rng = StdRng::seed_from_u64(1);
    let report = world.step(&mut rng);
    assert!(world.organisms.is_empty());
    assert!(report.events.is_empty());
    assert_eq!(world.foods, vec![food(600, 0)]);
}

#[test]
fn metabolize_charges_every_organism() {
    let cfg = Config::default();
    let out = metabolize(&vec![organism(0, 0, SCALE), organism(1, 1, 2 * SCALE)], &cfg);
    assert_eq!(out, vec![organism(0, 0, 999_000_000), organism(1, 1, 1_999_000_000)]);
}

#[test]
fn ageing_drops_what_has_outlived_its_lifetime() {
    let old = Organism { age: 101, ..organism(0, 0, SCALE) };
    let young = organism(1, 0, SCALE);
    assert_eq!(age_organisms(&vec![old, young, old]), vec![Organism { age: 31, ..young }]);
    let rotten = Food { age: 101, ..food(0, 0) };
    assert_eq!(age_foods(&vec![food(1, 1), rotten]), vec![Food { age: 2, ..food(1, 1) }]);
    let mark = Pheromone { position: Point { x: 0, y: 0 }, age: 10, lifetime: 10, color: [0, 0, 0] };
    let gone = Pheromone { age: 11, ..mark };
    assert_eq!(age_pheromones(&vec![gone, mark]), vec![Pheromone { age: 11, ..mark }]);
    let (organisms, foods, marks) = age_progression(&vec![young, old], &vec![rotten], &vec![mark]);
    assert_eq!(organisms, vec![Organism { age: 31, ..young }]);
    assert!(foods.is_empty());
    assert_eq!(marks, vec![Pheromone { age: 11, ..mark }]);
}

#[test]
fn sensory_tick_steers_everyone_and_leaves_marks() {
    let cfg = Config::default();
    let a = organism(0, 0, SCALE);
    let b = organism(100, 100, SCALE);
    let foods = vec![food(50, 0)];
    let mut marks = vec![a.deposit(&cfg)];
    let out = adjust_direction(&vec![a, b], &foods, &mut marks, &cfg);
    assert_eq!(out.len(), 2);
    assert_eq!(out[0], evosim::senses::decide(&a, &foods, &cfg));
    assert_eq!(out[1], evosim::senses::decide(&b, &foods, &cfg));
    assert_eq!(marks, vec![a.deposit(&cfg), a.deposit(&cfg), b.deposit(&cfg)]);
    assert_eq!(marks[2].position, b.position);
    assert_eq!(marks[2].color, [500_000_000; 3]);
}

#[test]
fn organism_eats_the_food_it_touches() {
    let cfg = Config::default();
    let o = organism(0, 0, 2_500_000_000);
    let foods = vec![food(100, 0), food(5, 5), food(0, 0)];
    let (after, left, events) = check_for_collisions(&vec![o], &foods, &vec![SCALE - 1; 3], &cfg);
    assert_eq!(after, vec![Organism { energy: 2_900_000_000, ..o }]);
    assert_eq!(left, vec![food(100, 0)]);
    assert_eq!(events, vec![CollisionEvent::Food, CollisionEvent::Food]);
}

#[test]
fn food_is_eaten_by_the_first_organism_only() {
    let cfg = Config::default();
    let a = organism(0, 0, SCALE);
    let b = organism(1, 0, SCALE);
    let (after, left, events) = check_for_collisions(&vec![a, b], &vec![food(0, 0)], &vec![0], &cfg);
    assert_eq!(after, vec![Organism { energy: 1_200_000_000, ..a }, b]);
    assert!(left.is_empty());
    assert_eq!(events, vec![CollisionEvent::Food]);
}

#[test]
fn wall_turns_back_an_organism_that_heads_into_it() {
    let cfg = Config::default();
    let o = organism(592, 0, SCALE);
    let (after, _, events) = check_for_collisions(&vec![o], &Vec::new(), &Vec::new(), &cfg);
    assert_eq!(after, vec![Organism { heading: Point { x: -SCALE, y: 0 }, ..o }]);
    assert_eq!(events, vec![CollisionEvent::Wall]);
    let away = Organism { heading: Point { x: -SCALE, y: 0 }, ..o };
    let (still, _, again) = check_for_collisions(&vec![away], &Vec::new(), &Vec::new(), &cfg);
    assert_eq!(still, vec![away]);
    assert_eq!(again, vec![CollisionEvent::Wall]);
}

#[test]
fn wall_on_each_side_turns_back_its_own_component() {
    let cfg = Config::default();
    let down = Organism { heading: Point { x: 600_000_000, y: -800_000_000 }, ..organism(0, -292, SCALE) };
    let (after, _, _) = check_for_collisions(&vec![down], &Vec::new(), &Vec::new(), &cfg);
    assert_eq!(after[0].heading, Point { x: 600_000_000, y: 800_000_000 });
    let left = Organism { heading: Point { x: -600_000_000, y: -800_000_000 }, ..organism(-592, 0, SCALE) };
    let (after, _, _) = check_for_collisions(&vec![left], &Vec::new(), &Vec::new(), &cfg);
    assert_eq!(after[0].heading, Point { x: 600_000_000, y: -800_000_000 });
    let free = organism(0, 0, SCALE);
    let (after, _, events) = check_for_collisions(&vec![free], &Vec::new(), &Vec::new(), &cfg);
    assert_eq!(after, vec![free]);
    assert!(events.is_empty());
}

#[test]
fn reproduction_after_eating_with_a_lucky_draw() {
    let cfg = Config::default();
    let parent = Organism { position: Point { x: 12 * SCALE, y: -7 * SCALE }, ..organism(0, 0, 2_500_000_000) };
    let foods = vec![food(12, -7)];
    let (fed, left, events) = check_for_collisions(&vec![parent], &foods, &vec![0], &cfg);
    assert_eq!(fed[0].energy, 2_700_000_000);
    assert!(fed[0].pregnant);
    assert!(left.is_empty());
    assert_eq!(events, vec![CollisionEvent::Food]);

    let mut rng = StdRng::seed_from_u64(4);
    let grown = grow_organism(&fed, &mut rng, &cfg);
    assert_eq!(grown.len(), 1 + cfg.litter);
    assert_eq!(grown[0], Organism { energy: SCALE, pregnant: false, size: 15 * SCALE, ..parent });
    let mut mutated = 0;
    for child in &grown[1..] {
        assert_eq!(child.position, parent.position);
        assert_eq!(child.energy, 500_000_000);
        assert_eq!(child.age, 1);
        assert_eq!(child.lifetime, 100);
        assert_eq!(child.speed, 8 * SCALE);
        assert!(!child.pregnant);
        assert_eq!(child.size, size_of(500_000_000, &cfg));
        for i in 0..27 {
            let shift = child.genome.genes[i] - parent.genome.genes[i];
            assert!(shift.abs() <= MUTATION_SPAN);
            assert!(child.genome.genes[i].abs() <= SCALE);
            mutated += (shift != 0) as u32;
        }
    }
    assert!(mutated > 0 && mutated < 270);
}

#[test]
fn reproduction_without_mutation_copies_the_genome() {
    let cfg = Config { mutation_rate: 0, litter: 3, ..Config::default() };
    let parent = Organism { pregnant: true, ..organism(5, 5, 2_700_000_000) };
    let bystander = organism(9, 9, SCALE);
    let mut rng = StdRng::seed_from_u64(8);
    let grown = grow_organism(&vec![parent, bystander], &mut rng, &cfg);
    assert_eq!(grown.len(), 5);
    assert_eq!(grown[0], Organism { energy: SCALE, pregnant: false, size: 15 * SCALE, ..parent });
    assert_eq!(grown[1], bystander);
    for child in &grown[2..] {
        assert_eq!(child.genome, parent.genome);
        assert_eq!(child.position, parent.position);
    }
}

#[test]
fn growth_removes_every_organism_outside_the_living_range() {
    let cfg = Config::default();
    let starved = organism(0, 0, 199_999_999);
    let bloated = Organism { pregnant: true, ..organism(1, 0, 4 * SCALE + 1) };
    let fine = organism(2, 0, 3 * SCALE);
    let mut rng = StdRng::seed_from_u64(2);
    let grown = grow_organism(&vec![starved, fine, bloated], &mut rng, &cfg);
    assert_eq!(grown, vec![Organism { size: size_of(3 * SCALE, &cfg), ..fine }]);
}

#[test]
fn food_spawns_inside_the_arena() {
    let cfg = Config::default();
    let mut rng = StdRng::seed_from_u64(6);
    let mut foods = vec![food(1, 1)];
    for round in 1..=20 {
        generate_food(&mut foods, &mut rng, &cfg);
        assert_eq!(foods.len(), 1 + 2 * round);
    }
    assert_eq!(foods[0], food(1, 1));
    for f in &foods[1..] {
        assert!(cfg.arena.contains(f.position));
        assert_eq!(*f, Food::new(f.position, &cfg));
    }
    let p = random_position(&mut rng, &cfg);
    assert!(cfg.arena.contains(p));
    assert_ne!(foods[1].position, foods[2].position);
}

#[test]
fn startup_founds_the_population() {
    let cfg = Config::default();
    let mut rng = StdRng::seed_from_u64(10);
    let founders = startup(&mut rng, &cfg);
    assert_eq!(founders.len(), 50);
    for f in &founders {
        assert!(cfg.arena.contains(f.position));
        assert_eq!(*f, Organism::founder(f.position, f.heading, Genome::planned(), &cfg));
    }
    assert_ne!(founders[0].position, founders[1].position);
}

#[test]
fn new_world_has_founders_and_nothing_else() {
    let mut rng = StdRng::seed_from_u64(10);
    let world = World::new(Config::default(), Clock::default(), &mut rng);
    assert!(world.is_valid());
    assert_eq!(world.organisms.len(), 50);
    assert!(world.foods.is_empty());
    assert!(world.pheromones.is_empty());
}

fn run(seed: u64, ticks: usize) -> World {
    let mut rng = StdRng::seed_from_u64(seed);
    let mut world = World::new(Config::default(), Clock::default(), &mut rng);
    for _ in 0..ticks {
        world.step(&mut rng);
    }
    world
}

#[test]
fn equal_seeds_give_equal_worlds() {
    let a = run(42, 300);
    let b = run(42, 300);
    assert_eq!(a.organisms, b.organisms);
    assert_eq!(a.foods, b.foods);
    assert_eq!(a.pheromones, b.pheromones);
    assert_eq!(a.clock, b.clock);
    let c = run(43, 300);
    assert_ne!(a.organisms, c.organisms);
}

#[test]
fn every_tick_leaves_the_organisms_alive_sized_and_inside() {
    let cfg = Config::default();
    let mut rng = StdRng::seed_from_u64(7);
    let mut world = World::new(cfg, Clock::default(), &mut rng);
    let mut fed = 0;
    for _ in 0..400 {
        let report = world.step(&mut rng);
        fed += report.events.iter().filter(|e| **e == CollisionEvent::Food).count();
        for o in &world.organisms {
            assert!(cfg.energy_min <= o.energy && o.energy <= cfg.energy_max);
            assert_eq!(o.size, size_of(o.energy, &cfg));
            assert!(cfg.arena.contains(o.position));
            assert!(0 <= o.speed && o.speed <= cfg.speed_max);
        }
        assert!(world.is_valid());
    }
    assert!(fed > 0);
    assert!(!world.foods.is_empty());
    assert!(!world.pheromones.is_empty());
}

#[test]
fn step_runs_the_rules_in_order() {
    let cfg = Config { initial_population: 0, ..Config::default() };
    let o = organism(0, 0, 2_500_000_000);
    let mut world = World {
        config: cfg,
        clock: Clock::default(),
        organisms: vec![o],
        foods: vec![food(1, 0)],
        pheromones: Vec::new(),
    };
    let mut rng = StdRng::seed_from_u64(3);
    let report = world.step(&mut rng);
    assert!(!report.log);
    assert_eq!(report.events, vec![CollisionEvent::Food]);
    assert!(world.foods.is_empty());
    let moved = o.advance(&cfg).unwrap();
    let pregnant = world.organisms.len() == 11;
    assert!(pregnant || world.organisms.len() == 1);
    let energy = if pregnant { SCALE } else { moved.energy + 200_000_000 };
    assert_eq!(
        world.organisms[0],
        Organism { energy, size: size_of(energy, &cfg), ..moved }
    );
    assert_eq!(world.clock.food.elapsed, 83_333_335);
}

#[test]
fn step_reports_when_the_log_is_due() {
    let cfg = Config { initial_population: 0, food_per_spawn: 0, ..Config::default() };
    let mut rng = StdRng::seed_from_u64(3);
    let mut world = World::new(cfg, Clock::default(), &mut rng);
    let mut due = Vec::new();
    for tick in 1..=240 {
        if world.step(&mut rng).log {
            due.push(tick);
        }
    }
    assert_eq!(due, vec![120, 240]);
}
