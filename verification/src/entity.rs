//! The three kinds of record that come and go, and every change that one
//! tick can make to a single record.

use vstd::prelude::*;
use crate::arena::{reflect, reflected, Body, Collision};
use crate::config::{Config, MODERATE};
use crate::fixed::{
    clamp, clamped, lemma_product_bound, lemma_product_shrinks, lemma_root_below,
    lemma_root_exists, product, root, sqrt, square_root, times, LIMIT, SCALE,
};
use crate::genome::{channel, Genome};
use crate::geometry::{rotate_direction, rotated, Point};

verus! {

/// A living agent.
#[derive(Clone, Copy, Debug, PartialEq, Eq)]
pub struct Organism {
    pub position: Point,
    pub heading: Point,
    pub speed: i64,
    pub energy: i64,
    pub age: u64,
    pub lifetime: u64,
    pub genome: Genome,
    pub pregnant: bool,
    pub size: i64,
}

/// A piece of food.
#[derive(Clone, Copy, Debug, PartialEq, Eq)]
pub struct Food {
    pub position: Point,
    pub energy: i64,
    pub age: u64,
    pub lifetime: u64,
}

/// A fading mark left where an organism has been.
#[derive(Clone, Copy, Debug, PartialEq, Eq)]
pub struct Pheromone {
    pub position: Point,
    pub age: u64,
    pub lifetime: u64,
    pub color: [i64; 3],
}

/// What a growth tick makes of an organism.
#[derive(Clone, Copy, Debug, PartialEq, Eq)]
pub enum Growth {
    /// Its energy has left the living range.
    Dies,
    /// It lives on, resized to its energy.
    Lives(Organism),
    /// It gives birth: the parent, its energy reset, to be joined by a litter.
    Breeds(Organism),
}

/// An energy kept within the representable range.
pub open spec fn bounded(energy: int) -> int {
    clamped(energy, -LIMIT as int, LIMIT as int)
}

/// How far one physics tick carries an organism along one axis.
pub open spec fn displacement(heading: int, speed: int, stride: int) -> int {
    product(product(heading, speed), stride)
}

/// The energy left after one physics tick: what the decay keeps, less the
/// cost of moving, which grows with the square of the speed.
pub open spec fn spent(energy: int, speed: int, cfg: Config) -> int {
    bounded(
        product(energy, cfg.decay as int) - product(
            product(speed, speed),
            cfg.motion_cost as int,
        ),
    )
}

/// The size of a body of the given energy: the base size times the square
/// root of the energy, the energy first confined to the living range.
pub open spec fn body_size(energy: int, cfg: Config) -> int {
    product(
        cfg.base_size as int,
        square_root(clamped(energy, cfg.energy_min as int, cfg.energy_max as int)),
    )
}

/// Whether an organism that has just eaten conceives: it must be fed above
/// the pregnancy energy, older than the fertile age, and lucky in its draw.
pub open spec fn conceives(energy: int, age: int, draw: int, cfg: Config) -> bool {
    energy > cfg.pregnancy_energy && age > cfg.fertile_age && draw < cfg.pregnancy_chance
}

/// How opaque a mark of the given age is: one at age zero, falling linearly
/// to nothing at the end of its lifetime.
pub open spec fn opacity_at(age: int, lifetime: int) -> int {
    if age >= lifetime {
        0
    } else {
        SCALE - (age * SCALE) / lifetime
    }
}

/// The size of a body is never negative and stays within the limit.
pub proof fn lemma_body_size_bound(energy: int, cfg: Config)
    requires
        cfg.wf(),
    ensures
        0 <= body_size(energy, cfg) <= LIMIT,
{
    let confined = clamped(energy, cfg.energy_min as int, cfg.energy_max as int);
    assert(0 <= confined * SCALE <= 1_000_000_000_000int * 1_000_000_000_000int)
        by (nonlinear_arith)
        requires
            0 <= confined <= 1_000_000_000_000_000,
            SCALE == 1_000_000_000,
    ;
    lemma_root_exists(confined * SCALE);
    let side = root(confined * SCALE);
    lemma_root_below(confined * SCALE, side, 1_000_000_000_000);
    lemma_product_bound(cfg.base_size as int, side, MODERATE as int, MODERATE as int);
    assert(MODERATE * MODERATE == 1_000_000_000_000_000_000_000_000);
}

/// The size of a body of the given energy.
pub fn size_of(energy: i64, cfg: &Config) -> (r: i64)
    requires
        cfg.wf(),
    ensures
        r == body_size(energy as int, *cfg),
        0 <= r <= LIMIT,
{
    let confined: i64 = clamp(energy, cfg.energy_min, cfg.energy_max);
    let side: i64 = sqrt(confined);
    proof {
        assert(confined * SCALE <= 1_000_000_000_000int * 1_000_000_000_000int) by (nonlinear_arith)
            requires
                0 <= confined <= 1_000_000_000_000_000,
                SCALE == 1_000_000_000,
        ;
        lemma_root_below(confined * SCALE, side as int, 1_000_000_000_000);
        lemma_product_bound(cfg.base_size as int, side as int, MODERATE as int, MODERATE as int);
        assert(MODERATE * MODERATE == 1_000_000_000_000_000_000_000_000);
    }
    times(cfg.base_size, side)
}

impl Organism {
    /// The record can be computed with: position, speed, energy and size
    /// are within their limits, the heading and the genome are sound.
    pub open spec fn wf(&self) -> bool {
        &&& self.position.within(LIMIT as int)
        &&& self.heading.is_heading()
        &&& 0 <= self.speed <= MODERATE
        &&& -LIMIT <= self.energy <= LIMIT
        &&& self.lifetime < u64::MAX
        &&& self.genome.wf()
        &&& 0 <= self.size <= LIMIT
    }

    /// The energy lies in the living range.
    pub open spec fn viable(&self, cfg: Config) -> bool {
        cfg.energy_min <= self.energy <= cfg.energy_max
    }

    /// The size is the one that the energy calls for.
    pub open spec fn sized(&self, cfg: Config) -> bool {
        self.size == body_size(self.energy as int, cfg)
    }

    /// The box that the organism fills.
    pub open spec fn outline(&self) -> Body {
        Body { position: self.position, size: Point { x: self.size, y: self.size } }
    }

    /// The organism after one physics tick, wherever that takes it.
    pub open spec fn moved(&self, cfg: Config) -> Organism {
        Organism {
            position: Point {
                x: (self.position.x + displacement(
                    self.heading.x as int,
                    self.speed as int,
                    cfg.stride(),
                )) as i64,
                y: (self.position.y + displacement(
                    self.heading.y as int,
                    self.speed as int,
                    cfg.stride(),
                )) as i64,
            },
            energy: spent(self.energy as int, self.speed as int, cfg) as i64,
            ..*self
        }
    }

    /// One physics tick: the organism moved and charged, or nothing where
    /// the move takes it out of the arena.
    pub open spec fn advanced(&self, cfg: Config) -> Option<Organism> {
        if cfg.arena.holds(self.moved(cfg).position) {
            Some(self.moved(cfg))
        } else {
            None
        }
    }

    /// The organism charged the upkeep of one metabolism tick.
    pub open spec fn metabolized(&self, cfg: Config) -> Organism {
        Organism { energy: bounded(self.energy - cfg.upkeep) as i64, ..*self }
    }

    /// The organism after eating food of the given value, with the draw that decides on a pregnancy.
    pub open spec fn fed(&self, value: int, draw: int, cfg: Config) -> Organism {
        let energy = bounded(self.energy + value);
        Organism {
            energy: energy as i64,
            pregnant: self.pregnant || conceives(energy, self.age as int, draw, cfg),
            ..*self
        }
    }

    /// What a growth tick makes of the organism.
    pub open spec fn grown(&self, cfg: Config) -> Growth {
        if !self.viable(cfg) {
            Growth::Dies
        } else if self.pregnant {
            Growth::Breeds(
                Organism {
                    energy: cfg.start_energy,
                    pregnant: false,
                    size: body_size(cfg.start_energy as int, cfg) as i64,
                    ..*self
                },
            )
        } else {
            Growth::Lives(Organism { size: body_size(self.energy as int, cfg) as i64, ..*self })
        }
    }

    /// A newborn of this parent, with the genome and heading given.
    pub open spec fn offspring(&self, genome: Genome, heading: Point, cfg: Config) -> Organism {
        Organism {
            position: self.position,
            heading,
            speed: cfg.speed_max,
            energy: cfg.child_energy,
            age: 1,
            lifetime: cfg.lifetime,
            genome,
            pregnant: false,
            size: body_size(cfg.child_energy as int, cfg) as i64,
        }
    }

    /// One age tick: the organism a tick older, or nothing where it has outlived its lifetime.
    pub open spec fn aged(&self) -> Option<Organism> {
        if self.age > self.lifetime {
            None
        } else {
            Some(Organism { age: (self.age + 1) as u64, ..*self })
        }
    }

    /// The organism after acting on what its neurons answered: the first
    /// answer turns the heading, the second is added to the speed, which
    /// stays between zero and the greatest speed.
    pub open spec fn steered(&self, turn: int, push: int, cfg: Config) -> Organism {
        Organism {
            heading: rotated(self.heading, turn),
            speed: clamped(self.speed + push, 0, cfg.speed_max as int) as i64,
            ..*self
        }
    }

    /// The organism after striking a wall on the given side.
    pub open spec fn bounced(&self, c: Collision) -> Organism {
        Organism { heading: reflected(self.heading, c), ..*self }
    }

    /// Tells whether the record can be computed with.
    pub fn is_valid(&self) -> (r: bool)
        ensures
            r == self.wf(),
    {
        -LIMIT <= self.position.x && self.position.x <= LIMIT && -LIMIT <= self.position.y
            && self.position.y <= LIMIT && self.heading.is_unit() && 0 <= self.speed
            && self.speed <= MODERATE && -LIMIT <= self.energy && self.energy <= LIMIT
            && self.lifetime < u64::MAX && self.genome.is_valid() && 0 <= self.size && self.size
            <= LIMIT
    }

    /// A founder of the population: one tick old, at full speed, with the starting energy.
    pub fn founder(position: Point, heading: Point, genome: Genome, cfg: &Config) -> (r: Organism)
        requires
            cfg.wf(),
            cfg.arena.holds(position),
            heading.is_heading(),
            genome.wf(),
        ensures
            r == (Organism {
                position,
                heading,
                speed: cfg.speed_max,
                energy: cfg.start_energy,
                age: 1,
                lifetime: cfg.lifetime,
                genome,
                pregnant: false,
                size: body_size(cfg.start_energy as int, *cfg) as i64,
            }),
            r.wf(),
            r.viable(*cfg),
            r.sized(*cfg),
    {
        Organism {
            position,
            heading,
            speed: cfg.speed_max,
            energy: cfg.start_energy,
            age: 1,
            lifetime: cfg.lifetime,
            genome,
            pregnant: false,
            size: size_of(cfg.start_energy, cfg),
        }
    }

    /// The box that the organism fills.
    pub fn body(&self) -> (r: Body)
        requires
            self.wf(),
        ensures
            r == self.outline(),
            r.wf(),
    {
        Body { position: self.position, size: Point { x: self.size, y: self.size } }
    }

    /// Runs one physics tick on the organism: moves it along its heading
    /// and charges it for living and moving. An organism that the move
    /// takes out of the arena is gone.
    pub fn advance(&self, cfg: &Config) -> (r: Option<Organism>)
        requires
            self.wf(),
            cfg.wf(),
        ensures
            r == self.advanced(*cfg),
            r is Some ==> r.unwrap().wf() && cfg.arena.holds(r.unwrap().position),
    {
        let stride: i64 = cfg.step_length();
        proof {
            lemma_product_shrinks(self.heading.x as int, self.speed as int);
            lemma_product_shrinks(self.heading.y as int, self.speed as int);
            lemma_product_bound(
                product(self.heading.x as int, self.speed as int),
                stride as int,
                MODERATE as int,
                MODERATE as int,
            );
            lemma_product_bound(
                product(self.heading.y as int, self.speed as int),
                stride as int,
                MODERATE as int,
                MODERATE as int,
            );
            assert(MODERATE * MODERATE == 1_000_000_000_000_000_000_000_000);
            lemma_product_shrinks(cfg.decay as int, self.energy as int);
            lemma_product_bound(
                self.speed as int,
                self.speed as int,
                MODERATE as int,
                MODERATE as int,
            );
            lemma_product_shrinks(
                cfg.motion_cost as int,
                product(self.speed as int, self.speed as int),
            );
            assert(self.energy * cfg.decay == cfg.decay * self.energy) by (nonlinear_arith);
            assert(product(self.speed as int, self.speed as int) * cfg.motion_cost
                == cfg.motion_cost * product(self.speed as int, self.speed as int))
                by (nonlinear_arith);
        }
        let dx: i64 = times(times(self.heading.x, self.speed), stride);
        let dy: i64 = times(times(self.heading.y, self.speed), stride);
        let kept: i64 = times(self.energy, cfg.decay);
        let cost: i64 = times(times(self.speed, self.speed), cfg.motion_cost);
        let position = Point { x: self.position.x + dx, y: self.position.y + dy };
        let energy: i64 = clamp(kept - cost, -LIMIT, LIMIT);
        if cfg.arena.contains(position) {
            Some(Organism { position, energy, ..*self })
        } else {
            None
        }
    }

    /// Charges the organism the upkeep of one metabolism tick.
    pub fn metabolize(&self, cfg: &Config) -> (r: Organism)
        requires
            self.wf(),
            cfg.wf(),
        ensures
            r == self.metabolized(*cfg),
            r.wf(),
    {
        Organism { energy: clamp(self.energy - cfg.upkeep, -LIMIT, LIMIT), ..*self }
    }

    /// Feeds the organism food of the given value. It conceives where it
    /// is then fed above the pregnancy energy, is older than the fertile
    /// age, and `draw`, a fraction of one, falls below the pregnancy chance.
    pub fn feed(&self, value: i64, draw: i64, cfg: &Config) -> (r: Organism)
        requires
            self.wf(),
            cfg.wf(),
            0 <= value <= LIMIT,
        ensures
            r == self.fed(value as int, draw as int, *cfg),
            r.wf(),
    {
        let energy: i64 = clamp(self.energy + value, -LIMIT, LIMIT);
        let conceives: bool = energy > cfg.pregnancy_energy && self.age > cfg.fertile_age && draw
            < cfg.pregnancy_chance;
        Organism { energy, pregnant: self.pregnant || conceives, ..*self }
    }

    /// Runs one growth tick on the organism: it dies where its energy has
    /// left the living range; else, pregnant, it gives birth and starts
    /// over with the starting energy; and it is resized to its energy.
    pub fn grow(&self, cfg: &Config) -> (r: Growth)
        requires
            self.wf(),
            cfg.wf(),
        ensures
            r == self.grown(*cfg),
            match r {
                Growth::Dies => true,
                Growth::Lives(o) => o.wf() && o.viable(*cfg) && o.sized(*cfg) && !o.pregnant,
                Growth::Breeds(o) => o.wf() && o.viable(*cfg) && o.sized(*cfg) && !o.pregnant,
            },
    {
        if self.energy < cfg.energy_min || self.energy > cfg.energy_max {
            Growth::Dies
        } else if self.pregnant {
            Growth::Breeds(
                Organism {
                    energy: cfg.start_energy,
                    pregnant: false,
                    size: size_of(cfg.start_energy, cfg),
                    ..*self
                },
            )
        } else {
            Growth::Lives(Organism { size: size_of(self.energy, cfg), ..*self })
        }
    }

    /// A newborn: where its parent stands, with the genome and heading
    /// given, the energy of a child, and everything else as a founder has it.
    pub fn child(&self, genome: Genome, heading: Point, cfg: &Config) -> (r: Organism)
        requires
            self.wf(),
            cfg.wf(),
            genome.wf(),
            heading.is_heading(),
        ensures
            r == self.offspring(genome, heading, *cfg),
            r.wf(),
            r.viable(*cfg),
            r.sized(*cfg),
    {
        Organism {
            position: self.position,
            heading,
            speed: cfg.speed_max,
            energy: cfg.child_energy,
            age: 1,
            lifetime: cfg.lifetime,
            genome,
            pregnant: false,
            size: size_of(cfg.child_energy, cfg),
        }
    }

    /// Runs one age tick on the organism.
    pub fn grow_older(&self) -> (r: Option<Organism>)
        requires
            self.wf(),
        ensures
            r == self.aged(),
            r is Some ==> r.unwrap().wf(),
    {
        if self.age > self.lifetime {
            None
        } else {
            Some(Organism { age: self.age + 1, ..*self })
        }
    }

    /// Acts on what the neurons answered: turns by `turn`, and adds `push` to the speed.
    pub fn steer(&self, turn: i64, push: i64, cfg: &Config) -> (r: Organism)
        requires
            self.wf(),
            cfg.wf(),
            -SCALE <= turn <= SCALE,
            -SCALE <= push <= SCALE,
        ensures
            r == self.steered(turn as int, push as int, *cfg),
            r.wf(),
            0 <= r.speed <= cfg.speed_max,
    {
        Organism {
            heading: rotate_direction(self.heading, turn),
            speed: clamp(self.speed + push, 0, cfg.speed_max),
            ..*self
        }
    }

    /// Turns the organism back from the wall it has struck.
    pub fn bounce(&self, c: Collision) -> (r: Organism)
        requires
            self.wf(),
        ensures
            r == self.bounced(c),
            r.wf(),
    {
        Organism { heading: reflect(self.heading, c), ..*self }
    }

    /// Leaves a mark where the organism stands, in the colour of its genome.
    pub fn deposit(&self, cfg: &Config) -> (r: Pheromone)
        requires
            self.wf(),
            cfg.wf(),
        ensures
            r.position == self.position,
            r.age == 1,
            r.lifetime == cfg.pheromone_lifetime,
            forall|k: int| 0 <= k < 3 ==> #[trigger] r.color@[k] == channel(self.genome@[k] as int),
            r.wf(),
    {
        Pheromone {
            position: self.position,
            age: 1,
            lifetime: cfg.pheromone_lifetime,
            color: self.genome.color(),
        }
    }
}

impl Food {
    /// The record can be computed with.
    pub open spec fn wf(&self) -> bool {
        &&& self.position.within(LIMIT as int)
        &&& 0 <= self.energy <= LIMIT
        &&& self.lifetime < u64::MAX
    }

    /// The box that the food fills.
    pub open spec fn outline(&self, cfg: Config) -> Body {
        Body { position: self.position, size: Point { x: cfg.food_size, y: cfg.food_size } }
    }

    /// One age tick: the food a tick older, or nothing where it has outlived its lifetime.
    pub open spec fn aged(&self) -> Option<Food> {
        if self.age > self.lifetime {
            None
        } else {
            Some(Food { age: (self.age + 1) as u64, ..*self })
        }
    }

    /// Tells whether the record can be computed with.
    pub fn is_valid(&self) -> (r: bool)
        ensures
            r == self.wf(),
    {
        -LIMIT <= self.position.x && self.position.x <= LIMIT && -LIMIT <= self.position.y
            && self.position.y <= LIMIT && 0 <= self.energy && self.energy <= LIMIT
            && self.lifetime < u64::MAX
    }

    /// A fresh piece of food at the given place.
    pub fn new(position: Point, cfg: &Config) -> (r: Food)
        requires
            cfg.wf(),
            cfg.arena.holds(position),
        ensures
            r == (Food {
                position,
                energy: cfg.food_energy,
                age: 1,
                lifetime: cfg.food_lifetime,
            }),
            r.wf(),
    {
        Food { position, energy: cfg.food_energy, age: 1, lifetime: cfg.food_lifetime }
    }

    /// The box that the food fills.
    pub fn body(&self, cfg: &Config) -> (r: Body)
        requires
            self.wf(),
            cfg.wf(),
        ensures
            r == self.outline(*cfg),
            r.wf(),
    {
        Body { position: self.position, size: Point { x: cfg.food_size, y: cfg.food_size } }
    }

    /// Runs one age tick on the food.
    pub fn grow_older(&self) -> (r: Option<Food>)
        requires
            self.wf(),
        ensures
            r == self.aged(),
            r is Some ==> r.unwrap().wf(),
    {
        if self.age > self.lifetime {
            None
        } else {
            Some(Food { age: self.age + 1, ..*self })
        }
    }
}

impl Pheromone {
    /// The record can be computed with.
    pub open spec fn wf(&self) -> bool {
        &&& self.position.within(LIMIT as int)
        &&& self.lifetime < u64::MAX
        &&& forall|k: int| 0 <= k < 3 ==> 0 <= #[trigger] self.color@[k] <= SCALE
    }

    /// One age tick: the mark a tick older, or nothing where it has outlived its lifetime.
    pub open spec fn aged(&self) -> Option<Pheromone> {
        if self.age > self.lifetime {
            None
        } else {
            Some(Pheromone { age: (self.age + 1) as u64, ..*self })
        }
    }

    /// Tells whether the record can be computed with.
    pub fn is_valid(&self) -> (r: bool)
        ensures
            r == self.wf(),
    {
        -LIMIT <= self.position.x && self.position.x <= LIMIT && -LIMIT <= self.position.y
            && self.position.y <= LIMIT && self.lifetime < u64::MAX && 0 <= self.color[0]
            && self.color[0] <= SCALE && 0 <= self.color[1] && self.color[1] <= SCALE && 0
            <= self.color[2] && self.color[2] <= SCALE
    }

    /// Runs one age tick on the mark.
    pub fn grow_older(&self) -> (r: Option<Pheromone>)
        requires
            self.wf(),
        ensures
            r == self.aged(),
            r is Some ==> r.unwrap().wf(),
    {
        if self.age > self.lifetime {
            None
        } else {
            Some(Pheromone { age: self.age + 1, ..*self })
        }
    }

    /// How opaque the mark is: it fades linearly with its age, and is
    /// gone at the end of its lifetime.
    pub fn opacity(&self) -> (r: i64)
        ensures
            r == opacity_at(self.age as int, self.lifetime as int),
            0 <= r <= SCALE,
    {
        if self.age >= self.lifetime {
            0
        } else {
            let scaled: u128 = (self.age as u128) * 1_000_000_000u128;
            let gone: u128 = scaled / (self.lifetime as u128);
            assert(gone <= SCALE) by (nonlinear_arith)
                requires
                    gone == (self.age * 1_000_000_000) / (self.lifetime as int),
                    0 <= self.age < self.lifetime,
                    SCALE == 1_000_000_000,
            ;
            SCALE - (gone as i64)
        }
    }
}

} // verus!
