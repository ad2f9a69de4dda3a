//! The settings of a simulation and the bounds within which they are sound.

use vstd::prelude::*;
use crate::arena::Arena;
use crate::fixed::{lemma_product_bound, product, times, LIMIT, SCALE};

verus! {

/// The largest speed, size, or time scale: a thousand units.
pub const MODERATE: i64 = 1_000_000_000_000;

/// Everything that can be set about a simulation. Real quantities are
/// fixed-point numbers; ages and counts are plain integers.
#[derive(Clone, Copy, Debug, PartialEq, Eq)]
pub struct Config {
    /// The bounds of the world and the thickness of its walls.
    pub arena: Arena,
    /// How many organisms the world starts with.
    pub initial_population: usize,
    /// How many pieces of food appear each time the food timer fires.
    pub food_per_spawn: usize,
    /// The probability that one gene mutates when a genome is inherited.
    pub mutation_rate: i64,
    /// The probability that a fertile, well-fed organism conceives on eating.
    pub pregnancy_chance: i64,
    /// The energy above which an organism can conceive.
    pub pregnancy_energy: i64,
    /// The age above which an organism can conceive.
    pub fertile_age: u64,
    /// How many children one pregnancy yields.
    pub litter: usize,
    /// The least energy an organism can live with.
    pub energy_min: i64,
    /// The greatest energy an organism can live with.
    pub energy_max: i64,
    /// The energy of a founder, and of a parent after giving birth.
    pub start_energy: i64,
    /// The energy of a newborn.
    pub child_energy: i64,
    /// The energy that one piece of food gives.
    pub food_energy: i64,
    /// The fraction of its energy that an organism keeps over one physics tick.
    pub decay: i64,
    /// The energy that one physics tick costs per unit of squared speed.
    pub motion_cost: i64,
    /// The energy that one metabolism tick costs every organism.
    pub upkeep: i64,
    /// The age beyond which an organism dies.
    pub lifetime: u64,
    /// The age beyond which a piece of food rots.
    pub food_lifetime: u64,
    /// The age beyond which a pheromone is gone.
    pub pheromone_lifetime: u64,
    /// How far an organism sees food.
    pub vision: i64,
    /// The greatest speed, which is also the speed of a newborn.
    pub speed_max: i64,
    /// The size of an organism whose energy is one.
    pub base_size: i64,
    /// The size of a piece of food.
    pub food_size: i64,
    /// The size of a pheromone.
    pub pheromone_size: i64,
    /// The duration of one physics tick, in seconds.
    pub time_step: i64,
    /// How many simulated seconds pass per second.
    pub time_scale: i64,
}

impl Config {
    /// The settings are sound: probabilities are fractions of one, the
    /// living range of energy starts at zero or above and holds the energy
    /// of a founder and of a newborn, and every quantity is small enough to
    /// be computed with.
    pub open spec fn wf(&self) -> bool {
        &&& self.arena.wf()
        &&& 0 <= self.mutation_rate <= SCALE
        &&& 0 <= self.pregnancy_chance <= SCALE
        &&& 0 <= self.pregnancy_energy <= LIMIT
        &&& 0 <= self.energy_min <= self.energy_max < LIMIT
        &&& self.energy_min <= self.start_energy <= self.energy_max
        &&& self.energy_min <= self.child_energy <= self.energy_max
        &&& 0 <= self.food_energy <= LIMIT
        &&& 0 <= self.decay <= SCALE
        &&& 0 <= self.motion_cost <= SCALE
        &&& 0 <= self.upkeep <= LIMIT
        &&& self.lifetime < u64::MAX
        &&& self.food_lifetime < u64::MAX
        &&& self.pheromone_lifetime < u64::MAX
        &&& 0 < self.vision <= LIMIT
        &&& 0 <= self.speed_max <= MODERATE
        &&& 0 <= self.base_size <= MODERATE
        &&& 0 <= self.food_size <= MODERATE
        &&& 0 <= self.pheromone_size <= MODERATE
        &&& 0 < self.time_step <= SCALE
        &&& 0 < self.time_scale <= MODERATE
    }

    /// The simulated time that one physics tick covers.
    pub open spec fn stride(&self) -> int {
        product(self.time_step as int, self.time_scale as int)
    }

    /// Tells whether the settings are sound.
    pub fn is_valid(&self) -> (r: bool)
        ensures
            r == self.wf(),
    {
        self.arena.is_valid() && 0 <= self.mutation_rate && self.mutation_rate <= SCALE && 0
            <= self.pregnancy_chance && self.pregnancy_chance <= SCALE && 0
            <= self.pregnancy_energy && self.pregnancy_energy <= LIMIT && 0 <= self.energy_min
            && self.energy_min <= self.energy_max && self.energy_max < LIMIT
            && self.energy_min <= self.start_energy && self.start_energy <= self.energy_max
            && self.energy_min <= self.child_energy && self.child_energy <= self.energy_max && 0 <= self.food_energy && self.food_energy <= LIMIT
            && 0 <= self.decay && self.decay <= SCALE && 0 <= self.motion_cost && self.motion_cost
            <= SCALE && 0 <= self.upkeep && self.upkeep <= LIMIT && self.lifetime < u64::MAX
            && self.food_lifetime < u64::MAX && self.pheromone_lifetime < u64::MAX && 0
            < self.vision && self.vision <= LIMIT && 0 <= self.speed_max && self.speed_max
            <= MODERATE && 0 <= self.base_size && self.base_size <= MODERATE && 0
            <= self.food_size && self.food_size <= MODERATE && 0 <= self.pheromone_size
            && self.pheromone_size <= MODERATE && 0 < self.time_step && self.time_step <= SCALE
            && 0 < self.time_scale && self.time_scale <= MODERATE
    }

    /// The simulated time that one physics tick covers.
    pub fn step_length(&self) -> (r: i64)
        requires
            self.wf(),
        ensures
            r == self.stride(),
            0 <= r <= MODERATE,
    {
        proof {
            lemma_product_bound(
                self.time_step as int,
                self.time_scale as int,
                SCALE as int,
                MODERATE as int,
            );
            assert(SCALE * MODERATE == 1_000_000_000_000_000_000_000);
        }
        times(self.time_step, self.time_scale)
    }
}

impl Default for Config {
    /// The usual settings: an arena 1200 wide and 600
    /// high, fifty founders, sixty physics ticks a second at five times
    /// real time.
    fn default() -> (r: Config)
        ensures
            r.wf(),
            r.arena.left == -600_000_000_000,
            r.arena.right == 600_000_000_000,
            r.arena.bottom == -300_000_000_000,
            r.arena.top == 300_000_000_000,
            r.arena.thickness == 4_000_000_000,
            r.initial_population == 50,
            r.food_per_spawn == 2,
            r.mutation_rate == 200_000_000,
            r.pregnancy_chance == 500_000_000,
            r.pregnancy_energy == 2_000_000_000,
            r.fertile_age == 25,
            r.litter == 10,
            r.energy_min == 200_000_000,
            r.energy_max == 4_000_000_000,
            r.start_energy == 1_000_000_000,
            r.child_energy == 500_000_000,
            r.food_energy == 200_000_000,
            r.decay == 999_000_000,
            r.motion_cost == 20,
            r.upkeep == 1_000_000,
            r.lifetime == 100,
            r.food_lifetime == 100,
            r.pheromone_lifetime == 10,
            r.vision == 100_000_000_000,
            r.speed_max == 8_000_000_000,
            r.base_size == 15_000_000_000,
            r.food_size == 4_000_000_000,
            r.pheromone_size == 4_000_000_000,
            r.time_step == 16_666_667,
            r.time_scale == 5_000_000_000,
    {
        Config {
            arena: Arena {
                left: -600_000_000_000,
                right: 600_000_000_000,
                bottom: -300_000_000_000,
                top: 300_000_000_000,
                thickness: 4_000_000_000,
            },
            initial_population: 50,
            food_per_spawn: 2,
            mutation_rate: 200_000_000,
            pregnancy_chance: 500_000_000,
            pregnancy_energy: 2_000_000_000,
            fertile_age: 25,
            litter: 10,
            energy_min: 200_000_000,
            energy_max: 4_000_000_000,
            start_energy: 1_000_000_000,
            child_energy: 500_000_000,
            food_energy: 200_000_000,
            decay: 999_000_000,
            motion_cost: 20,
            upkeep: 1_000_000,
            lifetime: 100,
            food_lifetime: 100,
            pheromone_lifetime: 10,
            vision: 100_000_000_000,
            speed_max: 8_000_000_000,
            base_size: 15_000_000_000,
            food_size: 4_000_000_000,
            pheromone_size: 4_000_000_000,
            time_step: 16_666_667,
            time_scale: 5_000_000_000,
        }
    }
}

} // verus!
