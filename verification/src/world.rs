//! The world: the registry of everything alive, and the one function that
//! carries it from one tick to the next.

use vstd::prelude::*;
use rand::rngs::StdRng;
use crate::chance::{draw_many, units};
use crate::clock::Clock;
use crate::collisions::{check_for_collisions, resolved, uneaten, CollisionEvent};
use crate::config::Config;
use crate::entity::{Food, Organism, Pheromone};
use crate::growth::{generate_food, grew, grow_organism, is_founder, spawned, startup};
use crate::registry::kept;
use crate::senses::{decided, foods_wf};
use crate::stages::{
    adjust_direction, advancing, age_progression, ageing, all_inside, apply_direction, fading,
    marks, metabolize, organisms_wf, pheromones_wf, rotting, settled,
};

verus! {

/// Everything there is: the settings, the clock, and the three kinds of
/// record. The four walls are those of the arena in the settings.
pub struct World {
    pub config: Config,
    pub clock: Clock,
    pub organisms: Vec<Organism>,
    pub foods: Vec<Food>,
    pub pheromones: Vec<Pheromone>,
}

/// What one tick hands to the outside: the collisions that happened, in
/// order, and whether the log is due.
pub struct Report {
    pub events: Vec<CollisionEvent>,
    pub log: bool,
}

/// `after` is `before` with every organism charged the upkeep of one metabolism tick.
pub open spec fn upkept(before: Seq<Organism>, after: Seq<Organism>, cfg: Config) -> bool {
    &&& after.len() == before.len()
    &&& forall|i: int| 0 <= i < after.len() ==> #[trigger] after[i] == before[i].metabolized(cfg)
}

/// `after` is `before` with every organism having sensed `foods` and acted on it.
pub open spec fn steered(
    before: Seq<Organism>,
    after: Seq<Organism>,
    foods: Seq<Food>,
    cfg: Config,
) -> bool {
    &&& after.len() == before.len()
    &&& forall|i: int| 0 <= i < after.len() ==> #[trigger] after[i] == decided(before[i], foods, cfg)
}

/// `after` is `before` with one mark added at the end for each of the organisms, in their order.
pub open spec fn traced(
    before: Seq<Pheromone>,
    organisms: Seq<Organism>,
    after: Seq<Pheromone>,
    cfg: Config,
) -> bool {
    &&& after.len() == before.len() + organisms.len()
    &&& forall|k: int| 0 <= k < before.len() ==> #[trigger] after[k] == before[k]
    &&& forall|i: int|
        0 <= i < organisms.len() ==> marks(#[trigger] organisms[i], after[before.len() + i], cfg)
}

/// One tick, rule by rule, given what chance decided: `food` is the food
/// after spawning, `charged` the organisms after the metabolism rule,
/// `draws` the pregnancy draws of the collision rule, and `grown` the
/// organisms after the growth rule.
///
/// The clock advances by one stride and tells which of the slower rules
/// are due. Then, in this order: every organism moves, and those that
/// leave the arena are gone; food spawns, if due; everything ages, if
/// due; the metabolism is charged, if due; collisions are resolved;
/// organisms grow, die and give birth; and, if due, every organism
/// senses, decides and leaves a mark.
pub open spec fn chain(
    before: World,
    after: World,
    events: Seq<CollisionEvent>,
    food: Seq<Food>,
    charged: Seq<Organism>,
    draws: Seq<i64>,
    grown: Seq<Organism>,
) -> bool {
    let cfg = before.config;
    let due = before.clock.due(cfg.stride());
    let moved = kept(before.organisms@, advancing(cfg));
    let aged = if due.age {
        kept(moved, ageing())
    } else {
        moved
    };
    let left = if due.age {
        kept(food, rotting())
    } else {
        food
    };
    let trail = if due.age {
        kept(before.pheromones@, fading())
    } else {
        before.pheromones@
    };
    let met = resolved(charged, left, draws, cfg, charged.len());
    &&& after.config == cfg
    &&& after.clock == before.clock.ticked(cfg.stride())
    &&& if due.food {
        spawned(before.foods@, food, cfg.food_per_spawn as nat, cfg)
    } else {
        food == before.foods@
    }
    &&& if due.metabolism {
        upkept(aged, charged, cfg)
    } else {
        charged == aged
    }
    &&& draws.len() == left.len()
    &&& units(draws)
    &&& events == met.events
    &&& after.foods@ == uneaten(left, met.gone, left.len())
    &&& grew(met.organisms, grown, cfg)
    &&& if due.sensory {
        steered(grown, after.organisms@, after.foods@, cfg) && traced(
            trail,
            grown,
            after.pheromones@,
            cfg,
        )
    } else {
        after.organisms@ == grown && after.pheromones@ == trail
    }
}

/// `after` is what one tick makes of `before`, for some outcome of the
/// draws that the tick makes, and `events` is what the tick reports.
pub open spec fn stepped(before: World, after: World, events: Seq<CollisionEvent>) -> bool {
    exists|food: Seq<Food>, charged: Seq<Organism>, draws: Seq<i64>, grown: Seq<Organism>|
        chain(before, after, events, food, charged, draws, grown)
}

/// A tick leaves nothing to chance but its draws: two worlds that come
/// out of one world by the same draws hold the same organisms and the
/// same food, show the same time, and report the same events.
pub proof fn law_step_determined(
    before: World,
    a: World,
    b: World,
    events_a: Seq<CollisionEvent>,
    events_b: Seq<CollisionEvent>,
    food: Seq<Food>,
    charged: Seq<Organism>,
    draws: Seq<i64>,
    grown: Seq<Organism>,
)
    requires
        chain(before, a, events_a, food, charged, draws, grown),
        chain(before, b, events_b, food, charged, draws, grown),
    ensures
        a.organisms@ == b.organisms@,
        a.foods@ == b.foods@,
        a.pheromones@.len() == b.pheromones@.len(),
        a.clock == b.clock,
        a.config == b.config,
        events_a == events_b,
{
    assert(a.foods@ == b.foods@);
    assert(a.organisms@ =~= b.organisms@);
}

impl World {
    /// The settings and the clock are sound, and every record can be computed with.
    pub open spec fn wf(&self) -> bool {
        &&& self.config.wf()
        &&& self.clock.wf()
        &&& organisms_wf(self.organisms@)
        &&& foods_wf(self.foods@)
        &&& pheromones_wf(self.pheromones@)
    }

    /// Every organism stands in the arena, has an energy in the living
    /// range, and has the size that its energy calls for.
    pub open spec fn at_rest(&self) -> bool {
        all_inside(self.organisms@, self.config.arena) && settled(self.organisms@, self.config)
    }

    /// Tells whether the world is well formed.
    pub fn is_valid(&self) -> (r: bool)
        ensures
            r == self.wf(),
    {
        if !self.config.is_valid() || !self.clock.is_valid() {
            return false;
        }
        let mut i: usize = 0;
        while i < self.organisms.len()
            invariant
                i <= self.organisms.len(),
                forall|k: int| 0 <= k < i ==> (#[trigger] self.organisms@[k]).wf(),
            decreases self.organisms.len() - i,
        {
            if !self.organisms[i].is_valid() {
                return false;
            }
            i += 1;
        }
        let mut i: usize = 0;
        while i < self.foods.len()
            invariant
                i <= self.foods.len(),
                forall|k: int| 0 <= k < i ==> (#[trigger] self.foods@[k]).wf(),
            decreases self.foods.len() - i,
        {
            if !self.foods[i].is_valid() {
                return false;
            }
            i += 1;
        }
        let mut i: usize = 0;
        while i < self.pheromones.len()
            invariant
                i <= self.pheromones.len(),
                forall|k: int| 0 <= k < i ==> (#[trigger] self.pheromones@[k]).wf(),
            decreases self.pheromones.len() - i,
        {
            if !self.pheromones[i].is_valid() {
                return false;
            }
            i += 1;
        }
        true
    }

    /// A new world: the founders that the settings call for, no food, no marks.
    pub fn new(config: Config, clock: Clock, rng: &mut StdRng) -> (r: World)
        requires
            config.wf(),
            clock.wf(),
        ensures
            r.config == config,
            r.clock == clock,
            r.organisms@.len() == config.initial_population,
            forall|i: int| 0 <= i < r.organisms@.len() ==> is_founder(#[trigger] r.organisms@[i], config),
            r.foods@.len() == 0,
            r.pheromones@.len() == 0,
            r.wf(),
            r.at_rest(),
    {
        let organisms = startup(rng, &config);
        World { config, clock, organisms, foods: Vec::new(), pheromones: Vec::new() }
    }

    /// Carries the world through one tick, and reports the collisions that
    /// happened and whether the log is due. Whatever chance decides, every
    /// organism that is there afterwards stands in the arena, has an
    /// energy in the living range, and has the size that its energy calls for.
    pub fn step(&mut self, rng: &mut StdRng) -> (report: Report)
        requires
            old(self).wf(),
        ensures
            stepped(*old(self), *final(self), report.events@),
            report.log == old(self).clock.due(old(self).config.stride()).log,
            final(self).wf(),
            final(self).at_rest(),
    {
        let ghost before = *self;
        let cfg: Config = self.config;
        let stride: i64 = cfg.step_length();
        let due = self.clock.tick(stride);
        let moved = apply_direction(&self.organisms, &cfg);
        if due.food {
            generate_food(&mut self.foods, rng, &cfg);
        }
        let ghost food = self.foods@;
        let mut aged = moved;
        if due.age {
            let (organisms, foods, pheromones) = age_progression(
                &aged,
                &self.foods,
                &self.pheromones,
            );
            aged = organisms;
            self.foods = foods;
            self.pheromones = pheromones;
        }
        let ghost trail = self.pheromones@;
        let mut charged = aged;
        if due.metabolism {
            charged = metabolize(&charged, &cfg);
        }
        let ghost upkeep = charged@;
        let draws = draw_many(rng, self.foods.len());
        let (met, left, events) = check_for_collisions(&charged, &self.foods, &draws, &cfg);
        self.foods = left;
        let grown = grow_organism(&met, rng, &cfg);
        if due.sensory {
            self.organisms = adjust_direction(&grown, &self.foods, &mut self.pheromones, &cfg);
        } else {
            self.organisms = grown;
        }
        proof {
            assert(chain(before, *self, events@, food, upkeep, draws@, grown@));
        }
        Report { events, log: due.log }
    }
}

} // verus!
