//! What the world shows of itself: one drawable for every wall and every
//! record, for whoever paints the picture, and one line for every
//! organism, for whoever keeps the log.

use vstd::prelude::*;
use crate::collisions::{wall, wall_at};
use crate::config::Config;
use crate::entity::{opacity_at, Food, Organism, Pheromone};
use crate::fixed::SCALE;
use crate::genome::{channel, Genome};
use crate::geometry::Point;
use crate::world::World;

verus! {

/// The kind of thing that a drawable shows.
#[derive(Clone, Copy, Debug, PartialEq, Eq, Structural)]
pub enum Kind {
    Organism,
    Food,
    Pheromone,
    Wall,
}

/// One thing to draw: where, how large, in which colour, and how opaque.
#[derive(Clone, Copy, Debug, PartialEq, Eq)]
pub struct Drawable {
    pub kind: Kind,
    pub position: Point,
    pub size: Point,
    pub color: [i64; 3],
    pub opacity: i64,
}

/// What the log holds of one organism.
#[derive(Clone, Copy, Debug, PartialEq, Eq)]
pub struct Line {
    pub heading: Point,
    pub speed: i64,
    pub genome: Genome,
}

/// The drawable has the given colour, channel by channel.
pub open spec fn colored(d: Drawable, red: int, green: int, blue: int) -> bool {
    d.color@[0] == red && d.color@[1] == green && d.color@[2] == blue
}

/// The drawable shows the `k`-th wall of the arena: light grey and opaque.
pub open spec fn shows_wall(d: Drawable, k: int, cfg: Config) -> bool {
    &&& d.kind == Kind::Wall
    &&& d.position == wall_at(k, cfg.arena).position
    &&& d.size == wall_at(k, cfg.arena).size
    &&& colored(d, 800_000_000, 800_000_000, 800_000_000)
    &&& d.opacity == SCALE
}

/// The drawable shows the piece of food: dark green and opaque.
pub open spec fn shows_food(d: Drawable, f: Food, cfg: Config) -> bool {
    &&& d.kind == Kind::Food
    &&& d.position == f.position
    &&& d.size == (Point { x: cfg.food_size, y: cfg.food_size })
    &&& colored(d, 100_000_000, 400_000_000, 100_000_000)
    &&& d.opacity == SCALE
}

/// The drawable shows the mark: in its own colour, as opaque as its age leaves it.
pub open spec fn shows_pheromone(d: Drawable, p: Pheromone, cfg: Config) -> bool {
    &&& d.kind == Kind::Pheromone
    &&& d.position == p.position
    &&& d.size == (Point { x: cfg.pheromone_size, y: cfg.pheromone_size })
    &&& d.color == p.color
    &&& d.opacity == opacity_at(p.age as int, p.lifetime as int)
}

/// The drawable shows the organism: at its size, in the colour of its genome, opaque.
pub open spec fn shows_organism(d: Drawable, o: Organism) -> bool {
    &&& d.kind == Kind::Organism
    &&& d.position == o.position
    &&& d.size == (Point { x: o.size, y: o.size })
    &&& colored(
        d,
        channel(o.genome@[0] as int),
        channel(o.genome@[1] as int),
        channel(o.genome@[2] as int),
    )
    &&& d.opacity == SCALE
}

/// Everything there is to draw: the four walls, then the food, the marks
/// and the organisms, each kind in the order of the registry.
pub fn snapshot(world: &World) -> (r: Vec<Drawable>)
    requires
        world.wf(),
    ensures
        r@.len() == 4 + world.foods@.len() + world.pheromones@.len() + world.organisms@.len(),
        forall|k: int| 0 <= k < 4 ==> shows_wall(#[trigger] r@[k], k, world.config),
        forall|i: int|
            0 <= i < world.foods@.len() ==> shows_food(
                r@[4 + i],
                #[trigger] world.foods@[i],
                world.config,
            ),
        forall|i: int|
            0 <= i < world.pheromones@.len() ==> shows_pheromone(
                r@[4 + world.foods@.len() + i],
                #[trigger] world.pheromones@[i],
                world.config,
            ),
        forall|i: int|
            0 <= i < world.organisms@.len() ==> shows_organism(
                r@[4 + world.foods@.len() + world.pheromones@.len() + i],
                #[trigger] world.organisms@[i],
            ),
{
    let cfg = &world.config;
    let mut out: Vec<Drawable> = Vec::new();
    let mut k: usize = 0;
    while k < 4
        invariant
            k <= 4,
            cfg.wf(),
            out@.len() == k,
            forall|j: int| 0 <= j < k ==> shows_wall(#[trigger] out@[j], j, *cfg),
        decreases 4 - k,
    {
        let body = wall(k, &cfg.arena);
        out.push(
            Drawable {
                kind: Kind::Wall,
                position: body.position,
                size: body.size,
                color: [800_000_000, 800_000_000, 800_000_000],
                opacity: SCALE,
            },
        );
        k += 1;
    }
    let mut i: usize = 0;
    while i < world.foods.len()
        invariant
            i <= world.foods@.len(),
            out@.len() == 4 + i,
            forall|j: int| 0 <= j < 4 ==> shows_wall(#[trigger] out@[j], j, *cfg),
            forall|j: int| 0 <= j < i ==> shows_food(out@[4 + j], #[trigger] world.foods@[j], *cfg),
        decreases world.foods.len() - i,
    {
        let f: Food = world.foods[i];
        out.push(
            Drawable {
                kind: Kind::Food,
                position: f.position,
                size: Point { x: cfg.food_size, y: cfg.food_size },
                color: [100_000_000, 400_000_000, 100_000_000],
                opacity: SCALE,
            },
        );
        i += 1;
    }
    let ghost base = out@.len();
    let mut i: usize = 0;
    while i < world.pheromones.len()
        invariant
            i <= world.pheromones@.len(),
            base == 4 + world.foods@.len(),
            out@.len() == base + i,
            forall|j: int| 0 <= j < 4 ==> shows_wall(#[trigger] out@[j], j, *cfg),
            forall|j: int|
                0 <= j < world.foods@.len() ==> shows_food(
                    out@[4 + j],
                    #[trigger] world.foods@[j],
                    *cfg,
                ),
            forall|j: int|
                0 <= j < i ==> shows_pheromone(out@[base + j], #[trigger] world.pheromones@[j], *cfg),
        decreases world.pheromones.len() - i,
    {
        let p: Pheromone = world.pheromones[i];
        out.push(
            Drawable {
                kind: Kind::Pheromone,
                position: p.position,
                size: Point { x: cfg.pheromone_size, y: cfg.pheromone_size },
                color: p.color,
                opacity: p.opacity(),
            },
        );
        i += 1;
    }
    let ghost base2 = out@.len();
    let mut i: usize = 0;
    while i < world.organisms.len()
        invariant
            i <= world.organisms@.len(),
            world.wf(),
            base == 4 + world.foods@.len(),
            base2 == base + world.pheromones@.len(),
            out@.len() == base2 + i,
            forall|j: int| 0 <= j < 4 ==> shows_wall(#[trigger] out@[j], j, *cfg),
            forall|j: int|
                0 <= j < world.foods@.len() ==> shows_food(
                    out@[4 + j],
                    #[trigger] world.foods@[j],
                    *cfg,
                ),
            forall|j: int|
                0 <= j < world.pheromones@.len() ==> shows_pheromone(
                    out@[base + j],
                    #[trigger] world.pheromones@[j],
                    *cfg,
                ),
            forall|j: int| 0 <= j < i ==> shows_organism(out@[base2 + j], #[trigger] world.organisms@[j]),
        decreases world.organisms.len() - i,
    {
        let o: Organism = world.organisms[i];
        assert(o.wf());
        out.push(
            Drawable {
                kind: Kind::Organism,
                position: o.position,
                size: Point { x: o.size, y: o.size },
                color: o.genome.color(),
                opacity: SCALE,
            },
        );
        i += 1;
    }
    out
}

/// What the log is to hold: the heading, the speed and the genome of
/// every organism, in the order of the registry.
pub fn log_things(world: &World) -> (r: Vec<Line>)
    ensures
        r@.len() == world.organisms@.len(),
        forall|i: int|
            0 <= i < r@.len() ==> (#[trigger] r@[i]).heading == world.organisms@[i].heading
                && r@[i].speed == world.organisms@[i].speed && r@[i].genome
                == world.organisms@[i].genome,
{
    let mut out: Vec<Line> = Vec::new();
    let mut i: usize = 0;
    while i < world.organisms.len()
        invariant
            i <= world.organisms@.len(),
            out@.len() == i,
            forall|j: int|
                0 <= j < i ==> (#[trigger] out@[j]).heading == world.organisms@[j].heading
                    && out@[j].speed == world.organisms@[j].speed && out@[j].genome
                    == world.organisms@[j].genome,
        decreases world.organisms.len() - i,
    {
        let o: Organism = world.organisms[i];
        out.push(Line { heading: o.heading, speed: o.speed, genome: o.genome });
        i += 1;
    }
    out
}

} // verus!
