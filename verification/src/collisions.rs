//! The collision rule: every organism is tested against the four walls
//! and against every piece of food that nobody has eaten yet.

use vstd::prelude::*;
use crate::arena::{collide, contact, Arena, Body, BoundaryLocation};
use crate::config::Config;
use crate::entity::{Food, Organism};
use crate::senses::foods_wf;
use crate::stages::organisms_wf;

verus! {

/// What a collision was with.
#[derive(Clone, Copy, Debug, PartialEq, Eq, Structural)]
pub enum CollisionEvent {
    Wall,
    Food,
}

/// What one organism's round of collisions leaves behind: the organism,
/// which pieces of food are eaten, and the events so far.
pub struct Encounter {
    pub organism: Organism,
    pub gone: Seq<bool>,
    pub events: Seq<CollisionEvent>,
}

/// What a whole round of collisions leaves behind.
pub struct Outcome {
    pub organisms: Seq<Organism>,
    pub gone: Seq<bool>,
    pub events: Seq<CollisionEvent>,
}

/// The sides of the arena in the order in which the walls are tested.
pub open spec fn side(k: int) -> BoundaryLocation {
    if k == 0 {
        BoundaryLocation::Left
    } else if k == 1 {
        BoundaryLocation::Right
    } else if k == 2 {
        BoundaryLocation::Bottom
    } else {
        BoundaryLocation::Top
    }
}

/// The wall on the `k`-th side of the arena.
pub open spec fn wall_at(k: int, arena: Arena) -> Body {
    Body { position: side(k).centre(arena), size: side(k).extent(arena) }
}

/// The organism and the events after the organism has been tested against
/// the first `n` walls: each wall that it touches turns it back and
/// raises one event.
pub open spec fn meet_walls(
    o: Organism,
    events: Seq<CollisionEvent>,
    arena: Arena,
    n: nat,
) -> (Organism, Seq<CollisionEvent>)
    decreases n,
{
    if n == 0 {
        (o, events)
    } else {
        let before = meet_walls(o, events, arena, (n - 1) as nat);
        match contact(before.0.outline(), wall_at(n - 1, arena)) {
            Some(c) => (before.0.bounced(c), before.1.push(CollisionEvent::Wall)),
            None => before,
        }
    }
}

/// The state after the organism has been tested against the first `n`
/// pieces of food: each one that is still there and that it touches is
/// eaten, feeds it, and raises one event. The draw that decides whether
/// eating a piece leads to a pregnancy is the one at the index of the piece.
pub open spec fn meet_foods(
    start: Encounter,
    foods: Seq<Food>,
    draws: Seq<i64>,
    cfg: Config,
    n: nat,
) -> Encounter
    decreases n,
{
    if n == 0 {
        start
    } else {
        let before = meet_foods(start, foods, draws, cfg, (n - 1) as nat);
        let j = n - 1;
        if !before.gone[j] && contact(before.organism.outline(), foods[j].outline(cfg)) is Some {
            Encounter {
                organism: before.organism.fed(foods[j].energy as int, draws[j] as int, cfg),
                gone: before.gone.update(j, true),
                events: before.events.push(CollisionEvent::Food),
            }
        } else {
            before
        }
    }
}

/// One organism's round of collisions: the four walls first, then the food.
pub open spec fn encounter(
    o: Organism,
    gone: Seq<bool>,
    events: Seq<CollisionEvent>,
    foods: Seq<Food>,
    draws: Seq<i64>,
    cfg: Config,
) -> Encounter {
    let walled = meet_walls(o, events, cfg.arena, 4);
    meet_foods(
        Encounter { organism: walled.0, gone, events: walled.1 },
        foods,
        draws,
        cfg,
        foods.len(),
    )
}

/// The state after the first `n` organisms have had their round of
/// collisions, one after the other: what one has eaten is gone for the next.
pub open spec fn resolved(
    organisms: Seq<Organism>,
    foods: Seq<Food>,
    draws: Seq<i64>,
    cfg: Config,
    n: nat,
) -> Outcome
    decreases n,
{
    if n == 0 {
        Outcome {
            organisms: Seq::empty(),
            gone: Seq::new(foods.len(), |j: int| false),
            events: Seq::empty(),
        }
    } else {
        let before = resolved(organisms, foods, draws, cfg, (n - 1) as nat);
        let e = encounter(organisms[n - 1], before.gone, before.events, foods, draws, cfg);
        Outcome { organisms: before.organisms.push(e.organism), gone: e.gone, events: e.events }
    }
}

/// Of the first `n` pieces of food, those that are not eaten, in their order.
pub open spec fn uneaten(foods: Seq<Food>, gone: Seq<bool>, n: nat) -> Seq<Food>
    decreases n,
{
    if n == 0 {
        Seq::empty()
    } else if gone[n - 1] {
        uneaten(foods, gone, (n - 1) as nat)
    } else {
        uneaten(foods, gone, (n - 1) as nat).push(foods[n - 1])
    }
}

/// The wall on the `k`-th side of the arena.
pub fn wall(k: usize, arena: &Arena) -> (r: Body)
    requires
        k < 4,
        arena.wf(),
    ensures
        r == wall_at(k as int, *arena),
        r.wf(),
{
    let location = if k == 0 {
        BoundaryLocation::Left
    } else if k == 1 {
        BoundaryLocation::Right
    } else if k == 2 {
        BoundaryLocation::Bottom
    } else {
        BoundaryLocation::Top
    };
    Body::wall(location, arena)
}

/// Puts one organism through its round of collisions. `gone` tells which
/// pieces of food are eaten, and `events` gathers what happens.
pub fn meet(
    o: &Organism,
    foods: &Vec<Food>,
    draws: &Vec<i64>,
    gone: &mut Vec<bool>,
    events: &mut Vec<CollisionEvent>,
    cfg: &Config,
) -> (r: Organism)
    requires
        o.wf(),
        foods_wf(foods@),
        cfg.wf(),
        draws@.len() == foods@.len(),
        old(gone)@.len() == foods@.len(),
    ensures
        r == encounter(*o, old(gone)@, old(events)@, foods@, draws@, *cfg).organism,
        final(gone)@ == encounter(*o, old(gone)@, old(events)@, foods@, draws@, *cfg).gone,
        final(events)@ == encounter(*o, old(gone)@, old(events)@, foods@, draws@, *cfg).events,
        final(gone)@.len() == foods@.len(),
        r.wf(),
        r.position == o.position,
        r.size == o.size,
{
    let mut current: Organism = *o;
    let mut k: usize = 0;
    while k < 4
        invariant
            k <= 4,
            cfg.wf(),
            current.wf(),
            current.position == o.position,
            current.size == o.size,
            (current, events@) == meet_walls(*o, old(events)@, cfg.arena, k as nat),
        decreases 4 - k,
    {
        let barrier = wall(k, &cfg.arena);
        match collide(&current.body(), &barrier) {
            Some(c) => {
                current = current.bounce(c);
                events.push(CollisionEvent::Wall);
            },
            None => {},
        }
        k += 1;
    }
    let ghost start = Encounter { organism: current, gone: gone@, events: events@ };
    let mut j: usize = 0;
    while j < foods.len()
        invariant
            j <= foods.len(),
            cfg.wf(),
            foods_wf(foods@),
            draws@.len() == foods@.len(),
            gone@.len() == foods@.len(),
            current.wf(),
            current.position == o.position,
            current.size == o.size,
            (Encounter { organism: current, gone: gone@, events: events@ }) == meet_foods(
                start,
                foods@,
                draws@,
                *cfg,
                j as nat,
            ),
        decreases foods.len() - j,
    {
        let f: Food = foods[j];
        assert(f.wf());
        if !gone[j] {
            if collide(&current.body(), &f.body(cfg)).is_some() {
                current = current.feed(f.energy, draws[j], cfg);
                gone[j] = true;
                events.push(CollisionEvent::Food);
            }
        }
        j += 1;
    }
    current
}

/// Runs the collision rule on the whole registry. Returns the organisms
/// after their collisions, the food that is left, and the events raised.
/// `draws` holds one fraction of one for each piece of food, which decides
/// whether eating that piece leads to a pregnancy.
pub fn check_for_collisions(
    organisms: &Vec<Organism>,
    foods: &Vec<Food>,
    draws: &Vec<i64>,
    cfg: &Config,
) -> (r: (Vec<Organism>, Vec<Food>, Vec<CollisionEvent>))
    requires
        organisms_wf(organisms@),
        foods_wf(foods@),
        cfg.wf(),
        draws@.len() == foods@.len(),
    ensures
        r.0@ == resolved(organisms@, foods@, draws@, *cfg, organisms@.len()).organisms,
        r.1@ == uneaten(
            foods@,
            resolved(organisms@, foods@, draws@, *cfg, organisms@.len()).gone,
            foods@.len(),
        ),
        r.2@ == resolved(organisms@, foods@, draws@, *cfg, organisms@.len()).events,
        r.0@.len() == organisms@.len(),
        organisms_wf(r.0@),
        foods_wf(r.1@),
        forall|k: int|
            0 <= k < r.0@.len() ==> (#[trigger] r.0@[k]).position == organisms@[k].position
                && r.0@[k].size == organisms@[k].size,
{
    let mut gone: Vec<bool> = Vec::new();
    let mut j: usize = 0;
    while j < foods.len()
        invariant
            j <= foods.len(),
            gone@.len() == j,
            forall|k: int| 0 <= k < j ==> !(#[trigger] gone@[k]),
        decreases foods.len() - j,
    {
        gone.push(false);
        j += 1;
    }
    assert(gone@ =~= Seq::new(foods@.len(), |j: int| false));
    let mut out: Vec<Organism> = Vec::new();
    let mut events: Vec<CollisionEvent> = Vec::new();
    let mut i: usize = 0;
    while i < organisms.len()
        invariant
            i <= organisms.len(),
            organisms_wf(organisms@),
            foods_wf(foods@),
            cfg.wf(),
            draws@.len() == foods@.len(),
            gone@.len() == foods@.len(),
            (Outcome { organisms: out@, gone: gone@, events: events@ }) == resolved(
                organisms@,
                foods@,
                draws@,
                *cfg,
                i as nat,
            ),
            out@.len() == i,
            organisms_wf(out@),
            forall|k: int|
                0 <= k < i ==> (#[trigger] out@[k]).position == organisms@[k].position
                    && out@[k].size == organisms@[k].size,
        decreases organisms.len() - i,
    {
        let o: Organism = organisms[i];
        assert(o.wf());
        let after = meet(&o, foods, draws, &mut gone, &mut events, cfg);
        out.push(after);
        i += 1;
    }
    let mut left: Vec<Food> = Vec::new();
    let mut j: usize = 0;
    while j < foods.len()
        invariant
            j <= foods.len(),
            foods_wf(foods@),
            gone@.len() == foods@.len(),
            left@ == uneaten(foods@, gone@, j as nat),
            foods_wf(left@),
        decreases foods.len() - j,
    {
        if !gone[j] {
            let f: Food = foods[j];
            assert(f.wf());
            left.push(f);
        }
        j += 1;
    }
    (out, left, events)
}

} // verus!
