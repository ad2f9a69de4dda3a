//! The rules of one tick, each applied to the whole registry.

use vstd::prelude::*;
use crate::arena::Arena;
use crate::config::Config;
use crate::entity::{Food, Organism, Pheromone};
use crate::genome::channel;
use crate::registry::{kept, lemma_kept_complete, lemma_kept_sound, lemma_kept_step};
use crate::senses::{decide, decided, foods_wf};

verus! {

/// Every organism can be computed with.
pub open spec fn organisms_wf(s: Seq<Organism>) -> bool {
    forall|i: int| 0 <= i < s.len() ==> (#[trigger] s[i]).wf()
}

/// Every mark can be computed with.
pub open spec fn pheromones_wf(s: Seq<Pheromone>) -> bool {
    forall|i: int| 0 <= i < s.len() ==> (#[trigger] s[i]).wf()
}

/// Every organism stands in the arena.
pub open spec fn all_inside(s: Seq<Organism>, arena: Arena) -> bool {
    forall|i: int| 0 <= i < s.len() ==> arena.holds((#[trigger] s[i]).position)
}

/// Every organism has an energy in the living range, and the size that its energy calls for.
pub open spec fn settled(s: Seq<Organism>, cfg: Config) -> bool {
    forall|i: int| 0 <= i < s.len() ==> (#[trigger] s[i]).viable(cfg) && s[i].sized(cfg)
}

/// The rule of a physics tick for one organism.
pub open spec fn advancing(cfg: Config) -> spec_fn(Organism) -> Option<Organism> {
    |o: Organism| o.advanced(cfg)
}

/// The rule of an age tick for one organism.
pub open spec fn ageing() -> spec_fn(Organism) -> Option<Organism> {
    |o: Organism| o.aged()
}

/// The rule of an age tick for one piece of food.
pub open spec fn rotting() -> spec_fn(Food) -> Option<Food> {
    |f: Food| f.aged()
}

/// The rule of an age tick for one mark.
pub open spec fn fading() -> spec_fn(Pheromone) -> Option<Pheromone> {
    |p: Pheromone| p.aged()
}

/// The mark is the one that the organism leaves: where it stands, one
/// tick old, in the colour of its genome.
pub open spec fn marks(o: Organism, p: Pheromone, cfg: Config) -> bool {
    &&& p.position == o.position
    &&& p.age == 1
    &&& p.lifetime == cfg.pheromone_lifetime
    &&& forall|k: int| 0 <= k < 3 ==> #[trigger] p.color@[k] == channel(o.genome@[k] as int)
}

/// An organism that a physics tick takes out of the arena is gone when the
/// tick is over: every organism that is left is one that was moved to a
/// place in the arena.
pub proof fn law_leavers_removed(before: Seq<Organism>, cfg: Config, k: int)
    requires
        0 <= k < kept(before, advancing(cfg)).len(),
    ensures
        cfg.arena.holds(kept(before, advancing(cfg))[k].position),
        exists|i: int|
            0 <= i < before.len() && cfg.arena.holds((#[trigger] before[i]).moved(cfg).position)
                && kept(before, advancing(cfg))[k] == before[i].moved(cfg),
{
    lemma_kept_sound(before, advancing(cfg), k);
    let i = choose|i: int|
        0 <= i < before.len() && advancing(cfg)(#[trigger] before[i]) == Some(
            kept(before, advancing(cfg))[k],
        );
    assert(cfg.arena.holds(before[i].moved(cfg).position));
}

/// An organism that a physics tick leaves in the arena is still there when
/// the tick is over, moved and charged.
pub proof fn law_stayers_kept(before: Seq<Organism>, cfg: Config, i: int)
    requires
        0 <= i < before.len(),
        cfg.arena.holds(before[i].moved(cfg).position),
    ensures
        exists|k: int|
            0 <= k < kept(before, advancing(cfg)).len() && #[trigger] kept(
                before,
                advancing(cfg),
            )[k] == before[i].moved(cfg),
{
    lemma_kept_complete(before, advancing(cfg), i);
}

/// Runs a physics tick on every organism: each is moved and charged, and
/// those that the move takes out of the arena are gone.
pub fn apply_direction(organisms: &Vec<Organism>, cfg: &Config) -> (r: Vec<Organism>)
    requires
        organisms_wf(organisms@),
        cfg.wf(),
    ensures
        r@ == kept(organisms@, advancing(*cfg)),
        organisms_wf(r@),
        all_inside(r@, cfg.arena),
{
    let mut out: Vec<Organism> = Vec::new();
    let mut i: usize = 0;
    while i < organisms.len()
        invariant
            i <= organisms.len(),
            organisms_wf(organisms@),
            cfg.wf(),
            out@ == kept(organisms@.take(i as int), advancing(*cfg)),
            organisms_wf(out@),
            all_inside(out@, cfg.arena),
        decreases organisms.len() - i,
    {
        let o: Organism = organisms[i];
        assert(o.wf());
        proof {
            lemma_kept_step(organisms@, advancing(*cfg), i as int);
        }
        match o.advance(cfg) {
            Some(moved) => {
                out.push(moved);
            },
            None => {},
        }
        i += 1;
    }
    assert(organisms@.take(i as int) =~= organisms@);
    out
}

/// Charges every organism the upkeep of one metabolism tick.
pub fn metabolize(organisms: &Vec<Organism>, cfg: &Config) -> (r: Vec<Organism>)
    requires
        organisms_wf(organisms@),
        cfg.wf(),
    ensures
        r@.len() == organisms@.len(),
        forall|i: int| 0 <= i < r@.len() ==> #[trigger] r@[i] == organisms@[i].metabolized(*cfg),
        organisms_wf(r@),
        all_inside(organisms@, cfg.arena) ==> all_inside(r@, cfg.arena),
{
    let mut out: Vec<Organism> = Vec::new();
    let mut i: usize = 0;
    while i < organisms.len()
        invariant
            i <= organisms.len(),
            organisms_wf(organisms@),
            cfg.wf(),
            out@.len() == i,
            forall|j: int| 0 <= j < i ==> #[trigger] out@[j] == organisms@[j].metabolized(*cfg),
            organisms_wf(out@),
        decreases organisms.len() - i,
    {
        let o: Organism = organisms[i];
        assert(o.wf());
        out.push(o.metabolize(cfg));
        i += 1;
    }
    out
}

/// Runs an age tick on every organism: those that have outlived their
/// lifetime are gone, the others are a tick older.
pub fn age_organisms(organisms: &Vec<Organism>) -> (r: Vec<Organism>)
    requires
        organisms_wf(organisms@),
    ensures
        r@ == kept(organisms@, ageing()),
        organisms_wf(r@),
        forall|arena: Arena| all_inside(organisms@, arena) ==> all_inside(r@, arena),
        forall|cfg: Config| settled(organisms@, cfg) ==> settled(r@, cfg),
{
    let mut out: Vec<Organism> = Vec::new();
    let mut i: usize = 0;
    while i < organisms.len()
        invariant
            i <= organisms.len(),
            organisms_wf(organisms@),
            out@ == kept(organisms@.take(i as int), ageing()),
            organisms_wf(out@),
            forall|arena: Arena| all_inside(organisms@, arena) ==> all_inside(out@, arena),
            forall|cfg: Config| settled(organisms@, cfg) ==> settled(out@, cfg),
        decreases organisms.len() - i,
    {
        let o: Organism = organisms[i];
        assert(o.wf());
        proof {
            lemma_kept_step(organisms@, ageing(), i as int);
        }
        match o.grow_older() {
            Some(older) => {
                out.push(older);
            },
            None => {},
        }
        i += 1;
    }
    assert(organisms@.take(i as int) =~= organisms@);
    out
}

/// Runs an age tick on every piece of food.
pub fn age_foods(foods: &Vec<Food>) -> (r: Vec<Food>)
    requires
        foods_wf(foods@),
    ensures
        r@ == kept(foods@, rotting()),
        foods_wf(r@),
{
    let mut out: Vec<Food> = Vec::new();
    let mut i: usize = 0;
    while i < foods.len()
        invariant
            i <= foods.len(),
            foods_wf(foods@),
            out@ == kept(foods@.take(i as int), rotting()),
            foods_wf(out@),
        decreases foods.len() - i,
    {
        let f: Food = foods[i];
        assert(f.wf());
        proof {
            lemma_kept_step(foods@, rotting(), i as int);
        }
        match f.grow_older() {
            Some(older) => {
                out.push(older);
            },
            None => {},
        }
        i += 1;
    }
    assert(foods@.take(i as int) =~= foods@);
    out
}

/// Runs an age tick on every mark.
pub fn age_pheromones(pheromones: &Vec<Pheromone>) -> (r: Vec<Pheromone>)
    requires
        pheromones_wf(pheromones@),
    ensures
        r@ == kept(pheromones@, fading()),
        pheromones_wf(r@),
{
    let mut out: Vec<Pheromone> = Vec::new();
    let mut i: usize = 0;
    while i < pheromones.len()
        invariant
            i <= pheromones.len(),
            pheromones_wf(pheromones@),
            out@ == kept(pheromones@.take(i as int), fading()),
            pheromones_wf(out@),
        decreases pheromones.len() - i,
    {
        let p: Pheromone = pheromones[i];
        assert(p.wf());
        proof {
            lemma_kept_step(pheromones@, fading(), i as int);
        }
        match p.grow_older() {
            Some(older) => {
                out.push(older);
            },
            None => {},
        }
        i += 1;
    }
    assert(pheromones@.take(i as int) =~= pheromones@);
    out
}

/// Runs an age tick on everything that ages: organisms, food and marks.
pub fn age_progression(
    organisms: &Vec<Organism>,
    foods: &Vec<Food>,
    pheromones: &Vec<Pheromone>,
) -> (r: (Vec<Organism>, Vec<Food>, Vec<Pheromone>))
    requires
        organisms_wf(organisms@),
        foods_wf(foods@),
        pheromones_wf(pheromones@),
    ensures
        r.0@ == kept(organisms@, ageing()),
        r.1@ == kept(foods@, rotting()),
        r.2@ == kept(pheromones@, fading()),
        organisms_wf(r.0@),
        foods_wf(r.1@),
        pheromones_wf(r.2@),
        forall|arena: Arena| all_inside(organisms@, arena) ==> all_inside(r.0@, arena),
        forall|cfg: Config| settled(organisms@, cfg) ==> settled(r.0@, cfg),
{
    (age_organisms(organisms), age_foods(foods), age_pheromones(pheromones))
}

/// Runs a sensory tick: every organism senses the food around it, turns
/// and changes speed as its genome answers, and leaves a mark where it stands.
pub fn adjust_direction(
    organisms: &Vec<Organism>,
    foods: &Vec<Food>,
    pheromones: &mut Vec<Pheromone>,
    cfg: &Config,
) -> (r: Vec<Organism>)
    requires
        organisms_wf(organisms@),
        foods_wf(foods@),
        pheromones_wf(old(pheromones)@),
        cfg.wf(),
    ensures
        r@.len() == organisms@.len(),
        forall|i: int| 0 <= i < r@.len() ==> #[trigger] r@[i] == decided(organisms@[i], foods@, *cfg),
        organisms_wf(r@),
        all_inside(organisms@, cfg.arena) ==> all_inside(r@, cfg.arena),
        settled(organisms@, *cfg) ==> settled(r@, *cfg),
        final(pheromones)@.len() == old(pheromones)@.len() + organisms@.len(),
        forall|k: int|
            0 <= k < old(pheromones)@.len() ==> #[trigger] final(pheromones)@[k] == old(
                pheromones,
            )@[k],
        forall|i: int|
            0 <= i < organisms@.len() ==> marks(
                #[trigger] organisms@[i],
                final(pheromones)@[old(pheromones)@.len() + i],
                *cfg,
            ),
        pheromones_wf(final(pheromones)@),
{
    let mut out: Vec<Organism> = Vec::new();
    let ghost before = pheromones@;
    let mut i: usize = 0;
    while i < organisms.len()
        invariant
            i <= organisms.len(),
            organisms_wf(organisms@),
            foods_wf(foods@),
            cfg.wf(),
            out@.len() == i,
            forall|j: int| 0 <= j < i ==> #[trigger] out@[j] == decided(organisms@[j], foods@, *cfg),
            organisms_wf(out@),
            all_inside(organisms@, cfg.arena) ==> all_inside(out@, cfg.arena),
            settled(organisms@, *cfg) ==> settled(out@, *cfg),
            pheromones@.len() == before.len() + i,
            forall|k: int| 0 <= k < before.len() ==> #[trigger] pheromones@[k] == before[k],
            forall|j: int|
                0 <= j < i ==> marks(#[trigger] organisms@[j], pheromones@[before.len() + j], *cfg),
            pheromones_wf(pheromones@),
        decreases organisms.len() - i,
    {
        let o: Organism = organisms[i];
        assert(o.wf());
        let next = decide(&o, foods, cfg);
        let mark = o.deposit(cfg);
        out.push(next);
        pheromones.push(mark);
        i += 1;
    }
    out
}

} // verus!
