//! The rules that bring new records into the world: birth, the spawning
//! of food, and the founding of a population.

use vstd::prelude::*;
use rand::rngs::StdRng;
use crate::chance::draw_unit;
use crate::config::Config;
use crate::entity::{lemma_body_size_bound, Food, Growth, Organism};
use crate::genome::{descends, planned_gene, Genome};
use crate::geometry::{random_direction, Point};
use crate::registry::{kept, lemma_kept_sound, lemma_kept_step};
use crate::senses::foods_wf;
use crate::stages::{all_inside, organisms_wf, settled};

verus! {

/// The rule of a growth tick for one organism, as far as the organism
/// itself goes: it is gone where it dies, and otherwise lives on as the
/// tick leaves it.
pub open spec fn surviving(cfg: Config) -> spec_fn(Organism) -> Option<Organism> {
    |o: Organism|
        match o.grown(cfg) {
            Growth::Dies => None,
            Growth::Lives(p) => Some(p),
            Growth::Breeds(p) => Some(p),
        }
}

/// The rule that picks the organisms that give birth on a growth tick.
pub open spec fn breeding(cfg: Config) -> spec_fn(Organism) -> Option<Organism> {
    |o: Organism|
        match o.grown(cfg) {
            Growth::Breeds(p) => Some(p),
            _ => None,
        }
}

/// Each element of `s` repeated `n` times, in order.
pub open spec fn repeated(s: Seq<Organism>, n: nat) -> Seq<Organism>
    decreases s.len(),
{
    if s.len() == 0 {
        Seq::empty()
    } else {
        repeated(s.drop_last(), n) + Seq::new(n, |k: int| s.last())
    }
}

/// The parent of each newborn of a growth tick, in the order of birth:
/// every organism that gives birth, once for each child of its litter.
pub open spec fn parents(organisms: Seq<Organism>, cfg: Config) -> Seq<Organism> {
    repeated(kept(organisms, breeding(cfg)), cfg.litter as nat)
}

/// The genome `child` is inherited from `parent`: gene by gene it lies
/// within one mutation span of the parent's, and with a mutation rate of
/// zero it is the parent's.
pub open spec fn inherits(parent: Genome, child: Genome, cfg: Config) -> bool {
    &&& child.wf()
    &&& forall|i: int| 0 <= i < 27 ==> descends(parent@[i] as int, #[trigger] child@[i] as int)
    &&& cfg.mutation_rate <= 0 ==> child@ == parent@
}

/// `c` is a newborn of `parent`: it stands where the parent stands, has
/// an inherited genome and some heading, and is otherwise as every
/// newborn is.
pub open spec fn is_child_of(parent: Organism, c: Organism, cfg: Config) -> bool {
    &&& c == parent.offspring(c.genome, c.heading, cfg)
    &&& c.heading.is_heading()
    &&& inherits(parent.genome, c.genome, cfg)
}

/// `o` is a founder: it stands in the arena with some heading, carries
/// the planned genome, and is otherwise as every founder is.
pub open spec fn is_founder(o: Organism, cfg: Config) -> bool {
    &&& cfg.arena.holds(o.position)
    &&& o.heading.is_heading()
    &&& forall|i: int| 0 <= i < 27 ==> #[trigger] o.genome@[i] == planned_gene(i)
    &&& o.speed == cfg.speed_max
    &&& o.energy == cfg.start_energy
    &&& o.age == 1
    &&& o.lifetime == cfg.lifetime
    &&& !o.pregnant
    &&& o.sized(cfg)
}

/// `f` is a fresh piece of food somewhere in the arena.
pub open spec fn is_fresh(f: Food, cfg: Config) -> bool {
    &&& cfg.arena.holds(f.position)
    &&& f.energy == cfg.food_energy
    &&& f.age == 1
    &&& f.lifetime == cfg.food_lifetime
}

/// `after` is `before` with `n` fresh pieces of food added at the end.
pub open spec fn spawned(before: Seq<Food>, after: Seq<Food>, n: nat, cfg: Config) -> bool {
    &&& after.len() == before.len() + n
    &&& forall|k: int| 0 <= k < before.len() ==> #[trigger] after[k] == before[k]
    &&& forall|k: int| before.len() <= k < after.len() ==> is_fresh(#[trigger] after[k], cfg)
}

/// `after` is what a growth tick makes of `before`: first the organisms
/// that live on, in their order, then the newborn, each a child of the
/// parent whose turn it is.
pub open spec fn grew(before: Seq<Organism>, after: Seq<Organism>, cfg: Config) -> bool {
    let alive = kept(before, surviving(cfg));
    let born_to = parents(before, cfg);
    &&& after.len() == alive.len() + born_to.len()
    &&& forall|k: int| 0 <= k < alive.len() ==> #[trigger] after[k] == alive[k]
    &&& forall|k: int|
        0 <= k < born_to.len() ==> is_child_of(born_to[k], #[trigger] after[alive.len() + k], cfg)
}

/// After a growth tick every organism in the registry, newborn included,
/// has an energy in the living range and the size that is the base size
/// times the square root of that energy.
pub proof fn law_growth_settles(before: Seq<Organism>, after: Seq<Organism>, cfg: Config)
    requires
        cfg.wf(),
        grew(before, after, cfg),
    ensures
        settled(after, cfg),
{
    let alive = kept(before, surviving(cfg));
    let born_to = parents(before, cfg);
    assert forall|k: int| 0 <= k < after.len() implies (#[trigger] after[k]).viable(cfg)
        && after[k].sized(cfg) by {
        if k < alive.len() {
            lemma_kept_sound(before, surviving(cfg), k);
            let i = choose|i: int|
                0 <= i < before.len() && surviving(cfg)(#[trigger] before[i]) == Some(alive[k]);
            lemma_body_size_bound(before[i].energy as int, cfg);
            lemma_body_size_bound(cfg.start_energy as int, cfg);
            assert(after[k] == alive[k]);
        } else {
            let j = k - alive.len();
            assert(is_child_of(born_to[j], after[alive.len() + j], cfg));
            lemma_body_size_bound(cfg.child_energy as int, cfg);
        }
    }
}

/// An organism whose energy has left the living range is gone after one
/// growth tick: every organism that lives on is what the tick made of one
/// whose energy was in the range.
pub proof fn law_growth_removes_unviable(
    before: Seq<Organism>,
    after: Seq<Organism>,
    cfg: Config,
    k: int,
)
    requires
        grew(before, after, cfg),
        0 <= k < kept(before, surviving(cfg)).len(),
    ensures
        exists|i: int|
            0 <= i < before.len() && (#[trigger] before[i]).viable(cfg) && surviving(cfg)(
                before[i],
            ) == Some(after[k]),
{
    let alive = kept(before, surviving(cfg));
    lemma_kept_sound(before, surviving(cfg), k);
    let i = choose|i: int|
        0 <= i < before.len() && surviving(cfg)(#[trigger] before[i]) == Some(alive[k]);
    assert(before[i].viable(cfg));
    assert(after[k] == alive[k]);
}

/// A point of the arena drawn at random.
pub fn random_position(rng: &mut StdRng, cfg: &Config) -> (r: Point)
    requires
        cfg.wf(),
    ensures
        cfg.arena.holds(r),
{
    let u: i64 = draw_unit(rng);
    let v: i64 = draw_unit(rng);
    cfg.arena.place(u, v)
}

/// Adds as many fresh pieces of food as one spawning yields, each at a
/// point of the arena drawn at random.
pub fn generate_food(foods: &mut Vec<Food>, rng: &mut StdRng, cfg: &Config)
    requires
        foods_wf(old(foods)@),
        cfg.wf(),
    ensures
        spawned(old(foods)@, final(foods)@, cfg.food_per_spawn as nat, *cfg),
        foods_wf(final(foods)@),
{
    let ghost before = foods@;
    let mut n: usize = 0;
    while n < cfg.food_per_spawn
        invariant
            n <= cfg.food_per_spawn,
            cfg.wf(),
            spawned(before, foods@, n as nat, *cfg),
            foods_wf(foods@),
        decreases cfg.food_per_spawn - n,
    {
        let position = random_position(rng, cfg);
        foods.push(Food::new(position, cfg));
        n += 1;
    }
}

/// The founders of a world: as many as the settings say, each at a point
/// and with a heading drawn at random, all with the planned genome.
pub fn startup(rng: &mut StdRng, cfg: &Config) -> (r: Vec<Organism>)
    requires
        cfg.wf(),
    ensures
        r@.len() == cfg.initial_population,
        forall|i: int| 0 <= i < r@.len() ==> is_founder(#[trigger] r@[i], *cfg),
        organisms_wf(r@),
        all_inside(r@, cfg.arena),
        settled(r@, *cfg),
{
    let mut out: Vec<Organism> = Vec::new();
    let mut n: usize = 0;
    while n < cfg.initial_population
        invariant
            n <= cfg.initial_population,
            cfg.wf(),
            out@.len() == n,
            forall|i: int| 0 <= i < out@.len() ==> is_founder(#[trigger] out@[i], *cfg),
            organisms_wf(out@),
            all_inside(out@, cfg.arena),
            settled(out@, *cfg),
        decreases cfg.initial_population - n,
    {
        let genome = Genome::planned();
        let position = random_position(rng, cfg);
        let heading = random_direction(rng);
        out.push(Organism::founder(position, heading, genome, cfg));
        n += 1;
    }
    out
}

/// The litter of one parent: as many children as the settings say, each
/// with a genome mutated from the parent's and a heading drawn at random.
pub fn bear(parent: &Organism, young: &mut Vec<Organism>, rng: &mut StdRng, cfg: &Config)
    requires
        parent.wf(),
        cfg.wf(),
        organisms_wf(old(young)@),
    ensures
        final(young)@.len() == old(young)@.len() + cfg.litter,
        forall|k: int| 0 <= k < old(young)@.len() ==> #[trigger] final(young)@[k] == old(young)@[k],
        forall|k: int|
            old(young)@.len() <= k < final(young)@.len() ==> is_child_of(
                *parent,
                #[trigger] final(young)@[k],
                *cfg,
            ),
        organisms_wf(final(young)@),
        forall|k: int|
            old(young)@.len() <= k < final(young)@.len() ==> (#[trigger] final(young)@[k]).viable(
                *cfg,
            ) && final(young)@[k].sized(*cfg),
{
    let ghost before = young@;
    let mut n: usize = 0;
    while n < cfg.litter
        invariant
            n <= cfg.litter,
            parent.wf(),
            cfg.wf(),
            young@.len() == before.len() + n,
            forall|k: int| 0 <= k < before.len() ==> #[trigger] young@[k] == before[k],
            forall|k: int|
                before.len() <= k < young@.len() ==> is_child_of(*parent, #[trigger] young@[k], *cfg),
            organisms_wf(young@),
            forall|k: int|
                before.len() <= k < young@.len() ==> (#[trigger] young@[k]).viable(*cfg)
                    && young@[k].sized(*cfg),
        decreases cfg.litter - n,
    {
        let genome = parent.genome.mutate(rng, cfg.mutation_rate);
        let heading = random_direction(rng);
        let c = parent.child(genome, heading, cfg);
        young.push(c);
        n += 1;
    }
}

/// Runs a growth tick on the whole registry: organisms whose energy has
/// left the living range are gone; pregnant ones give birth; every one
/// that lives is resized to its energy. The newborn follow the living.
pub fn grow_organism(organisms: &Vec<Organism>, rng: &mut StdRng, cfg: &Config) -> (r: Vec<
    Organism,
>)
    requires
        organisms_wf(organisms@),
        cfg.wf(),
    ensures
        grew(organisms@, r@, *cfg),
        organisms_wf(r@),
        settled(r@, *cfg),
        all_inside(organisms@, cfg.arena) ==> all_inside(r@, cfg.arena),
{
    let mut alive: Vec<Organism> = Vec::new();
    let mut young: Vec<Organism> = Vec::new();
    let mut i: usize = 0;
    while i < organisms.len()
        invariant
            i <= organisms.len(),
            organisms_wf(organisms@),
            cfg.wf(),
            alive@ == kept(organisms@.take(i as int), surviving(*cfg)),
            young@.len() == parents(organisms@.take(i as int), *cfg).len(),
            forall|k: int|
                0 <= k < young@.len() ==> is_child_of(
                    parents(organisms@.take(i as int), *cfg)[k],
                    #[trigger] young@[k],
                    *cfg,
                ),
            organisms_wf(alive@),
            organisms_wf(young@),
            settled(alive@, *cfg),
            settled(young@, *cfg),
            all_inside(organisms@, cfg.arena) ==> all_inside(alive@, cfg.arena) && all_inside(
                young@,
                cfg.arena,
            ),
        decreases organisms.len() - i,
    {
        let o: Organism = organisms[i];
        assert(o.wf());
        proof {
            lemma_kept_step(organisms@, surviving(*cfg), i as int);
            lemma_kept_step(organisms@, breeding(*cfg), i as int);
        }
        let ghost earlier = kept(organisms@.take(i as int), breeding(*cfg));
        match o.grow(cfg) {
            Growth::Dies => {},
            Growth::Lives(p) => {
                alive.push(p);
            },
            Growth::Breeds(p) => {
                alive.push(p);
                proof {
                    assert(earlier.push(p).drop_last() =~= earlier);
                    assert(earlier.push(p).last() == p);
                }
                bear(&p, &mut young, rng, cfg);
            },
        }
        i += 1;
    }
    assert(organisms@.take(i as int) =~= organisms@);
    let ghost alive_before = alive@;
    let ghost born = young@;
    let mut k: usize = 0;
    while k < young.len()
        invariant
            k <= young.len(),
            young@ == born,
            alive@.len() == alive_before.len() + k,
            forall|j: int| 0 <= j < alive_before.len() ==> #[trigger] alive@[j] == alive_before[j],
            forall|j: int| 0 <= j < k ==> #[trigger] alive@[alive_before.len() + j] == born[j],
            organisms_wf(born),
            settled(born, *cfg),
            organisms_wf(alive@),
            settled(alive@, *cfg),
            all_inside(organisms@, cfg.arena) ==> all_inside(born, cfg.arena) && all_inside(
                alive@,
                cfg.arena,
            ),
        decreases young.len() - k,
    {
        let c: Organism = young[k];
        alive.push(c);
        k += 1;
    }
    alive
}

} // verus!
