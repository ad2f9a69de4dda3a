//! The genome: twenty-seven genes that make up three linear neurons, each
//! with one bias and eight weights over the eight senses.

use vstd::prelude::*;
use rand::rngs::StdRng;
use crate::chance::{draw_shifts, draw_units};
use crate::fixed::{clamp, clamped, divide, lemma_product_bound, magnitude, quotient, wide, LIMIT, SCALE};

verus! {

/// The largest shift, in either direction, that one mutation applies to a gene.
pub const MUTATION_SPAN: i64 = 250_000_000;

/// A fixed-length genome. Genes 0 to 2 are the biases of the three neurons;
/// neuron `k` owns the eight weights that start at gene `3 + 8 * k`.
#[derive(Clone, Copy, Debug, PartialEq, Eq)]
pub struct Genome {
    pub genes: [i64; 27],
}

/// Every gene lies between minus one and one.
pub open spec fn genes_in_range(genes: Seq<i64>) -> bool {
    forall|i: int| 0 <= i < genes.len() ==> -SCALE <= #[trigger] genes[i] <= SCALE
}

/// Every sense is small enough to be weighed without overflow.
pub open spec fn senses_in_range(senses: Seq<i64>) -> bool {
    forall|j: int| 0 <= j < senses.len() ==> -LIMIT <= #[trigger] senses[j] <= LIMIT
}

/// The sum of the first `n` senses, each weighed by the gene that follows `base` at the same offset.
pub open spec fn weighed(genes: Seq<i64>, base: int, senses: Seq<i64>, n: nat) -> int
    decreases n,
{
    if n == 0 {
        0
    } else {
        weighed(genes, base, senses, (n - 1) as nat) + genes[base + n - 1] * senses[n - 1]
    }
}

/// What neuron `k` answers to the senses: its bias plus its weighed senses, confined to [-1, 1].
pub open spec fn response(genes: Seq<i64>, k: int, senses: Seq<i64>) -> int {
    clamped(
        genes[k] + quotient(weighed(genes, 3 + 8 * k, senses, 8), SCALE as int),
        -SCALE as int,
        SCALE as int,
    )
}

/// A gene after one mutation trial: shifted and confined to [-1, 1] where the
/// chance drawn falls below the mutation rate, untouched otherwise.
pub open spec fn mutated_gene(gene: int, chance: int, shift: int, rate: int) -> int {
    if chance < rate {
        clamped(gene + shift, -SCALE as int, SCALE as int)
    } else {
        gene
    }
}

/// `child` lies inside [-1, 1] and within one mutation span of `parent`.
pub open spec fn descends(parent: int, child: int) -> bool {
    -SCALE <= child <= SCALE && parent - MUTATION_SPAN <= child <= parent + MUTATION_SPAN
}

/// A gene drawn uniformly: the unit draw stretched onto [-1, 1), halved for a bias.
pub open spec fn drawn_gene(index: int, draw: int) -> int {
    if index < 3 {
        quotient(2 * draw - SCALE, 2)
    } else {
        2 * draw - SCALE
    }
}

/// The hand-written gene at `index`: brake on food to either side, speed up
/// on food ahead, and turn on food to the side.
pub open spec fn planned_gene(index: int) -> int {
    if index == 8 {
        500_000_000
    } else if index == 9 {
        -500_000_000
    } else if index == 16 || index == 18 {
        -100_000_000
    } else if index == 17 {
        SCALE as int
    } else {
        0
    }
}

/// A colour channel read off a gene: [-1, 1] mapped linearly onto [0, 1].
pub open spec fn channel(gene: int) -> int {
    (gene + SCALE) / 2
}

/// With a mutation rate of zero no trial changes a gene, whatever is drawn.
pub proof fn law_rate_zero_keeps_gene(gene: int, chance: int, shift: int)
    requires
        0 <= chance,
    ensures
        mutated_gene(gene, chance, shift, 0) == gene,
{
}

/// A mutation trial leaves a gene in [-1, 1], within one mutation span of
/// what it was.
pub proof fn law_mutation_stays_near(gene: int, chance: int, shift: int, rate: int)
    requires
        -SCALE <= gene <= SCALE,
        -MUTATION_SPAN <= shift <= MUTATION_SPAN,
    ensures
        descends(gene, mutated_gene(gene, chance, shift, rate)),
{
}

/// One mutation trial of one gene.
pub fn mutate_gene(gene: i64, chance: i64, shift: i64, rate: i64) -> (r: i64)
    requires
        -SCALE <= gene <= SCALE,
        -MUTATION_SPAN <= shift <= MUTATION_SPAN,
    ensures
        r == mutated_gene(gene as int, chance as int, shift as int, rate as int),
        -SCALE <= r <= SCALE,
        descends(gene as int, r as int),
{
    if chance < rate {
        clamp(gene + shift, -SCALE, SCALE)
    } else {
        gene
    }
}

impl View for Genome {
    type V = Seq<i64>;

    open spec fn view(&self) -> Seq<i64> {
        self.genes@
    }
}

impl Genome {
    /// The invariant of a genome: every gene lies in [-1, 1].
    pub open spec fn wf(&self) -> bool {
        genes_in_range(self@)
    }

    /// Makes a genome of the given genes, if there are twenty-seven and each lies in [-1, 1].
    pub fn from_slice(genes: &[i64]) -> (r: Option<Genome>)
        ensures
            r is Some <==> genes@.len() == 27 && genes_in_range(genes@),
            r is Some ==> r.unwrap()@ == genes@ && r.unwrap().wf(),
    {
        if genes.len() != 27 {
            return None;
        }
        let mut out: [i64; 27] = [0i64; 27];
        let mut i: usize = 0;
        while i < 27
            invariant
                i <= 27,
                genes@.len() == 27,
                forall|j: int| 0 <= j < i ==> out@[j] == genes@[j],
                forall|j: int| 0 <= j < i ==> -SCALE <= #[trigger] genes@[j] <= SCALE,
            decreases 27 - i,
        {
            let g: i64 = genes[i];
            if g < -SCALE || g > SCALE {
                return None;
            }
            out[i] = g;
            i += 1;
        }
        let r = Genome { genes: out };
        assert(r@ =~= genes@);
        Some(r)
    }

    /// Tells whether every gene lies in [-1, 1].
    pub fn is_valid(&self) -> (r: bool)
        ensures
            r == self.wf(),
    {
        let mut i: usize = 0;
        while i < 27
            invariant
                i <= 27,
                forall|j: int| 0 <= j < i ==> -SCALE <= #[trigger] self@[j] <= SCALE,
            decreases 27 - i,
        {
            let g: i64 = self.genes[i];
            if g < -SCALE || g > SCALE {
                return false;
            }
            i += 1;
        }
        true
    }

    /// The hand-written genome that seeds a population with a simple way of
    /// finding food.
    pub fn planned() -> (r: Genome)
        ensures
            r.wf(),
            forall|i: int| 0 <= i < 27 ==> #[trigger] r@[i] == planned_gene(i),
    {
        let mut genes: [i64; 27] = [0i64; 27];
        genes[16] = -100_000_000;
        genes[18] = -100_000_000;
        genes[17] = SCALE;
        genes[8] = 500_000_000;
        genes[9] = -500_000_000;
        Genome { genes }
    }

    /// The genome whose genes come from twenty-seven unit draws: each draw
    /// stretched onto [-1, 1), the three biases halved.
    pub fn from_draws(draws: &[i64; 27]) -> (r: Genome)
        requires
            forall|i: int| 0 <= i < 27 ==> 0 <= #[trigger] draws@[i] < SCALE,
        ensures
            r.wf(),
            forall|i: int| 0 <= i < 27 ==> #[trigger] r@[i] == drawn_gene(i, draws@[i] as int),
    {
        let mut genes: [i64; 27] = [0i64; 27];
        let mut i: usize = 0;
        while i < 27
            invariant
                i <= 27,
                forall|j: int| 0 <= j < 27 ==> 0 <= #[trigger] draws@[j] < SCALE,
                forall|j: int| 0 <= j < i ==> #[trigger] genes@[j] == drawn_gene(j, draws@[j] as int),
                forall|j: int| 0 <= j < i ==> -SCALE <= #[trigger] genes@[j] <= SCALE,
            decreases 27 - i,
        {
            let full: i64 = 2 * draws[i] - SCALE;
            let gene: i64 = if i < 3 {
                divide(full as i128, 2) as i64
            } else {
                full
            };
            genes[i] = gene;
            i += 1;
        }
        Genome { genes }
    }

    /// The genome after one mutation trial per gene, gene `i` tried with
    /// `chances[i]` against `rate` and shifted by `shifts[i]`.
    pub fn mutate_with(&self, chances: &[i64; 27], shifts: &[i64; 27], rate: i64) -> (r: Genome)
        requires
            self.wf(),
            forall|i: int| 0 <= i < 27 ==> -MUTATION_SPAN <= #[trigger] shifts@[i] <= MUTATION_SPAN,
        ensures
            r.wf(),
            forall|i: int|
                0 <= i < 27 ==> #[trigger] r@[i] == mutated_gene(
                    self@[i] as int,
                    chances@[i] as int,
                    shifts@[i] as int,
                    rate as int,
                ),
            forall|i: int| 0 <= i < 27 ==> descends(self@[i] as int, #[trigger] r@[i] as int),
    {
        let mut genes: [i64; 27] = self.genes;
        let mut i: usize = 0;
        while i < 27
            invariant
                i <= 27,
                self.wf(),
                forall|j: int|
                    0 <= j < 27 ==> -MUTATION_SPAN <= #[trigger] shifts@[j] <= MUTATION_SPAN,
                forall|j: int| i <= j < 27 ==> genes@[j] == self@[j],
                forall|j: int|
                    0 <= j < i ==> #[trigger] genes@[j] == mutated_gene(
                        self@[j] as int,
                        chances@[j] as int,
                        shifts@[j] as int,
                        rate as int,
                    ),
                forall|j: int| 0 <= j < i ==> -SCALE <= #[trigger] genes@[j] <= SCALE,
                forall|j: int| 0 <= j < i ==> descends(self@[j] as int, #[trigger] genes@[j] as int),
            decreases 27 - i,
        {
            let gene: i64 = mutate_gene(self.genes[i], chances[i], shifts[i], rate);
            genes[i] = gene;
            i += 1;
        }
        Genome { genes }
    }

    /// A child's genome: each gene is tried once against `rate`, with
    /// chances and shifts drawn from `rng`. A rate of zero copies the genome.
    pub fn mutate(&self, rng: &mut StdRng, rate: i64) -> (r: Genome)
        requires
            self.wf(),
        ensures
            r.wf(),
            forall|i: int| 0 <= i < 27 ==> descends(self@[i] as int, #[trigger] r@[i] as int),
            rate <= 0 ==> r@ == self@,
    {
        let chances = draw_units(rng);
        let shifts = draw_shifts(rng, MUTATION_SPAN);
        let r = self.mutate_with(&chances, &shifts, rate);
        proof {
            if rate <= 0 {
                assert(r@ =~= self@);
            }
        }
        r
    }

    /// A genome drawn at random: every gene uniform in [-1, 1), the three
    /// biases halved.
    pub fn random(rng: &mut StdRng) -> (r: Genome)
        ensures
            r.wf(),
            forall|i: int| 0 <= i < 3 ==> -SCALE <= 2 * #[trigger] r@[i] <= SCALE,
    {
        let draws = draw_units(rng);
        let r = Genome::from_draws(&draws);
        assert forall|i: int| 0 <= i < 3 implies -SCALE <= 2 * #[trigger] r@[i] <= SCALE by {
            assert(r@[i] == drawn_gene(i, draws@[i] as int));
        }
        r
    }

    /// What the three neurons answer to the eight senses.
    pub fn process(&self, senses: &[i64; 8]) -> (out: [i64; 3])
        requires
            self.wf(),
            senses_in_range(senses@),
        ensures
            forall|k: int| 0 <= k < 3 ==> #[trigger] out@[k] == response(self@, k, senses@),
            forall|k: int| 0 <= k < 3 ==> -SCALE <= #[trigger] out@[k] <= SCALE,
    {
        let mut out: [i64; 3] = [0i64; 3];
        let mut k: usize = 0;
        while k < 3
            invariant
                k <= 3,
                self.wf(),
                senses_in_range(senses@),
                forall|m: int| 0 <= m < k ==> #[trigger] out@[m] == response(self@, m, senses@),
                forall|m: int| 0 <= m < k ==> -SCALE <= #[trigger] out@[m] <= SCALE,
            decreases 3 - k,
        {
            let base: usize = 3 + 8 * k;
            let mut sum: i128 = 0;
            let mut j: usize = 0;
            while j < 8
                invariant
                    j <= 8,
                    k < 3,
                    base == 3 + 8 * k,
                    self.wf(),
                    senses_in_range(senses@),
                    sum == weighed(self@, base as int, senses@, j as nat),
                    magnitude(sum as int) <= j * 1_000_000_000_000_000_000_000_000,
                decreases 8 - j,
            {
                let gene: i64 = self.genes[base + j];
                let sense: i64 = senses[j];
                proof {
                    assert(-SCALE <= self@[base + j] <= SCALE);
                    assert(-LIMIT <= senses@[j as int] <= LIMIT);
                    lemma_product_bound(gene as int, sense as int, SCALE as int, LIMIT as int);
                    assert(SCALE * LIMIT == 1_000_000_000_000_000_000_000_000);
                }
                sum = sum + wide(gene, sense);
                j += 1;
            }
            let weight: i128 = divide(sum, SCALE as i128);
            assert(-SCALE <= self@[k as int] <= SCALE);
            let total: i64 = self.genes[k] + (weight as i64);
            out[k] = clamp(total, -SCALE, SCALE);
            k += 1;
        }
        out
    }

    /// The colour that marks this genome: its three biases, each mapped
    /// linearly from [-1, 1] onto [0, 1], as red, green and blue.
    pub fn color(&self) -> (rgb: [i64; 3])
        requires
            self.wf(),
        ensures
            forall|k: int| 0 <= k < 3 ==> #[trigger] rgb@[k] == channel(self@[k] as int),
            forall|k: int| 0 <= k < 3 ==> 0 <= #[trigger] rgb@[k] <= SCALE,
    {
        assert(-SCALE <= self@[0] <= SCALE);
        assert(-SCALE <= self@[1] <= SCALE);
        assert(-SCALE <= self@[2] <= SCALE);
        [
            (self.genes[0] + SCALE) / 2,
            (self.genes[1] + SCALE) / 2,
            (self.genes[2] + SCALE) / 2,
        ]
    }
}

} // verus!
