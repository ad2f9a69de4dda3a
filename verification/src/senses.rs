//! What an organism senses: eight numbers, the last three of which tell
//! how much food lies in each of three cones around its heading.

use vstd::prelude::*;
use crate::arena::Arena;
use crate::config::Config;
use crate::entity::{Food, Organism};
use crate::fixed::{
    clamp, clamped, lemma_product_bound, lemma_root_below, over, wide, LIMIT, SCALE,
};
use crate::genome::{response, senses_in_range};
use crate::geometry::{length, measure, Point};

verus! {

/// The cosine of a tenth of a radian, half the width of the cone ahead.
pub const NARROW: i64 = 995_004_165;

/// The cosine of one radian, the outer edge of the cones to either side.
pub const WIDE: i64 = 540_302_306;

/// The share of the arena, along each axis, that counts as close to an edge.
pub const MARGIN: i64 = 100_000_000;

/// One of the three cones in which an organism senses food.
#[derive(Clone, Copy, Debug, PartialEq, Eq, Structural)]
pub enum Cone {
    /// The side toward which a positive turn rotates the heading.
    Left,
    /// Within a tenth of a radian of the heading.
    Ahead,
    /// The side away from which a positive turn rotates the heading.
    Right,
}

/// The part `part` of `whole` as a fraction of one, with `part` first
/// confined to the range from zero to `whole`; zero where there is no whole.
pub open spec fn fraction(part: int, whole: int) -> int {
    if whole <= 0 {
        0
    } else {
        (clamped(part, 0, whole) * SCALE) / whole
    }
}

/// The cone in which something at the offset `(dx, dy)` lies for an
/// observer heading along `h`: ahead where the angle between offset and
/// heading is under a tenth of a radian, to a side where it is between a
/// tenth and one radian, and in no cone beyond that. The angle is judged by
/// its cosine, the side by the sign of the cross product.
pub open spec fn cone_of(dx: int, dy: int, h: Point) -> Option<Cone> {
    let reach = length(dx, dy) * length(h.x as int, h.y as int);
    let along = (dx * h.x + dy * h.y) * SCALE;
    let across = dx * h.y - dy * h.x;
    if along > NARROW * reach {
        Some(Cone::Ahead)
    } else if WIDE * reach < along < NARROW * reach {
        if across >= 0 {
            Some(Cone::Left)
        } else {
            Some(Cone::Right)
        }
    } else {
        None
    }
}

/// How strongly food at the given distance is sensed: a half at no
/// distance, falling to a quarter at the edge of vision.
pub open spec fn proximity(distance: int, vision: int) -> int {
    ((vision / 2) * SCALE) / (vision + distance)
}

/// What one piece of food adds to a cone: its proximity where it is
/// within vision and lies in that cone, nothing otherwise.
pub open spec fn whiff(o: Organism, f: Food, cone: Cone, vision: int) -> int {
    let dx = f.position.x - o.position.x;
    let dy = f.position.y - o.position.y;
    if length(dx, dy) < vision && cone_of(dx, dy, o.heading) == Some(cone) {
        proximity(length(dx, dy), vision)
    } else {
        0
    }
}

/// What all the food adds up to in one cone.
pub open spec fn scent(o: Organism, foods: Seq<Food>, cone: Cone, vision: int) -> int
    decreases foods.len(),
{
    if foods.len() == 0 {
        0
    } else {
        scent(o, foods.drop_last(), cone, vision) + whiff(o, foods.last(), cone, vision)
    }
}

/// The organism is within a tenth of the arena of an edge and heads
/// further toward it.
pub open spec fn cornered(o: Organism, arena: Arena) -> bool {
    let x = fraction(o.position.x - arena.left, arena.right - arena.left);
    let y = fraction(o.position.y - arena.bottom, arena.top - arena.bottom);
    (x < MARGIN && o.heading.x < 0) || (x > SCALE - MARGIN && o.heading.x > 0) || (y < MARGIN
        && o.heading.y < 0) || (y > SCALE - MARGIN && o.heading.y > 0)
}

/// The share of its lifetime that something of the given age has lived, at most one.
pub open spec fn elapsed(age: int, lifetime: int) -> int {
    if age >= lifetime {
        SCALE as int
    } else {
        (age * SCALE) / lifetime
    }
}

/// The eight senses of an organism, in the order in which the genome
/// weighs them: its speed as a share of the greatest speed; where it
/// stands across and up the arena; its energy as a share of the living
/// range; its age as a share of its lifetime; and the food in the left
/// cone, ahead, and in the right cone, each at most one. Close to an edge
/// and heading toward it, the sense of food ahead is minus one instead.
pub open spec fn sensed(o: Organism, foods: Seq<Food>, cfg: Config) -> Seq<i64> {
    seq![
        fraction(o.speed as int, cfg.speed_max as int) as i64,
        fraction(o.position.x - cfg.arena.left, cfg.arena.right - cfg.arena.left) as i64,
        fraction(o.position.y - cfg.arena.bottom, cfg.arena.top - cfg.arena.bottom) as i64,
        fraction(o.energy - cfg.energy_min, cfg.energy_max - cfg.energy_min) as i64,
        elapsed(o.age as int, o.lifetime as int) as i64,
        clamped(scent(o, foods, Cone::Left, cfg.vision as int), 0, SCALE as int) as i64,
        if cornered(o, cfg.arena) {
            (-SCALE) as i64
        } else {
            clamped(scent(o, foods, Cone::Ahead, cfg.vision as int), 0, SCALE as int) as i64
        },
        clamped(scent(o, foods, Cone::Right, cfg.vision as int), 0, SCALE as int) as i64,
    ]
}

/// The organism after one round of sensing and deciding: its genome
/// answers what it senses, the first answer turns it and the second
/// changes its speed. The third answer moves nothing.
pub open spec fn decided(o: Organism, foods: Seq<Food>, cfg: Config) -> Organism {
    let senses = sensed(o, foods, cfg);
    o.steered(response(o.genome@, 0, senses) as int, response(o.genome@, 1, senses) as int, cfg)
}

/// Every piece of food can be computed with.
pub open spec fn foods_wf(foods: Seq<Food>) -> bool {
    forall|i: int| 0 <= i < foods.len() ==> (#[trigger] foods[i]).wf()
}

/// A fraction is a fraction of one.
pub proof fn lemma_fraction_range(part: int, whole: int)
    ensures
        0 <= fraction(part, whole) <= SCALE,
{
    if whole > 0 {
        let p = clamped(part, 0, whole);
        assert(0 <= (p * SCALE) / whole <= SCALE) by (nonlinear_arith)
            requires
                0 <= p <= whole,
                whole > 0,
                SCALE == 1_000_000_000,
        ;
    }
}

/// Food is sensed with a strength between nothing and a half.
pub proof fn lemma_proximity_range(distance: int, vision: int)
    requires
        0 <= distance,
        0 < vision,
    ensures
        0 <= proximity(distance, vision) <= 500_000_000,
{
    let half = vision / 2;
    assert(0 <= (half * SCALE) / (vision + distance) <= 500_000_000) by (nonlinear_arith)
        requires
            0 <= 2 * half <= vision,
            0 <= distance,
            0 < vision,
            SCALE == 1_000_000_000,
    ;
}

/// The part `part` of `whole` as a fraction of one.
pub fn share(part: i64, whole: i64) -> (r: i64)
    ensures
        r == fraction(part as int, whole as int),
        0 <= r <= SCALE,
{
    proof {
        lemma_fraction_range(part as int, whole as int);
    }
    if whole <= 0 {
        0
    } else {
        let confined: i64 = clamp(part, 0, whole);
        assert(confined * SCALE >= 0) by (nonlinear_arith)
            requires
                confined >= 0,
                SCALE == 1_000_000_000,
        ;
        over(confined, whole)
    }
}

/// The share of its lifetime that something of the given age has lived.
pub fn lived(age: u64, lifetime: u64) -> (r: i64)
    ensures
        r == elapsed(age as int, lifetime as int),
        0 <= r <= SCALE,
{
    if age >= lifetime {
        SCALE
    } else {
        let scaled: u128 = (age as u128) * 1_000_000_000u128;
        let gone: u128 = scaled / (lifetime as u128);
        assert(gone <= SCALE) by (nonlinear_arith)
            requires
                gone == (age * 1_000_000_000) / (lifetime as int),
                0 <= age < lifetime,
                SCALE == 1_000_000_000,
        ;
        gone as i64
    }
}

/// Tells in which cone something at the offset `(dx, dy)` lies for an
/// observer heading along `h`.
pub fn cone(dx: i64, dy: i64, h: Point) -> (r: Option<Cone>)
    requires
        -2 * LIMIT <= dx <= 2 * LIMIT,
        -2 * LIMIT <= dy <= 2 * LIMIT,
        h.is_heading(),
    ensures
        r == cone_of(dx as int, dy as int, h),
{
    let far: i64 = measure(dx, dy);
    let unit: i64 = measure(h.x, h.y);
    proof {
        lemma_product_bound(h.x as int, h.x as int, 1_000_000_000, 1_000_000_000);
        lemma_product_bound(h.y as int, h.y as int, 1_000_000_000, 1_000_000_000);
        assert(1_000_000_000int * 1_000_000_000int == 1_000_000_000_000_000_000int);
        assert(2_000_000_000int * 2_000_000_000int == 4_000_000_000_000_000_000int);
        lemma_root_below(h.x * h.x + h.y * h.y, unit as int, 2_000_000_000);
        lemma_product_bound(far as int, unit as int, 6_000_000_000_000_000, 2_000_000_000);
        assert(6_000_000_000_000_000int * 2_000_000_000int
            == 12_000_000_000_000_000_000_000_000int);
        lemma_product_bound(dx as int, h.x as int, 2_000_000_000_000_000, 1_000_000_000);
        lemma_product_bound(dy as int, h.y as int, 2_000_000_000_000_000, 1_000_000_000);
        lemma_product_bound(dx as int, h.y as int, 2_000_000_000_000_000, 1_000_000_000);
        lemma_product_bound(dy as int, h.x as int, 2_000_000_000_000_000, 1_000_000_000);
        assert(2_000_000_000_000_000int * 1_000_000_000int == 2_000_000_000_000_000_000_000_000int);
    }
    let reach: i128 = wide(far, unit);
    let along: i128 = (wide(dx, h.x) + wide(dy, h.y)) * 1_000_000_000i128;
    let across: i128 = wide(dx, h.y) - wide(dy, h.x);
    let narrow: i128 = 995_004_165i128 * reach;
    let broad: i128 = 540_302_306i128 * reach;
    if along > narrow {
        Some(Cone::Ahead)
    } else if broad < along && along < narrow {
        if across >= 0 {
            Some(Cone::Left)
        } else {
            Some(Cone::Right)
        }
    } else {
        None
    }
}

/// How strongly food at the given distance is sensed.
pub fn strength(distance: i64, vision: i64) -> (r: i64)
    requires
        0 <= distance <= 6 * LIMIT,
        0 < vision <= LIMIT,
    ensures
        r == proximity(distance as int, vision as int),
        0 <= r <= 500_000_000,
{
    proof {
        lemma_proximity_range(distance as int, vision as int);
    }
    let scaled: i128 = wide(vision / 2, SCALE);
    assert(scaled >= 0) by (nonlinear_arith)
        requires
            scaled == (vision / 2) * SCALE,
            vision > 0,
            SCALE == 1_000_000_000,
    ;
    let q: i128 = scaled / ((vision + distance) as i128);
    q as i64
}

/// The food sensed in each of the three cones: left, ahead and right.
pub fn smell(o: &Organism, foods: &Vec<Food>, vision: i64) -> (r: (i64, i64, i64))
    requires
        o.wf(),
        foods_wf(foods@),
        0 < vision <= LIMIT,
    ensures
        r.0 == clamped(scent(*o, foods@, Cone::Left, vision as int), 0, SCALE as int),
        r.1 == clamped(scent(*o, foods@, Cone::Ahead, vision as int), 0, SCALE as int),
        r.2 == clamped(scent(*o, foods@, Cone::Right, vision as int), 0, SCALE as int),
{
    let mut left: i128 = 0;
    let mut ahead: i128 = 0;
    let mut right: i128 = 0;
    let mut i: usize = 0;
    while i < foods.len()
        invariant
            i <= foods.len(),
            o.wf(),
            foods_wf(foods@),
            0 < vision <= LIMIT,
            left == scent(*o, foods@.take(i as int), Cone::Left, vision as int),
            ahead == scent(*o, foods@.take(i as int), Cone::Ahead, vision as int),
            right == scent(*o, foods@.take(i as int), Cone::Right, vision as int),
            0 <= left <= i * 500_000_000,
            0 <= ahead <= i * 500_000_000,
            0 <= right <= i * 500_000_000,
        decreases foods.len() - i,
    {
        let f: Food = foods[i];
        assert(f.wf());
        proof {
            assert(foods@.take(i + 1).drop_last() =~= foods@.take(i as int));
            assert(foods@.take(i + 1).last() == foods@[i as int]);
        }
        let dx: i64 = f.position.x - o.position.x;
        let dy: i64 = f.position.y - o.position.y;
        let far: i64 = measure(dx, dy);
        if far < vision {
            let weight: i64 = strength(far, vision);
            match cone(dx, dy, o.heading) {
                Some(Cone::Left) => {
                    left = left + (weight as i128);
                },
                Some(Cone::Ahead) => {
                    ahead = ahead + (weight as i128);
                },
                Some(Cone::Right) => {
                    right = right + (weight as i128);
                },
                None => {},
            }
        }
        i += 1;
    }
    proof {
        assert(foods@.take(i as int) =~= foods@);
    }
    let l: i128 = if left > SCALE as i128 {
        SCALE as i128
    } else {
        left
    };
    let a: i128 = if ahead > SCALE as i128 {
        SCALE as i128
    } else {
        ahead
    };
    let r: i128 = if right > SCALE as i128 {
        SCALE as i128
    } else {
        right
    };
    (l as i64, a as i64, r as i64)
}

/// Tells whether the organism is close to an edge of the arena and heads toward it.
pub fn is_cornered(o: &Organism, arena: &Arena) -> (r: bool)
    requires
        o.wf(),
        arena.wf(),
    ensures
        r == cornered(*o, *arena),
{
    let x: i64 = share(o.position.x - arena.left, arena.right - arena.left);
    let y: i64 = share(o.position.y - arena.bottom, arena.top - arena.bottom);
    (x < MARGIN && o.heading.x < 0) || (x > SCALE - MARGIN && o.heading.x > 0) || (y < MARGIN
        && o.heading.y < 0) || (y > SCALE - MARGIN && o.heading.y > 0)
}

/// Gathers the eight senses of an organism among the given food.
pub fn sense(o: &Organism, foods: &Vec<Food>, cfg: &Config) -> (r: [i64; 8])
    requires
        o.wf(),
        foods_wf(foods@),
        cfg.wf(),
    ensures
        r@ == sensed(*o, foods@, *cfg),
        forall|k: int| 0 <= k < 8 ==> -SCALE <= #[trigger] r@[k] <= SCALE,
        senses_in_range(r@),
{
    let (left, ahead, right) = smell(o, foods, cfg.vision);
    let front: i64 = if is_cornered(o, &cfg.arena) {
        -SCALE
    } else {
        ahead
    };
    let r: [i64; 8] = [
        share(o.speed, cfg.speed_max),
        share(o.position.x - cfg.arena.left, cfg.arena.right - cfg.arena.left),
        share(o.position.y - cfg.arena.bottom, cfg.arena.top - cfg.arena.bottom),
        share(o.energy - cfg.energy_min, cfg.energy_max - cfg.energy_min),
        lived(o.age, o.lifetime),
        left,
        front,
        right,
    ];
    assert(r@ =~= sensed(*o, foods@, *cfg));
    r
}

/// Lets an organism sense the food around it and act on what its genome answers.
pub fn decide(o: &Organism, foods: &Vec<Food>, cfg: &Config) -> (r: Organism)
    requires
        o.wf(),
        foods_wf(foods@),
        cfg.wf(),
    ensures
        r == decided(*o, foods@, *cfg),
        r.wf(),
        r.position == o.position,
        r.energy == o.energy,
        r.size == o.size,
        r.pregnant == o.pregnant,
        0 <= r.speed <= cfg.speed_max,
{
    let senses = sense(o, foods, cfg);
    let answer = o.genome.process(&senses);
    assert(answer@[0] == response(o.genome@, 0, senses@));
    assert(answer@[1] == response(o.genome@, 1, senses@));
    o.steer(answer[0], answer[1], cfg)
}

} // verus!
