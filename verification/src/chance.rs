//! The one source of randomness: a seedable generator, drawn from through a
//! single trusted call.

use vstd::prelude::*;
use rand::rngs::StdRng;
use crate::fixed::SCALE;

verus! {

/// The generator of the `rand` crate, `rand::rngs::StdRng`. Nothing of its
/// state is visible to the proofs.
#[verifier::external_type_specification]
#[verifier::external_body]
pub struct ExStdRng(rand::rngs::StdRng);

/// Calls `rand::Rng::gen_range` on the half-open range from zero to `bound`.
/// Trusted, not proved: the number returned lies in that range, as the
/// method's documentation says; an empty range, on which it panics, is
/// excluded. Nothing is claimed about which number comes.
#[verifier::external_body]
pub(crate) fn draw_below(rng: &mut StdRng, bound: i64) -> (r: i64)
    requires
        bound > 0,
    ensures
        0 <= r < bound,
{
    rand::Rng::gen_range(rng, 0..bound)
}

/// Draws a fraction of one: a number from zero up to, but not reaching, one.
pub fn draw_unit(rng: &mut StdRng) -> (r: i64)
    ensures
        0 <= r < SCALE,
{
    draw_below(rng, SCALE)
}

/// Draws a number from `-span` up to, but not reaching, `span`.
pub fn draw_around_zero(rng: &mut StdRng, span: i64) -> (r: i64)
    requires
        0 < span <= SCALE,
    ensures
        -span <= r < span,
{
    centred(draw_below(rng, 2 * span), span)
}

/// A draw from zero up to twice `span`, moved down by `span` so that its
/// range lies evenly around zero.
pub fn centred(draw: i64, span: i64) -> (r: i64)
    requires
        0 < span <= SCALE,
        0 <= draw < 2 * span,
    ensures
        r == draw - span,
{
    draw - span
}

/// Draws twenty-seven fractions of one.
pub fn draw_units(rng: &mut StdRng) -> (r: [i64; 27])
    ensures
        forall|i: int| 0 <= i < 27 ==> 0 <= #[trigger] r@[i] < SCALE,
{
    let mut out: [i64; 27] = [0i64; 27];
    let mut i: usize = 0;
    while i < 27
        invariant
            i <= 27,
            forall|j: int| 0 <= j < i ==> 0 <= #[trigger] out@[j] < SCALE,
        decreases 27 - i,
    {
        let d: i64 = draw_unit(rng);
        out[i] = d;
        i += 1;
    }
    out
}

/// Draws twenty-seven numbers from `-span` up to, but not reaching, `span`.
pub fn draw_shifts(rng: &mut StdRng, span: i64) -> (r: [i64; 27])
    requires
        0 < span <= SCALE,
    ensures
        forall|i: int| 0 <= i < 27 ==> -span <= #[trigger] r@[i] < span,
{
    let mut out: [i64; 27] = [0i64; 27];
    let mut i: usize = 0;
    while i < 27
        invariant
            i <= 27,
            0 < span <= SCALE,
            forall|j: int| 0 <= j < i ==> -span <= #[trigger] out@[j] < span,
        decreases 27 - i,
    {
        let d: i64 = draw_around_zero(rng, span);
        out[i] = d;
        i += 1;
    }
    out
}

/// Every draw is a fraction of one.
pub open spec fn units(draws: Seq<i64>) -> bool {
    forall|i: int| 0 <= i < draws.len() ==> 0 <= #[trigger] draws[i] < SCALE
}

/// Draws `n` fractions of one.
pub fn draw_many(rng: &mut StdRng, n: usize) -> (r: Vec<i64>)
    ensures
        r@.len() == n,
        units(r@),
{
    let mut out: Vec<i64> = Vec::new();
    let mut i: usize = 0;
    while i < n
        invariant
            i <= n,
            out@.len() == i,
            units(out@),
        decreases n - i,
    {
        let d: i64 = draw_unit(rng);
        out.push(d);
        i += 1;
    }
    out
}

} // verus!
