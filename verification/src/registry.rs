//! Sequences of records from which a rule drops some and rewrites the rest.

use vstd::prelude::*;

verus! {

/// The sequence that `f` makes of `s`: each element for which `f` gives
/// something is replaced by it, each other one is dropped, and the order stays.
pub open spec fn kept<A, B>(s: Seq<A>, f: spec_fn(A) -> Option<B>) -> Seq<B>
    decreases s.len(),
{
    if s.len() == 0 {
        Seq::empty()
    } else {
        match f(s.last()) {
            Some(b) => kept(s.drop_last(), f).push(b),
            None => kept(s.drop_last(), f),
        }
    }
}

/// What one more element adds to what was kept of those before it.
pub proof fn lemma_kept_step<A, B>(s: Seq<A>, f: spec_fn(A) -> Option<B>, i: int)
    requires
        0 <= i < s.len(),
    ensures
        kept(s.take(i + 1), f) == match f(s[i]) {
            Some(b) => kept(s.take(i), f).push(b),
            None => kept(s.take(i), f),
        },
{
    assert(s.take(i + 1).drop_last() =~= s.take(i));
    assert(s.take(i + 1).last() == s[i]);
}

/// Every element kept is what `f` made of some element that was there.
pub proof fn lemma_kept_sound<A, B>(s: Seq<A>, f: spec_fn(A) -> Option<B>, j: int)
    requires
        0 <= j < kept(s, f).len(),
    ensures
        exists|i: int| 0 <= i < s.len() && f(#[trigger] s[i]) == Some(kept(s, f)[j]),
    decreases s.len(),
{
    if s.len() > 0 {
        let rest = s.drop_last();
        if j < kept(rest, f).len() {
            lemma_kept_sound(rest, f, j);
            let i = choose|i: int| 0 <= i < rest.len() && f(#[trigger] rest[i]) == Some(
                kept(rest, f)[j],
            );
            assert(s[i] == rest[i]);
        } else {
            assert(f(s[s.len() - 1]) == Some(kept(s, f)[j]));
        }
    }
}

/// Every element for which `f` gives something has that among what is kept.
pub proof fn lemma_kept_complete<A, B>(s: Seq<A>, f: spec_fn(A) -> Option<B>, i: int)
    requires
        0 <= i < s.len(),
        f(s[i]) is Some,
    ensures
        exists|j: int| 0 <= j < kept(s, f).len() && #[trigger] kept(s, f)[j] == f(s[i]).unwrap(),
    decreases s.len(),
{
    let rest = s.drop_last();
    if i < s.len() - 1 {
        lemma_kept_complete(rest, f, i);
        let j = choose|j: int|
            0 <= j < kept(rest, f).len() && #[trigger] kept(rest, f)[j] == f(rest[i]).unwrap();
        assert(kept(s, f)[j] == kept(rest, f)[j]);
    } else {
        let j = kept(rest, f).len() as int;
        assert(kept(s, f)[j] == f(s[i]).unwrap());
    }
}

} // verus!
