//! Fixed-capacity first-in, first-out histories.
use vstd::prelude::*;
use std::collections::VecDeque;

verus! {

/// `h` after appending `x`, evicting the oldest entry once `cap` is exceeded.
pub open spec fn bounded_push<T>(h: Seq<T>, x: T, cap: nat) -> Seq<T> {
    if h.len() + 1 > cap {
        h.push(x).drop_first()
    } else {
        h.push(x)
    }
}

/// A history of capacity `cap`, started empty, after appending each of `xs`
/// in turn.
pub open spec fn bounded_fill<T>(xs: Seq<T>, cap: nat) -> Seq<T>
    decreases xs.len(),
{
    if xs.len() == 0 {
        seq![]
    } else {
        bounded_push(bounded_fill(xs.drop_last(), cap), xs.last(), cap)
    }
}

/// Appends `x` to `v`, evicting the oldest entry when the length would
/// exceed `cap`.
pub fn push_bounded<T>(v: &mut VecDeque<T>, x: T, cap: usize)
    requires
        old(v)@.len() <= cap,
    ensures
        final(v)@ == bounded_push(old(v)@, x, cap as nat),
        final(v)@.len() <= cap,
{
    v.push_back(x);
    if v.len() > cap {
        let _ = v.pop_front();
    }
}

/// A bounded history keeps exactly the last `cap` entries appended to it:
/// after appending `n` entries, its length is the smaller of `n` and `cap`,
/// and its oldest entry is append number `n - cap + 1` once `n` exceeds `cap`.
pub proof fn lemma_bounded_fill_keeps_last<T>(xs: Seq<T>, cap: nat)
    requires
        cap >= 1,
    ensures
        xs.len() <= cap ==> bounded_fill(xs, cap) == xs,
        xs.len() > cap ==> bounded_fill(xs, cap) == xs.subrange(xs.len() - cap, xs.len() as int),
        bounded_fill(xs, cap).len() == if xs.len() <= cap {
            xs.len()
        } else {
            cap
        },
        xs.len() > cap ==> bounded_fill(xs, cap)[0] == xs[xs.len() - cap],
    decreases xs.len(),
{
    if xs.len() > 0 {
        let prev = xs.drop_last();
        lemma_bounded_fill_keeps_last(prev, cap);
        if xs.len() <= cap {
            assert(prev.push(xs.last()) =~= xs);
        } else if prev.len() <= cap {
            assert(prev.len() == cap);
            assert(prev.push(xs.last()).drop_first() =~= xs.subrange(
                xs.len() - cap,
                xs.len() as int,
            ));
        } else {
            assert(prev.subrange(prev.len() - cap, prev.len() as int).push(xs.last()).drop_first()
                =~= xs.subrange(xs.len() - cap, xs.len() as int));
        }
    }
}

} // verus!
