//! Stable insertion sort of configurations by ranking key.

use vstd::prelude::*;

use crate::output::config::NegotiatedConfig;
use crate::ranker::compare::ranks_before;
use crate::ranker::key::spec_compare;
use crate::ranker::policy::NegotiationPolicy;

verus! {

/// Where `x` goes in `s`: before the first entry that `x` ranks strictly before, or at the end.
pub open spec fn spec_insert_pos<W>(
    s: Seq<NegotiatedConfig<W>>,
    x: NegotiatedConfig<W>,
    policy: NegotiationPolicy,
    native: u32,
) -> int
    decreases s.len(),
{
    if s.len() == 0 {
        0
    } else if spec_compare(x, s[0], policy, native) < 0 {
        0
    } else {
        1 + spec_insert_pos(s.drop_first(), x, policy, native)
    }
}

/// `s` sorted by ranking key, stably: each entry is inserted, in input order, after every
/// entry it does not rank strictly before.
pub open spec fn spec_sorted_by_rank<W>(
    s: Seq<NegotiatedConfig<W>>,
    policy: NegotiationPolicy,
    native: u32,
) -> Seq<NegotiatedConfig<W>>
    decreases s.len(),
{
    if s.len() == 0 {
        s
    } else {
        let t = spec_sorted_by_rank(s.drop_last(), policy, native);
        t.insert(spec_insert_pos(t, s.last(), policy, native), s.last())
    }
}

/// The insertion position lies within the sequence bounds.
pub proof fn lemma_insert_pos_bounds<W>(
    s: Seq<NegotiatedConfig<W>>,
    x: NegotiatedConfig<W>,
    policy: NegotiationPolicy,
    native: u32,
)
    ensures
        0 <= spec_insert_pos(s, x, policy, native) <= s.len(),
    decreases s.len(),
{
    if s.len() > 0 {
        lemma_insert_pos_bounds(s.drop_first(), x, policy, native);
    }
}

/// The insertion position is the first index whose entry `x` ranks strictly before.
pub proof fn lemma_insert_pos_first<W>(
    s: Seq<NegotiatedConfig<W>>,
    x: NegotiatedConfig<W>,
    policy: NegotiationPolicy,
    native: u32,
    j: int,
)
    requires
        0 <= j <= s.len(),
        forall|k: int| 0 <= k < j ==> spec_compare(x, #[trigger] s[k], policy, native) >= 0,
        j == s.len() || spec_compare(x, s[j], policy, native) < 0,
    ensures
        spec_insert_pos(s, x, policy, native) == j,
    decreases j,
{
    if j > 0 {
        assert(spec_compare(x, s[0], policy, native) >= 0);
        assert forall|k: int| 0 <= k < j - 1 implies spec_compare(x, #[trigger] s.drop_first()[k], policy, native) >= 0 by {
            assert(s.drop_first()[k] == s[k + 1]);
        }
        lemma_insert_pos_first(s.drop_first(), x, policy, native, j - 1);
    }
}

/// Returns `configs` sorted by ranking key, stably.
pub fn sort_by_rank<W>(configs: Vec<NegotiatedConfig<W>>, policy: &NegotiationPolicy, native: u32) -> (r: Vec<NegotiatedConfig<W>>)
    ensures
        r@ == spec_sorted_by_rank(configs@, *policy, native),
{
    let ghost orig = configs@;
    let mut input = configs;
    let mut sorted: Vec<NegotiatedConfig<W>> = Vec::new();
    let n = input.len();
    let mut i: usize = 0;
    assert(orig.skip(0) =~= orig);
    assert(orig.take(0) =~= Seq::<NegotiatedConfig<W>>::empty());
    while i < n
        invariant
            n == orig.len(),
            i <= n,
            input@ == orig.skip(i as int),
            sorted@ == spec_sorted_by_rank(orig.take(i as int), *policy, native),
        decreases n - i,
    {
        let x = input.remove(0);
        assert(input@ =~= orig.skip(i + 1));
        assert(x == orig[i as int]);
        let mut j: usize = 0;
        let mut found = false;
        while j < sorted.len() && !found
            invariant
                j <= sorted@.len(),
                forall|k: int| 0 <= k < j ==> spec_compare(x, #[trigger] sorted@[k], *policy, native) >= 0,
                found ==> j < sorted@.len() && spec_compare(x, sorted@[j as int], *policy, native) < 0,
            decreases sorted@.len() - j, if found { 0int } else { 1int },
        {
            if ranks_before(&x, &sorted[j], policy, native) {
                found = true;
            } else {
                j += 1;
            }
        }
        proof {
            lemma_insert_pos_first(sorted@, x, *policy, native, j as int);
            assert(orig.take(i + 1).drop_last() =~= orig.take(i as int));
            assert(orig.take(i + 1).last() == x);
        }
        sorted.insert(j, x);
        i += 1;
    }
    assert(orig.take(n as int) =~= orig);
    sorted
}

} // verus!
