//! The default ranker's comparison, as a `core::cmp::Ordering`.

use core::cmp::Ordering;

use vstd::prelude::*;

use crate::output::config::NegotiatedConfig;
use crate::ranker::key::{lemma_lex_range, lex_compare, lemma_rank_key_len, rank_key, spec_compare, spec_rank_key};
use crate::ranker::policy::NegotiationPolicy;

verus! {

/// `-1` for `Less`, `0` for `Equal`, `1` for `Greater`.
pub open spec fn ordering_value(o: Ordering) -> int {
    match o {
        Ordering::Less => -1,
        Ordering::Equal => 0,
        Ordering::Greater => 1,
    }
}

/// Compares two validated configurations according to `policy`, where `native_pixels` is
/// the pixel area treated as native.
///
/// Returns `Less` when `a` should appear before `b` in the ranked output. The criteria of
/// the ranking key apply in priority order; the first that differs decides.
pub fn compare_configs<W>(
    a: &NegotiatedConfig<W>,
    b: &NegotiatedConfig<W>,
    policy: &NegotiationPolicy,
    native_pixels: u32,
) -> (r: Ordering)
    ensures
        ordering_value(r) == spec_compare(*a, *b, *policy, native_pixels),
{
    let ka = rank_key(a, policy, native_pixels);
    let kb = rank_key(b, policy, native_pixels);
    proof {
        lemma_rank_key_len(*a, *policy, native_pixels);
        lemma_rank_key_len(*b, *policy, native_pixels);
        lemma_lex_range(spec_rank_key(*a, *policy, native_pixels), spec_rank_key(*b, *policy, native_pixels));
    }
    let c = lex_compare(
        &ka,
        &kb,
        Ghost(spec_rank_key(*a, *policy, native_pixels)),
        Ghost(spec_rank_key(*b, *policy, native_pixels)),
    );
    if c < 0 {
        Ordering::Less
    } else if c > 0 {
        Ordering::Greater
    } else {
        Ordering::Equal
    }
}

/// Returns whether `a` ranks strictly before `b`.
pub(crate) fn ranks_before<W>(
    a: &NegotiatedConfig<W>,
    b: &NegotiatedConfig<W>,
    policy: &NegotiationPolicy,
    native_pixels: u32,
) -> (r: bool)
    ensures
        r == (spec_compare(*a, *b, *policy, native_pixels) < 0),
{
    match compare_configs(a, b, policy, native_pixels) {
        Ordering::Less => true,
        Ordering::Equal => false,
        Ordering::Greater => false,
    }
}

} // verus!
