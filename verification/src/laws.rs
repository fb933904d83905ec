//! Properties that hold of the library as a whole, across calls and components.

use vstd::prelude::*;

use crate::builder::{
    spec_accepted_warnings, spec_accepts, spec_kept, spec_ranker_input, spec_rejected, spec_resolved_from, spec_same_key,
};
use crate::engine::rule::{ConstraintRule, Layered};
use crate::display::{ColorBitDepth, ColorBitDepths, ColorCapabilities, ColorFormat, HdmiForumFrl, VideoMode};
use crate::engine::checks::color::spec_bit_depth_violation;
use crate::engine::checks::dsc::{spec_dsc_violation, spec_sink_dsc, spec_source_dsc};
use crate::engine::checks::frl::{spec_effective_frl_tier, spec_frl_violation, spec_sink_frl_tier};
use crate::engine::checks::{spec_default_checks, BuiltinCheck, ColorEncodingCheck, PixelClockCheck, TmdsClockCheck};
use crate::engine::checks::timing::spec_tmds_limit;
use crate::display::video::spec_pixel_clock_khz;
use crate::engine::{spec_collect_violations, ConstraintEngine, DefaultConstraintEngine};
use crate::enumerator::{
    spec_candidate, spec_depth_block, spec_dsc_block, spec_dsc_options, spec_enumerated_depths,
    spec_enumerated_encodings, spec_enumerated_frl_rates, spec_format_enumerated, spec_frl_block, spec_mode_block,
    spec_product,
};
use crate::output::warning::{LimitSource, Violation, Warning};
use crate::probe::{spec_untagged, spec_viability};
use crate::types::cable::HdmiSpec;
use crate::ranker::{
    spec_default_ranked, spec_native_area, spec_preference_rules, spec_preferences_appended, spec_same_resolution,
    spec_step_rule,
};
use crate::types::{CableCapabilities, CandidateConfig, SinkCapabilities, SourceCapabilities};
use crate::output::config::NegotiatedConfig;
use crate::ranker::key::{
    spec_pixel_area,
    lemma_lex_antisymmetric, lemma_lex_range, lemma_lex_reflexive, lemma_lex_transitive, lemma_rank_key_len,
    spec_compare, spec_rank_key,
};
use crate::ranker::policy::NegotiationPolicy;
use crate::ranker::sort::{spec_insert_pos, spec_sorted_by_rank};
use crate::types::sink::{spec_dedup, spec_duplicates};

verus! {

broadcast use vstd::seq_lib::group_seq_properties, vstd::seq_lib::group_to_multiset_ensures;

/// A sequence without repeated entries is its own deduplication.
proof fn lemma_dedup_of_distinct(t: Seq<VideoMode>)
    requires
        t.no_duplicates(),
    ensures
        spec_dedup(t) == t,
    decreases t.len(),
{
    if t.len() > 0 {
        lemma_dedup_of_distinct(t.drop_last());
        assert(!t.drop_last().contains(t.last()));
        assert(t.drop_last().push(t.last()) =~= t);
    }
}

/// Mode-list normalisation: the deduplicated list holds each mode once, holds exactly the
/// modes of the input, together with the removed duplicates accounts for every input entry,
/// and is already normal (deduplicating it again changes nothing).
pub proof fn law_dedup_normal_form(s: Seq<VideoMode>)
    ensures
        spec_dedup(s).no_duplicates(),
        forall|m: VideoMode| s.contains(m) <==> #[trigger] spec_dedup(s).contains(m),
        spec_dedup(s).len() + spec_duplicates(s).len() == s.len(),
        spec_dedup(spec_dedup(s)) == spec_dedup(s),
    decreases s.len(),
{
    if s.len() > 0 {
        law_dedup_normal_form(s.drop_last());
        assert(s =~= s.drop_last().push(s.last()));
        assert forall|m: VideoMode| s.contains(m) <==> #[trigger] spec_dedup(s).contains(m) by {
            if s.contains(m) {
                let i = choose|i: int| 0 <= i < s.len() && s[i] == m;
                if i < s.len() - 1 {
                    assert(s.drop_last()[i] == m);
                }
            }
            if spec_dedup(s).contains(m) && m != s.last() {
                assert(spec_dedup(s.drop_last()).contains(m));
                let i = choose|i: int| 0 <= i < s.drop_last().len() && s.drop_last()[i] == m;
                assert(s[i] == m);
            }
        }
    }
    lemma_dedup_of_distinct(spec_dedup(s));
}

/// The default ranker's comparison is a total preorder: every configuration ties with
/// itself, swapping the operands negates the result, the result is `-1`, `0` or `1`, and
/// "ranks no later than" is transitive.
pub proof fn law_compare_total_preorder<W>(
    a: NegotiatedConfig<W>,
    b: NegotiatedConfig<W>,
    c: NegotiatedConfig<W>,
    policy: NegotiationPolicy,
    native: u32,
)
    ensures
        spec_compare(a, a, policy, native) == 0,
        spec_compare(a, b, policy, native) == -spec_compare(b, a, policy, native),
        -1 <= spec_compare(a, b, policy, native) <= 1,
        spec_compare(a, b, policy, native) <= 0 && spec_compare(b, c, policy, native) <= 0
            ==> spec_compare(a, c, policy, native) <= 0,
{
    let ka = spec_rank_key(a, policy, native);
    let kb = spec_rank_key(b, policy, native);
    let kc = spec_rank_key(c, policy, native);
    lemma_rank_key_len(a, policy, native);
    lemma_rank_key_len(b, policy, native);
    lemma_rank_key_len(c, policy, native);
    lemma_lex_reflexive(ka);
    lemma_lex_antisymmetric(ka, kb);
    lemma_lex_range(ka, kb);
    if spec_lex_le(ka, kb) && spec_lex_le(kb, kc) {
        lemma_lex_transitive(ka, kb, kc);
    }
}

/// Whether key `a` compares no later than key `b`.
spec fn spec_lex_le(a: Seq<int>, b: Seq<int>) -> bool {
    crate::ranker::key::spec_lex(a, b) <= 0
}

/// The insertion position of the ranking sort: `x` ranks no earlier than every entry before
/// it, and strictly before the entry at it, if any.
proof fn lemma_insert_pos_spec<W>(s: Seq<NegotiatedConfig<W>>, x: NegotiatedConfig<W>, policy: NegotiationPolicy, native: u32)
    ensures
        0 <= spec_insert_pos(s, x, policy, native) <= s.len(),
        forall|k: int| 0 <= k < spec_insert_pos(s, x, policy, native) ==> spec_compare(x, #[trigger] s[k], policy, native) >= 0,
        spec_insert_pos(s, x, policy, native) < s.len() ==> spec_compare(x, s[spec_insert_pos(s, x, policy, native)], policy, native) < 0,
    decreases s.len(),
{
    if s.len() > 0 && spec_compare(x, s[0], policy, native) >= 0 {
        lemma_insert_pos_spec(s.drop_first(), x, policy, native);
        let p = spec_insert_pos(s, x, policy, native);
        assert forall|k: int| 0 <= k < p implies spec_compare(x, #[trigger] s[k], policy, native) >= 0 by {
            if k > 0 {
                assert(s[k] == s.drop_first()[k - 1]);
            }
        }
    }
}

/// Ranking sorts: the sorted list is a permutation of its input (the same multiset of
/// configurations), and each configuration ranks no later than every one after it.
pub proof fn law_sorted_by_rank<W>(s: Seq<NegotiatedConfig<W>>, policy: NegotiationPolicy, native: u32)
    ensures
        spec_sorted_by_rank(s, policy, native).len() == s.len(),
        spec_sorted_by_rank(s, policy, native).to_multiset() == s.to_multiset(),
        forall|i: int, j: int| 0 <= i < j < s.len() ==> spec_compare(
            #[trigger] spec_sorted_by_rank(s, policy, native)[i],
            #[trigger] spec_sorted_by_rank(s, policy, native)[j],
            policy,
            native,
        ) <= 0,
    decreases s.len(),
{
    if s.len() > 0 {
        let t = spec_sorted_by_rank(s.drop_last(), policy, native);
        let x = s.last();
        law_sorted_by_rank(s.drop_last(), policy, native);
        lemma_insert_pos_spec(t, x, policy, native);
        let p = spec_insert_pos(t, x, policy, native);
        let r = t.insert(p, x);
        assert(r == spec_sorted_by_rank(s, policy, native));
        assert(s =~= s.drop_last().push(x));
        assert(r.to_multiset() == s.to_multiset());
        assert forall|i: int, j: int| 0 <= i < j < s.len() implies spec_compare(#[trigger] r[i], #[trigger] r[j], policy, native) <= 0 by {
            if i < p && j < p {
                assert(r[i] == t[i] && r[j] == t[j]);
            } else if i < p && j == p {
                law_compare_total_preorder(x, t[i], x, policy, native);
            } else if i < p {
                assert(r[j] == t[j - 1]);
                assert(r[i] == t[i]);
            } else if i == p {
                assert(r[j] == t[j - 1]);
                if j - 1 > p {
                    assert(spec_compare(t[p], t[j - 1], policy, native) <= 0);
                }
                law_compare_total_preorder(x, t[p], t[j - 1], policy, native);
                law_compare_total_preorder(t[p], t[p], t[p], policy, native);
            } else {
                assert(r[i] == t[i - 1] && r[j] == t[j - 1]);
            }
        }
    }
}

/// The kept candidates are distinct, each an accepted candidate of the input, and every
/// accepted candidate of the input is kept.
proof fn lemma_kept<'a, E: ConstraintEngine>(
    engine: &E,
    cands: Seq<CandidateConfig<'a>>,
    sink: &SinkCapabilities,
    source: &SourceCapabilities,
    cable: &CableCapabilities,
)
    ensures
        spec_kept(engine, cands, sink, source, cable).no_duplicates(),
        forall|k: int| 0 <= k < spec_kept(engine, cands, sink, source, cable).len() ==> {
            let c = #[trigger] spec_kept(engine, cands, sink, source, cable)[k];
            cands.contains(c) && spec_accepts(engine, sink, source, cable, c)
        },
        forall|c: CandidateConfig<'a>| cands.contains(c) && spec_accepts(engine, sink, source, cable, c)
            ==> #[trigger] spec_kept(engine, cands, sink, source, cable).contains(c),
    decreases cands.len(),
{
    if cands.len() > 0 {
        let prev = cands.drop_last();
        lemma_kept(engine, prev, sink, source, cable);
        assert(cands =~= prev.push(cands.last()));
        let kept = spec_kept(engine, cands, sink, source, cable);
        assert forall|k: int| 0 <= k < kept.len() implies {
            let c = #[trigger] kept[k];
            cands.contains(c) && spec_accepts(engine, sink, source, cable, c)
        } by {
            let pk = spec_kept(engine, prev, sink, source, cable);
            if k < pk.len() {
                assert(kept[k] == pk[k]);
                let c = pk[k];
                let j = choose|j: int| 0 <= j < prev.len() && prev[j] == c;
                assert(cands[j] == c);
            } else {
                assert(cands[cands.len() - 1] == cands.last());
            }
        }
        assert forall|c: CandidateConfig<'a>| cands.contains(c) && spec_accepts(engine, sink, source, cable, c)
            implies #[trigger] kept.contains(c) by {
            let j = choose|j: int| 0 <= j < cands.len() && cands[j] == c;
            if j < cands.len() - 1 {
                assert(prev[j] == c);
                assert(spec_kept(engine, prev, sink, source, cable).contains(c));
            }
        }
    }
}

/// Whether two configurations agree on the five key fields: mode, encoding, depth, FRL
/// rate and DSC.
pub open spec fn spec_same_config_key<W>(a: NegotiatedConfig<W>, b: NegotiatedConfig<W>) -> bool {
    &&& a.mode == b.mode
    &&& a.color_encoding == b.color_encoding
    &&& a.bit_depth == b.bit_depth
    &&& a.frl_rate == b.frl_rate
    &&& a.dsc_required == b.dsc_required
}

/// Two sequences with the same multiset hold the same entries.
proof fn lemma_same_entries<A>(x: Seq<A>, y: Seq<A>)
    requires
        x.to_multiset() == y.to_multiset(),
    ensures
        forall|i: int| 0 <= i < x.len() ==> y.contains(#[trigger] x[i]),
        forall|a: int| 0 <= a < y.len() ==> x.contains(#[trigger] y[a]),
{
    assert forall|i: int| 0 <= i < x.len() implies y.contains(#[trigger] x[i]) by {
        assert(x.contains(x[i]));
        assert(x.to_multiset().count(x[i]) > 0);
    }
    assert forall|a: int| 0 <= a < y.len() implies x.contains(#[trigger] y[a]) by {
        assert(y.contains(y[a]));
        assert(y.to_multiset().count(y[a]) > 0);
    }
}

/// The ranker input: its entries are distinct, and entries with the same key are the same
/// entry.
proof fn lemma_ranker_input_distinct<'a, E: ConstraintEngine>(
    engine: &E,
    cands: Seq<CandidateConfig<'a>>,
    sink: &SinkCapabilities,
    source: &SourceCapabilities,
    cable: &CableCapabilities,
    pre: Seq<NegotiatedConfig<E::Warning>>,
)
    requires
        spec_ranker_input(engine, cands, sink, source, cable, pre),
    ensures
        pre.no_duplicates(),
        forall|a: int, b: int| 0 <= a < pre.len() && 0 <= b < pre.len() && a != b
            ==> !spec_same_config_key(#[trigger] pre[a], #[trigger] pre[b]),
{
    let kept = spec_kept(engine, cands, sink, source, cable);
    lemma_kept(engine, cands, sink, source, cable);
    assert forall|a: int, b: int| 0 <= a < pre.len() && 0 <= b < pre.len() && a != b
        implies !spec_same_config_key(#[trigger] pre[a], #[trigger] pre[b]) by {
        assert(spec_resolved_from(pre[a], kept[a], spec_accepted_warnings(engine, sink, source, cable, kept[a])));
        assert(spec_resolved_from(pre[b], kept[b], spec_accepted_warnings(engine, sink, source, cable, kept[b])));
        if spec_same_config_key(pre[a], pre[b]) {
            assert(kept[a] == kept[b]);
        }
    }
}

/// Soundness part of the pipeline law.
proof fn lemma_ranked_sound<'a, E: ConstraintEngine<Warning = Warning>>(
    engine: &E,
    cands: Seq<CandidateConfig<'a>>,
    sink: &SinkCapabilities,
    source: &SourceCapabilities,
    cable: &CableCapabilities,
    policy: NegotiationPolicy,
    pre: Seq<NegotiatedConfig<Warning>>,
    out: Seq<NegotiatedConfig<Warning>>,
)
    requires
        spec_ranker_input(engine, cands, sink, source, cable, pre),
        spec_default_ranked(pre, policy, out),
    ensures
        forall|i: int| 0 <= i < out.len() ==> exists|k: int| {
            &&& 0 <= k < cands.len()
            &&& spec_accepts(engine, sink, source, cable, cands[k])
            &&& spec_same_key(#[trigger] out[i], cands[k])
            &&& !out[i].vrr_applicable
            &&& out[i].warnings@ == spec_accepted_warnings(engine, sink, source, cable, cands[k])
        },
{
    let native = spec_native_area(pre);
    let sorted = spec_sorted_by_rank(pre, policy, native);
    let kept = spec_kept(engine, cands, sink, source, cable);
    law_sorted_by_rank(pre, policy, native);
    lemma_kept(engine, cands, sink, source, cable);
    lemma_same_entries(sorted, pre);
    assert forall|i: int| 0 <= i < out.len() implies exists|k: int| {
        &&& 0 <= k < cands.len()
        &&& spec_accepts(engine, sink, source, cable, cands[k])
        &&& spec_same_key(#[trigger] out[i], cands[k])
        &&& !out[i].vrr_applicable
        &&& out[i].warnings@ == spec_accepted_warnings(engine, sink, source, cable, cands[k])
    } by {
        assert(spec_same_resolution(out[i], sorted[i]));
        assert(pre.contains(sorted[i]));
        let a = choose|a: int| 0 <= a < pre.len() && pre[a] == sorted[i];
        assert(spec_resolved_from(pre[a], kept[a], spec_accepted_warnings(engine, sink, source, cable, kept[a])));
        assert(cands.contains(kept[a]));
        let k = choose|k: int| 0 <= k < cands.len() && cands[k] == kept[a];
        assert(spec_same_key(out[i], cands[k]));
    }
}

/// Distinct-keys part of the pipeline law.
proof fn lemma_ranked_distinct<'a, E: ConstraintEngine<Warning = Warning>>(
    engine: &E,
    cands: Seq<CandidateConfig<'a>>,
    sink: &SinkCapabilities,
    source: &SourceCapabilities,
    cable: &CableCapabilities,
    policy: NegotiationPolicy,
    pre: Seq<NegotiatedConfig<Warning>>,
    out: Seq<NegotiatedConfig<Warning>>,
)
    requires
        spec_ranker_input(engine, cands, sink, source, cable, pre),
        spec_default_ranked(pre, policy, out),
    ensures
        forall|i: int, j: int| 0 <= i < out.len() && 0 <= j < out.len() && i != j
            ==> !spec_same_config_key(#[trigger] out[i], #[trigger] out[j]),
{
    let native = spec_native_area(pre);
    let sorted = spec_sorted_by_rank(pre, policy, native);
    law_sorted_by_rank(pre, policy, native);
    lemma_same_entries(sorted, pre);
    lemma_ranker_input_distinct(engine, cands, sink, source, cable, pre);
    pre.lemma_multiset_has_no_duplicates();
    sorted.lemma_multiset_has_no_duplicates_conv();
    assert forall|i: int, j: int| 0 <= i < out.len() && 0 <= j < out.len() && i != j
        implies !spec_same_config_key(#[trigger] out[i], #[trigger] out[j]) by {
        assert(spec_same_resolution(out[i], sorted[i]));
        assert(spec_same_resolution(out[j], sorted[j]));
        assert(pre.contains(sorted[i]));
        assert(pre.contains(sorted[j]));
        let a = choose|a: int| 0 <= a < pre.len() && pre[a] == sorted[i];
        let b = choose|b: int| 0 <= b < pre.len() && pre[b] == sorted[j];
        assert(sorted[i] != sorted[j]);
        assert(!spec_same_config_key(pre[a], pre[b]));
    }
}

/// Completeness part of the pipeline law.
proof fn lemma_ranked_complete<'a, E: ConstraintEngine<Warning = Warning>>(
    engine: &E,
    cands: Seq<CandidateConfig<'a>>,
    sink: &SinkCapabilities,
    source: &SourceCapabilities,
    cable: &CableCapabilities,
    policy: NegotiationPolicy,
    pre: Seq<NegotiatedConfig<Warning>>,
    out: Seq<NegotiatedConfig<Warning>>,
)
    requires
        spec_ranker_input(engine, cands, sink, source, cable, pre),
        spec_default_ranked(pre, policy, out),
    ensures
        forall|k: int| 0 <= k < cands.len() && spec_accepts(engine, sink, source, cable, #[trigger] cands[k])
            ==> exists|i: int| 0 <= i < out.len() && spec_same_key(#[trigger] out[i], cands[k]),
{
    let native = spec_native_area(pre);
    let sorted = spec_sorted_by_rank(pre, policy, native);
    let kept = spec_kept(engine, cands, sink, source, cable);
    law_sorted_by_rank(pre, policy, native);
    lemma_kept(engine, cands, sink, source, cable);
    lemma_same_entries(sorted, pre);
    assert forall|k: int| 0 <= k < cands.len() && spec_accepts(engine, sink, source, cable, #[trigger] cands[k])
        implies exists|i: int| 0 <= i < out.len() && spec_same_key(#[trigger] out[i], cands[k]) by {
        assert(cands.contains(cands[k]));
        assert(kept.contains(cands[k]));
        let a = choose|a: int| 0 <= a < kept.len() && kept[a] == cands[k];
        assert(spec_resolved_from(pre[a], kept[a], spec_accepted_warnings(engine, sink, source, cable, kept[a])));
        assert(sorted.contains(pre[a]));
        let i = choose|i: int| 0 <= i < sorted.len() && sorted[i] == pre[a];
        assert(spec_same_resolution(out[i], sorted[i]));
        assert(spec_same_key(out[i], cands[k]));
    }
}

/// Order part of the pipeline law.
proof fn lemma_ranked_ordered(policy: NegotiationPolicy, pre: Seq<NegotiatedConfig<Warning>>, out: Seq<NegotiatedConfig<Warning>>)
    requires
        spec_default_ranked(pre, policy, out),
    ensures
        forall|i: int, j: int| 0 <= i < j < out.len()
            ==> spec_compare(#[trigger] out[i], #[trigger] out[j], policy, spec_native_area(pre)) <= 0,
{
    let native = spec_native_area(pre);
    let sorted = spec_sorted_by_rank(pre, policy, native);
    law_sorted_by_rank(pre, policy, native);
    assert forall|i: int, j: int| 0 <= i < j < out.len()
        implies spec_compare(#[trigger] out[i], #[trigger] out[j], policy, native) <= 0 by {
        assert(spec_same_resolution(out[i], sorted[i]));
        assert(spec_same_resolution(out[j], sorted[j]));
        assert(spec_rank_key(out[i], policy, native) =~= spec_rank_key(sorted[i], policy, native));
        assert(spec_rank_key(out[j], policy, native) =~= spec_rank_key(sorted[j], policy, native));
        assert(spec_compare(sorted[i], sorted[j], policy, native) <= 0);
    }
}

/// The negotiation pipeline with the default ranker. Of the configurations it returns:
/// each is resolved from a candidate that the engine accepts, carrying the engine's warnings
/// for it and VRR not applicable; no two agree on mode, encoding, depth, FRL rate and DSC;
/// every candidate that the engine accepts is represented; and they come in policy order
/// (each ranks no later than every one after it, native area being the largest among the
/// accepted configurations).
pub proof fn law_negotiate_default_ranking<'a, E: ConstraintEngine<Warning = Warning>>(
    engine: &E,
    cands: Seq<CandidateConfig<'a>>,
    sink: &SinkCapabilities,
    source: &SourceCapabilities,
    cable: &CableCapabilities,
    policy: NegotiationPolicy,
    out: Seq<NegotiatedConfig<Warning>>,
)
    requires
        exists|pre: Seq<NegotiatedConfig<Warning>>|
            spec_ranker_input(engine, cands, sink, source, cable, pre) && #[trigger] spec_default_ranked(pre, policy, out),
    ensures
        forall|i: int| 0 <= i < out.len() ==> exists|k: int| {
            &&& 0 <= k < cands.len()
            &&& spec_accepts(engine, sink, source, cable, cands[k])
            &&& spec_same_key(#[trigger] out[i], cands[k])
            &&& !out[i].vrr_applicable
            &&& out[i].warnings@ == spec_accepted_warnings(engine, sink, source, cable, cands[k])
        },
        forall|i: int, j: int| 0 <= i < out.len() && 0 <= j < out.len() && i != j
            ==> !spec_same_config_key(#[trigger] out[i], #[trigger] out[j]),
        forall|k: int| 0 <= k < cands.len() && spec_accepts(engine, sink, source, cable, #[trigger] cands[k])
            ==> exists|i: int| 0 <= i < out.len() && spec_same_key(#[trigger] out[i], cands[k]),
        exists|pre: Seq<NegotiatedConfig<Warning>>| {
            &&& spec_ranker_input(engine, cands, sink, source, cable, pre)
            &&& forall|i: int, j: int| 0 <= i < j < out.len()
                ==> spec_compare(#[trigger] out[i], #[trigger] out[j], policy, spec_native_area(pre)) <= 0
        },
{
    let pre = choose|pre: Seq<NegotiatedConfig<Warning>>|
        spec_ranker_input(engine, cands, sink, source, cable, pre) && #[trigger] spec_default_ranked(pre, policy, out);
    lemma_ranked_sound(engine, cands, sink, source, cable, policy, pre, out);
    lemma_ranked_distinct(engine, cands, sink, source, cable, policy, pre, out);
    lemma_ranked_complete(engine, cands, sink, source, cable, policy, pre, out);
    lemma_ranked_ordered(policy, pre, out);
}

/// The binary probe and the default engine agree: a candidate is viable exactly when the
/// engine running the default rule list accepts it, and the probe reports the engine's
/// violations, in order, without their rule tags.
pub proof fn law_probe_matches_default_engine(
    engine: DefaultConstraintEngine,
    sink: &SinkCapabilities,
    source: &SourceCapabilities,
    cable: &CableCapabilities,
    config: &CandidateConfig,
)
    requires
        engine.spec_checks() == spec_default_checks(),
    ensures
        spec_viability(sink, source, cable, config) is Ok <==> engine.spec_check(sink, source, cable, config) is Ok,
        engine.spec_check(sink, source, cable, config) matches Err(tagged)
            ==> spec_viability(sink, source, cable, config) == Err::<Seq<Warning>, Seq<Violation>>(spec_untagged(tagged)),
{
}

/// Every violation collected from a rule list is the violation of one of its rules.
proof fn lemma_collected_from_rules(
    checks: Seq<BuiltinCheck>,
    sink: &SinkCapabilities,
    source: &SourceCapabilities,
    cable: &CableCapabilities,
    config: &CandidateConfig,
)
    ensures
        forall|i: int| 0 <= i < spec_collect_violations(checks, sink, source, cable, config).len() ==> exists|j: int|
            0 <= j < checks.len() && checks[j].spec_check(sink, source, cable, config)
                == Some(#[trigger] spec_collect_violations(checks, sink, source, cable, config)[i].violation),
        spec_collect_violations(checks, sink, source, cable, config).len() == 0
            ==> forall|j: int| 0 <= j < checks.len() ==> (#[trigger] checks[j]).spec_check(sink, source, cable, config) is None,
    decreases checks.len(),
{
    if checks.len() > 0 {
        let prev = checks.drop_last();
        lemma_collected_from_rules(prev, sink, source, cable, config);
        let all = spec_collect_violations(checks, sink, source, cable, config);
        let earlier = spec_collect_violations(prev, sink, source, cable, config);
        assert forall|i: int| 0 <= i < all.len() implies exists|j: int|
            0 <= j < checks.len() && checks[j].spec_check(sink, source, cable, config) == Some(#[trigger] all[i].violation) by {
            if i < earlier.len() {
                assert(all[i] == earlier[i]);
                let j = choose|j: int| 0 <= j < prev.len() && prev[j].spec_check(sink, source, cable, config) == Some(earlier[i].violation);
                assert(checks[j] == prev[j]);
            } else {
                assert(checks[checks.len() - 1] == checks.last());
            }
        }
        if all.len() == 0 {
            assert forall|j: int| 0 <= j < checks.len() implies (#[trigger] checks[j]).spec_check(sink, source, cable, config) is None by {
                if j < prev.len() {
                    assert(checks[j] == prev[j]);
                }
            }
        }
    }
}

/// The cable that imposes no constraint.
pub open spec fn spec_unconstrained_cable() -> CableCapabilities {
    CableCapabilities { hdmi_spec: HdmiSpec::Hdmi21, max_frl_rate: HdmiForumFrl::Rate12Gbps4Lanes, max_tmds_clock: u32::MAX }
}

/// Whether a violation names the cable as the binding party.
pub open spec fn spec_blames_cable(v: Violation) -> bool {
    ||| v matches Violation::FrlRateExceeded { limit_source: LimitSource::Cable, .. }
    ||| v matches Violation::TmdsClockExceeded { limit_source: LimitSource::Cable, .. }
    ||| v matches Violation::PixelClockExceeded { limit_source: LimitSource::Cable, .. }
}

/// The unconstrained cable bypasses every cable-related violation: whatever the sink,
/// source and candidate, no violation the default rules report blames the cable.
pub proof fn law_unconstrained_cable_never_binding(
    sink: &SinkCapabilities,
    source: &SourceCapabilities,
    config: &CandidateConfig,
)
    ensures
        spec_viability(sink, source, &spec_unconstrained_cable(), config) matches Err(violations)
            ==> forall|i: int| 0 <= i < violations.len() ==> !spec_blames_cable(#[trigger] violations[i]),
{
    let cable = spec_unconstrained_cable();
    let checks = spec_default_checks();
    lemma_collected_from_rules(checks, sink, source, &cable, config);
    let tagged = spec_collect_violations(checks, sink, source, &cable, config);
    assert forall|i: int| 0 <= i < tagged.len() implies !spec_blames_cable(#[trigger] tagged[i].violation) by {
        let j = choose|j: int| 0 <= j < checks.len() && checks[j].spec_check(sink, source, &cable, config) == Some(tagged[i].violation);
        assert(0 <= j < 7);
    }
    if tagged.len() > 0 {
        let violations = spec_untagged(tagged);
        assert forall|i: int| 0 <= i < violations.len() implies !spec_blames_cable(#[trigger] violations[i]) by {
            assert(violations[i] == tagged[i].violation);
        }
    }
}

/// `Seq::new(n, f)` flattened holds exactly what some `f(i)`, `i < n`, holds.
proof fn lemma_flatten_new_contains<A>(n: nat, f: spec_fn(int) -> Seq<A>, x: A)
    ensures
        Seq::new(n, f).flatten().contains(x) <==> exists|i: int| 0 <= i < n && #[trigger] f(i).contains(x),
    decreases n,
{
    if n == 0 {
        assert(Seq::new(0, f) =~= Seq::<Seq<A>>::empty());
    } else {
        let m = (n - 1) as nat;
        lemma_flatten_new_contains(m, f, x);
        crate::enumerator::lemma_flatten_new_step(m, f);
        vstd::seq_lib::lemma_seq_concat_contains_all_elements(Seq::new(m, f).flatten(), f(m as int), x);
        if exists|i: int| 0 <= i < n && #[trigger] f(i).contains(x) {
            let i = choose|i: int| 0 <= i < n && #[trigger] f(i).contains(x);
            if i < m {
                assert(exists|i: int| 0 <= i < m && #[trigger] f(i).contains(x));
            }
        }
    }
}

/// Whether a bit depth is one the enumerator considers: 8, 10, 12 or 16 bpc.
pub open spec fn spec_enumerable_depth(d: ColorBitDepth) -> bool {
    d == ColorBitDepth::Depth8 || d == ColorBitDepth::Depth10 || d == ColorBitDepth::Depth12 || d == ColorBitDepth::Depth16
}

/// The candidates of one DSC block.
proof fn lemma_dsc_block_contains<'a>(
    mode: &'a VideoMode,
    e: ColorFormat,
    d: ColorBitDepth,
    f: HdmiForumFrl,
    dscs: Seq<bool>,
    c: CandidateConfig<'a>,
)
    ensures
        spec_dsc_block(mode, e, d, f, dscs).contains(c) <==> {
            &&& *c.mode == *mode
            &&& c.color_encoding == e
            &&& c.bit_depth == d
            &&& c.frl_rate == f
            &&& dscs.contains(c.dsc_enabled)
        },
{
    let block = spec_dsc_block(mode, e, d, f, dscs);
    if block.contains(c) {
        let l = choose|l: int| 0 <= l < block.len() && block[l] == c;
        assert(c == spec_candidate(mode, e, d, f, dscs[l]));
    }
    if *c.mode == *mode && c.color_encoding == e && c.bit_depth == d && c.frl_rate == f && dscs.contains(c.dsc_enabled) {
        let l = choose|l: int| 0 <= l < dscs.len() && dscs[l] == c.dsc_enabled;
        assert(block[l] == c);
    }
}

/// The candidates of one FRL block.
proof fn lemma_frl_block_contains<'a>(
    mode: &'a VideoMode,
    e: ColorFormat,
    d: ColorBitDepth,
    frls: Seq<HdmiForumFrl>,
    dscs: Seq<bool>,
    c: CandidateConfig<'a>,
)
    ensures
        spec_frl_block(mode, e, d, frls, dscs).contains(c) <==> {
            &&& *c.mode == *mode
            &&& c.color_encoding == e
            &&& c.bit_depth == d
            &&& frls.contains(c.frl_rate)
            &&& dscs.contains(c.dsc_enabled)
        },
{
    let ff = |k: int| spec_dsc_block(mode, e, d, frls[k], dscs);
    assert(spec_frl_block(mode, e, d, frls, dscs) == Seq::new(frls.len(), ff).flatten());
    lemma_flatten_new_contains(frls.len(), ff, c);
    assert forall|k: int| 0 <= k < frls.len() implies #[trigger] ff(k).contains(c) <==> {
        &&& *c.mode == *mode
        &&& c.color_encoding == e
        &&& c.bit_depth == d
        &&& c.frl_rate == frls[k]
        &&& dscs.contains(c.dsc_enabled)
    } by {
        lemma_dsc_block_contains(mode, e, d, frls[k], dscs, c);
    }
    if frls.contains(c.frl_rate) {
        let k = choose|k: int| 0 <= k < frls.len() && frls[k] == c.frl_rate;
        assert(ff(k).contains(c) <==> (*c.mode == *mode && c.color_encoding == e && c.bit_depth == d && dscs.contains(c.dsc_enabled)));
    }
}

/// The candidates of one depth block.
proof fn lemma_depth_block_contains<'a>(
    mode: &'a VideoMode,
    e: ColorFormat,
    depths: Seq<ColorBitDepth>,
    frls: Seq<HdmiForumFrl>,
    dscs: Seq<bool>,
    c: CandidateConfig<'a>,
)
    ensures
        spec_depth_block(mode, e, depths, frls, dscs).contains(c) <==> {
            &&& *c.mode == *mode
            &&& c.color_encoding == e
            &&& depths.contains(c.bit_depth)
            &&& frls.contains(c.frl_rate)
            &&& dscs.contains(c.dsc_enabled)
        },
{
    let fd = |j: int| spec_frl_block(mode, e, depths[j], frls, dscs);
    assert(spec_depth_block(mode, e, depths, frls, dscs) == Seq::new(depths.len(), fd).flatten());
    lemma_flatten_new_contains(depths.len(), fd, c);
    assert forall|j: int| 0 <= j < depths.len() implies #[trigger] fd(j).contains(c) <==> {
        &&& *c.mode == *mode
        &&& c.color_encoding == e
        &&& c.bit_depth == depths[j]
        &&& frls.contains(c.frl_rate)
        &&& dscs.contains(c.dsc_enabled)
    } by {
        lemma_frl_block_contains(mode, e, depths[j], frls, dscs, c);
    }
    if depths.contains(c.bit_depth) {
        let j = choose|j: int| 0 <= j < depths.len() && depths[j] == c.bit_depth;
        assert(fd(j).contains(c) <==> (*c.mode == *mode && c.color_encoding == e && frls.contains(c.frl_rate) && dscs.contains(c.dsc_enabled)));
    }
}

/// The candidates of one mode block.
proof fn lemma_mode_block_contains<'a>(
    mode: &'a VideoMode,
    caps: ColorCapabilities,
    frls: Seq<HdmiForumFrl>,
    dscs: Seq<bool>,
    c: CandidateConfig<'a>,
)
    ensures
        spec_mode_block(mode, caps, frls, dscs).contains(c) <==> {
            &&& *c.mode == *mode
            &&& spec_enumerated_encodings(caps).contains(c.color_encoding)
            &&& spec_enumerated_depths(caps.spec_for_format(c.color_encoding)).contains(c.bit_depth)
            &&& frls.contains(c.frl_rate)
            &&& dscs.contains(c.dsc_enabled)
        },
{
    let encodings = spec_enumerated_encodings(caps);
    let fe = |i: int| spec_depth_block(mode, encodings[i], spec_enumerated_depths(caps.spec_for_format(encodings[i])), frls, dscs);
    assert(spec_mode_block(mode, caps, frls, dscs) == Seq::new(encodings.len(), fe).flatten());
    lemma_flatten_new_contains(encodings.len(), fe, c);
    assert forall|i: int| 0 <= i < encodings.len() implies #[trigger] fe(i).contains(c) <==> {
        &&& *c.mode == *mode
        &&& c.color_encoding == encodings[i]
        &&& spec_enumerated_depths(caps.spec_for_format(encodings[i])).contains(c.bit_depth)
        &&& frls.contains(c.frl_rate)
        &&& dscs.contains(c.dsc_enabled)
    } by {
        lemma_depth_block_contains(mode, encodings[i], spec_enumerated_depths(caps.spec_for_format(encodings[i])), frls, dscs, c);
    }
    if encodings.contains(c.color_encoding) {
        let i = choose|i: int| 0 <= i < encodings.len() && encodings[i] == c.color_encoding;
        assert(fe(i).contains(c) <==> {
            &&& *c.mode == *mode
            &&& spec_enumerated_depths(caps.spec_for_format(c.color_encoding)).contains(c.bit_depth)
            &&& frls.contains(c.frl_rate)
            &&& dscs.contains(c.dsc_enabled)
        });
    }
}

/// Enumeration is the Cartesian product of its dimensions: a candidate is enumerated exactly
/// when its mode is one of the modes, its encoding an enumerated encoding, its depth an
/// enumerated depth of that encoding, its FRL rate an enumerated rate and its DSC state an
/// enumerated DSC state.
pub proof fn law_enumeration_membership<'a>(
    modes: Seq<VideoMode>,
    sink: &SinkCapabilities,
    source: &SourceCapabilities,
    cable: &CableCapabilities,
    c: CandidateConfig<'a>,
)
    ensures
        spec_product(modes, sink, source, cable).contains(c) <==> {
            &&& modes.contains(*c.mode)
            &&& spec_enumerated_encodings(sink.color_capabilities).contains(c.color_encoding)
            &&& spec_enumerated_depths(sink.color_capabilities.spec_for_format(c.color_encoding)).contains(c.bit_depth)
            &&& spec_enumerated_frl_rates(sink, source, cable).contains(c.frl_rate)
            &&& spec_dsc_options(sink, source).contains(c.dsc_enabled)
        },
{
    let frls = spec_enumerated_frl_rates(sink, source, cable);
    let dscs = spec_dsc_options(sink, source);
    let caps = sink.color_capabilities;
    let fm = |m: int| spec_mode_block(&modes[m], caps, frls, dscs);
    lemma_flatten_new_contains(modes.len(), fm, c);
    assert forall|m: int| 0 <= m < modes.len() implies #[trigger] fm(m).contains(c) <==> {
        &&& *c.mode == modes[m]
        &&& spec_enumerated_encodings(caps).contains(c.color_encoding)
        &&& spec_enumerated_depths(caps.spec_for_format(c.color_encoding)).contains(c.bit_depth)
        &&& frls.contains(c.frl_rate)
        &&& dscs.contains(c.dsc_enabled)
    } by {
        lemma_mode_block_contains(&modes[m], caps, frls, dscs, c);
    }
    assert(spec_product(modes, sink, source, cable) == Seq::new(modes.len(), fm).flatten());
    if modes.contains(*c.mode) {
        let m = choose|m: int| 0 <= m < modes.len() && modes[m] == *c.mode;
        assert(fm(m).contains(c) <==> {
            &&& spec_enumerated_encodings(caps).contains(c.color_encoding)
            &&& spec_enumerated_depths(caps.spec_for_format(c.color_encoding)).contains(c.bit_depth)
            &&& frls.contains(c.frl_rate)
            &&& dscs.contains(c.dsc_enabled)
        });
    }
}

/// The enumerated depths of a depth set are its 8, 10, 12 and 16 bpc entries.
proof fn lemma_enumerated_depths_contains(s: ColorBitDepths, d: ColorBitDepth)
    ensures
        spec_enumerated_depths(s).contains(d) <==> spec_enumerable_depth(d) && s.contains(d),
{
    let s0 = Seq::<ColorBitDepth>::empty();
    assert(!s0.contains(d));
}

/// A color format is enumerated exactly when the sink declares it at 8, 10, 12 or 16 bpc.
proof fn lemma_enumerated_encodings_contains(caps: ColorCapabilities, e: ColorFormat)
    ensures
        spec_enumerated_encodings(caps).contains(e) <==> exists|d: ColorBitDepth|
            spec_enumerable_depth(d) && #[trigger] caps.spec_for_format(e).contains(d),
{
    let s0 = Seq::<ColorFormat>::empty();
    assert(!s0.contains(e));
    let depths = spec_enumerated_depths(caps.spec_for_format(e));
    if spec_format_enumerated(caps, e) {
        assert(depths.contains(depths[0]));
        lemma_enumerated_depths_contains(caps.spec_for_format(e), depths[0]);
    }
    if exists|d: ColorBitDepth| spec_enumerable_depth(d) && #[trigger] caps.spec_for_format(e).contains(d) {
        let d = choose|d: ColorBitDepth| spec_enumerable_depth(d) && #[trigger] caps.spec_for_format(e).contains(d);
        lemma_enumerated_depths_contains(caps.spec_for_format(e), d);
    }
}

/// The enumerated FRL rates are exactly those at or below the effective ceiling.
proof fn lemma_enumerated_frl_contains(
    sink: &SinkCapabilities,
    source: &SourceCapabilities,
    cable: &CableCapabilities,
    f: HdmiForumFrl,
)
    ensures
        spec_enumerated_frl_rates(sink, source, cable).contains(f) <==> f.spec_tier() <= spec_effective_frl_tier(sink, source, cable),
{
    let ceiling = spec_effective_frl_tier(sink, source, cable);
    let frls = spec_enumerated_frl_rates(sink, source, cable);
    assert(ceiling <= 6);
    if frls.contains(f) {
        let i = choose|i: int| 0 <= i < frls.len() && frls[i] == f;
        assert(f == HdmiForumFrl::spec_from_tier((ceiling - i) as u8));
    }
    if f.spec_tier() <= ceiling {
        let i = ceiling - f.spec_tier();
        assert(frls[i] == f);
    }
}

/// Which candidates the enumerator produces: exactly those whose mode is one of the modes,
/// whose bit depth is 8, 10, 12 or 16 bpc and declared by the sink for the candidate's color
/// encoding, whose FRL rate is at or below the least of the sink, source and cable ceilings
/// (TMDS always), and whose DSC is off, or on with both source and sink declaring DSC 1.2a.
pub proof fn law_enumeration_dimensions<'a>(
    modes: Seq<VideoMode>,
    sink: &SinkCapabilities,
    source: &SourceCapabilities,
    cable: &CableCapabilities,
    c: CandidateConfig<'a>,
)
    ensures
        spec_product(modes, sink, source, cable).contains(c) <==> {
            &&& modes.contains(*c.mode)
            &&& spec_enumerable_depth(c.bit_depth)
            &&& sink.color_capabilities.spec_for_format(c.color_encoding).contains(c.bit_depth)
            &&& c.frl_rate.spec_tier() <= spec_effective_frl_tier(sink, source, cable)
            &&& (c.dsc_enabled ==> spec_source_dsc(source) && spec_sink_dsc(sink))
        },
{
    let caps = sink.color_capabilities;
    law_enumeration_membership(modes, sink, source, cable, c);
    lemma_enumerated_depths_contains(caps.spec_for_format(c.color_encoding), c.bit_depth);
    lemma_enumerated_encodings_contains(caps, c.color_encoding);
    lemma_enumerated_frl_contains(sink, source, cable, c.frl_rate);
    if spec_enumerable_depth(c.bit_depth) && caps.spec_for_format(c.color_encoding).contains(c.bit_depth) {
        assert(spec_enumerated_encodings(caps).contains(c.color_encoding));
    }
}

/// Pre-filtering never drops a viable candidate: a candidate on one of the modes, at 8, 10,
/// 12 or 16 bpc, that passes every default rule is among the enumerated candidates.
pub proof fn law_enumeration_keeps_viable<'a>(
    modes: Seq<VideoMode>,
    sink: &SinkCapabilities,
    source: &SourceCapabilities,
    cable: &CableCapabilities,
    c: CandidateConfig<'a>,
)
    requires
        modes.contains(*c.mode),
        spec_enumerable_depth(c.bit_depth),
        spec_viability(sink, source, cable, &c) is Ok,
    ensures
        spec_product(modes, sink, source, cable).contains(c),
{
    let checks = spec_default_checks();
    lemma_collected_from_rules(checks, sink, source, cable, &c);
    assert(checks[0] == BuiltinCheck::frl_ceiling);
    assert(checks[5] == BuiltinCheck::bit_depth);
    assert(checks[6] == BuiltinCheck::dsc);
    assert(checks[0].spec_check(sink, source, cable, &c) is None);
    assert(checks[5].spec_check(sink, source, cable, &c) is None);
    assert(checks[6].spec_check(sink, source, cable, &c) is None);
    assert(spec_frl_violation(sink, source, cable, &c) is None);
    assert(spec_bit_depth_violation(sink, &c) is None);
    assert(spec_dsc_violation(sink, source, &c) is None);
    law_enumeration_dimensions(modes, sink, source, cable, c);
}

/// Whether `k` is one of the first `n` keys.
spec fn spec_among_first<K>(keys: Seq<K>, n: nat, k: K) -> bool {
    exists|q: int| 0 <= q < n && #[trigger] keys[q] == k
}

/// Blocks flattened in order, each of whose entries carries its block's key, the keys being
/// distinct: every entry carries one of the keys, and a key's entries are consecutive.
proof fn lemma_flatten_runs<A, K>(n: nat, f: spec_fn(int) -> Seq<A>, key: spec_fn(A) -> K, keys: Seq<K>)
    requires
        n <= keys.len(),
        keys.no_duplicates(),
        forall|m: int, x: A| 0 <= m < n && #[trigger] f(m).contains(x) ==> key(x) == keys[m],
    ensures
        forall|p: int| 0 <= p < Seq::new(n, f).flatten().len()
            ==> spec_among_first(keys, n, key(#[trigger] Seq::new(n, f).flatten()[p])),
        forall|i: int, j: int, k: int|
            #![trigger Seq::new(n, f).flatten()[i], Seq::new(n, f).flatten()[j], Seq::new(n, f).flatten()[k]]
            0 <= i < j < k < Seq::new(n, f).flatten().len()
                && key(Seq::new(n, f).flatten()[i]) == key(Seq::new(n, f).flatten()[k])
                ==> key(Seq::new(n, f).flatten()[j]) == key(Seq::new(n, f).flatten()[i]),
    decreases n,
{
    let s = Seq::new(n, f).flatten();
    if n == 0 {
        assert(Seq::new(n, f) =~= Seq::<Seq<A>>::empty());
        assert(Seq::new(n, f).flatten().len() == 0);
    } else {
        let m = (n - 1) as nat;
        lemma_flatten_runs(m, f, key, keys);
        crate::enumerator::lemma_flatten_new_step(m, f);
        let prev = Seq::new(m, f).flatten();
        let last = f(m as int);
        assert(s == prev + last);
        assert forall|p: int| 0 <= p < last.len() implies #[trigger] key(last[p]) == keys[m as int] by {
            assert(last.contains(last[p]));
        }
        assert forall|p: int| 0 <= p < Seq::new(n, f).flatten().len()
            implies spec_among_first(keys, n, key(#[trigger] Seq::new(n, f).flatten()[p])) by {
            if p < prev.len() {
                assert(s[p] == prev[p]);
                assert(spec_among_first(keys, m, key(prev[p])));
                let q = choose|q: int| 0 <= q < m && #[trigger] keys[q] == key(prev[p]);
                assert(keys[q] == key(s[p]));
            } else {
                assert(s[p] == last[p - prev.len()]);
                assert(keys[m as int] == key(s[p]));
            }
        }
        assert forall|i: int, j: int, k: int|
            #![trigger Seq::new(n, f).flatten()[i], Seq::new(n, f).flatten()[j], Seq::new(n, f).flatten()[k]]
            0 <= i < j < k < Seq::new(n, f).flatten().len()
                && key(Seq::new(n, f).flatten()[i]) == key(Seq::new(n, f).flatten()[k])
                implies key(Seq::new(n, f).flatten()[j]) == key(Seq::new(n, f).flatten()[i]) by {
            if k < prev.len() {
                assert(s[i] == prev[i] && s[j] == prev[j] && s[k] == prev[k]);
            } else if i >= prev.len() {
                assert(s[i] == last[i - prev.len()] && s[j] == last[j - prev.len()] && s[k] == last[k - prev.len()]);
                assert(key(last[i - prev.len()]) == keys[m as int]);
                assert(key(last[j - prev.len()]) == keys[m as int]);
            } else {
                assert(s[i] == prev[i]);
                assert(spec_among_first(keys, m, key(prev[i])));
                let q = choose|q: int| 0 <= q < m && #[trigger] keys[q] == key(prev[i]);
                assert(s[k] == last[k - prev.len()]);
                assert(key(last[k - prev.len()]) == keys[m as int]);
                assert(keys[q] != keys[m as int]);
            }
        }
    }
}

/// All candidates for a mode are emitted consecutively: on a list of distinct modes, every
/// candidate is for one of them, and once the enumeration moves past a mode's candidates that
/// mode never reappears.
pub proof fn law_enumeration_mode_runs(
    modes: Seq<VideoMode>,
    sink: &SinkCapabilities,
    source: &SourceCapabilities,
    cable: &CableCapabilities,
)
    requires
        modes.no_duplicates(),
    ensures
        forall|p: int| 0 <= p < spec_product(modes, sink, source, cable).len()
            ==> modes.contains(*(#[trigger] spec_product(modes, sink, source, cable)[p]).mode),
        forall|i: int, j: int, k: int|
            #![trigger spec_product(modes, sink, source, cable)[i], spec_product(modes, sink, source, cable)[j], spec_product(modes, sink, source, cable)[k]]
            0 <= i < j < k < spec_product(modes, sink, source, cable).len()
                && *spec_product(modes, sink, source, cable)[i].mode == *spec_product(modes, sink, source, cable)[k].mode
                ==> *spec_product(modes, sink, source, cable)[j].mode == *spec_product(modes, sink, source, cable)[i].mode,
{
    let frls = spec_enumerated_frl_rates(sink, source, cable);
    let dscs = spec_dsc_options(sink, source);
    let caps = sink.color_capabilities;
    let fm = |m: int| spec_mode_block(&modes[m], caps, frls, dscs);
    let key = |c: CandidateConfig| *c.mode;
    assert forall|m: int, x: CandidateConfig| 0 <= m < modes.len() && #[trigger] fm(m).contains(x) implies key(x) == modes[m] by {
        lemma_mode_block_contains(&modes[m], caps, frls, dscs, x);
    }
    lemma_flatten_runs(modes.len(), fm, key, modes);
    let s = spec_product(modes, sink, source, cable);
    assert(s == Seq::new(modes.len(), fm).flatten());
    assert forall|p: int| 0 <= p < s.len() implies modes.contains(*(#[trigger] s[p]).mode) by {
        assert(spec_among_first(modes, modes.len(), key(s[p])));
        let q = choose|q: int| 0 <= q < modes.len() && #[trigger] modes[q] == key(s[p]);
        assert(modes[q] == *s[p].mode);
    }
    assert forall|i: int, j: int, k: int|
        #![trigger s[i], s[j], s[k]]
        0 <= i < j < k < s.len() && *s[i].mode == *s[k].mode implies *s[j].mode == *s[i].mode by {
        assert(key(s[i]) == key(s[k]));
    }
}

/// A FRL candidate passes the ceiling check exactly when its tier is at or below each of
/// the sink's, the source's and the cable's ceilings.
pub proof fn law_frl_within_every_ceiling(
    sink: &SinkCapabilities,
    source: &SourceCapabilities,
    cable: &CableCapabilities,
    config: &CandidateConfig,
)
    requires
        config.frl_rate != HdmiForumFrl::NotSupported,
    ensures
        spec_frl_violation(sink, source, cable, config) is None <==> {
            &&& config.frl_rate.spec_tier() <= spec_sink_frl_tier(sink)
            &&& config.frl_rate.spec_tier() <= source.max_frl_rate.spec_tier()
            &&& config.frl_rate.spec_tier() <= cable.max_frl_rate.spec_tier()
        },
{
}

/// With the DSC penalty on, a configuration without DSC ranks before one that requires it,
/// whatever else differs.
pub proof fn law_dsc_penalty_dominates<W>(a: NegotiatedConfig<W>, b: NegotiatedConfig<W>, policy: NegotiationPolicy, native: u32)
    requires
        policy.penalize_dsc,
        !a.dsc_required,
        b.dsc_required,
    ensures
        spec_compare(a, b, policy, native) < 0,
{
}

/// With native resolution preferred, a configuration at the native area ranks before one
/// that is not, unless the DSC penalty separates them.
pub proof fn law_native_resolution_preferred<W>(a: NegotiatedConfig<W>, b: NegotiatedConfig<W>, policy: NegotiationPolicy, native: u32)
    requires
        policy.prefer_native_resolution,
        !policy.penalize_dsc || a.dsc_required == b.dsc_required,
        spec_pixel_area(a.mode) == native,
        spec_pixel_area(b.mode) != native,
    ensures
        spec_compare(a, b, policy, native) < 0,
{
    let ka = spec_rank_key(a, policy, native);
    let kb = spec_rank_key(b, policy, native);
    assert(ka[0] == kb[0]);
    assert(ka.drop_first()[0] < kb.drop_first()[0]);
    assert(crate::ranker::key::spec_lex(ka.drop_first(), kb.drop_first()) == -1);
}

/// Every candidate is either accepted or rejected by the engine: an accepted candidate is
/// kept for ranking (once) and absent from the rejection log, a rejected one is in the log
/// and never kept.
pub proof fn law_candidates_partitioned<'a, E: ConstraintEngine>(
    engine: &E,
    cands: Seq<CandidateConfig<'a>>,
    sink: &SinkCapabilities,
    source: &SourceCapabilities,
    cable: &CableCapabilities,
    c: CandidateConfig<'a>,
)
    requires
        cands.contains(c),
    ensures
        spec_accepts(engine, sink, source, cable, c) ==> spec_kept(engine, cands, sink, source, cable).contains(c)
            && !spec_rejected(engine, cands, sink, source, cable).contains(c),
        !spec_accepts(engine, sink, source, cable, c) ==> spec_rejected(engine, cands, sink, source, cable).contains(c)
            && !spec_kept(engine, cands, sink, source, cable).contains(c),
    decreases cands.len(),
{
    lemma_kept(engine, cands, sink, source, cable);
    lemma_rejected(engine, cands, sink, source, cable);
    if !spec_accepts(engine, sink, source, cable, c) && spec_kept(engine, cands, sink, source, cable).contains(c) {
        let k = choose|k: int| 0 <= k < spec_kept(engine, cands, sink, source, cable).len()
            && spec_kept(engine, cands, sink, source, cable)[k] == c;
        assert(spec_accepts(engine, sink, source, cable, spec_kept(engine, cands, sink, source, cable)[k]));
    }
    if spec_accepts(engine, sink, source, cable, c) && spec_rejected(engine, cands, sink, source, cable).contains(c) {
        let k = choose|k: int| 0 <= k < spec_rejected(engine, cands, sink, source, cable).len()
            && spec_rejected(engine, cands, sink, source, cable)[k] == c;
        assert(!spec_accepts(engine, sink, source, cable, spec_rejected(engine, cands, sink, source, cable)[k]));
    }
}

/// The rejected candidates are exactly the candidates of the input that the engine rejects.
proof fn lemma_rejected<'a, E: ConstraintEngine>(
    engine: &E,
    cands: Seq<CandidateConfig<'a>>,
    sink: &SinkCapabilities,
    source: &SourceCapabilities,
    cable: &CableCapabilities,
)
    ensures
        forall|k: int| 0 <= k < spec_rejected(engine, cands, sink, source, cable).len() ==> {
            let c = #[trigger] spec_rejected(engine, cands, sink, source, cable)[k];
            cands.contains(c) && !spec_accepts(engine, sink, source, cable, c)
        },
        forall|c: CandidateConfig<'a>| cands.contains(c) && !spec_accepts(engine, sink, source, cable, c)
            ==> #[trigger] spec_rejected(engine, cands, sink, source, cable).contains(c),
    decreases cands.len(),
{
    if cands.len() > 0 {
        let prev = cands.drop_last();
        lemma_rejected(engine, prev, sink, source, cable);
        assert(cands =~= prev.push(cands.last()));
        let rejected = spec_rejected(engine, cands, sink, source, cable);
        assert forall|k: int| 0 <= k < rejected.len() implies {
            let c = #[trigger] rejected[k];
            cands.contains(c) && !spec_accepts(engine, sink, source, cable, c)
        } by {
            let pr = spec_rejected(engine, prev, sink, source, cable);
            if k < pr.len() {
                assert(rejected[k] == pr[k]);
                let c = pr[k];
                let j = choose|j: int| 0 <= j < prev.len() && prev[j] == c;
                assert(cands[j] == c);
            } else {
                assert(cands[cands.len() - 1] == cands.last());
            }
        }
        assert forall|c: CandidateConfig<'a>| cands.contains(c) && !spec_accepts(engine, sink, source, cable, c)
            implies #[trigger] rejected.contains(c) by {
            let j = choose|j: int| 0 <= j < cands.len() && cands[j] == c;
            if j < cands.len() - 1 {
                assert(prev[j] == c);
                assert(spec_rejected(engine, prev, sink, source, cable).contains(c));
                let pr = spec_rejected(engine, prev, sink, source, cable);
                let i = choose|i: int| 0 <= i < pr.len() && pr[i] == c;
                if !spec_accepts(engine, sink, source, cable, cands.last()) {
                    assert(rejected[i] == c);
                }
            } else {
                assert(rejected[rejected.len() - 1] == c);
            }
        }
    }
}

/// An extra rule layered on an engine: the candidate is accepted exactly when the engine
/// accepts it and the rule finds no violation; the violations reported are the engine's,
/// in order, followed by the rule's, if any; an accepted candidate keeps the engine's
/// warnings.
pub proof fn law_layered_collects_both<E: ConstraintEngine, R: ConstraintRule<E::Violation>>(
    layered: Layered<E, R>,
    sink: &SinkCapabilities,
    source: &SourceCapabilities,
    cable: &CableCapabilities,
    config: &CandidateConfig,
)
    ensures
        layered.spec_check(sink, source, cable, config) is Ok <==> (layered.base.spec_check(sink, source, cable, config) is Ok
            && layered.extra.spec_check(sink, source, cable, config) is None),
        layered.spec_check(sink, source, cable, config) matches Ok(w)
            ==> layered.base.spec_check(sink, source, cable, config) == Ok::<Seq<E::Warning>, Seq<E::Violation>>(w),
        layered.spec_check(sink, source, cable, config) matches Err(v) ==> v == ({
            let base: Seq<E::Violation> = match layered.base.spec_check(sink, source, cable, config) {
                Ok(_) => Seq::empty(),
                Err(b) => b,
            };
            match layered.extra.spec_check(sink, source, cable, config) {
                Some(x) => base.push(x),
                None => base,
            }
        }),
{
    match layered.base.spec_check(sink, source, cable, config) {
        Ok(_) => {
            match layered.extra.spec_check(sink, source, cable, config) {
                Some(x) => {
                    assert(seq![x] =~= Seq::<E::Violation>::empty().push(x));
                },
                None => {},
            }
        },
        Err(_) => {},
    }
}

/// Two configurations that agree on every field but hold possibly distinct vectors with
/// the same contents: the same key fields, VRR flag, warnings and trace steps.
pub open spec fn spec_agree<W>(a: NegotiatedConfig<W>, b: NegotiatedConfig<W>) -> bool {
    spec_same_resolution(a, b) && a.trace.steps@ == b.trace.steps@
}

/// Pointwise agreement of two sequences of configurations.
pub open spec fn spec_all_agree<W>(s: Seq<NegotiatedConfig<W>>, t: Seq<NegotiatedConfig<W>>) -> bool {
    s.len() == t.len() && forall|i: int| 0 <= i < s.len() ==> spec_agree(#[trigger] s[i], t[i])
}

/// Agreeing configurations have the same ranking key.
proof fn lemma_agree_same_key<W>(a: NegotiatedConfig<W>, b: NegotiatedConfig<W>, policy: NegotiationPolicy, native: u32)
    requires
        spec_same_resolution(a, b),
    ensures
        spec_rank_key(a, policy, native) == spec_rank_key(b, policy, native),
        spec_preference_rules(a, policy, native) == spec_preference_rules(b, policy, native),
{
}

/// Pointwise agreeing sequences have the same largest pixel area.
proof fn lemma_native_area_agree<W>(s: Seq<NegotiatedConfig<W>>, t: Seq<NegotiatedConfig<W>>)
    requires
        spec_all_agree(s, t),
    ensures
        spec_native_area(s) == spec_native_area(t),
    decreases s.len(),
{
    if s.len() > 0 {
        lemma_native_area_agree(s.drop_last(), t.drop_last());
        assert(spec_agree(s[s.len() - 1], t[t.len() - 1]));
    }
}

/// The ranking sort treats pointwise agreeing inputs alike.
proof fn lemma_sorted_agree<W>(s: Seq<NegotiatedConfig<W>>, t: Seq<NegotiatedConfig<W>>, policy: NegotiationPolicy, native: u32)
    requires
        spec_all_agree(s, t),
    ensures
        spec_all_agree(spec_sorted_by_rank(s, policy, native), spec_sorted_by_rank(t, policy, native)),
    decreases s.len(),
{
    if s.len() > 0 {
        let ps = spec_sorted_by_rank(s.drop_last(), policy, native);
        let pt = spec_sorted_by_rank(t.drop_last(), policy, native);
        lemma_sorted_agree(s.drop_last(), t.drop_last(), policy, native);
        law_sorted_by_rank(s.drop_last(), policy, native);
        law_sorted_by_rank(t.drop_last(), policy, native);
        let x = s.last();
        let y = t.last();
        assert(spec_agree(s[s.len() - 1], t[t.len() - 1]));
        lemma_insert_pos_agree(ps, pt, x, y, policy, native);
        let p = spec_insert_pos(ps, x, policy, native);
        lemma_insert_pos_spec(ps, x, policy, native);
        let rs = ps.insert(p, x);
        let rt = pt.insert(p, y);
        assert forall|i: int| 0 <= i < rs.len() implies spec_agree(#[trigger] rs[i], rt[i]) by {
            if i < p {
                assert(rs[i] == ps[i] && rt[i] == pt[i]);
            } else if i > p {
                assert(rs[i] == ps[i - 1] && rt[i] == pt[i - 1]);
            }
        }
    }
}

/// The insertion position depends only on the ranking keys.
proof fn lemma_insert_pos_agree<W>(
    s: Seq<NegotiatedConfig<W>>,
    t: Seq<NegotiatedConfig<W>>,
    x: NegotiatedConfig<W>,
    y: NegotiatedConfig<W>,
    policy: NegotiationPolicy,
    native: u32,
)
    requires
        spec_all_agree(s, t),
        spec_agree(x, y),
    ensures
        spec_insert_pos(s, x, policy, native) == spec_insert_pos(t, y, policy, native),
    decreases s.len(),
{
    if s.len() > 0 {
        lemma_agree_same_key(x, y, policy, native);
        assert(spec_agree(s[0], t[0]));
        lemma_agree_same_key(s[0], t[0], policy, native);
        assert forall|i: int| 0 <= i < s.drop_first().len() implies spec_agree(#[trigger] s.drop_first()[i], t.drop_first()[i]) by {
            assert(spec_agree(s[i + 1], t[i + 1]));
        }
        lemma_insert_pos_agree(s.drop_first(), t.drop_first(), x, y, policy, native);
    }
}

/// The pipeline with the default ranker is deterministic: two results for the same
/// engine, candidates, capabilities and policy list the same configurations in the same
/// order, with the same warnings and the same recorded preference steps.
pub proof fn law_negotiate_deterministic<'a, E: ConstraintEngine<Warning = Warning>>(
    engine: &E,
    cands: Seq<CandidateConfig<'a>>,
    sink: &SinkCapabilities,
    source: &SourceCapabilities,
    cable: &CableCapabilities,
    policy: NegotiationPolicy,
    out1: Seq<NegotiatedConfig<Warning>>,
    out2: Seq<NegotiatedConfig<Warning>>,
)
    requires
        exists|pre: Seq<NegotiatedConfig<Warning>>|
            spec_ranker_input(engine, cands, sink, source, cable, pre) && #[trigger] spec_default_ranked(pre, policy, out1),
        exists|pre: Seq<NegotiatedConfig<Warning>>|
            spec_ranker_input(engine, cands, sink, source, cable, pre) && #[trigger] spec_default_ranked(pre, policy, out2),
    ensures
        out1.len() == out2.len(),
        forall|i: int| 0 <= i < out1.len() ==> spec_same_resolution(#[trigger] out1[i], out2[i]),
        forall|i: int| 0 <= i < out1.len() ==> (#[trigger] out1[i]).trace.steps@.len() == out2[i].trace.steps@.len(),
        forall|i: int, j: int| 0 <= i < out1.len() && 0 <= j < out1[i].trace.steps@.len()
            ==> spec_step_rule(#[trigger] out1[i].trace.steps@[j]) == spec_step_rule(out2[i].trace.steps@[j]),
{
    let pre1 = choose|pre: Seq<NegotiatedConfig<Warning>>|
        spec_ranker_input(engine, cands, sink, source, cable, pre) && #[trigger] spec_default_ranked(pre, policy, out1);
    let pre2 = choose|pre: Seq<NegotiatedConfig<Warning>>|
        spec_ranker_input(engine, cands, sink, source, cable, pre) && #[trigger] spec_default_ranked(pre, policy, out2);
    let kept = spec_kept(engine, cands, sink, source, cable);
    assert forall|k: int| 0 <= k < pre1.len() implies spec_agree(#[trigger] pre1[k], pre2[k]) by {
        assert(spec_resolved_from(pre1[k], kept[k], spec_accepted_warnings(engine, sink, source, cable, kept[k])));
        assert(spec_resolved_from(pre2[k], kept[k], spec_accepted_warnings(engine, sink, source, cable, kept[k])));
        assert(pre1[k].trace.steps@ =~= pre2[k].trace.steps@);
    }
    lemma_native_area_agree(pre1, pre2);
    let native = spec_native_area(pre1);
    let s1 = spec_sorted_by_rank(pre1, policy, native);
    let s2 = spec_sorted_by_rank(pre2, policy, native);
    lemma_sorted_agree(pre1, pre2, policy, native);
    assert forall|i: int| 0 <= i < out1.len() implies spec_same_resolution(#[trigger] out1[i], out2[i]) by {
        assert(spec_agree(s1[i], s2[i]));
    }
    assert forall|i: int| 0 <= i < out1.len() implies (#[trigger] out1[i]).trace.steps@.len() == out2[i].trace.steps@.len() by {
        assert(spec_agree(s1[i], s2[i]));
        lemma_agree_same_key(s1[i], s2[i], policy, native);
        assert(spec_preferences_appended(s1[i].trace.steps@, out1[i].trace.steps@, spec_preference_rules(s1[i], policy, native)));
        assert(spec_preferences_appended(s2[i].trace.steps@, out2[i].trace.steps@, spec_preference_rules(s2[i], policy, native)));
    }
    assert forall|i: int, j: int| 0 <= i < out1.len() && 0 <= j < out1[i].trace.steps@.len()
        implies spec_step_rule(#[trigger] out1[i].trace.steps@[j]) == spec_step_rule(out2[i].trace.steps@[j]) by {
        assert(spec_agree(s1[i], s2[i]));
        lemma_agree_same_key(s1[i], s2[i], policy, native);
        let before = s1[i].trace.steps@;
        let rules = spec_preference_rules(s1[i], policy, native);
        assert(spec_preferences_appended(before, out1[i].trace.steps@, rules));
        assert(spec_preferences_appended(s2[i].trace.steps@, out2[i].trace.steps@, rules));
        if j >= before.len() {
            let r = j - before.len();
            assert(spec_step_rule(out1[i].trace.steps@[before.len() + r]) == Some(rules[r]));
            assert(spec_step_rule(out2[i].trace.steps@[before.len() + r]) == Some(rules[r]));
        }
    }
}

/// The TMDS character rate of a TMDS candidate is its pixel clock times the deep color
/// factor (×1 at 8 bpc and below, ×5/4 at 10, ×6/4 at 12, ×2 at 16 bpc), halved for YCbCr
/// 4:2:0 and for no other encoding; the candidate is rejected exactly when some party
/// declares a TMDS ceiling and that rate exceeds it, and the violation reports the rate in
/// whole MHz.
pub proof fn law_tmds_rate_halved_only_for_ycbcr420(
    sink: &SinkCapabilities,
    source: &SourceCapabilities,
    cable: &CableCapabilities,
    config: &CandidateConfig,
)
    requires
        config.frl_rate == HdmiForumFrl::NotSupported,
    ensures
        ({
            let pc = spec_pixel_clock_khz(*config.mode) as int;
            let factor: int = match config.bit_depth {
                ColorBitDepth::Depth10 => 5,
                ColorBitDepth::Depth12 => 6,
                ColorBitDepth::Depth16 => 8,
                _ => 4,
            };
            let rate = if config.color_encoding == ColorFormat::YCbCr420 { pc * factor / 8 } else { pc * factor / 4 };
            let limit = spec_tmds_limit(sink, source, cable);
            let verdict = TmdsClockCheck.spec_check(sink, source, cable, config);
            &&& verdict is Some <==> (limit != u32::MAX && rate > limit)
            &&& verdict matches Some(v) ==> v matches Violation::TmdsClockExceeded { required_mhz, .. }
                && required_mhz == rate / 1000
        }),
{
}

/// Under a color-fidelity policy, between two configurations that the DSC penalty and the
/// native-resolution preference do not separate, the one with more bits per primary ranks
/// strictly first, whatever their color formats, refresh rates, scan types and FRL rates.
pub proof fn law_color_fidelity_prefers_depth<W>(
    a: NegotiatedConfig<W>,
    b: NegotiatedConfig<W>,
    policy: NegotiationPolicy,
    native: u32,
)
    requires
        policy.prefer_color_fidelity,
        (policy.penalize_dsc && a.dsc_required) == (policy.penalize_dsc && b.dsc_required),
        (policy.prefer_native_resolution && spec_pixel_area(a.mode) != native)
            == (policy.prefer_native_resolution && spec_pixel_area(b.mode) != native),
        a.bit_depth.spec_bits_per_primary() > b.bit_depth.spec_bits_per_primary(),
    ensures
        spec_compare(a, b, policy, native) < 0,
{
    let ka = spec_rank_key(a, policy, native);
    let kb = spec_rank_key(b, policy, native);
    assert(ka[0] == kb[0]);
    assert(ka.drop_first()[0] == kb.drop_first()[0]);
    assert(ka.drop_first().drop_first()[0] < kb.drop_first().drop_first()[0]);
    assert(crate::ranker::key::spec_lex(ka.drop_first().drop_first(), kb.drop_first().drop_first()) == -1);
    assert(crate::ranker::key::spec_lex(ka.drop_first(), kb.drop_first()) == -1);
}

/// Once the sink lists modes for YCbCr 4:2:0 (4:2:0-only or 4:2:0-capable), YCbCr 4:2:0 is
/// refused on every mode in neither list, whatever the display-level capability says.
pub proof fn law_ycbcr420_refused_on_unlisted_mode(
    sink: &SinkCapabilities,
    source: &SourceCapabilities,
    cable: &CableCapabilities,
    config: &CandidateConfig,
)
    requires
        config.color_encoding == ColorFormat::YCbCr420,
        sink.ycbcr420_exclusive_modes@.len() > 0 || sink.ycbcr420_capable_modes@.len() > 0,
        !sink.ycbcr420_exclusive_modes@.contains(*config.mode),
        !sink.ycbcr420_capable_modes@.contains(*config.mode),
    ensures
        ColorEncodingCheck.spec_check(sink, source, cable, config) == Some(Violation::ColorEncodingUnsupported),
{
}

/// YCbCr 4:2:0 is accepted on a mode the sink lists as 4:2:0-only or 4:2:0-capable, whatever
/// the display-level capability says.
pub proof fn law_ycbcr420_accepted_on_listed_mode(
    sink: &SinkCapabilities,
    source: &SourceCapabilities,
    cable: &CableCapabilities,
    config: &CandidateConfig,
)
    requires
        config.color_encoding == ColorFormat::YCbCr420,
        sink.ycbcr420_exclusive_modes@.contains(*config.mode) || sink.ycbcr420_capable_modes@.contains(*config.mode),
    ensures
        ColorEncodingCheck.spec_check(sink, source, cable, config) is None,
{
}

/// The pixel clock ceiling depends on the mode and the sink alone: two candidates on the same
/// mode get the same verdict whatever their encoding, depth, FRL rate, DSC state, source and
/// cable; a candidate is rejected exactly when the sink declares a ceiling and the mode's
/// pixel clock in kHz exceeds it (in MHz) times 1000.
pub proof fn law_pixel_clock_depends_on_mode_and_sink(
    sink: &SinkCapabilities,
    source1: &SourceCapabilities,
    cable1: &CableCapabilities,
    c1: &CandidateConfig,
    source2: &SourceCapabilities,
    cable2: &CableCapabilities,
    c2: &CandidateConfig,
)
    requires
        *c1.mode == *c2.mode,
    ensures
        PixelClockCheck.spec_check(sink, source1, cable1, c1) == PixelClockCheck.spec_check(sink, source2, cable2, c2),
        PixelClockCheck.spec_check(sink, source1, cable1, c1) is Some <==> (sink.max_pixel_clock_mhz matches Some(limit)
            && spec_pixel_clock_khz(*c1.mode) > limit * 1000),
{
}

/// The area the ranker treats as native is the largest pixel area among its input: no input
/// configuration is larger, some input configuration has it, and it is 0 for an empty input.
pub proof fn law_native_area_is_largest<W>(s: Seq<NegotiatedConfig<W>>)
    ensures
        forall|i: int| 0 <= i < s.len() ==> spec_pixel_area((#[trigger] s[i]).mode) <= spec_native_area(s),
        s.len() == 0 ==> spec_native_area(s) == 0,
        s.len() > 0 ==> exists|i: int| 0 <= i < s.len() && spec_pixel_area((#[trigger] s[i]).mode) == spec_native_area(s),
    decreases s.len(),
{
    if s.len() > 0 {
        let prev = s.drop_last();
        law_native_area_is_largest(prev);
        assert forall|i: int| 0 <= i < s.len() implies spec_pixel_area((#[trigger] s[i]).mode) <= spec_native_area(s) by {
            if i < prev.len() {
                assert(s[i] == prev[i]);
            }
        }
        if spec_native_area(s) == spec_pixel_area(s.last().mode) {
            assert(spec_pixel_area(s[s.len() - 1].mode) == spec_native_area(s));
        } else {
            let i = choose|i: int| 0 <= i < prev.len() && spec_pixel_area((#[trigger] prev[i]).mode) == spec_native_area(prev);
            assert(s[i] == prev[i]);
        }
    }
}

} // verus!
