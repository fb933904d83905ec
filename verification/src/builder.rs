//! Pipeline builder wiring the three negotiation components together.

use vstd::prelude::*;

use crate::engine::rule::{ConstraintRule, Layered, TaggingAdapter};
use crate::engine::{ConstraintEngine, DefaultConstraintEngine};
use crate::enumerator::{CandidateEnumerator, DefaultEnumerator};
use crate::output::config::NegotiatedConfig;
use crate::output::rejection::RejectedConfig;
use crate::output::warning::TaggedViolation;
use crate::output::trace::ReasoningTrace;
use crate::ranker::policy::NegotiationPolicy;
use crate::ranker::{ConfigRanker, DefaultRanker};
use crate::types::{CableCapabilities, CandidateConfig, SinkCapabilities, SourceCapabilities};

verus! {

/// The warnings the engine attaches to a candidate it accepts (empty for a rejected one).
pub open spec fn spec_accepted_warnings<E: ConstraintEngine>(
    engine: &E,
    sink: &SinkCapabilities,
    source: &SourceCapabilities,
    cable: &CableCapabilities,
    config: CandidateConfig,
) -> Seq<E::Warning> {
    match engine.spec_check(sink, source, cable, &config) {
        Ok(warnings) => warnings,
        Err(_) => Seq::empty(),
    }
}

/// Whether the engine accepts a candidate.
pub open spec fn spec_accepts<E: ConstraintEngine>(
    engine: &E,
    sink: &SinkCapabilities,
    source: &SourceCapabilities,
    cable: &CableCapabilities,
    config: CandidateConfig,
) -> bool {
    engine.spec_check(sink, source, cable, &config) is Ok
}

/// The candidates of `cands` that the engine accepts, in order, each kept only at its
/// first occurrence (two candidates are the same when mode, encoding, depth, FRL rate and
/// DSC flag all agree).
pub open spec fn spec_kept<'a, E: ConstraintEngine>(
    engine: &E,
    cands: Seq<CandidateConfig<'a>>,
    sink: &SinkCapabilities,
    source: &SourceCapabilities,
    cable: &CableCapabilities,
) -> Seq<CandidateConfig<'a>>
    decreases cands.len(),
{
    if cands.len() == 0 {
        Seq::empty()
    } else {
        let kept = spec_kept(engine, cands.drop_last(), sink, source, cable);
        let c = cands.last();
        if spec_accepts(engine, sink, source, cable, c) && !kept.contains(c) {
            kept.push(c)
        } else {
            kept
        }
    }
}

/// Whether a negotiated configuration and a candidate agree on the five key fields.
pub open spec fn spec_same_key<W>(n: NegotiatedConfig<W>, c: CandidateConfig) -> bool {
    &&& n.mode == *c.mode
    &&& n.color_encoding == c.color_encoding
    &&& n.bit_depth == c.bit_depth
    &&& n.frl_rate == c.frl_rate
    &&& n.dsc_required == c.dsc_enabled
}

/// `n` is the configuration resolved from the accepted candidate `c`: the same key fields,
/// VRR not applicable, the engine's warnings, and an empty trace.
pub open spec fn spec_resolved_from<W>(n: NegotiatedConfig<W>, c: CandidateConfig, warnings: Seq<W>) -> bool {
    &&& spec_same_key(n, c)
    &&& !n.vrr_applicable
    &&& n.warnings@ == warnings
    &&& n.trace.steps@.len() == 0
}

/// `pre` is the list handed to the ranker: one configuration resolved from each kept
/// candidate, in enumeration order.
pub open spec fn spec_ranker_input<'a, E: ConstraintEngine>(
    engine: &E,
    cands: Seq<CandidateConfig<'a>>,
    sink: &SinkCapabilities,
    source: &SourceCapabilities,
    cable: &CableCapabilities,
    pre: Seq<NegotiatedConfig<E::Warning>>,
) -> bool {
    let kept = spec_kept(engine, cands, sink, source, cable);
    &&& pre.len() == kept.len()
    &&& forall|k: int| 0 <= k < kept.len() ==> spec_resolved_from(
        #[trigger] pre[k],
        kept[k],
        spec_accepted_warnings(engine, sink, source, cable, kept[k]),
    )
}

/// Returns whether some configuration of `accepted` agrees with `config` on the key fields.
fn contains_key<W>(accepted: &Vec<NegotiatedConfig<W>>, config: &CandidateConfig) -> (r: bool)
    ensures
        r == exists|k: int| 0 <= k < accepted@.len() && spec_same_key(#[trigger] accepted@[k], *config),
{
    let mut j: usize = 0;
    while j < accepted.len()
        invariant
            j <= accepted@.len(),
            forall|k: int| 0 <= k < j ==> !spec_same_key(#[trigger] accepted@[k], *config),
        decreases accepted@.len() - j,
    {
        let c = &accepted[j];
        if c.mode == *config.mode && c.color_encoding == config.color_encoding && c.bit_depth == config.bit_depth
            && c.frl_rate == config.frl_rate && c.dsc_required == config.dsc_enabled
        {
            assert(spec_same_key(accepted@[j as int], *config));
            return true;
        }
        j += 1;
    }
    false
}

/// Wires the three pipeline components together and drives the negotiation run.
///
/// Default implementations are used for any slot not explicitly configured; callers can
/// substitute any component.
pub struct NegotiatorBuilder<E = DefaultConstraintEngine, En = DefaultEnumerator, R = DefaultRanker> {
    engine: E,
    enumerator: En,
    ranker: R,
    policy: NegotiationPolicy,
}

impl<E, En, R> NegotiatorBuilder<E, En, R> {
    /// The constraint engine.
    pub closed spec fn spec_engine(&self) -> E {
        self.engine
    }

    /// The candidate enumerator.
    pub closed spec fn spec_enumerator(&self) -> En {
        self.enumerator
    }

    /// The configuration ranker.
    pub closed spec fn spec_ranker(&self) -> R {
        self.ranker
    }

    /// The negotiation policy.
    pub closed spec fn spec_policy(&self) -> NegotiationPolicy {
        self.policy
    }

    /// Overrides the constraint engine.
    pub fn with_engine<E2: ConstraintEngine>(self, engine: E2) -> (r: NegotiatorBuilder<E2, En, R>)
        ensures
            r.spec_engine() == engine,
            r.spec_enumerator() == self.spec_enumerator(),
            r.spec_ranker() == self.spec_ranker(),
            r.spec_policy() == self.spec_policy(),
    {
        NegotiatorBuilder { engine, enumerator: self.enumerator, ranker: self.ranker, policy: self.policy }
    }

    /// Overrides the candidate enumerator.
    pub fn with_enumerator<En2: CandidateEnumerator>(self, enumerator: En2) -> (r: NegotiatorBuilder<E, En2, R>)
        ensures
            r.spec_engine() == self.spec_engine(),
            r.spec_enumerator() == enumerator,
            r.spec_ranker() == self.spec_ranker(),
            r.spec_policy() == self.spec_policy(),
    {
        NegotiatorBuilder { engine: self.engine, enumerator, ranker: self.ranker, policy: self.policy }
    }

    /// Overrides the configuration ranker.
    pub fn with_ranker<R2: ConfigRanker>(self, ranker: R2) -> (r: NegotiatorBuilder<E, En, R2>)
        ensures
            r.spec_engine() == self.spec_engine(),
            r.spec_enumerator() == self.spec_enumerator(),
            r.spec_ranker() == ranker,
            r.spec_policy() == self.spec_policy(),
    {
        NegotiatorBuilder { engine: self.engine, enumerator: self.enumerator, ranker, policy: self.policy }
    }

    /// Appends an extra constraint rule to the engine without replacing it: the rule is
    /// written against the inner violation type and wrapped in a [`TaggingAdapter`], so its
    /// violations are tagged with its display name. It is evaluated after the engine's own
    /// checks, and violations of both are collected.
    pub fn with_extra_rule<V, X>(self, rule: X) -> (r: NegotiatorBuilder<Layered<E, TaggingAdapter<X>>, En, R>)
        where E: ConstraintEngine<Violation = TaggedViolation<V>>, X: ConstraintRule<V>
        ensures
            r.spec_engine() == (Layered::<E, TaggingAdapter<X>> { base: self.spec_engine(), extra: TaggingAdapter(rule) }),
            r.spec_enumerator() == self.spec_enumerator(),
            r.spec_ranker() == self.spec_ranker(),
            r.spec_policy() == self.spec_policy(),
    {
        NegotiatorBuilder {
            engine: Layered::new(self.engine, TaggingAdapter(rule)),
            enumerator: self.enumerator,
            ranker: self.ranker,
            policy: self.policy,
        }
    }

    /// Overrides the negotiation policy.
    pub fn with_policy(self, policy: NegotiationPolicy) -> (r: Self)
        ensures
            r.spec_engine() == self.spec_engine(),
            r.spec_enumerator() == self.spec_enumerator(),
            r.spec_ranker() == self.spec_ranker(),
            r.spec_policy() == policy,
    {
        NegotiatorBuilder { policy, ..self }
    }
}

impl Default for NegotiatorBuilder {
    /// The builder with the default engine, enumerator, ranker and policy.
    fn default() -> (r: Self)
        ensures
            r.spec_engine().spec_checks() == crate::engine::checks::spec_default_checks(),
            r.spec_policy() == (NegotiationPolicy {
                prefer_native_resolution: true,
                prefer_color_fidelity: true,
                prefer_high_refresh: false,
                penalize_dsc: true,
            }),
    {
        NegotiatorBuilder {
            engine: DefaultConstraintEngine::default(),
            enumerator: DefaultEnumerator,
            ranker: DefaultRanker,
            policy: NegotiationPolicy::default(),
        }
    }
}

/// The violations the engine reports for a candidate it rejects (empty for an accepted one).
pub open spec fn spec_rejection_violations<E: ConstraintEngine>(
    engine: &E,
    sink: &SinkCapabilities,
    source: &SourceCapabilities,
    cable: &CableCapabilities,
    config: CandidateConfig,
) -> Seq<E::Violation> {
    match engine.spec_check(sink, source, cable, &config) {
        Ok(_) => Seq::empty(),
        Err(violations) => violations,
    }
}

/// The candidates of `cands` that the engine rejects, in order.
pub open spec fn spec_rejected<'a, E: ConstraintEngine>(
    engine: &E,
    cands: Seq<CandidateConfig<'a>>,
    sink: &SinkCapabilities,
    source: &SourceCapabilities,
    cable: &CableCapabilities,
) -> Seq<CandidateConfig<'a>>
    decreases cands.len(),
{
    if cands.len() == 0 {
        Seq::empty()
    } else {
        let rejected = spec_rejected(engine, cands.drop_last(), sink, source, cable);
        if spec_accepts(engine, sink, source, cable, cands.last()) {
            rejected
        } else {
            rejected.push(cands.last())
        }
    }
}

/// `log` records each rejected candidate of `cands`, in order: its five fields and the
/// engine's violations for it.
pub open spec fn spec_rejection_log<'a, E: ConstraintEngine>(
    engine: &E,
    cands: Seq<CandidateConfig<'a>>,
    sink: &SinkCapabilities,
    source: &SourceCapabilities,
    cable: &CableCapabilities,
    log: Seq<RejectedConfig<E::Violation>>,
) -> bool {
    let rejected = spec_rejected(engine, cands, sink, source, cable);
    &&& log.len() == rejected.len()
    &&& forall|k: int| 0 <= k < rejected.len() ==> {
        let entry = #[trigger] log[k];
        let c = rejected[k];
        &&& entry.mode == *c.mode
        &&& entry.color_encoding == c.color_encoding
        &&& entry.bit_depth == c.bit_depth
        &&& entry.frl_rate == c.frl_rate
        &&& entry.dsc_enabled == c.dsc_enabled
        &&& entry.violations@ == spec_rejection_violations(engine, sink, source, cable, c)
    }
}

impl<E, En, R> NegotiatorBuilder<E, En, R>
    where E: ConstraintEngine, En: CandidateEnumerator, R: ConfigRanker<Warning = E::Warning>
{
    /// Enumerates and checks the candidates: the accepted ones resolved and deduplicated (the
    /// ranker's input) and, when `log` is set, the rejected ones with their violations.
    fn negotiate_inner(
        &self,
        sink: &SinkCapabilities,
        source: &SourceCapabilities,
        cable: &CableCapabilities,
        log: bool,
    ) -> (r: (Vec<NegotiatedConfig<E::Warning>>, Vec<RejectedConfig<E::Violation>>))
        ensures
            spec_ranker_input(&self.engine, self.enumerator.spec_candidates(sink, source, cable), sink, source, cable, r.0@),
            log ==> spec_rejection_log(&self.engine, self.enumerator.spec_candidates(sink, source, cable), sink, source, cable, r.1@),
            !log ==> r.1@.len() == 0,
    {
        let candidates = self.enumerator.enumerate(sink, source, cable);
        let ghost cands = candidates@;
        let mut accepted: Vec<NegotiatedConfig<E::Warning>> = Vec::new();
        let mut rejected: Vec<RejectedConfig<E::Violation>> = Vec::new();
        let mut i: usize = 0;
        while i < candidates.len()
            invariant
                cands == candidates@,
                cands == self.enumerator.spec_candidates(sink, source, cable),
                i <= cands.len(),
                spec_ranker_input(&self.engine, cands.take(i as int), sink, source, cable, accepted@),
                log ==> spec_rejection_log(&self.engine, cands.take(i as int), sink, source, cable, rejected@),
                !log ==> rejected@.len() == 0,
            decreases cands.len() - i,
        {
            let config = candidates[i];
            let ghost kept = spec_kept(&self.engine, cands.take(i as int), sink, source, cable);
            let ghost prev_rejected = spec_rejected(&self.engine, cands.take(i as int), sink, source, cable);
            assert(cands.take(i + 1).drop_last() =~= cands.take(i as int));
            assert(cands.take(i + 1).last() == config);
            match self.engine.check(sink, source, cable, &config) {
                Err(violations) => {
                    if log {
                        let entry = RejectedConfig {
                            mode: *config.mode,
                            color_encoding: config.color_encoding,
                            bit_depth: config.bit_depth,
                            frl_rate: config.frl_rate,
                            dsc_enabled: config.dsc_enabled,
                            violations,
                        };
                        rejected.push(entry);
                        assert(spec_rejected(&self.engine, cands.take(i + 1), sink, source, cable) == prev_rejected.push(config));
                    }
                },
                Ok(warnings) => {
                    let dup = contains_key(&accepted, &config);
                    assert(dup == kept.contains(config)) by {
                        if dup {
                            let k = choose|k: int| 0 <= k < accepted@.len() && spec_same_key(#[trigger] accepted@[k], config);
                            assert(kept[k] == config);
                        }
                        if kept.contains(config) {
                            let k = choose|k: int| 0 <= k < kept.len() && kept[k] == config;
                            assert(spec_same_key(accepted@[k], config));
                        }
                    }
                    if !dup {
                        let negotiated = NegotiatedConfig {
                            mode: *config.mode,
                            color_encoding: config.color_encoding,
                            bit_depth: config.bit_depth,
                            frl_rate: config.frl_rate,
                            dsc_required: config.dsc_enabled,
                            vrr_applicable: false,
                            warnings,
                            trace: ReasoningTrace::new(),
                        };
                        accepted.push(negotiated);
                    }
                },
            }
            i += 1;
        }
        assert(cands.take(cands.len() as int) =~= cands);
        (accepted, rejected)
    }

    /// Runs the negotiation pipeline and returns the ranked viable configurations.
    ///
    /// Candidates are enumerated, validated by the constraint engine, deduplicated on
    /// their key fields (the first occurrence kept), and ranked by the policy.
    pub fn negotiate(
        &self,
        sink: &SinkCapabilities,
        source: &SourceCapabilities,
        cable: &CableCapabilities,
    ) -> (r: Vec<NegotiatedConfig<E::Warning>>)
        ensures
            exists|pre: Seq<NegotiatedConfig<E::Warning>>| {
                &&& spec_ranker_input(
                    &self.spec_engine(),
                    self.spec_enumerator().spec_candidates(sink, source, cable),
                    sink,
                    source,
                    cable,
                    pre,
                )
                &&& #[trigger] self.spec_ranker().spec_ranks(pre, self.spec_policy(), r@)
            },
    {
        let (accepted, _) = self.negotiate_inner(sink, source, cable, false);
        let ghost pre = accepted@;
        let r = self.ranker.rank(accepted, &self.policy);
        assert(self.spec_ranker() == self.ranker && self.spec_policy() == self.policy && self.spec_engine() == self.engine);
        assert(self.spec_enumerator() == self.enumerator);
        assert(spec_ranker_input(&self.spec_engine(), self.spec_enumerator().spec_candidates(sink, source, cable), sink, source, cable, pre));
        assert(self.spec_ranker().spec_ranks(pre, self.spec_policy(), r@));
        r
    }

    /// Runs the negotiation pipeline like `negotiate`, and also returns every rejected
    /// candidate, in enumeration order, with the violations that rejected it.
    pub fn negotiate_with_log(
        &self,
        sink: &SinkCapabilities,
        source: &SourceCapabilities,
        cable: &CableCapabilities,
    ) -> (r: (Vec<NegotiatedConfig<E::Warning>>, Vec<RejectedConfig<E::Violation>>))
        ensures
            exists|pre: Seq<NegotiatedConfig<E::Warning>>| {
                &&& spec_ranker_input(
                    &self.spec_engine(),
                    self.spec_enumerator().spec_candidates(sink, source, cable),
                    sink,
                    source,
                    cable,
                    pre,
                )
                &&& #[trigger] self.spec_ranker().spec_ranks(pre, self.spec_policy(), r.0@)
            },
            spec_rejection_log(&self.spec_engine(), self.spec_enumerator().spec_candidates(sink, source, cable), sink, source, cable, r.1@),
    {
        let (accepted, rejected) = self.negotiate_inner(sink, source, cable, true);
        let ghost pre = accepted@;
        let ranked = self.ranker.rank(accepted, &self.policy);
        assert(self.spec_ranker() == self.ranker && self.spec_policy() == self.policy && self.spec_engine() == self.engine);
        assert(self.spec_enumerator() == self.enumerator);
        assert(spec_ranker_input(&self.spec_engine(), self.spec_enumerator().spec_candidates(sink, source, cable), sink, source, cable, pre));
        let r = (ranked, rejected);
        assert(self.spec_ranker().spec_ranks(pre, self.spec_policy(), r.0@));
        r
    }
}

} // verus!
