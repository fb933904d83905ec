//! Configuration ranker trait and default implementation.

use vstd::prelude::*;

pub mod compare;
pub mod key;
pub mod policy;
pub mod sort;

pub use compare::compare_configs;
pub use key::{color_format_quality, pixel_area};
pub use policy::NegotiationPolicy;
pub use policy::NegotiationPolicy as Policy;

use crate::output::config::NegotiatedConfig;
use crate::output::trace::DecisionStep;
use crate::output::warning::Warning;
use key::spec_pixel_area;
use sort::{sort_by_rank, spec_sorted_by_rank};

verus! {

/// The rule text of a preference step, or `None` for any other step.
pub open spec fn spec_step_rule(step: DecisionStep) -> Option<Seq<char>> {
    match step {
        DecisionStep::PreferenceApplied { rule } => Some(rule@),
        _ => None,
    }
}

/// The preference steps recorded for a configuration, in order:
///
/// - "DSC penalized", when the policy penalizes DSC and the configuration requires it;
/// - "native resolution preferred", when native resolution is preferred and the mode is native;
/// - one of "color fidelity preferred", "high refresh rate preferred" or
///   "power saving ordering applied", naming the quality ordering of the policy;
/// - "progressive mode preferred", when the mode is progressive.
pub open spec fn spec_preference_rules<W>(c: NegotiatedConfig<W>, policy: NegotiationPolicy, native: u32) -> Seq<Seq<char>> {
    let dsc: Seq<Seq<char>> = if policy.penalize_dsc && c.dsc_required { seq!["DSC penalized"@] } else { Seq::empty() };
    let with_native = if policy.prefer_native_resolution && spec_pixel_area(c.mode) == native {
        dsc.push("native resolution preferred"@)
    } else {
        dsc
    };
    let quality_rule = if policy.prefer_color_fidelity {
        "color fidelity preferred"@
    } else if policy.prefer_high_refresh {
        "high refresh rate preferred"@
    } else {
        "power saving ordering applied"@
    };
    let with_quality = with_native.push(quality_rule);
    if !c.mode.interlaced {
        with_quality.push("progressive mode preferred"@)
    } else {
        with_quality
    }
}

/// `after` is `before` followed by one preference step per rule of `rules`, in order.
pub open spec fn spec_preferences_appended(before: Seq<DecisionStep>, after: Seq<DecisionStep>, rules: Seq<Seq<char>>) -> bool {
    &&& after.len() == before.len() + rules.len()
    &&& forall|i: int| 0 <= i < before.len() ==> after[i] == before[i]
    &&& forall|i: int| 0 <= i < rules.len() ==> spec_step_rule(#[trigger] after[before.len() + i]) == Some(rules[i])
}

/// `a` and `b` agree on every field but the trace.
pub open spec fn spec_same_resolution<W>(a: NegotiatedConfig<W>, b: NegotiatedConfig<W>) -> bool {
    &&& a.mode == b.mode
    &&& a.color_encoding == b.color_encoding
    &&& a.bit_depth == b.bit_depth
    &&& a.frl_rate == b.frl_rate
    &&& a.dsc_required == b.dsc_required
    &&& a.vrr_applicable == b.vrr_applicable
    &&& a.warnings@ == b.warnings@
}

/// Appends a preference step with the given rule text.
fn push_preference(steps: &mut Vec<DecisionStep>, rule: &str)
    ensures
        final(steps)@.len() == old(steps)@.len() + 1,
        forall|i: int| 0 <= i < old(steps)@.len() ==> final(steps)@[i] == old(steps)@[i],
        spec_step_rule(final(steps)@[old(steps)@.len() as int]) == Some(rule@),
{
    steps.push(DecisionStep::PreferenceApplied { rule: rule.to_owned() });
}

/// Appends to `config`'s trace a preference step for each ranking criterion that applies
/// to this configuration. These are facts of the configuration, not relative comparisons.
pub fn record_preferences<W>(config: &mut NegotiatedConfig<W>, policy: &NegotiationPolicy, native_pixels: u32)
    ensures
        spec_same_resolution(*final(config), *old(config)),
        spec_preferences_appended(
            old(config).trace.steps@,
            final(config).trace.steps@,
            spec_preference_rules(*old(config), *policy, native_pixels),
        ),
{
    let ghost before = config.trace.steps@;
    let ghost rules = spec_preference_rules(*old(config), *policy, native_pixels);
    let ghost mut expected: Seq<Seq<char>> = Seq::empty();
    if policy.penalize_dsc && config.dsc_required {
        push_preference(&mut config.trace.steps, "DSC penalized");
        proof { expected = expected.push("DSC penalized"@); }
    }
    if policy.prefer_native_resolution && pixel_area(&config.mode) == native_pixels {
        push_preference(&mut config.trace.steps, "native resolution preferred");
        proof { expected = expected.push("native resolution preferred"@); }
    }
    if policy.prefer_color_fidelity {
        push_preference(&mut config.trace.steps, "color fidelity preferred");
        proof { expected = expected.push("color fidelity preferred"@); }
    } else if policy.prefer_high_refresh {
        push_preference(&mut config.trace.steps, "high refresh rate preferred");
        proof { expected = expected.push("high refresh rate preferred"@); }
    } else {
        push_preference(&mut config.trace.steps, "power saving ordering applied");
        proof { expected = expected.push("power saving ordering applied"@); }
    }
    if !config.mode.interlaced {
        push_preference(&mut config.trace.steps, "progressive mode preferred");
        proof { expected = expected.push("progressive mode preferred"@); }
    }
    assert(expected =~= rules);
    assert(spec_preferences_appended(before, config.trace.steps@, rules)) by {
        assert forall|i: int| 0 <= i < rules.len() implies spec_step_rule(#[trigger] config.trace.steps@[before.len() + i]) == Some(rules[i]) by {
        }
    }
}

/// The greatest pixel area among `s`, or 0 when `s` is empty: the area treated as native.
pub open spec fn spec_native_area<W>(s: Seq<NegotiatedConfig<W>>) -> u32
    decreases s.len(),
{
    if s.len() == 0 {
        0
    } else {
        let earlier = spec_native_area(s.drop_last());
        let area = spec_pixel_area(s.last().mode);
        if earlier >= area { earlier } else { area }
    }
}

/// `output` is `input` ranked by the default policy ordering: sorted stably by ranking key
/// (native area being the greatest area in `input`), each entry with its preference steps
/// appended to its trace.
pub open spec fn spec_default_ranked<W>(
    input: Seq<NegotiatedConfig<W>>,
    policy: NegotiationPolicy,
    output: Seq<NegotiatedConfig<W>>,
) -> bool {
    let native = spec_native_area(input);
    let sorted = spec_sorted_by_rank(input, policy, native);
    &&& output.len() == sorted.len()
    &&& forall|i: int| 0 <= i < sorted.len() ==> spec_same_resolution(#[trigger] output[i], sorted[i])
    &&& forall|i: int| 0 <= i < sorted.len() ==> spec_preferences_appended(
        sorted[i].trace.steps@,
        #[trigger] output[i].trace.steps@,
        spec_preference_rules(sorted[i], policy, native),
    )
}

/// Returns the greatest pixel area among `configs`, or 0 when there is none.
fn native_area<W>(configs: &Vec<NegotiatedConfig<W>>) -> (r: u32)
    ensures
        r == spec_native_area(configs@),
{
    let mut best: u32 = 0;
    let mut i: usize = 0;
    while i < configs.len()
        invariant
            i <= configs@.len(),
            best == spec_native_area(configs@.take(i as int)),
        decreases configs@.len() - i,
    {
        assert(configs@.take(i + 1).drop_last() =~= configs@.take(i as int));
        let area = pixel_area(&configs[i].mode);
        if area > best {
            best = area;
        }
        i += 1;
    }
    assert(configs@.take(configs@.len() as int) =~= configs@);
    best
}

/// Ranks configurations by the default policy ordering and records each configuration's
/// applicable preferences in its trace.
pub fn rank_configs<W>(configs: Vec<NegotiatedConfig<W>>, policy: &NegotiationPolicy) -> (r: Vec<NegotiatedConfig<W>>)
    ensures
        spec_default_ranked(configs@, *policy, r@),
{
    let native = native_area(&configs);
    let mut sorted = sort_by_rank(configs, policy, native);
    let ghost sorted_seq = sorted@;
    let n = sorted.len();
    let mut out: Vec<NegotiatedConfig<W>> = Vec::new();
    let mut i: usize = 0;
    while i < n
        invariant
            n == sorted_seq.len(),
            i <= n,
            sorted@ == sorted_seq.skip(i as int),
            out@.len() == i,
            forall|k: int| 0 <= k < i ==> spec_same_resolution(#[trigger] out@[k], sorted_seq[k]),
            forall|k: int| 0 <= k < i ==> spec_preferences_appended(
                sorted_seq[k].trace.steps@,
                #[trigger] out@[k].trace.steps@,
                spec_preference_rules(sorted_seq[k], *policy, native),
            ),
        decreases n - i,
    {
        let mut c = sorted.remove(0);
        assert(c == sorted_seq[i as int]);
        assert(sorted@ =~= sorted_seq.skip(i + 1));
        record_preferences(&mut c, policy, native);
        out.push(c);
        i += 1;
    }
    out
}

/// Orders validated configurations according to a [`NegotiationPolicy`].
pub trait ConfigRanker {
    /// Non-fatal diagnostic type attached to ranked configurations.
    type Warning;

    /// Whether `output` is a ranking of `input` under `policy`.
    spec fn spec_ranks(
        &self,
        input: Seq<NegotiatedConfig<Self::Warning>>,
        policy: NegotiationPolicy,
        output: Seq<NegotiatedConfig<Self::Warning>>,
    ) -> bool;

    /// Ranks and returns the validated configurations in priority order.
    fn rank(&self, configs: Vec<NegotiatedConfig<Self::Warning>>, policy: &NegotiationPolicy) -> (r: Vec<NegotiatedConfig<Self::Warning>>)
        ensures
            self.spec_ranks(configs@, *policy, r@),
    ;
}

/// Default configuration ranker: DSC penalty, native resolution, quality ordering of the
/// policy, progressive before interlaced, lower FRL tier, then larger area.
#[derive(Debug, Default)]
pub struct DefaultRanker;

impl ConfigRanker for DefaultRanker {
    type Warning = Warning;

    open spec fn spec_ranks(
        &self,
        input: Seq<NegotiatedConfig<Warning>>,
        policy: NegotiationPolicy,
        output: Seq<NegotiatedConfig<Warning>>,
    ) -> bool {
        spec_default_ranked(input, policy, output)
    }

    fn rank(&self, configs: Vec<NegotiatedConfig<Warning>>, policy: &NegotiationPolicy) -> (r: Vec<NegotiatedConfig<Warning>>) {
        rank_configs(configs, policy)
    }
}

} // verus!
