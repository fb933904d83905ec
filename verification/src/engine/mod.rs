//! Constraint engine trait and default implementation.

use vstd::prelude::*;

pub mod checks;
pub mod rule;

pub use checks::{default_checks, BuiltinCheck};
pub use rule::{ConstraintRule, Layered, TaggingAdapter};

use core::marker::PhantomData;

use crate::output::warning::{TaggedViolation, Violation, Warning};
use crate::types::{CableCapabilities, CandidateConfig, SinkCapabilities, SourceCapabilities};

verus! {

/// Maximum number of warnings a single constraint check accumulates on targets without
/// allocation. Every build of this crate allocates, so it bounds nothing here.
pub const MAX_WARNINGS: usize = 8;

/// The result of a constraint check: all warnings on success, all violations on failure.
pub type CheckResult<W, V> = Result<Vec<W>, Vec<V>>;

/// The sequences held by a check result.
pub open spec fn result_view<W, V>(r: CheckResult<W, V>) -> Result<Seq<W>, Seq<V>> {
    match r {
        Ok(w) => Ok(w@),
        Err(v) => Err(v@),
    }
}

/// Determines whether a configuration is valid for the supplied capabilities, returning
/// structured violations rather than a boolean.
pub trait ConstraintEngine {
    /// Non-fatal diagnostic type emitted for accepted configurations.
    type Warning;

    /// Fatal constraint violation type emitted for rejected configurations.
    type Violation;

    /// The outcome of checking `config`: its warnings, or its violations.
    spec fn spec_check(
        &self,
        sink: &SinkCapabilities,
        source: &SourceCapabilities,
        cable: &CableCapabilities,
        config: &CandidateConfig,
    ) -> Result<Seq<Self::Warning>, Seq<Self::Violation>>;

    /// Evaluates a candidate configuration against the supplied capabilities.
    fn check(
        &self,
        sink: &SinkCapabilities,
        source: &SourceCapabilities,
        cable: &CableCapabilities,
        config: &CandidateConfig<'_>,
    ) -> (r: CheckResult<Self::Warning, Self::Violation>)
        ensures
            result_view(r) == self.spec_check(sink, source, cable, config),
    ;
}

/// The violations found by `checks`, in list order, each tagged with its rule's name.
pub open spec fn spec_collect_violations<V, R: ConstraintRule<V>>(
    checks: Seq<R>,
    sink: &SinkCapabilities,
    source: &SourceCapabilities,
    cable: &CableCapabilities,
    config: &CandidateConfig,
) -> Seq<TaggedViolation<V>>
    decreases checks.len(),
{
    if checks.len() == 0 {
        Seq::empty()
    } else {
        let earlier = spec_collect_violations(checks.drop_last(), sink, source, cable, config);
        match checks.last().spec_check(sink, source, cable, config) {
            Some(violation) => earlier.push(TaggedViolation { rule: checks.last().spec_display_name(), violation }),
            None => earlier,
        }
    }
}

/// Default HDMI specification constraint engine: runs an ordered list of rules and
/// collects every violation, each tagged with the name of the rule that found it.
///
/// Generic over the violation type `V`, which defaults to the built-in [`Violation`], and
/// over the rule type `R`, which defaults to the built-in [`BuiltinCheck`]. A caller with
/// its own violation hierarchy supplies a rule type producing it (an enum of its rules,
/// for instance) and builds the engine with [`DefaultConstraintEngine::with_checks`].
#[derive(Debug)]
pub struct DefaultConstraintEngine<V = Violation, R = BuiltinCheck> {
    checks: Vec<R>,
    violation: PhantomData<V>,
}

impl<V, R> DefaultConstraintEngine<V, R> {
    /// The engine's ordered rule list.
    pub closed spec fn spec_checks(&self) -> Seq<R> {
        self.checks@
    }

    /// Constructs an engine that applies `checks`, in order.
    pub fn with_checks(checks: Vec<R>) -> (r: Self)
        ensures
            r.spec_checks() == checks@,
    {
        DefaultConstraintEngine { checks, violation: PhantomData }
    }

    /// Returns the engine's rule list.
    pub fn checks(&self) -> (r: &[R])
        ensures
            r@ == self.spec_checks(),
    {
        self.checks.as_slice()
    }
}

impl<V, R: Copy> Clone for DefaultConstraintEngine<V, R> {
    /// An engine applying the same rules, in the same order.
    fn clone(&self) -> (r: Self)
        ensures
            r.spec_checks() == self.spec_checks(),
    {
        let mut checks: Vec<R> = Vec::new();
        let mut i: usize = 0;
        while i < self.checks.len()
            invariant
                i <= self.checks@.len(),
                checks@ == self.checks@.take(i as int),
            decreases self.checks@.len() - i,
        {
            checks.push(self.checks[i]);
            i += 1;
            assert(checks@ =~= self.checks@.take(i as int));
        }
        assert(self.checks@.take(self.checks@.len() as int) =~= self.checks@);
        DefaultConstraintEngine { checks, violation: PhantomData }
    }
}

impl Default for DefaultConstraintEngine {
    /// The engine applying the default rule list.
    fn default() -> (r: Self)
        ensures
            r.spec_checks() == checks::spec_default_checks(),
    {
        DefaultConstraintEngine { checks: default_checks(), violation: PhantomData }
    }
}

impl<V, R: ConstraintRule<V>> ConstraintEngine for DefaultConstraintEngine<V, R> {
    type Warning = Warning;
    type Violation = TaggedViolation<V>;

    open spec fn spec_check(
        &self,
        sink: &SinkCapabilities,
        source: &SourceCapabilities,
        cable: &CableCapabilities,
        config: &CandidateConfig,
    ) -> Result<Seq<Warning>, Seq<TaggedViolation<V>>> {
        let violations = spec_collect_violations(self.spec_checks(), sink, source, cable, config);
        if violations.len() == 0 {
            Ok(Seq::empty())
        } else {
            Err(violations)
        }
    }

    fn check(
        &self,
        sink: &SinkCapabilities,
        source: &SourceCapabilities,
        cable: &CableCapabilities,
        config: &CandidateConfig<'_>,
    ) -> (r: CheckResult<Warning, TaggedViolation<V>>) {
        let mut violations: Vec<TaggedViolation<V>> = Vec::new();
        let mut i: usize = 0;
        while i < self.checks.len()
            invariant
                i <= self.checks@.len(),
                violations@ == spec_collect_violations(self.checks@.take(i as int), sink, source, cable, config),
            decreases self.checks@.len() - i,
        {
            let rule = &self.checks[i];
            assert(self.checks@.take(i + 1).drop_last() =~= self.checks@.take(i as int));
            if let Some(violation) = rule.check(sink, source, cable, config) {
                violations.push(TaggedViolation { rule: rule.display_name(), violation });
            }
            i += 1;
        }
        assert(self.checks@.take(self.checks@.len() as int) =~= self.checks@);
        if violations.len() == 0 {
            Ok(Vec::new())
        } else {
            Err(violations)
        }
    }
}

/// A base engine followed by an extra rule producing the same violation type is an
/// engine: violations of both are collected; a candidate the base accepts and the rule
/// rejects fails with the rule's violation alone.
impl<E, R> ConstraintEngine for Layered<E, R> where E: ConstraintEngine, R: ConstraintRule<E::Violation> {
    type Warning = E::Warning;
    type Violation = E::Violation;

    open spec fn spec_check(
        &self,
        sink: &SinkCapabilities,
        source: &SourceCapabilities,
        cable: &CableCapabilities,
        config: &CandidateConfig,
    ) -> Result<Seq<E::Warning>, Seq<E::Violation>> {
        match self.base.spec_check(sink, source, cable, config) {
            Err(violations) => match self.extra.spec_check(sink, source, cable, config) {
                Some(v) => Err(violations.push(v)),
                None => Err(violations),
            },
            Ok(warnings) => match self.extra.spec_check(sink, source, cable, config) {
                Some(v) => Err(seq![v]),
                None => Ok(warnings),
            },
        }
    }

    fn check(
        &self,
        sink: &SinkCapabilities,
        source: &SourceCapabilities,
        cable: &CableCapabilities,
        config: &CandidateConfig<'_>,
    ) -> (r: CheckResult<E::Warning, E::Violation>) {
        match self.base.check(sink, source, cable, config) {
            Err(mut violations) => {
                if let Some(v) = self.extra.check(sink, source, cable, config) {
                    violations.push(v);
                }
                Err(violations)
            },
            Ok(warnings) => {
                if let Some(v) = self.extra.check(sink, source, cable, config) {
                    let mut only = Vec::new();
                    only.push(v);
                    assert(only@ =~= seq![v]);
                    Err(only)
                } else {
                    Ok(warnings)
                }
            },
        }
    }
}

} // verus!
