//! The `ConstraintRule` trait and the `TaggingAdapter` and `Layered` combinators.

use vstd::prelude::*;

use crate::output::warning::TaggedViolation;
use crate::types::{CableCapabilities, CandidateConfig, SinkCapabilities, SourceCapabilities};

verus! {

/// A single constraint check: the unit of extensibility of the constraint engine.
///
/// It evaluates one constraint and either finds a violation or does not.
pub trait ConstraintRule<V> {
    /// The rule's short, stable identifier.
    spec fn spec_display_name(&self) -> &'static str;

    /// The violation the rule finds for the given capabilities and candidate, if any.
    spec fn spec_check(
        &self,
        sink: &SinkCapabilities,
        source: &SourceCapabilities,
        cable: &CableCapabilities,
        config: &CandidateConfig,
    ) -> Option<V>;

    /// A short, stable, lowercase snake_case identifier for this rule.
    fn display_name(&self) -> (r: &'static str)
        ensures
            r == self.spec_display_name(),
    ;

    /// Evaluates this rule: `Some(violation)` if the candidate fails it, `None` if it passes.
    fn check(
        &self,
        sink: &SinkCapabilities,
        source: &SourceCapabilities,
        cable: &CableCapabilities,
        config: &CandidateConfig<'_>,
    ) -> (r: Option<V>)
        ensures
            r == self.spec_check(sink, source, cable, config),
    ;
}

/// Wraps a rule so that each violation it emits is tagged with the rule's display name.
pub struct TaggingAdapter<R>(pub R);

impl<R, V> ConstraintRule<TaggedViolation<V>> for TaggingAdapter<R> where R: ConstraintRule<V> {
    open spec fn spec_display_name(&self) -> &'static str {
        self.0.spec_display_name()
    }

    open spec fn spec_check(
        &self,
        sink: &SinkCapabilities,
        source: &SourceCapabilities,
        cable: &CableCapabilities,
        config: &CandidateConfig,
    ) -> Option<TaggedViolation<V>> {
        match self.0.spec_check(sink, source, cable, config) {
            Some(violation) => Some(TaggedViolation { rule: self.0.spec_display_name(), violation }),
            None => None,
        }
    }

    fn display_name(&self) -> (r: &'static str) {
        self.0.display_name()
    }

    fn check(
        &self,
        sink: &SinkCapabilities,
        source: &SourceCapabilities,
        cable: &CableCapabilities,
        config: &CandidateConfig<'_>,
    ) -> (r: Option<TaggedViolation<V>>) {
        match self.0.check(sink, source, cable, config) {
            Some(violation) => Some(TaggedViolation { rule: self.0.display_name(), violation }),
            None => None,
        }
    }
}

/// Chains two rules, or a base engine and an extra rule, in sequence.
pub struct Layered<Base, Extra> {
    /// The base engine or rule.
    pub base: Base,
    /// The additional rule applied after the base.
    pub extra: Extra,
}

impl<Base, Extra> Layered<Base, Extra> {
    /// Constructs a `Layered` combinator from a base and an extra component.
    pub fn new(base: Base, extra: Extra) -> (r: Self)
        ensures
            r.base == base,
            r.extra == extra,
    {
        Layered { base, extra }
    }
}

/// Two rules in sequence form a rule: the base is evaluated first and its violation, if
/// any, is returned; otherwise the extra rule's result is.
impl<R1, R2, V> ConstraintRule<V> for Layered<R1, R2> where R1: ConstraintRule<V>, R2: ConstraintRule<V> {
    open spec fn spec_display_name(&self) -> &'static str {
        "layered"
    }

    open spec fn spec_check(
        &self,
        sink: &SinkCapabilities,
        source: &SourceCapabilities,
        cable: &CableCapabilities,
        config: &CandidateConfig,
    ) -> Option<V> {
        match self.base.spec_check(sink, source, cable, config) {
            Some(v) => Some(v),
            None => self.extra.spec_check(sink, source, cable, config),
        }
    }

    fn display_name(&self) -> (r: &'static str) {
        "layered"
    }

    fn check(
        &self,
        sink: &SinkCapabilities,
        source: &SourceCapabilities,
        cable: &CableCapabilities,
        config: &CandidateConfig<'_>,
    ) -> (r: Option<V>) {
        match self.base.check(sink, source, cable, config) {
            Some(v) => Some(v),
            None => self.extra.check(sink, source, cable, config),
        }
    }
}

} // verus!
