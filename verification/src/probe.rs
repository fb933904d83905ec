//! The `is_config_viable` binary probe.

use vstd::prelude::*;

use crate::engine::checks::spec_default_checks;
use crate::engine::{spec_collect_violations, CheckResult, ConstraintEngine, DefaultConstraintEngine};
use crate::output::warning::{TaggedViolation, Violation, Warning};
use crate::types::{CableCapabilities, CandidateConfig, SinkCapabilities, SourceCapabilities};

verus! {

/// The violations of a list of tagged violations, tags removed, in order.
pub open spec fn spec_untagged(tagged: Seq<TaggedViolation<Violation>>) -> Seq<Violation> {
    Seq::new(tagged.len(), |i: int| tagged[i].violation)
}

/// The outcome of the binary probe: no warnings when every default rule passes, else the
/// violations found by the default rules, in rule order.
pub open spec fn spec_viability(
    sink: &SinkCapabilities,
    source: &SourceCapabilities,
    cable: &CableCapabilities,
    config: &CandidateConfig,
) -> Result<Seq<Warning>, Seq<Violation>> {
    let tagged = spec_collect_violations(spec_default_checks(), sink, source, cable, config);
    if tagged.len() == 0 {
        Ok(Seq::empty())
    } else {
        Err(spec_untagged(tagged))
    }
}

/// Determines whether a specific configuration is viable for the given capabilities.
///
/// Runs the default rules and returns every violation found rather than a boolean, so the
/// caller can surface specific rejection reasons.
pub fn is_config_viable(
    sink: &SinkCapabilities,
    source: &SourceCapabilities,
    cable: &CableCapabilities,
    config: &CandidateConfig<'_>,
) -> (r: CheckResult<Warning, Violation>)
    ensures
        crate::engine::result_view(r) == spec_viability(sink, source, cable, config),
{
    let engine = DefaultConstraintEngine::default();
    match engine.check(sink, source, cable, config) {
        Ok(warnings) => Ok(warnings),
        Err(tagged) => {
            let mut violations: Vec<Violation> = Vec::new();
            let mut i: usize = 0;
            while i < tagged.len()
                invariant
                    i <= tagged@.len(),
                    violations@ =~= spec_untagged(tagged@).take(i as int),
                decreases tagged@.len() - i,
            {
                violations.push(tagged[i].violation);
                i += 1;
            }
            assert(spec_untagged(tagged@).take(tagged@.len() as int) =~= spec_untagged(tagged@));
            Err(violations)
        },
    }
}

} // verus!
