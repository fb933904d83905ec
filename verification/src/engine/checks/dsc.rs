//! The DSC consistency rule.

use vstd::prelude::*;

use crate::engine::rule::ConstraintRule;
use crate::output::warning::Violation;
use crate::types::{CableCapabilities, CandidateConfig, SinkCapabilities, SourceCapabilities};

verus! {

/// Whether the source declares DSC 1.2a.
pub open spec fn spec_source_dsc(source: &SourceCapabilities) -> bool {
    match source.dsc {
        Some(d) => d.dsc_1p2,
        None => false,
    }
}

/// Whether the sink declares DSC 1.2a in its HF-SCDB.
pub open spec fn spec_sink_dsc(sink: &SinkCapabilities) -> bool {
    match sink.hdmi_forum {
        Some(hf) => match hf.dsc {
            Some(d) => d.dsc_1p2,
            None => false,
        },
        None => false,
    }
}

/// The DSC violation: a candidate with DSC enabled is rejected unless both source and
/// sink declare DSC 1.2a.
pub open spec fn spec_dsc_violation(sink: &SinkCapabilities, source: &SourceCapabilities, config: &CandidateConfig) -> Option<Violation> {
    if config.dsc_enabled && !(spec_source_dsc(source) && spec_sink_dsc(sink)) {
        Some(Violation::DscUnsupported)
    } else {
        None
    }
}

/// Returns whether the source declares DSC 1.2a.
pub(crate) fn source_supports_dsc(source: &SourceCapabilities) -> (r: bool)
    ensures
        r == spec_source_dsc(source),
{
    match &source.dsc {
        Some(d) => d.dsc_1p2,
        None => false,
    }
}

/// Returns whether the sink declares DSC 1.2a.
pub(crate) fn sink_supports_dsc(sink: &SinkCapabilities) -> (r: bool)
    ensures
        r == spec_sink_dsc(sink),
{
    match &sink.hdmi_forum {
        Some(hf) => match &hf.dsc {
            Some(d) => d.dsc_1p2,
            None => false,
        },
        None => false,
    }
}

/// Checks DSC consistency: if DSC is enabled, both sink and source must declare support.
pub struct DscCheck;

impl ConstraintRule<Violation> for DscCheck {
    open spec fn spec_display_name(&self) -> &'static str {
        "dsc"
    }

    open spec fn spec_check(
        &self,
        sink: &SinkCapabilities,
        source: &SourceCapabilities,
        cable: &CableCapabilities,
        config: &CandidateConfig,
    ) -> Option<Violation> {
        spec_dsc_violation(sink, source, config)
    }

    fn display_name(&self) -> (r: &'static str) {
        "dsc"
    }

    fn check(
        &self,
        sink: &SinkCapabilities,
        source: &SourceCapabilities,
        cable: &CableCapabilities,
        config: &CandidateConfig<'_>,
    ) -> (r: Option<Violation>) {
        if !config.dsc_enabled {
            return None;
        }
        let source_ok = source_supports_dsc(source);
        let sink_ok = sink_supports_dsc(sink);
        if source_ok && sink_ok {
            None
        } else {
            Some(Violation::DscUnsupported)
        }
    }
}

} // verus!
