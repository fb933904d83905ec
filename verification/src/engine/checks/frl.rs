//! The FRL ceiling rule.

use vstd::prelude::*;

use crate::display::HdmiForumFrl;
use crate::engine::rule::ConstraintRule;
use crate::output::warning::{LimitSource, Violation};
use crate::types::{CableCapabilities, CandidateConfig, SinkCapabilities, SourceCapabilities};

verus! {

/// Maps an FRL rate to its comparable tier index (higher is more bandwidth).
pub(crate) fn frl_tier(rate: HdmiForumFrl) -> (r: u8)
    ensures
        r == rate.spec_tier(),
{
    match rate {
        HdmiForumFrl::NotSupported => 0,
        HdmiForumFrl::Rate3Gbps3Lanes => 1,
        HdmiForumFrl::Rate6Gbps3Lanes => 2,
        HdmiForumFrl::Rate6Gbps4Lanes => 3,
        HdmiForumFrl::Rate8Gbps4Lanes => 4,
        HdmiForumFrl::Rate10Gbps4Lanes => 5,
        HdmiForumFrl::Rate12Gbps4Lanes => 6,
    }
}

/// The FRL rate with tier index `tier`.
pub(crate) fn frl_from_tier(tier: u8) -> (r: HdmiForumFrl)
    ensures
        r == HdmiForumFrl::spec_from_tier(tier),
{
    if tier == 0 {
        HdmiForumFrl::NotSupported
    } else if tier == 1 {
        HdmiForumFrl::Rate3Gbps3Lanes
    } else if tier == 2 {
        HdmiForumFrl::Rate6Gbps3Lanes
    } else if tier == 3 {
        HdmiForumFrl::Rate6Gbps4Lanes
    } else if tier == 4 {
        HdmiForumFrl::Rate8Gbps4Lanes
    } else if tier == 5 {
        HdmiForumFrl::Rate10Gbps4Lanes
    } else {
        HdmiForumFrl::Rate12Gbps4Lanes
    }
}

/// The sink's FRL ceiling tier: its HF-SCDB maximum, or 0 when it has no HF-SCDB.
pub open spec fn spec_sink_frl_tier(sink: &SinkCapabilities) -> u8 {
    match sink.hdmi_forum {
        Some(hf) => hf.max_frl_rate.spec_tier(),
        None => 0,
    }
}

/// The smaller of two tiers.
pub open spec fn spec_min_tier(a: u8, b: u8) -> u8 {
    if a <= b { a } else { b }
}

/// The effective FRL ceiling tier: the least of the sink, source and cable ceilings.
pub open spec fn spec_effective_frl_tier(
    sink: &SinkCapabilities,
    source: &SourceCapabilities,
    cable: &CableCapabilities,
) -> u8 {
    spec_min_tier(
        spec_min_tier(spec_sink_frl_tier(sink), source.max_frl_rate.spec_tier()),
        cable.max_frl_rate.spec_tier(),
    )
}

/// The FRL ceiling violation: a FRL candidate whose tier exceeds the effective ceiling is
/// rejected, naming the ceiling and the party that imposes it (cable before source before
/// sink when they share it). TMDS candidates are not subject to this check.
pub open spec fn spec_frl_violation(
    sink: &SinkCapabilities,
    source: &SourceCapabilities,
    cable: &CableCapabilities,
    config: &CandidateConfig,
) -> Option<Violation> {
    if config.frl_rate == HdmiForumFrl::NotSupported {
        None
    } else {
        let effective = spec_effective_frl_tier(sink, source, cable);
        if config.frl_rate.spec_tier() > effective {
            let limit_source = if cable.max_frl_rate.spec_tier() == effective {
                LimitSource::Cable
            } else if source.max_frl_rate.spec_tier() == effective {
                LimitSource::Source
            } else {
                LimitSource::Sink
            };
            Some(Violation::FrlRateExceeded {
                requested: config.frl_rate,
                limit: HdmiForumFrl::spec_from_tier(effective),
                limit_source,
            })
        } else {
            None
        }
    }
}

/// Checks that the requested FRL rate does not exceed the ceiling imposed by the sink,
/// source and cable. A sink without an HF-SCDB imposes a ceiling of 0.
pub struct FrlCeilingCheck;

impl ConstraintRule<Violation> for FrlCeilingCheck {
    open spec fn spec_display_name(&self) -> &'static str {
        "frl_ceiling"
    }

    open spec fn spec_check(
        &self,
        sink: &SinkCapabilities,
        source: &SourceCapabilities,
        cable: &CableCapabilities,
        config: &CandidateConfig,
    ) -> Option<Violation> {
        spec_frl_violation(sink, source, cable, config)
    }

    fn display_name(&self) -> (r: &'static str) {
        "frl_ceiling"
    }

    fn check(
        &self,
        sink: &SinkCapabilities,
        source: &SourceCapabilities,
        cable: &CableCapabilities,
        config: &CandidateConfig<'_>,
    ) -> (r: Option<Violation>) {
        if config.frl_rate == HdmiForumFrl::NotSupported {
            return None;
        }
        let requested = frl_tier(config.frl_rate);
        let sink_max = match &sink.hdmi_forum {
            Some(hf) => frl_tier(hf.max_frl_rate),
            None => 0,
        };
        let source_max = frl_tier(source.max_frl_rate);
        let cable_max = frl_tier(cable.max_frl_rate);
        let sink_source = if sink_max <= source_max { sink_max } else { source_max };
        let effective_max = if sink_source <= cable_max { sink_source } else { cable_max };
        if requested > effective_max {
            let limit_source = if cable_max == effective_max {
                LimitSource::Cable
            } else if source_max == effective_max {
                LimitSource::Source
            } else {
                LimitSource::Sink
            };
            Some(Violation::FrlRateExceeded {
                requested: config.frl_rate,
                limit: frl_from_tier(effective_max),
                limit_source,
            })
        } else {
            None
        }
    }
}

} // verus!
