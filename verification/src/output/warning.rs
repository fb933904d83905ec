//! Built-in warning and violation types.

use vstd::prelude::*;

use crate::display::HdmiForumFrl;

verus! {

/// Identifies which party imposed the binding limit in a bandwidth violation.
///
/// When several parties share the binding limit, `Cable` takes priority over `Source`,
/// which takes priority over `Sink`: cable replacement is the most actionable remedy.
#[derive(Debug, Clone, Copy, PartialEq, Eq, Structural)]
pub enum LimitSource {
    /// The sink's declared capability is the binding constraint.
    Sink,
    /// The source's declared capability is the binding constraint.
    Source,
    /// The cable's declared capability is the binding constraint.
    Cable,
}

impl LimitSource {
    /// The lowercase name of the party: `"sink"`, `"source"` or `"cable"`.
    pub open spec fn spec_name(self) -> Seq<char> {
        match self {
            LimitSource::Sink => "sink"@,
            LimitSource::Source => "source"@,
            LimitSource::Cable => "cable"@,
        }
    }

    /// Returns the lowercase name of the party, as used in violation messages.
    pub fn as_str(&self) -> (r: &'static str)
        ensures
            r@ == self.spec_name(),
    {
        match self {
            LimitSource::Sink => "sink",
            LimitSource::Source => "source",
            LimitSource::Cable => "cable",
        }
    }
}

/// Non-fatal warning attached to an accepted configuration.
#[derive(Debug, Clone, Copy, PartialEq, Eq, Structural)]
pub enum Warning {
    /// DSC is required for this configuration; lossy compression is active.
    DscActive,
    /// Cable bandwidth is marginal for the selected mode and may degrade under load.
    CableBandwidthMarginal,
}

/// A constraint violation produced when a candidate configuration is rejected.
#[derive(Debug, Clone, Copy, PartialEq, Eq, Structural)]
pub enum Violation {
    /// Required pixel clock exceeds the sink's declared maximum.
    PixelClockExceeded {
        /// Required pixel clock in MHz.
        required_mhz: u32,
        /// Binding limit in MHz.
        limit_mhz: u32,
        /// Which party imposed the binding limit.
        limit_source: LimitSource,
    },
    /// Required TMDS character rate exceeds what the sink, source, or cable supports.
    TmdsClockExceeded {
        /// Required TMDS character rate in MHz.
        required_mhz: u32,
        /// Binding limit in MHz.
        limit_mhz: u32,
        /// Which party imposed the binding limit.
        limit_source: LimitSource,
    },
    /// Required FRL rate exceeds what the sink, source, or cable supports.
    FrlRateExceeded {
        /// The FRL rate requested by the candidate configuration.
        requested: HdmiForumFrl,
        /// The effective ceiling imposed by the binding party.
        limit: HdmiForumFrl,
        /// Which party imposed the binding limit.
        limit_source: LimitSource,
    },
    /// The selected color encoding is not supported by the sink.
    ColorEncodingUnsupported,
    /// A non-YCbCr 4:2:0 encoding was requested for a mode that only supports YCbCr 4:2:0.
    EncodingRestrictedToYCbCr420,
    /// The selected bit depth is not supported by the sink.
    BitDepthUnsupported,
    /// DSC is required but not supported by all parties.
    DscUnsupported,
    /// The vertical refresh rate is outside the sink's declared range.
    RefreshRateOutOfRange {
        /// Refresh rate of the candidate in Hz.
        rate_hz: u16,
        /// Minimum declared by the sink.
        min_hz: u16,
        /// Maximum declared by the sink.
        max_hz: u16,
    },
}

/// A violation tagged with the display name of the rule that produced it.
#[derive(Debug, Clone, Copy, PartialEq, Eq)]
pub struct TaggedViolation<V = Violation> {
    /// Display name of the rule that produced the violation.
    pub rule: &'static str,
    /// The violation itself.
    pub violation: V,
}

} // verus!
