//! The `NegotiatedConfig` output type.

use vstd::prelude::*;

use crate::display::{ColorBitDepth, ColorFormat, HdmiForumFrl, VideoMode};
use crate::output::trace::ReasoningTrace;
use crate::output::warning::Warning;

verus! {

/// A resolved, accepted configuration produced by the negotiation pipeline.
///
/// A pure data struct: it holds resolved values. Generic over the warning type.
#[derive(Debug, Clone)]
pub struct NegotiatedConfig<W = Warning> {
    /// The resolved video mode.
    pub mode: VideoMode,
    /// Color encoding format for this configuration.
    pub color_encoding: ColorFormat,
    /// Color bit depth per channel.
    pub bit_depth: ColorBitDepth,
    /// FRL rate tier, or `NotSupported` for TMDS transport.
    pub frl_rate: HdmiForumFrl,
    /// Whether Display Stream Compression is required for this configuration.
    pub dsc_required: bool,
    /// Whether Variable Refresh Rate is applicable: always `false` until VRR range
    /// validation is implemented.
    pub vrr_applicable: bool,
    /// Non-fatal warnings about this accepted configuration.
    pub warnings: Vec<W>,
    /// Reasoning trace recording the decisions made during negotiation.
    pub trace: ReasoningTrace,
}

} // verus!
