//! Rejection log types for opt-in per-candidate audit output.

use vstd::prelude::*;

use crate::display::{ColorBitDepth, ColorFormat, HdmiForumFrl, VideoMode};
use crate::output::warning::Violation;

verus! {

/// A candidate configuration rejected during negotiation, with the violations that
/// caused it to fail.
#[derive(Debug, Clone)]
pub struct RejectedConfig<V = Violation> {
    /// The video mode of the rejected candidate.
    pub mode: VideoMode,
    /// Color encoding format of the rejected candidate.
    pub color_encoding: ColorFormat,
    /// Color bit depth per channel of the rejected candidate.
    pub bit_depth: ColorBitDepth,
    /// FRL rate tier, or `NotSupported` for TMDS transport.
    pub frl_rate: HdmiForumFrl,
    /// Whether Display Stream Compression was enabled for the rejected candidate.
    pub dsc_enabled: bool,
    /// The violations that caused this candidate to be rejected.
    pub violations: Vec<V>,
}

} // verus!
