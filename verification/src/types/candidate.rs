//! Candidate configuration evaluated by the constraint engine.

use vstd::prelude::*;

use crate::display::{ColorBitDepth, ColorFormat, HdmiForumFrl, VideoMode};

verus! {

/// A specific configuration candidate to be evaluated by the constraint engine.
///
/// Borrows the [`VideoMode`] from the sink's mode list rather than owning a copy:
/// most candidates are rejected, so the copy is deferred to acceptance.
#[derive(Debug, Clone, Copy, PartialEq)]
pub struct CandidateConfig<'a> {
    /// The video mode being evaluated.
    pub mode: &'a VideoMode,
    /// Color encoding format.
    pub color_encoding: ColorFormat,
    /// Color bit depth per channel.
    pub bit_depth: ColorBitDepth,
    /// FRL rate tier, or `NotSupported` for TMDS transport.
    pub frl_rate: HdmiForumFrl,
    /// Whether Display Stream Compression is applied.
    pub dsc_enabled: bool,
}

impl<'a> CandidateConfig<'a> {
    /// Constructs a `CandidateConfig`.
    pub fn new(
        mode: &'a VideoMode,
        color_encoding: ColorFormat,
        bit_depth: ColorBitDepth,
        frl_rate: HdmiForumFrl,
        dsc_enabled: bool,
    ) -> (r: Self)
        ensures
            *r.mode == *mode,
            r.color_encoding == color_encoding,
            r.bit_depth == bit_depth,
            r.frl_rate == frl_rate,
            r.dsc_enabled == dsc_enabled,
    {
        CandidateConfig { mode, color_encoding, bit_depth, frl_rate, dsc_enabled }
    }
}

} // verus!
