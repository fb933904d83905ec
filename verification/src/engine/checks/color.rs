//! Color rules: encoding support (with per-mode YCbCr 4:2:0 eligibility) and bit depth support.

use vstd::prelude::*;

use crate::display::ColorFormat;
use crate::engine::rule::ConstraintRule;
use crate::output::warning::Violation;
use crate::types::sink::contains_mode;
use crate::types::{CableCapabilities, CandidateConfig, SinkCapabilities, SourceCapabilities};

verus! {

/// The color encoding violation.
///
/// - A mode listed as YCbCr 4:2:0-only rejects every other encoding.
/// - YCbCr 4:2:0 is accepted on a mode listed as 4:2:0-only or 4:2:0-capable; when either
///   per-mode list is populated and the mode is in neither, it is rejected.
/// - Otherwise (other encodings, or both per-mode lists empty) the display-level
///   capability decides: an encoding with no supported bit depth is rejected.
pub open spec fn spec_color_encoding_violation(sink: &SinkCapabilities, config: &CandidateConfig) -> Option<Violation> {
    let exclusive = sink.ycbcr420_exclusive_modes@;
    let capable = sink.ycbcr420_capable_modes@;
    let mode = *config.mode;
    if config.color_encoding != ColorFormat::YCbCr420 && exclusive.contains(mode) {
        Some(Violation::EncodingRestrictedToYCbCr420)
    } else if config.color_encoding == ColorFormat::YCbCr420 && (exclusive.contains(mode) || capable.contains(mode)) {
        None
    } else if config.color_encoding == ColorFormat::YCbCr420 && (exclusive.len() > 0 || capable.len() > 0) {
        Some(Violation::ColorEncodingUnsupported)
    } else if sink.color_capabilities.spec_for_format(config.color_encoding).spec_is_empty() {
        Some(Violation::ColorEncodingUnsupported)
    } else {
        None
    }
}

/// Checks that the requested color encoding is supported by the sink at some bit depth.
pub struct ColorEncodingCheck;

impl ConstraintRule<Violation> for ColorEncodingCheck {
    open spec fn spec_display_name(&self) -> &'static str {
        "color_encoding"
    }

    open spec fn spec_check(
        &self,
        sink: &SinkCapabilities,
        source: &SourceCapabilities,
        cable: &CableCapabilities,
        config: &CandidateConfig,
    ) -> Option<Violation> {
        spec_color_encoding_violation(sink, config)
    }

    fn display_name(&self) -> (r: &'static str) {
        "color_encoding"
    }

    fn check(
        &self,
        sink: &SinkCapabilities,
        source: &SourceCapabilities,
        cable: &CableCapabilities,
        config: &CandidateConfig<'_>,
    ) -> (r: Option<Violation>) {
        let exclusive = sink.ycbcr420_exclusive_modes.as_slice();
        let capable = sink.ycbcr420_capable_modes.as_slice();
        if config.color_encoding != ColorFormat::YCbCr420 && contains_mode(exclusive, config.mode) {
            return Some(Violation::EncodingRestrictedToYCbCr420);
        }
        if config.color_encoding == ColorFormat::YCbCr420 {
            let in_exclusive = contains_mode(exclusive, config.mode);
            let in_capable = contains_mode(capable, config.mode);
            if in_exclusive || in_capable {
                return None;
            }
            let lists_populated = exclusive.len() > 0 || capable.len() > 0;
            if lists_populated {
                return Some(Violation::ColorEncodingUnsupported);
            }
        }
        if sink.color_capabilities.for_format(config.color_encoding).is_empty() {
            Some(Violation::ColorEncodingUnsupported)
        } else {
            None
        }
    }
}

/// The bit depth violation: a depth the sink does not declare for the encoding is rejected.
pub open spec fn spec_bit_depth_violation(sink: &SinkCapabilities, config: &CandidateConfig) -> Option<Violation> {
    if !sink.color_capabilities.spec_for_format(config.color_encoding).contains(config.bit_depth) {
        Some(Violation::BitDepthUnsupported)
    } else {
        None
    }
}

/// Checks that the requested bit depth is supported by the sink for the requested encoding.
///
/// It does not gate on encoding support: run [`ColorEncodingCheck`] first so that an
/// unsupported format is rejected before the depth check runs.
pub struct BitDepthCheck;

impl ConstraintRule<Violation> for BitDepthCheck {
    open spec fn spec_display_name(&self) -> &'static str {
        "bit_depth"
    }

    open spec fn spec_check(
        &self,
        sink: &SinkCapabilities,
        source: &SourceCapabilities,
        cable: &CableCapabilities,
        config: &CandidateConfig,
    ) -> Option<Violation> {
        spec_bit_depth_violation(sink, config)
    }

    fn display_name(&self) -> (r: &'static str) {
        "bit_depth"
    }

    fn check(
        &self,
        sink: &SinkCapabilities,
        source: &SourceCapabilities,
        cable: &CableCapabilities,
        config: &CandidateConfig<'_>,
    ) -> (r: Option<Violation>) {
        if !sink.color_capabilities.for_format(config.color_encoding).supports(config.bit_depth) {
            Some(Violation::BitDepthUnsupported)
        } else {
            None
        }
    }
}

} // verus!
