//! Built-in constraint rules and the default rule list.

use vstd::prelude::*;

pub mod color;
pub mod dsc;
pub mod frl;
pub mod timing;

pub use color::{BitDepthCheck, ColorEncodingCheck};
pub use dsc::DscCheck;
pub use frl::FrlCeilingCheck;
pub use timing::{PixelClockCheck, RefreshRateCheck, TmdsClockCheck};

use crate::engine::rule::ConstraintRule;
use crate::output::warning::Violation;
use crate::types::{CableCapabilities, CandidateConfig, SinkCapabilities, SourceCapabilities};

verus! {

/// One of the built-in constraint rules, as an entry of an engine's rule list. Each
/// variant is named after its rule's display name.
#[allow(non_camel_case_types)]
#[derive(Debug, Clone, Copy, PartialEq, Eq, Structural)]
pub enum BuiltinCheck {
    /// [`FrlCeilingCheck`].
    frl_ceiling,
    /// [`RefreshRateCheck`].
    refresh_rate_range,
    /// [`PixelClockCheck`].
    pixel_clock_ceiling,
    /// [`TmdsClockCheck`].
    tmds_clock_ceiling,
    /// [`ColorEncodingCheck`].
    color_encoding,
    /// [`BitDepthCheck`].
    bit_depth,
    /// [`DscCheck`].
    dsc,
}

impl ConstraintRule<Violation> for BuiltinCheck {
    open spec fn spec_display_name(&self) -> &'static str {
        match self {
            BuiltinCheck::frl_ceiling => FrlCeilingCheck.spec_display_name(),
            BuiltinCheck::refresh_rate_range => RefreshRateCheck.spec_display_name(),
            BuiltinCheck::pixel_clock_ceiling => PixelClockCheck.spec_display_name(),
            BuiltinCheck::tmds_clock_ceiling => TmdsClockCheck.spec_display_name(),
            BuiltinCheck::color_encoding => ColorEncodingCheck.spec_display_name(),
            BuiltinCheck::bit_depth => BitDepthCheck.spec_display_name(),
            BuiltinCheck::dsc => DscCheck.spec_display_name(),
        }
    }

    open spec fn spec_check(
        &self,
        sink: &SinkCapabilities,
        source: &SourceCapabilities,
        cable: &CableCapabilities,
        config: &CandidateConfig,
    ) -> Option<Violation> {
        match self {
            BuiltinCheck::frl_ceiling => FrlCeilingCheck.spec_check(sink, source, cable, config),
            BuiltinCheck::refresh_rate_range => RefreshRateCheck.spec_check(sink, source, cable, config),
            BuiltinCheck::pixel_clock_ceiling => PixelClockCheck.spec_check(sink, source, cable, config),
            BuiltinCheck::tmds_clock_ceiling => TmdsClockCheck.spec_check(sink, source, cable, config),
            BuiltinCheck::color_encoding => ColorEncodingCheck.spec_check(sink, source, cable, config),
            BuiltinCheck::bit_depth => BitDepthCheck.spec_check(sink, source, cable, config),
            BuiltinCheck::dsc => DscCheck.spec_check(sink, source, cable, config),
        }
    }

    fn display_name(&self) -> (r: &'static str) {
        match self {
            BuiltinCheck::frl_ceiling => FrlCeilingCheck.display_name(),
            BuiltinCheck::refresh_rate_range => RefreshRateCheck.display_name(),
            BuiltinCheck::pixel_clock_ceiling => PixelClockCheck.display_name(),
            BuiltinCheck::tmds_clock_ceiling => TmdsClockCheck.display_name(),
            BuiltinCheck::color_encoding => ColorEncodingCheck.display_name(),
            BuiltinCheck::bit_depth => BitDepthCheck.display_name(),
            BuiltinCheck::dsc => DscCheck.display_name(),
        }
    }

    fn check(
        &self,
        sink: &SinkCapabilities,
        source: &SourceCapabilities,
        cable: &CableCapabilities,
        config: &CandidateConfig<'_>,
    ) -> (r: Option<Violation>) {
        match self {
            BuiltinCheck::frl_ceiling => FrlCeilingCheck.check(sink, source, cable, config),
            BuiltinCheck::refresh_rate_range => RefreshRateCheck.check(sink, source, cable, config),
            BuiltinCheck::pixel_clock_ceiling => PixelClockCheck.check(sink, source, cable, config),
            BuiltinCheck::tmds_clock_ceiling => TmdsClockCheck.check(sink, source, cable, config),
            BuiltinCheck::color_encoding => ColorEncodingCheck.check(sink, source, cable, config),
            BuiltinCheck::bit_depth => BitDepthCheck.check(sink, source, cable, config),
            BuiltinCheck::dsc => DscCheck.check(sink, source, cable, config),
        }
    }
}

/// The ordered list of rules applied by the default engine.
pub open spec fn spec_default_checks() -> Seq<BuiltinCheck> {
    seq![
        BuiltinCheck::frl_ceiling,
        BuiltinCheck::refresh_rate_range,
        BuiltinCheck::pixel_clock_ceiling,
        BuiltinCheck::tmds_clock_ceiling,
        BuiltinCheck::color_encoding,
        BuiltinCheck::bit_depth,
        BuiltinCheck::dsc,
    ]
}

/// The ordered list of rules applied by the default engine: FRL ceiling, refresh rate,
/// pixel clock, TMDS clock, color encoding, bit depth, DSC.
pub fn default_checks() -> (r: Vec<BuiltinCheck>)
    ensures
        r@ == spec_default_checks(),
{
    let r = vec![
        BuiltinCheck::frl_ceiling,
        BuiltinCheck::refresh_rate_range,
        BuiltinCheck::pixel_clock_ceiling,
        BuiltinCheck::tmds_clock_ceiling,
        BuiltinCheck::color_encoding,
        BuiltinCheck::bit_depth,
        BuiltinCheck::dsc,
    ];
    assert(r@ =~= spec_default_checks());
    r
}

} // verus!
