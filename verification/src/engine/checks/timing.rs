//! Timing rules: refresh rate range, pixel clock ceiling and TMDS clock ceiling.

use vstd::prelude::*;

use crate::display::{pixel_clock_khz, ColorBitDepth, ColorFormat, HdmiForumFrl};
use crate::display::video::spec_pixel_clock_khz;
use crate::engine::rule::ConstraintRule;
use crate::output::warning::{LimitSource, Violation};
use crate::types::{CableCapabilities, CandidateConfig, QuirkFlags, SinkCapabilities, SourceCapabilities};

verus! {

/// Whether the source sets the quirk that suppresses the refresh rate range check.
pub open spec fn spec_ignores_refresh_range(source: &SourceCapabilities) -> bool {
    source.quirks.spec_bits() & QuirkFlags::IGNORE_REFRESH_RATE_RANGE == QuirkFlags::IGNORE_REFRESH_RATE_RANGE
}

/// The refresh rate violation: when the sink declares both a minimum and a maximum
/// vertical rate and the source does not ignore them, a mode outside `[min, max]` is rejected.
pub open spec fn spec_refresh_violation(
    sink: &SinkCapabilities,
    source: &SourceCapabilities,
    config: &CandidateConfig,
) -> Option<Violation> {
    if spec_ignores_refresh_range(source) {
        None
    } else {
        match (sink.min_v_rate, sink.max_v_rate) {
            (Some(min_hz), Some(max_hz)) => {
                let rate_hz = config.mode.refresh_rate;
                if rate_hz < min_hz || rate_hz > max_hz {
                    Some(Violation::RefreshRateOutOfRange { rate_hz, min_hz, max_hz })
                } else {
                    None
                }
            },
            _ => None,
        }
    }
}

/// Checks that the requested refresh rate falls within the sink's supported range.
pub struct RefreshRateCheck;

impl ConstraintRule<Violation> for RefreshRateCheck {
    open spec fn spec_display_name(&self) -> &'static str {
        "refresh_rate_range"
    }

    open spec fn spec_check(
        &self,
        sink: &SinkCapabilities,
        source: &SourceCapabilities,
        cable: &CableCapabilities,
        config: &CandidateConfig,
    ) -> Option<Violation> {
        spec_refresh_violation(sink, source, config)
    }

    fn display_name(&self) -> (r: &'static str) {
        "refresh_rate_range"
    }

    fn check(
        &self,
        sink: &SinkCapabilities,
        source: &SourceCapabilities,
        cable: &CableCapabilities,
        config: &CandidateConfig<'_>,
    ) -> (r: Option<Violation>) {
        if source.quirks.contains(QuirkFlags::from_bits_retain(QuirkFlags::IGNORE_REFRESH_RATE_RANGE)) {
            return None;
        }
        let min_hz = match sink.min_v_rate {
            Some(v) => v,
            None => return None,
        };
        let max_hz = match sink.max_v_rate {
            Some(v) => v,
            None => return None,
        };
        let rate_hz = config.mode.refresh_rate;
        if rate_hz < min_hz || rate_hz > max_hz {
            Some(Violation::RefreshRateOutOfRange { rate_hz, min_hz, max_hz })
        } else {
            None
        }
    }
}

/// The pixel clock violation: when the sink declares a maximum pixel clock, a mode whose
/// pixel clock in kHz exceeds that maximum (in MHz, times 1000) is rejected, whatever the
/// link type; the violation reports the clock in whole MHz, rounded down.
pub open spec fn spec_pixel_clock_violation(sink: &SinkCapabilities, config: &CandidateConfig) -> Option<Violation> {
    match sink.max_pixel_clock_mhz {
        Some(limit) => {
            let clock_khz = spec_pixel_clock_khz(*config.mode);
            if clock_khz > limit * 1000 {
                Some(Violation::PixelClockExceeded {
                    required_mhz: clock_khz / 1000,
                    limit_mhz: limit as u32,
                    limit_source: LimitSource::Sink,
                })
            } else {
                None
            }
        },
        None => None,
    }
}

/// Checks that the pixel clock does not exceed the sink's declared maximum.
pub struct PixelClockCheck;

impl ConstraintRule<Violation> for PixelClockCheck {
    open spec fn spec_display_name(&self) -> &'static str {
        "pixel_clock_ceiling"
    }

    open spec fn spec_check(
        &self,
        sink: &SinkCapabilities,
        source: &SourceCapabilities,
        cable: &CableCapabilities,
        config: &CandidateConfig,
    ) -> Option<Violation> {
        spec_pixel_clock_violation(sink, config)
    }

    fn display_name(&self) -> (r: &'static str) {
        "pixel_clock_ceiling"
    }

    fn check(
        &self,
        sink: &SinkCapabilities,
        source: &SourceCapabilities,
        cable: &CableCapabilities,
        config: &CandidateConfig<'_>,
    ) -> (r: Option<Violation>) {
        let limit_mhz: u32 = match sink.max_pixel_clock_mhz {
            Some(v) => v as u32,
            None => return None,
        };
        let clock_khz = pixel_clock_khz(config.mode);
        if clock_khz as u64 > limit_mhz as u64 * 1000 {
            Some(Violation::PixelClockExceeded { required_mhz: clock_khz / 1000, limit_mhz, limit_source: LimitSource::Sink })
        } else {
            None
        }
    }
}

/// Multiplier of the TMDS character rate over the pixel rate, in quarters, for a bit depth:
/// 10 bpc is ×5/4, 12 bpc ×6/4, 16 bpc ×8/4, every other depth ×4/4.
pub open spec fn spec_depth_numer(depth: ColorBitDepth) -> u32 {
    match depth {
        ColorBitDepth::Depth10 => 5,
        ColorBitDepth::Depth12 => 6,
        ColorBitDepth::Depth16 => 8,
        _ => 4,
    }
}

/// Divisor of the TMDS character rate for a color encoding: YCbCr 4:2:0 halves it.
pub open spec fn spec_encoding_denom(encoding: ColorFormat) -> u32 {
    match encoding {
        ColorFormat::YCbCr420 => 2,
        _ => 1,
    }
}

/// TMDS character rate of a candidate in kHz: pixel clock × depth multiplier / (4 × encoding divisor).
pub open spec fn spec_tmds_clock_khz(config: &CandidateConfig) -> int {
    spec_pixel_clock_khz(*config.mode) as int * spec_depth_numer(config.bit_depth) as int
        / (4 * spec_encoding_denom(config.color_encoding) as int)
}

/// The smaller of two clocks.
pub open spec fn spec_min_clock(a: u32, b: u32) -> u32 {
    if a <= b { a } else { b }
}

/// The sink's TMDS ceiling in kHz: the tighter of the HDMI VSDB maximum and the HF-SCDB
/// maximum (where an HF-SCDB rate of 0 means 340 MHz); `u32::MAX` when neither declares one.
pub open spec fn spec_sink_tmds_limit(sink: &SinkCapabilities) -> u32 {
    let vsdb_limit: u32 = match sink.hdmi_vsdb {
        Some(v) => match v.max_tmds_clock_mhz {
            Some(mhz) => (mhz * 1000) as u32,
            None => u32::MAX,
        },
        None => u32::MAX,
    };
    let hf_limit: u32 = match sink.hdmi_forum {
        Some(hf) => if hf.max_tmds_rate_mhz == 0 { 340_000 } else { (hf.max_tmds_rate_mhz * 1000) as u32 },
        None => u32::MAX,
    };
    spec_min_clock(vsdb_limit, hf_limit)
}

/// A declared TMDS ceiling in kHz, where `0` declares none (`u32::MAX`).
pub open spec fn spec_declared_limit(clock: u32) -> u32 {
    if clock > 0 { clock } else { u32::MAX }
}

/// The binding TMDS ceiling in kHz across sink, source and cable.
pub open spec fn spec_tmds_limit(sink: &SinkCapabilities, source: &SourceCapabilities, cable: &CableCapabilities) -> u32 {
    spec_min_clock(
        spec_min_clock(spec_sink_tmds_limit(sink), spec_declared_limit(source.max_tmds_clock)),
        spec_declared_limit(cable.max_tmds_clock),
    )
}

/// The TMDS clock violation: a TMDS candidate whose TMDS character rate exceeds the binding
/// ceiling is rejected, naming the ceiling and the party that imposes it (cable before
/// source before sink when they share it). FRL candidates, and links without any declared
/// ceiling, are not subject to this check.
pub open spec fn spec_tmds_violation(
    sink: &SinkCapabilities,
    source: &SourceCapabilities,
    cable: &CableCapabilities,
    config: &CandidateConfig,
) -> Option<Violation> {
    if config.frl_rate != HdmiForumFrl::NotSupported {
        None
    } else {
        let tmds_khz = spec_tmds_clock_khz(config);
        let limit = spec_tmds_limit(sink, source, cable);
        if limit == u32::MAX || tmds_khz <= limit {
            None
        } else {
            let limit_source = if spec_declared_limit(cable.max_tmds_clock) == limit {
                LimitSource::Cable
            } else if spec_declared_limit(source.max_tmds_clock) == limit {
                LimitSource::Source
            } else {
                LimitSource::Sink
            };
            Some(Violation::TmdsClockExceeded {
                required_mhz: (tmds_khz / 1000) as u32,
                limit_mhz: limit / 1000,
                limit_source,
            })
        }
    }
}

/// Checks that the TMDS character rate does not exceed the ceiling of the link.
pub struct TmdsClockCheck;

impl ConstraintRule<Violation> for TmdsClockCheck {
    open spec fn spec_display_name(&self) -> &'static str {
        "tmds_clock_ceiling"
    }

    open spec fn spec_check(
        &self,
        sink: &SinkCapabilities,
        source: &SourceCapabilities,
        cable: &CableCapabilities,
        config: &CandidateConfig,
    ) -> Option<Violation> {
        spec_tmds_violation(sink, source, cable, config)
    }

    fn display_name(&self) -> (r: &'static str) {
        "tmds_clock_ceiling"
    }

    fn check(
        &self,
        sink: &SinkCapabilities,
        source: &SourceCapabilities,
        cable: &CableCapabilities,
        config: &CandidateConfig<'_>,
    ) -> (r: Option<Violation>) {
        if config.frl_rate != HdmiForumFrl::NotSupported {
            return None;
        }
        let clock_khz = pixel_clock_khz(config.mode);
        let encoding_denom: u64 = match config.color_encoding {
            ColorFormat::YCbCr420 => 2,
            _ => 1,
        };
        let depth_numer: u64 = match config.bit_depth {
            ColorBitDepth::Depth10 => 5,
            ColorBitDepth::Depth12 => 6,
            ColorBitDepth::Depth16 => 8,
            _ => 4,
        };
        let tmds_khz: u64 = clock_khz as u64 * depth_numer / (4 * encoding_denom);
        let vsdb_limit: u32 = match &sink.hdmi_vsdb {
            Some(v) => match v.max_tmds_clock_mhz {
                Some(mhz) => mhz as u32 * 1000,
                None => u32::MAX,
            },
            None => u32::MAX,
        };
        let hf_limit: u32 = match &sink.hdmi_forum {
            Some(hf) => if hf.max_tmds_rate_mhz == 0 { 340_000 } else { hf.max_tmds_rate_mhz as u32 * 1000 },
            None => u32::MAX,
        };
        let sink_limit = if vsdb_limit <= hf_limit { vsdb_limit } else { hf_limit };
        let source_limit = if source.max_tmds_clock > 0 { source.max_tmds_clock } else { u32::MAX };
        let cable_limit = if cable.max_tmds_clock > 0 { cable.max_tmds_clock } else { u32::MAX };
        let sink_source = if sink_limit <= source_limit { sink_limit } else { source_limit };
        let limit_khz = if sink_source <= cable_limit { sink_source } else { cable_limit };
        if limit_khz == u32::MAX || tmds_khz <= limit_khz as u64 {
            None
        } else {
            let limit_source = if cable_limit == limit_khz {
                LimitSource::Cable
            } else if source_limit == limit_khz {
                LimitSource::Source
            } else {
                LimitSource::Sink
            };
            Some(Violation::TmdsClockExceeded {
                required_mhz: (tmds_khz / 1000) as u32,
                limit_mhz: limit_khz / 1000,
                limit_source,
            })
        }
    }
}

} // verus!
