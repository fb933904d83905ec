//! Video modes and their pixel clock.

use vstd::prelude::*;

verus! {

/// Stereo viewing support of a detailed timing.
#[derive(Debug, Clone, Copy, PartialEq, Eq, Structural)]
pub enum StereoFormat {
    /// Normal display; no stereo.
    Normal,
    /// Field-sequential stereo, right image when stereo sync is high.
    FieldSequentialRightFirst,
    /// Field-sequential stereo, left image when stereo sync is high.
    FieldSequentialLeftFirst,
    /// 2-way interleaved stereo, right image on even lines.
    TwoWayInterleavedRightEven,
    /// 2-way interleaved stereo, left image on even lines.
    TwoWayInterleavedLeftEven,
    /// 4-way interleaved stereo.
    FourWayInterleaved,
    /// Side-by-side interleaved stereo.
    SideBySideInterleaved,
}

/// Sync signal definition of a detailed timing.
#[derive(Debug, Clone, Copy, PartialEq, Eq, Structural)]
pub enum SyncType {
    /// Analog composite sync.
    AnalogComposite {
        /// H-sync pulse present during V-sync.
        serrations: bool,
        /// Sync on all three RGB signals (`true`) or green only (`false`).
        sync_on_all_rgb: bool,
    },
    /// Bipolar analog composite sync.
    BipolarAnalogComposite {
        /// H-sync pulse present during V-sync.
        serrations: bool,
        /// Sync on all three RGB signals (`true`) or green only (`false`).
        sync_on_all_rgb: bool,
    },
    /// Digital composite sync on the H-sync pin.
    DigitalComposite {
        /// H-sync pulse present during V-sync.
        serrations: bool,
        /// H-sync polarity outside V-sync: `true` = positive.
        h_sync_positive: bool,
    },
    /// Digital separate sync.
    DigitalSeparate {
        /// V-sync polarity: `true` = positive.
        v_sync_positive: bool,
        /// H-sync polarity: `true` = positive.
        h_sync_positive: bool,
    },
}

/// Where a video mode was decoded from.
#[derive(Debug, Clone, Copy, PartialEq, Eq, Structural)]
pub enum TimingSource {
    /// A CTA-861 Video Identification Code.
    Vic(u8),
    /// A VESA Display Monitor Timings identifier.
    DmtId(u16),
    /// Zero-based index of a Detailed Timing Descriptor within its EDID block.
    DtdIndex(u8),
}

/// A video timing: resolution, refresh rate and scan type, with the blanking, sync and
/// pixel clock details of a detailed timing when known. Two modes are the same mode only
/// when every field agrees.
#[derive(Debug, Clone, Copy, PartialEq, Eq, Structural)]
pub struct VideoMode {
    /// Horizontal resolution in pixels.
    pub width: u16,
    /// Vertical resolution in pixels.
    pub height: u16,
    /// Refresh rate in Hz.
    pub refresh_rate: u16,
    /// `true` for interlaced modes; `false` for progressive.
    pub interlaced: bool,
    /// Horizontal front porch in pixels (0 when not from a detailed timing).
    pub h_front_porch: u16,
    /// Horizontal sync pulse width in pixels (0 when not from a detailed timing).
    pub h_sync_width: u16,
    /// Vertical front porch in lines (0 when not from a detailed timing).
    pub v_front_porch: u16,
    /// Vertical sync pulse width in lines (0 when not from a detailed timing).
    pub v_sync_width: u16,
    /// Horizontal border in pixels on each side of the active area.
    pub h_border: u8,
    /// Vertical border in lines on each side of the active area.
    pub v_border: u8,
    /// Stereo viewing support.
    pub stereo: StereoFormat,
    /// Sync signal definition, when known.
    pub sync: Option<SyncType>,
    /// Exact pixel clock in kHz, when the mode came from a detailed timing.
    pub pixel_clock_khz: Option<u32>,
    /// Where the mode was decoded from, when known.
    pub source: Option<TimingSource>,
}

impl VideoMode {
    /// Constructs a mode from its identity fields; every other field takes its empty value.
    pub fn new(width: u16, height: u16, refresh_rate: u16, interlaced: bool) -> (m: Self)
        ensures
            m == (VideoMode {
                width,
                height,
                refresh_rate,
                interlaced,
                h_front_porch: 0,
                h_sync_width: 0,
                v_front_porch: 0,
                v_sync_width: 0,
                h_border: 0,
                v_border: 0,
                stereo: StereoFormat::Normal,
                sync: None,
                pixel_clock_khz: None,
                source: None,
            }),
    {
        VideoMode {
            width,
            height,
            refresh_rate,
            interlaced,
            h_front_porch: 0,
            h_sync_width: 0,
            v_front_porch: 0,
            v_sync_width: 0,
            h_border: 0,
            v_border: 0,
            stereo: StereoFormat::Normal,
            sync: None,
            pixel_clock_khz: None,
            source: None,
        }
    }

    /// Returns the mode with its exact pixel clock set.
    pub fn with_pixel_clock(self, pixel_clock_khz: u32) -> (m: Self)
        ensures
            m == (VideoMode { pixel_clock_khz: Some(pixel_clock_khz), ..self }),
    {
        VideoMode { pixel_clock_khz: Some(pixel_clock_khz), ..self }
    }

    /// Returns the mode with its source set.
    pub fn with_source(self, source: TimingSource) -> (m: Self)
        ensures
            m == (VideoMode { source: Some(source), ..self }),
    {
        VideoMode { source: Some(source), ..self }
    }

    /// Returns the mode with the pixel clock, blanking, border, stereo and sync fields of a
    /// detailed timing set.
    pub fn with_detailed_timing(
        self,
        pixel_clock_khz: u32,
        h_front_porch: u16,
        h_sync_width: u16,
        v_front_porch: u16,
        v_sync_width: u16,
        h_border: u8,
        v_border: u8,
        stereo: StereoFormat,
        sync: Option<SyncType>,
    ) -> (m: Self)
        ensures
            m == (VideoMode {
                pixel_clock_khz: Some(pixel_clock_khz),
                h_front_porch,
                h_sync_width,
                v_front_porch,
                v_sync_width,
                h_border,
                v_border,
                stereo,
                sync,
                ..self
            }),
    {
        VideoMode {
            pixel_clock_khz: Some(pixel_clock_khz),
            h_front_porch,
            h_sync_width,
            v_front_porch,
            v_sync_width,
            h_border,
            v_border,
            stereo,
            sync,
            ..self
        }
    }
}

/// The pixel clock of `mode` in kHz, as `display_types::pixel_clock_khz` computes it:
/// the exact clock when present, else the CVT reduced-blanking estimate
/// `(width + 160) × (height + 8) × refresh_rate / 1000`, computed in 64 bits and
/// narrowed to 32 bits by truncation.
pub open spec fn spec_pixel_clock_khz(mode: VideoMode) -> u32 {
    match mode.pixel_clock_khz {
        Some(clk) => clk,
        None => {
            let estimate: int = (mode.width + 160) * (mode.height + 8) * mode.refresh_rate / 1000;
            (estimate % 0x1_0000_0000) as u32
        },
    }
}

/// Pixel clock in kHz of a mode, computed by `display_types::pixel_clock_khz`.
///
/// Trusted: the contract states the outside function's exact-or-estimate formula as its
/// source shows it (64-bit product, `as u32` narrowing).
#[verifier::external_body]
pub(crate) fn pixel_clock_khz(mode: &VideoMode) -> (r: u32)
    ensures
        r == spec_pixel_clock_khz(*mode),
{
    let mut m = display_types::VideoMode::new(mode.width, mode.height, mode.refresh_rate, mode.interlaced);
    m.pixel_clock_khz = mode.pixel_clock_khz;
    display_types::pixel_clock_khz(&m)
}

} // verus!
