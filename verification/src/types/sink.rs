//! Sink (display) capability input type.

use vstd::prelude::*;

use crate::display::edid::{
    color_capabilities_from_edid, modes_for_vics, spec_edid_depth, spec_marked_vics, spec_vic_modes,
    y420_capable_vics,
};
use crate::display::{
    Cea861Capabilities, ColorBitDepth, ColorCapabilities, ColorFormat, ColorimetryBlock, DisplayCapabilities,
    HdmiForumSinkCap, HdmiVsdb, HdrStaticMetadata, VideoMode,
};

verus! {

/// `s` with every repeated entry removed, the first occurrence of each mode kept in place.
pub open spec fn spec_dedup(s: Seq<VideoMode>) -> Seq<VideoMode>
    decreases s.len(),
{
    if s.len() == 0 {
        Seq::empty()
    } else {
        let d = spec_dedup(s.drop_last());
        if d.contains(s.last()) {
            d
        } else {
            d.push(s.last())
        }
    }
}

/// The entries of `s` that repeat an earlier entry, in input order.
pub open spec fn spec_duplicates(s: Seq<VideoMode>) -> Seq<VideoMode>
    decreases s.len(),
{
    if s.len() == 0 {
        Seq::empty()
    } else {
        let dups = spec_duplicates(s.drop_last());
        if spec_dedup(s.drop_last()).contains(s.last()) {
            dups.push(s.last())
        } else {
            dups
        }
    }
}

/// Returns whether `mode` occurs in `modes`.
pub(crate) fn contains_mode(modes: &[VideoMode], mode: &VideoMode) -> (r: bool)
    ensures
        r == modes@.contains(*mode),
{
    let mut i: usize = 0;
    while i < modes.len()
        invariant
            i <= modes@.len(),
            forall|j: int| 0 <= j < i ==> modes@[j] != *mode,
        decreases modes@.len() - i,
    {
        if modes[i] == *mode {
            assert(modes@[i as int] == *mode);
            return true;
        }
        i += 1;
    }
    false
}

/// A deduplicated list of video modes.
///
/// Constructed via [`SupportedModes::from_vec`], which removes repeated entries on entry
/// so that every downstream consumer can rely on the list holding each mode once.
#[derive(Debug, Clone, PartialEq)]
pub struct SupportedModes(Vec<VideoMode>);

impl View for SupportedModes {
    type V = Seq<VideoMode>;

    closed spec fn view(&self) -> Seq<VideoMode> {
        self.0@
    }
}

impl SupportedModes {
    /// Deduplicates `modes`, returning the normalised list and the duplicate entries
    /// that were removed. The first occurrence of each mode keeps its place.
    pub fn from_vec(modes: Vec<VideoMode>) -> (r: (Self, Vec<VideoMode>))
        ensures
            r.0@ == spec_dedup(modes@),
            r.1@ == spec_duplicates(modes@),
    {
        let mut seen: Vec<VideoMode> = Vec::with_capacity(modes.len());
        let mut duplicates: Vec<VideoMode> = Vec::new();
        let mut i: usize = 0;
        while i < modes.len()
            invariant
                i <= modes@.len(),
                seen@ == spec_dedup(modes@.take(i as int)),
                duplicates@ == spec_duplicates(modes@.take(i as int)),
            decreases modes@.len() - i,
        {
            let mode = modes[i];
            assert(modes@.take(i + 1).drop_last() =~= modes@.take(i as int));
            if contains_mode(seen.as_slice(), &mode) {
                duplicates.push(mode);
            } else {
                seen.push(mode);
            }
            i += 1;
        }
        assert(modes@.take(modes@.len() as int) =~= modes@);
        (SupportedModes(seen), duplicates)
    }

    /// Returns the modes as a slice.
    pub fn as_slice(&self) -> (r: &[VideoMode])
        ensures
            r@ == self@,
    {
        self.0.as_slice()
    }
}

impl Default for SupportedModes {
    fn default() -> (r: Self)
        ensures
            r@ == Seq::<VideoMode>::empty(),
    {
        SupportedModes(Vec::new())
    }
}

/// Warning produced by `sink_capabilities_from_display` while building the sink.
///
/// Surfaces construction-time anomalies without making them fatal.
#[derive(Debug, Clone, PartialEq)]
pub enum SinkBuildWarning {
    /// One or more video modes appeared more than once and were removed.
    DuplicateModes(Vec<VideoMode>),
}

/// Capabilities of the connected display.
///
/// The caller fills this struct, or derives it from parsed EDID data via
/// `sink_capabilities_from_display`.
#[derive(Debug, Clone, PartialEq)]
pub struct SinkCapabilities {
    /// Video modes declared by the display.
    pub supported_modes: SupportedModes,
    /// Maximum pixel clock in MHz (from the EDID range limits descriptor).
    pub max_pixel_clock_mhz: Option<u16>,
    /// Minimum vertical rate in Hz.
    pub min_v_rate: Option<u16>,
    /// Maximum vertical rate in Hz.
    pub max_v_rate: Option<u16>,
    /// Modes that support *only* YCbCr 4:2:0 (from the Y420 Video Data Block).
    pub ycbcr420_exclusive_modes: SupportedModes,
    /// Modes that *also* support YCbCr 4:2:0 (from the Y420 Capability Map Data Block).
    pub ycbcr420_capable_modes: SupportedModes,
    /// Supported color format and bit-depth combinations.
    pub color_capabilities: ColorCapabilities,
    /// HDMI 1.x capabilities (from the HDMI VSDB; `None` if not present).
    pub hdmi_vsdb: Option<HdmiVsdb>,
    /// HDMI 2.1 capabilities (from the HF-SCDB; `None` for pre-HDMI-2.1 sinks).
    pub hdmi_forum: Option<HdmiForumSinkCap>,
    /// HDR static metadata capabilities.
    pub hdr_static: Option<HdrStaticMetadata>,
    /// Colorimetry standards supported.
    pub colorimetry: Option<ColorimetryBlock>,
}

impl Default for SinkCapabilities {
    /// A sink that declares nothing: no modes, no color format, no limits, no HDMI blocks.
    fn default() -> (r: Self)
        ensures
            r.supported_modes@ == Seq::<VideoMode>::empty(),
            r.ycbcr420_exclusive_modes@ == Seq::<VideoMode>::empty(),
            r.ycbcr420_capable_modes@ == Seq::<VideoMode>::empty(),
            r.max_pixel_clock_mhz.is_none(),
            r.min_v_rate.is_none(),
            r.max_v_rate.is_none(),
            forall|f, d| !#[trigger] r.color_capabilities.spec_for_format(f).contains(d),
            r.hdmi_vsdb.is_none(),
            r.hdmi_forum.is_none(),
            r.hdr_static.is_none(),
            r.colorimetry.is_none(),
    {
        SinkCapabilities {
            supported_modes: SupportedModes::default(),
            max_pixel_clock_mhz: None,
            min_v_rate: None,
            max_v_rate: None,
            ycbcr420_exclusive_modes: SupportedModes::default(),
            ycbcr420_capable_modes: SupportedModes::default(),
            color_capabilities: ColorCapabilities::default(),
            hdmi_vsdb: None,
            hdmi_forum: None,
            hdr_static: None,
            colorimetry: None,
        }
    }
}

/// The HDMI 1.x VSDB of the extension block, if any.
pub open spec fn spec_cea_vsdb(cea: Option<Cea861Capabilities>) -> Option<HdmiVsdb> {
    match cea {
        Some(c) => c.hdmi_vsdb,
        None => None,
    }
}

/// The HDMI Forum block of the extension block: the HF-SCDB (HDMI 2.1) when present, else
/// the HF-VSDB (HDMI 2.0), else none.
pub open spec fn spec_cea_forum(cea: Option<Cea861Capabilities>) -> Option<HdmiForumSinkCap> {
    match cea {
        Some(c) => match c.hf_scdb {
            Some(b) => Some(b),
            None => c.hf_vsdb,
        },
        None => None,
    }
}

/// Whether the extension block carries a YCbCr 4:2:0 Video Data Block or Capability Map.
pub open spec fn spec_has_y420_blocks(cea: Option<Cea861Capabilities>) -> bool {
    match cea {
        Some(c) => c.y420_vics@.len() > 0 || c.y420_capability_map@.len() > 0,
        None => false,
    }
}

/// The modes the YCbCr 4:2:0 Video Data Block lists (before deduplication).
pub open spec fn spec_y420_only_modes(cea: Option<Cea861Capabilities>) -> Seq<VideoMode> {
    match cea {
        Some(c) => spec_vic_modes(c.y420_vics@),
        None => Seq::empty(),
    }
}

/// The modes the YCbCr 4:2:0 Capability Map marks (before deduplication).
pub open spec fn spec_y420_also_modes(cea: Option<Cea861Capabilities>) -> Seq<VideoMode> {
    match cea {
        Some(c) => spec_vic_modes(spec_marked_vics(c.y420_capability_map@, c.vics@, (c.y420_capability_map@.len() * 8) as nat)),
        None => Seq::empty(),
    }
}

/// `sink` is the sink derived from `caps`: its mode lists deduplicated, its scalar limits
/// and CTA-861 blocks copied (HF-SCDB preferred over HF-VSDB), and its color map derived from
/// the EDID color fields, with YCbCr 4:2:0 at 8 bpc added when a YCbCr 4:2:0 block is present.
pub open spec fn spec_sink_from_display(caps: DisplayCapabilities, sink: SinkCapabilities) -> bool {
    let cea = caps.cea861;
    &&& sink.supported_modes@ == spec_dedup(caps.supported_modes@)
    &&& sink.ycbcr420_exclusive_modes@ == spec_dedup(spec_y420_only_modes(cea))
    &&& sink.ycbcr420_capable_modes@ == spec_dedup(spec_y420_also_modes(cea))
    &&& sink.max_pixel_clock_mhz == caps.max_pixel_clock_mhz
    &&& sink.min_v_rate == caps.min_v_rate
    &&& sink.max_v_rate == caps.max_v_rate
    &&& sink.hdmi_vsdb == spec_cea_vsdb(cea)
    &&& sink.hdmi_forum == spec_cea_forum(cea)
    &&& sink.hdr_static == (match cea { Some(c) => c.hdr_static_metadata, None => None })
    &&& sink.colorimetry == (match cea { Some(c) => c.colorimetry, None => None })
    &&& forall|f: ColorFormat, d: ColorBitDepth| #[trigger] sink.color_capabilities.spec_for_format(f).contains(d) == (
        spec_edid_depth(caps.digital_color_encoding, caps.color_bit_depth, spec_cea_vsdb(cea), spec_cea_forum(cea), f, d)
        || (f == ColorFormat::YCbCr420 && d == ColorBitDepth::Depth8 && spec_has_y420_blocks(cea)))
}

/// Derives the sink capabilities from parsed EDID data, with the construction-time
/// warnings: a `DuplicateModes` warning listing the repeated modes when the display's
/// mode list repeats any, none otherwise.
///
/// The HDMI Forum Sink Capability Data Block (HDMI 2.1) is preferred over the HDMI Forum
/// Vendor-Specific Data Block (HDMI 2.0) when both are present.
pub fn sink_capabilities_from_display(caps: &DisplayCapabilities) -> (r: (SinkCapabilities, Vec<SinkBuildWarning>))
    requires
        caps.cea861 matches Some(c) ==> c.y420_capability_map@.len() * 8 <= usize::MAX,
    ensures
        spec_sink_from_display(*caps, r.0),
        spec_duplicates(caps.supported_modes@).len() == 0 ==> r.1@.len() == 0,
        spec_duplicates(caps.supported_modes@).len() > 0 ==> r.1@.len() == 1
            && (r.1@[0] matches SinkBuildWarning::DuplicateModes(dups) && dups@ == spec_duplicates(caps.supported_modes@)),
{
    let ghost cea = caps.cea861;
    let (hdmi_vsdb, hdmi_forum, hdr_static, colorimetry, has_y420, y420_only, y420_also) = match &caps.cea861 {
        Some(c) => {
            let forum = match c.hf_scdb {
                Some(b) => Some(b),
                None => c.hf_vsdb,
            };
            let has_y420 = c.y420_vics.len() > 0 || c.y420_capability_map.len() > 0;
            let only = modes_for_vics(c.y420_vics.as_slice());
            let marked = y420_capable_vics(c.y420_capability_map.as_slice(), c.vics.as_slice());
            let also = modes_for_vics(marked.as_slice());
            (c.hdmi_vsdb, forum, c.hdr_static_metadata, c.colorimetry, has_y420, only, also)
        },
        None => (None, None, None, None, false, Vec::new(), Vec::new()),
    };
    assert(hdmi_vsdb == spec_cea_vsdb(cea) && hdmi_forum == spec_cea_forum(cea) && has_y420 == spec_has_y420_blocks(cea));
    let base = color_capabilities_from_edid(
        caps.digital_color_encoding,
        caps.color_bit_depth,
        hdmi_vsdb,
        hdmi_forum,
    );
    let mut color_capabilities = base;
    if has_y420 {
        color_capabilities.ycbcr420 = color_capabilities.ycbcr420.with(ColorBitDepth::Depth8);
    }
    assert forall|f: ColorFormat, d: ColorBitDepth| #[trigger] color_capabilities.spec_for_format(f).contains(d) == (
        base.spec_for_format(f).contains(d) || (f == ColorFormat::YCbCr420 && d == ColorBitDepth::Depth8 && has_y420)) by {
        assert(base.spec_for_format(f).contains(d) == spec_edid_depth(caps.digital_color_encoding, caps.color_bit_depth, hdmi_vsdb, hdmi_forum, f, d));
    }
    let (ycbcr420_exclusive_modes, _) = SupportedModes::from_vec(y420_only);
    let (ycbcr420_capable_modes, _) = SupportedModes::from_vec(y420_also);
    let (supported_modes, duplicates) = SupportedModes::from_vec(caps.supported_modes.clone());
    let mut warnings: Vec<SinkBuildWarning> = Vec::new();
    if duplicates.len() > 0 {
        warnings.push(SinkBuildWarning::DuplicateModes(duplicates));
    }
    let sink = SinkCapabilities {
        supported_modes,
        max_pixel_clock_mhz: caps.max_pixel_clock_mhz,
        min_v_rate: caps.min_v_rate,
        max_v_rate: caps.max_v_rate,
        ycbcr420_exclusive_modes,
        ycbcr420_capable_modes,
        color_capabilities,
        hdmi_vsdb,
        hdmi_forum,
        hdr_static,
        colorimetry,
    };
    (sink, warnings)
}

} // verus!
