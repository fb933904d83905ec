//! Plain-value models of parsed EDID data: the display's capabilities and its CTA-861
//! extension, the color capability derivation, and the VIC timing table lookup.

use vstd::prelude::*;

use display_types::cea861::HdmiDscMaxSlices as DtHdmiDscMaxSlices;
use display_types::cea861::HdmiForumDsc as DtHdmiForumDsc;
use display_types::cea861::HdmiForumFrl as DtHdmiForumFrl;
use display_types::cea861::HdmiForumSinkCap as DtHdmiForumSinkCap;
use display_types::cea861::HdmiVsdb as DtHdmiVsdb;
use display_types::ColorBitDepth as DtColorBitDepth;
use display_types::DigitalColorEncoding as DtDigitalColorEncoding;

use crate::display::color::{ColorBitDepth, ColorBitDepths, ColorCapabilities, ColorFormat, DigitalColorEncoding};
use crate::display::hdmi::{
    ColorimetryBlock, HdmiDscMaxSlices, HdmiForumDsc, HdmiForumFrl, HdmiForumSinkCap, HdmiVsdb, HdmiVsdbFlags,
    HdrStaticMetadata,
};
use crate::display::video::{TimingSource, StereoFormat, SyncType, VideoMode};

verus! {

/// The parts of a CTA-861 extension block that capability negotiation reads.
#[derive(Debug, Clone, PartialEq)]
pub struct Cea861Capabilities {
    /// Short Video Descriptors in declaration order: VIC and native flag.
    pub vics: Vec<(u8, bool)>,
    /// HDMI 1.x Vendor-Specific Data Block, when present.
    pub hdmi_vsdb: Option<HdmiVsdb>,
    /// HDMI Forum Vendor-Specific Data Block (HDMI 2.0), when present.
    pub hf_vsdb: Option<HdmiForumSinkCap>,
    /// HDMI Forum Sink Capability Data Block (HDMI 2.1), when present.
    pub hf_scdb: Option<HdmiForumSinkCap>,
    /// Colorimetry Data Block, when present.
    pub colorimetry: Option<ColorimetryBlock>,
    /// HDR Static Metadata Data Block, when present.
    pub hdr_static_metadata: Option<HdrStaticMetadata>,
    /// VICs of the YCbCr 4:2:0 Video Data Block: modes supporting only YCbCr 4:2:0.
    pub y420_vics: Vec<u8>,
    /// YCbCr 4:2:0 Capability Map: bit N (byte N / 8, bit N % 8) marks `vics[N]`.
    pub y420_capability_map: Vec<u8>,
}

impl Cea861Capabilities {
    /// An extension block declaring nothing.
    pub fn new() -> (r: Self)
        ensures
            r.vics@.len() == 0,
            r.hdmi_vsdb.is_none(),
            r.hf_vsdb.is_none(),
            r.hf_scdb.is_none(),
            r.colorimetry.is_none(),
            r.hdr_static_metadata.is_none(),
            r.y420_vics@.len() == 0,
            r.y420_capability_map@.len() == 0,
    {
        Cea861Capabilities {
            vics: Vec::new(),
            hdmi_vsdb: None,
            hf_vsdb: None,
            hf_scdb: None,
            colorimetry: None,
            hdr_static_metadata: None,
            y420_vics: Vec::new(),
            y420_capability_map: Vec::new(),
        }
    }
}

/// The parts of a parsed EDID that capability negotiation reads.
#[derive(Debug, Clone, PartialEq)]
pub struct DisplayCapabilities {
    /// Color encodings declared in the base block, when digital.
    pub digital_color_encoding: Option<DigitalColorEncoding>,
    /// Native input bit depth declared in the base block, when known.
    pub color_bit_depth: Option<ColorBitDepth>,
    /// Minimum vertical rate in Hz, from the range limits descriptor.
    pub min_v_rate: Option<u16>,
    /// Maximum vertical rate in Hz, from the range limits descriptor.
    pub max_v_rate: Option<u16>,
    /// Maximum pixel clock in MHz, from the range limits descriptor.
    pub max_pixel_clock_mhz: Option<u16>,
    /// All video modes the display declares, in declaration order.
    pub supported_modes: Vec<VideoMode>,
    /// The CTA-861 extension data (extension tag `0x02`), when present.
    pub cea861: Option<Cea861Capabilities>,
}

impl Default for DisplayCapabilities {
    /// A display that declares nothing.
    fn default() -> (r: Self)
        ensures
            r.digital_color_encoding.is_none(),
            r.color_bit_depth.is_none(),
            r.min_v_rate.is_none(),
            r.max_v_rate.is_none(),
            r.max_pixel_clock_mhz.is_none(),
            r.supported_modes@.len() == 0,
            r.cea861.is_none(),
    {
        DisplayCapabilities {
            digital_color_encoding: None,
            color_bit_depth: None,
            min_v_rate: None,
            max_v_rate: None,
            max_pixel_clock_mhz: None,
            supported_modes: Vec::new(),
            cea861: None,
        }
    }
}

/// Whether the HDMI VSDB is present and sets `flag`.
pub open spec fn spec_vsdb_sets(vsdb: Option<HdmiVsdb>, flag: u8) -> bool {
    match vsdb {
        Some(v) => v.flags.spec_contains(flag),
        None => false,
    }
}

/// The bit depths derived from the EDID color fields for `format`:
///
/// - RGB 4:4:4: 8 bpc, plus the deep color depths the HDMI VSDB flags (10, 12, 16 bpc);
///   without a VSDB, plus the base block's native depth.
/// - YCbCr 4:4:4: nothing unless the base block declares it; then the RGB depths when the
///   VSDB sets DC_Y444, else 8 bpc.
/// - YCbCr 4:2:2: 8 bpc when the base block declares it, else nothing.
/// - YCbCr 4:2:0: the deep color depths the HDMI Forum block flags, with 8 bpc when it flags
///   any; nothing without the block.
pub open spec fn spec_edid_depth(
    encoding: Option<DigitalColorEncoding>,
    base_depth: Option<ColorBitDepth>,
    vsdb: Option<HdmiVsdb>,
    forum: Option<HdmiForumSinkCap>,
    format: ColorFormat,
    d: ColorBitDepth,
) -> bool {
    let rgb = d == ColorBitDepth::Depth8 || match vsdb {
        Some(v) => {
            ||| d == ColorBitDepth::Depth10 && v.flags.spec_contains(HdmiVsdbFlags::DC_30BIT)
            ||| d == ColorBitDepth::Depth12 && v.flags.spec_contains(HdmiVsdbFlags::DC_36BIT)
            ||| d == ColorBitDepth::Depth16 && v.flags.spec_contains(HdmiVsdbFlags::DC_48BIT)
        },
        None => base_depth == Some(d),
    };
    match format {
        ColorFormat::Rgb444 => rgb,
        ColorFormat::YCbCr444 => {
            &&& (encoding == Some(DigitalColorEncoding::Rgb444YCbCr444)
                || encoding == Some(DigitalColorEncoding::Rgb444YCbCr444YCbCr422))
            &&& if spec_vsdb_sets(vsdb, HdmiVsdbFlags::DC_Y444) { rgb } else { d == ColorBitDepth::Depth8 }
        },
        ColorFormat::YCbCr422 => {
            &&& (encoding == Some(DigitalColorEncoding::Rgb444YCbCr422)
                || encoding == Some(DigitalColorEncoding::Rgb444YCbCr444YCbCr422))
            &&& d == ColorBitDepth::Depth8
        },
        ColorFormat::YCbCr420 => match forum {
            Some(f) => {
                ||| d == ColorBitDepth::Depth8 && (f.dc_30bit_420 || f.dc_36bit_420 || f.dc_48bit_420)
                ||| d == ColorBitDepth::Depth10 && f.dc_30bit_420
                ||| d == ColorBitDepth::Depth12 && f.dc_36bit_420
                ||| d == ColorBitDepth::Depth16 && f.dc_48bit_420
            },
            None => false,
        },
    }
}

/// Derives the color capability map from the EDID fields that encode color support with
/// `display_types::color_capabilities_from_edid`: the base block's declared encodings and
/// native depth, the HDMI VSDB deep color flags and the HDMI Forum block's YCbCr 4:2:0 deep
/// color flags.
///
/// Trusted: the contract states the outside function's derivation, as its source gives it,
/// through `spec_edid_depth`. The model values are carried over to the outside types field
/// for field, and the result's bit-depth sets back, depth for depth.
#[verifier::external_body]
pub(crate) fn color_capabilities_from_edid(
    encoding: Option<DigitalColorEncoding>,
    base_depth: Option<ColorBitDepth>,
    vsdb: Option<HdmiVsdb>,
    forum: Option<HdmiForumSinkCap>,
) -> (r: ColorCapabilities)
    ensures
        forall|f: ColorFormat, d: ColorBitDepth|
            #[trigger] r.spec_for_format(f).contains(d) == spec_edid_depth(encoding, base_depth, vsdb, forum, f, d),
{
    let c = display_types::color_capabilities_from_edid(
        encoding.map(encoding_to_outside),
        base_depth.map(depth_to_outside),
        vsdb.map(vsdb_to_outside).as_ref(),
        forum.map(forum_to_outside).as_ref(),
    );
    ColorCapabilities {
        rgb444: ColorBitDepths::from_outside(c.rgb444),
        ycbcr444: ColorBitDepths::from_outside(c.ycbcr444),
        ycbcr422: ColorBitDepths::from_outside(c.ycbcr422),
        ycbcr420: ColorBitDepths::from_outside(c.ycbcr420),
    }
}

/// Declares the `display_types` color encoding type to the verifier.
#[verifier::external_type_specification]
#[verifier::external_body]
pub struct OutsideDigitalColorEncoding(DtDigitalColorEncoding);

/// Declares the `display_types` bit depth type to the verifier.
#[verifier::external_type_specification]
#[verifier::external_body]
pub struct OutsideColorBitDepth(DtColorBitDepth);

/// Declares the `display_types` HDMI VSDB type to the verifier.
#[verifier::external_type_specification]
#[verifier::external_body]
pub struct OutsideHdmiVsdb(DtHdmiVsdb);

/// Declares the `display_types` HF-SCDB type to the verifier.
#[verifier::external_type_specification]
#[verifier::external_body]
pub struct OutsideHdmiForumSinkCap(DtHdmiForumSinkCap);

/// Declares the `display_types` HF-SCDB DSC type to the verifier.
#[verifier::external_type_specification]
#[verifier::external_body]
pub struct OutsideHdmiForumDsc(DtHdmiForumDsc);

/// Declares the `display_types` FRL rate type to the verifier.
#[verifier::external_type_specification]
#[verifier::external_body]
pub struct OutsideHdmiForumFrl(DtHdmiForumFrl);

/// Declares the `display_types` DSC slice count type to the verifier.
#[verifier::external_type_specification]
#[verifier::external_body]
pub struct OutsideHdmiDscMaxSlices(DtHdmiDscMaxSlices);

/// Carries a model color encoding over to `display_types`, variant for variant.
#[verifier::external_body]
fn encoding_to_outside(e: DigitalColorEncoding) -> DtDigitalColorEncoding {
    match e {
        DigitalColorEncoding::Rgb444 => DtDigitalColorEncoding::Rgb444,
        DigitalColorEncoding::Rgb444YCbCr444 => DtDigitalColorEncoding::Rgb444YCbCr444,
        DigitalColorEncoding::Rgb444YCbCr422 => DtDigitalColorEncoding::Rgb444YCbCr422,
        DigitalColorEncoding::Rgb444YCbCr444YCbCr422 => DtDigitalColorEncoding::Rgb444YCbCr444YCbCr422,
    }
}

/// Carries a model bit depth over to `display_types`, variant for variant.
#[verifier::external_body]
fn depth_to_outside(d: ColorBitDepth) -> DtColorBitDepth {
    match d {
        ColorBitDepth::Depth6 => DtColorBitDepth::Depth6,
        ColorBitDepth::Depth8 => DtColorBitDepth::Depth8,
        ColorBitDepth::Depth10 => DtColorBitDepth::Depth10,
        ColorBitDepth::Depth12 => DtColorBitDepth::Depth12,
        ColorBitDepth::Depth14 => DtColorBitDepth::Depth14,
        ColorBitDepth::Depth16 => DtColorBitDepth::Depth16,
    }
}

/// Carries a model HDMI VSDB over to `display_types`, field for field.
#[verifier::external_body]
fn vsdb_to_outside(v: HdmiVsdb) -> DtHdmiVsdb {
    DtHdmiVsdb::new(
        v.source_physical_address,
        display_types::cea861::HdmiVsdbFlags::from_bits_retain(v.flags.bits()),
        v.max_tmds_clock_mhz,
        v.video_latency_ms,
        v.audio_latency_ms,
        v.interlaced_video_latency_ms,
        v.interlaced_audio_latency_ms,
    )
}

/// Carries a model HF-SCDB over to `display_types`, field for field.
#[verifier::external_body]
fn forum_to_outside(f: HdmiForumSinkCap) -> DtHdmiForumSinkCap {
    DtHdmiForumSinkCap::new(
        f.version, f.max_tmds_rate_mhz, f.scdc_present, f.rr_capable, f.cable_status, f.ccbpci,
        f.lte_340mcsc_scramble, f.independent_view_3d, f.dual_view_3d, f.osd_disparity_3d,
        frl_to_outside(f.max_frl_rate), f.uhd_vic, f.dc_48bit_420, f.dc_36bit_420, f.dc_30bit_420,
        f.fapa_end_extended, f.qms, f.m_delta, f.fva, f.allm, f.fapa_start_location, f.neg_mvrr,
        f.vrr_min_hz, f.vrr_max_hz, f.dsc.map(dsc_to_outside),
    )
}

/// Carries a model HF-SCDB DSC block over to `display_types`, field for field.
#[verifier::external_body]
fn dsc_to_outside(d: HdmiForumDsc) -> DtHdmiForumDsc {
    DtHdmiForumDsc::new(
        d.dsc_1p2, d.native_420, d.qms_tfr_max, d.qms_tfr_min, d.all_bpc, d.bpc12, d.bpc10,
        frl_to_outside(d.max_frl_rate), slices_to_outside(d.max_slices), d.max_chunk_bytes,
    )
}

/// Carries a model FRL rate over to `display_types`, variant for variant.
#[verifier::external_body]
fn frl_to_outside(r: HdmiForumFrl) -> DtHdmiForumFrl {
    match r {
        HdmiForumFrl::NotSupported => DtHdmiForumFrl::NotSupported,
        HdmiForumFrl::Rate3Gbps3Lanes => DtHdmiForumFrl::Rate3Gbps3Lanes,
        HdmiForumFrl::Rate6Gbps3Lanes => DtHdmiForumFrl::Rate6Gbps3Lanes,
        HdmiForumFrl::Rate6Gbps4Lanes => DtHdmiForumFrl::Rate6Gbps4Lanes,
        HdmiForumFrl::Rate8Gbps4Lanes => DtHdmiForumFrl::Rate8Gbps4Lanes,
        HdmiForumFrl::Rate10Gbps4Lanes => DtHdmiForumFrl::Rate10Gbps4Lanes,
        HdmiForumFrl::Rate12Gbps4Lanes => DtHdmiForumFrl::Rate12Gbps4Lanes,
    }
}

/// Carries a model DSC slice count over to `display_types`, variant for variant.
#[verifier::external_body]
fn slices_to_outside(s: HdmiDscMaxSlices) -> DtHdmiDscMaxSlices {
    match s {
        HdmiDscMaxSlices::NotSupported => DtHdmiDscMaxSlices::NotSupported,
        HdmiDscMaxSlices::Slices1 => DtHdmiDscMaxSlices::Slices1,
        HdmiDscMaxSlices::Slices2 => DtHdmiDscMaxSlices::Slices2,
        HdmiDscMaxSlices::Slices4 => DtHdmiDscMaxSlices::Slices4,
        HdmiDscMaxSlices::Slices8At340Mhz => DtHdmiDscMaxSlices::Slices8At340Mhz,
        HdmiDscMaxSlices::Slices8At400Mhz => DtHdmiDscMaxSlices::Slices8At400Mhz,
        HdmiDscMaxSlices::Slices12 => DtHdmiDscMaxSlices::Slices12,
        HdmiDscMaxSlices::Slices16 => DtHdmiDscMaxSlices::Slices16,
    }
}

/// The video mode that the CTA-861 timing table, as `display_types::cea861::vic_to_mode`
/// holds it, gives for a VIC; `None` for a VIC the table does not hold.
pub uninterp spec fn cta_vic_mode(vic: u8) -> Option<VideoMode>;

/// Declares the stereo mode type of `display_types` to the verifier.
#[verifier::external_type_specification]
#[verifier::external_body]
pub struct OutsideStereoMode(display_types::StereoMode);

/// Declares the sync definition type of `display_types` to the verifier.
#[verifier::external_type_specification]
#[verifier::external_body]
pub struct OutsideSyncDefinition(display_types::SyncDefinition);

/// Declares the mode source type of `display_types` to the verifier.
#[verifier::external_type_specification]
#[verifier::external_body]
pub struct OutsideModeSource(display_types::ModeSource);

/// Carries a `display_types` stereo mode over to the model, variant for variant (the
/// outside enum is non-exhaustive; a variant unknown to this version reads as no stereo).
#[verifier::external_body]
fn stereo_from_outside(s: display_types::StereoMode) -> StereoFormat {
    match s {
        display_types::StereoMode::None => StereoFormat::Normal,
        display_types::StereoMode::FieldSequentialRightFirst => StereoFormat::FieldSequentialRightFirst,
        display_types::StereoMode::FieldSequentialLeftFirst => StereoFormat::FieldSequentialLeftFirst,
        display_types::StereoMode::TwoWayInterleavedRightEven => StereoFormat::TwoWayInterleavedRightEven,
        display_types::StereoMode::TwoWayInterleavedLeftEven => StereoFormat::TwoWayInterleavedLeftEven,
        display_types::StereoMode::FourWayInterleaved => StereoFormat::FourWayInterleaved,
        display_types::StereoMode::SideBySideInterleaved => StereoFormat::SideBySideInterleaved,
        _ => StereoFormat::Normal,
    }
}

/// Carries a `display_types` sync definition over to the model, variant for variant (the
/// outside enum is non-exhaustive; a variant unknown to this version reads as unknown).
#[verifier::external_body]
fn sync_from_outside(s: Option<display_types::SyncDefinition>) -> Option<SyncType> {
    match s? {
        display_types::SyncDefinition::AnalogComposite { serrations, sync_on_all_rgb } => Some(SyncType::AnalogComposite { serrations, sync_on_all_rgb }),
        display_types::SyncDefinition::BipolarAnalogComposite { serrations, sync_on_all_rgb } => Some(SyncType::BipolarAnalogComposite { serrations, sync_on_all_rgb }),
        display_types::SyncDefinition::DigitalComposite { serrations, h_sync_positive } => Some(SyncType::DigitalComposite { serrations, h_sync_positive }),
        display_types::SyncDefinition::DigitalSeparate { v_sync_positive, h_sync_positive } => Some(SyncType::DigitalSeparate { v_sync_positive, h_sync_positive }),
        _ => None,
    }
}

/// Carries a `display_types` mode source over to the model, variant for variant (the
/// outside enum is non-exhaustive; a variant unknown to this version reads as unknown).
#[verifier::external_body]
fn source_from_outside(s: Option<display_types::ModeSource>) -> Option<TimingSource> {
    match s? {
        display_types::ModeSource::Vic(vic) => Some(TimingSource::Vic(vic)),
        display_types::ModeSource::DmtId(id) => Some(TimingSource::DmtId(id)),
        display_types::ModeSource::DtdIndex(index) => Some(TimingSource::DtdIndex(index)),
        _ => None,
    }
}

/// Looks a VIC up in the CTA-861 timing table with `display_types::cea861::vic_to_mode`.
///
/// Trusted: the contract only names the table's answer for `vic` (`cta_vic_mode`); which
/// VICs the table holds and the timings it gives them are left to the outside crate.
#[verifier::external_body]
fn vic_to_mode(vic: u8) -> (r: Option<VideoMode>)
    ensures
        r == cta_vic_mode(vic),
{
    let display_types::VideoMode {
        width, height, refresh_rate, interlaced, h_front_porch, h_sync_width, v_front_porch,
        v_sync_width, h_border, v_border, stereo, sync, pixel_clock_khz, source, ..
    } = display_types::cea861::vic_to_mode(vic)?;
    Some(VideoMode {
        width, height, refresh_rate, interlaced, h_front_porch, h_sync_width, v_front_porch,
        v_sync_width, h_border, v_border, stereo: stereo_from_outside(stereo),
        sync: sync_from_outside(sync), pixel_clock_khz, source: source_from_outside(source),
    })
}

/// The modes the timing table gives for `vics`, in order, skipping VICs it does not hold.
pub open spec fn spec_vic_modes(vics: Seq<u8>) -> Seq<VideoMode>
    decreases vics.len(),
{
    if vics.len() == 0 {
        Seq::empty()
    } else {
        let earlier = spec_vic_modes(vics.drop_last());
        match cta_vic_mode(vics.last()) {
            Some(mode) => earlier.push(mode),
            None => earlier,
        }
    }
}

/// Resolves VICs to video modes through the CTA-861 timing table, in order, skipping VICs
/// the table does not hold.
pub fn modes_for_vics(vics: &[u8]) -> (r: Vec<VideoMode>)
    ensures
        r@ == spec_vic_modes(vics@),
{
    let mut out: Vec<VideoMode> = Vec::new();
    let mut i: usize = 0;
    while i < vics.len()
        invariant
            i <= vics@.len(),
            out@ == spec_vic_modes(vics@.take(i as int)),
        decreases vics@.len() - i,
    {
        assert(vics@.take(i + 1).drop_last() =~= vics@.take(i as int));
        if let Some(mode) = vic_to_mode(vics[i]) {
            out.push(mode);
        }
        i += 1;
    }
    assert(vics@.take(vics@.len() as int) =~= vics@);
    out
}

/// Whether bit `n` of the capability map is set: bit `n % 8` of byte `n / 8`.
pub open spec fn spec_map_bit(map: Seq<u8>, n: int) -> bool {
    map[n / 8] & (1u8 << ((n % 8) as u8)) != 0
}

/// The VICs the YCbCr 4:2:0 Capability Map marks, in order: for each set bit `n` of the
/// map (of the first `n` bits considered), `vics[n]`'s VIC, when the SVD list has an
/// entry `n`.
pub open spec fn spec_marked_vics(map: Seq<u8>, vics: Seq<(u8, bool)>, n: nat) -> Seq<u8>
    decreases n,
{
    if n == 0 {
        Seq::empty()
    } else {
        let k = n - 1;
        let earlier = spec_marked_vics(map, vics, k as nat);
        if spec_map_bit(map, k) && k < vics.len() {
            earlier.push(vics[k].0)
        } else {
            earlier
        }
    }
}

/// The VICs that the YCbCr 4:2:0 Capability Map marks as also supporting YCbCr 4:2:0:
/// bit N of the map (bit N % 8 of byte N / 8) marks the N-th Short Video Descriptor.
/// Set bits beyond the descriptor list mark nothing.
pub fn y420_capable_vics(map: &[u8], vics: &[(u8, bool)]) -> (r: Vec<u8>)
    requires
        map@.len() * 8 <= usize::MAX,
    ensures
        r@ == spec_marked_vics(map@, vics@, (map@.len() * 8) as nat),
{
    let mut out: Vec<u8> = Vec::new();
    let mut byte_idx: usize = 0;
    while byte_idx < map.len()
        invariant
            byte_idx <= map@.len(),
            map@.len() * 8 <= usize::MAX,
            out@ == spec_marked_vics(map@, vics@, (byte_idx * 8) as nat),
        decreases map@.len() - byte_idx,
    {
        let byte = map[byte_idx];
        let mut bit: u8 = 0;
        while bit < 8
            invariant
                byte_idx < map@.len(),
                map@.len() * 8 <= usize::MAX,
                byte == map@[byte_idx as int],
                bit <= 8,
                out@ == spec_marked_vics(map@, vics@, (byte_idx * 8 + bit) as nat),
            decreases 8 - bit,
        {
            let n: usize = byte_idx * 8 + bit as usize;
            assert((n as int) / 8 == byte_idx && (n as int) % 8 == bit as int);
            if byte & (1u8 << bit) != 0 && n < vics.len() {
                out.push(vics[n].0);
            }
            bit += 1;
        }
        byte_idx += 1;
    }
    out
}

} // verus!
