//! HDMI data blocks carried in the CTA-861 extension: HDMI VSDB, HF-SCDB, DSC,
//! colorimetry and HDR static metadata.

use vstd::prelude::*;

verus! {

/// FRL (Fixed Rate Link) rate tier. `NotSupported` stands for TMDS transport.
///
/// Tiers are ordered by bandwidth; declaring a maximum implies support for every lower tier.
#[derive(Debug, Clone, Copy, PartialEq, Eq, PartialOrd, Ord, Hash, Structural)]
pub enum HdmiForumFrl {
    /// No FRL; TMDS only.
    NotSupported,
    /// 3 Gbps per lane, 3 lanes.
    Rate3Gbps3Lanes,
    /// 6 Gbps per lane, 3 lanes.
    Rate6Gbps3Lanes,
    /// 6 Gbps per lane, 4 lanes.
    Rate6Gbps4Lanes,
    /// 8 Gbps per lane, 4 lanes.
    Rate8Gbps4Lanes,
    /// 10 Gbps per lane, 4 lanes.
    Rate10Gbps4Lanes,
    /// 12 Gbps per lane, 4 lanes.
    Rate12Gbps4Lanes,
}

impl HdmiForumFrl {
    /// Bandwidth tier index: `NotSupported` is 0, `Rate12Gbps4Lanes` is 6.
    pub open spec fn spec_tier(self) -> u8 {
        match self {
            HdmiForumFrl::NotSupported => 0,
            HdmiForumFrl::Rate3Gbps3Lanes => 1,
            HdmiForumFrl::Rate6Gbps3Lanes => 2,
            HdmiForumFrl::Rate6Gbps4Lanes => 3,
            HdmiForumFrl::Rate8Gbps4Lanes => 4,
            HdmiForumFrl::Rate10Gbps4Lanes => 5,
            HdmiForumFrl::Rate12Gbps4Lanes => 6,
        }
    }

    /// The rate whose tier index is `tier` (tiers above 6 read as the highest rate).
    pub open spec fn spec_from_tier(tier: u8) -> HdmiForumFrl {
        if tier == 0 {
            HdmiForumFrl::NotSupported
        } else if tier == 1 {
            HdmiForumFrl::Rate3Gbps3Lanes
        } else if tier == 2 {
            HdmiForumFrl::Rate6Gbps3Lanes
        } else if tier == 3 {
            HdmiForumFrl::Rate6Gbps4Lanes
        } else if tier == 4 {
            HdmiForumFrl::Rate8Gbps4Lanes
        } else if tier == 5 {
            HdmiForumFrl::Rate10Gbps4Lanes
        } else {
            HdmiForumFrl::Rate12Gbps4Lanes
        }
    }

    /// Decodes the raw 4-bit Max_FRL_Rate field; reserved values read as `NotSupported`.
    pub fn from_raw(raw: u8) -> (r: Self)
        ensures
            r == (if raw <= 6 { HdmiForumFrl::spec_from_tier(raw) } else { HdmiForumFrl::NotSupported }),
    {
        match raw {
            0 => HdmiForumFrl::NotSupported,
            1 => HdmiForumFrl::Rate3Gbps3Lanes,
            2 => HdmiForumFrl::Rate6Gbps3Lanes,
            3 => HdmiForumFrl::Rate6Gbps4Lanes,
            4 => HdmiForumFrl::Rate8Gbps4Lanes,
            5 => HdmiForumFrl::Rate10Gbps4Lanes,
            6 => HdmiForumFrl::Rate12Gbps4Lanes,
            _ => HdmiForumFrl::NotSupported,
        }
    }
}

/// HDMI 1.x VSDB capability flags (byte 6 of the HDMI Vendor-Specific Data Block).
#[derive(Debug, Clone, Copy, PartialEq, Eq, Structural)]
pub struct HdmiVsdbFlags(u8);

impl HdmiVsdbFlags {
    /// Supports_AI: the sink accepts ACP, ISRC1 and ISRC2 packets.
    pub const SUPPORTS_AI: u8 = 0x80;
    /// 48-bit deep color (16 bpc).
    pub const DC_48BIT: u8 = 0x40;
    /// 36-bit deep color (12 bpc).
    pub const DC_36BIT: u8 = 0x20;
    /// 30-bit deep color (10 bpc).
    pub const DC_30BIT: u8 = 0x10;
    /// Deep color also applies to YCbCr 4:4:4.
    pub const DC_Y444: u8 = 0x08;
    /// Dual-link DVI.
    pub const DVI_DUAL: u8 = 0x01;

    /// The raw flag byte.
    pub closed spec fn spec_bits(self) -> u8 {
        self.0
    }

    /// No flag set.
    pub fn empty() -> (r: Self)
        ensures
            r.spec_bits() == 0,
    {
        HdmiVsdbFlags(0)
    }

    /// The flags with exactly the given bits, unknown bits included.
    pub fn from_bits_retain(bits: u8) -> (r: Self)
        ensures
            r.spec_bits() == bits,
    {
        HdmiVsdbFlags(bits)
    }

    /// The raw flag byte.
    pub fn bits(&self) -> (r: u8)
        ensures
            r == self.spec_bits(),
    {
        self.0
    }

    /// Whether every bit of `flag` is set.
    pub open spec fn spec_contains(self, flag: u8) -> bool {
        self.spec_bits() & flag == flag
    }

    /// Returns `true` if every bit of `flag` is set.
    pub fn contains(&self, flag: u8) -> (r: bool)
        ensures
            r == self.spec_contains(flag),
    {
        self.0 & flag == flag
    }
}

/// HDMI 1.x Vendor-Specific Data Block.
#[derive(Debug, Clone, Copy, PartialEq, Eq, Structural)]
pub struct HdmiVsdb {
    /// CEC source physical address.
    pub source_physical_address: u16,
    /// Capability flags.
    pub flags: HdmiVsdbFlags,
    /// Maximum TMDS clock in MHz, when declared.
    pub max_tmds_clock_mhz: Option<u16>,
    /// Progressive video latency in ms, when declared.
    pub video_latency_ms: Option<u16>,
    /// Progressive audio latency in ms, when declared.
    pub audio_latency_ms: Option<u16>,
    /// Interlaced video latency in ms, when declared.
    pub interlaced_video_latency_ms: Option<u16>,
    /// Interlaced audio latency in ms, when declared.
    pub interlaced_audio_latency_ms: Option<u16>,
}

impl HdmiVsdb {
    /// Constructs an `HdmiVsdb` from its fields.
    pub fn new(
        source_physical_address: u16,
        flags: HdmiVsdbFlags,
        max_tmds_clock_mhz: Option<u16>,
        video_latency_ms: Option<u16>,
        audio_latency_ms: Option<u16>,
        interlaced_video_latency_ms: Option<u16>,
        interlaced_audio_latency_ms: Option<u16>,
    ) -> (r: Self)
        ensures
            r == (HdmiVsdb {
                source_physical_address,
                flags,
                max_tmds_clock_mhz,
                video_latency_ms,
                audio_latency_ms,
                interlaced_video_latency_ms,
                interlaced_audio_latency_ms,
            }),
    {
        HdmiVsdb {
            source_physical_address,
            flags,
            max_tmds_clock_mhz,
            video_latency_ms,
            audio_latency_ms,
            interlaced_video_latency_ms,
            interlaced_audio_latency_ms,
        }
    }
}

/// Maximum DSC slice count declared in the HF-SCDB.
#[derive(Debug, Clone, Copy, PartialEq, Eq, Structural)]
pub enum HdmiDscMaxSlices {
    /// DSC not supported.
    NotSupported,
    /// 1 slice.
    Slices1,
    /// 2 slices.
    Slices2,
    /// 4 slices.
    Slices4,
    /// 8 slices at up to 340 MHz pixel clock.
    Slices8At340Mhz,
    /// 8 slices at up to 400 MHz pixel clock.
    Slices8At400Mhz,
    /// 12 slices.
    Slices12,
    /// 16 slices.
    Slices16,
}

/// Display Stream Compression capabilities of the sink (HF-SCDB bytes 7–9).
#[derive(Debug, Clone, Copy, PartialEq, Eq, Structural)]
pub struct HdmiForumDsc {
    /// Supports VESA DSC 1.2a.
    pub dsc_1p2: bool,
    /// Supports compressed YCbCr 4:2:0 natively.
    pub native_420: bool,
    /// QMS TFR maximum supported.
    pub qms_tfr_max: bool,
    /// QMS TFR minimum supported.
    pub qms_tfr_min: bool,
    /// Supports every bit depth for compressed video.
    pub all_bpc: bool,
    /// Supports 12 bpc compressed video.
    pub bpc12: bool,
    /// Supports 10 bpc compressed video.
    pub bpc10: bool,
    /// Maximum FRL rate with DSC.
    pub max_frl_rate: HdmiForumFrl,
    /// Maximum slice count.
    pub max_slices: HdmiDscMaxSlices,
    /// Maximum chunk size in bytes.
    pub max_chunk_bytes: u32,
}

impl HdmiForumDsc {
    /// Constructs an `HdmiForumDsc` from its fields.
    pub fn new(
        dsc_1p2: bool,
        native_420: bool,
        qms_tfr_max: bool,
        qms_tfr_min: bool,
        all_bpc: bool,
        bpc12: bool,
        bpc10: bool,
        max_frl_rate: HdmiForumFrl,
        max_slices: HdmiDscMaxSlices,
        max_chunk_bytes: u32,
    ) -> (r: Self)
        ensures
            r == (HdmiForumDsc {
                dsc_1p2,
                native_420,
                qms_tfr_max,
                qms_tfr_min,
                all_bpc,
                bpc12,
                bpc10,
                max_frl_rate,
                max_slices,
                max_chunk_bytes,
            }),
    {
        HdmiForumDsc {
            dsc_1p2,
            native_420,
            qms_tfr_max,
            qms_tfr_min,
            all_bpc,
            bpc12,
            bpc10,
            max_frl_rate,
            max_slices,
            max_chunk_bytes,
        }
    }
}

/// HDMI Forum Sink Capability Data Block (HF-SCDB / HF-VSDB).
#[derive(Debug, Clone, Copy, PartialEq, Eq, Structural)]
pub struct HdmiForumSinkCap {
    /// Block version.
    pub version: u8,
    /// Maximum TMDS character rate in MHz; 0 means at most 340 MHz.
    pub max_tmds_rate_mhz: u16,
    /// SCDC present.
    pub scdc_present: bool,
    /// SCDC read request capable.
    pub rr_capable: bool,
    /// Cable status reporting.
    pub cable_status: bool,
    /// Color content bits per component indication.
    pub ccbpci: bool,
    /// Scrambling at or below 340 Mcsc.
    pub lte_340mcsc_scramble: bool,
    /// 3D independent view.
    pub independent_view_3d: bool,
    /// 3D dual view.
    pub dual_view_3d: bool,
    /// 3D OSD disparity.
    pub osd_disparity_3d: bool,
    /// Maximum FRL rate.
    pub max_frl_rate: HdmiForumFrl,
    /// UHD VIC support.
    pub uhd_vic: bool,
    /// 48-bit deep color for YCbCr 4:2:0.
    pub dc_48bit_420: bool,
    /// 36-bit deep color for YCbCr 4:2:0.
    pub dc_36bit_420: bool,
    /// 30-bit deep color for YCbCr 4:2:0.
    pub dc_30bit_420: bool,
    /// FAPA end extended.
    pub fapa_end_extended: bool,
    /// Quick Media Switching.
    pub qms: bool,
    /// M_CONST delta.
    pub m_delta: bool,
    /// Fast Vactive.
    pub fva: bool,
    /// Auto Low-Latency Mode.
    pub allm: bool,
    /// FAPA start location.
    pub fapa_start_location: bool,
    /// Negative M_VRR.
    pub neg_mvrr: bool,
    /// Minimum VRR rate in Hz, when declared.
    pub vrr_min_hz: Option<u8>,
    /// Maximum VRR rate in Hz, when declared.
    pub vrr_max_hz: Option<u16>,
    /// DSC capabilities, when declared.
    pub dsc: Option<HdmiForumDsc>,
}

impl HdmiForumSinkCap {
    /// Constructs an `HdmiForumSinkCap` from its fields.
    pub fn new(
        version: u8,
        max_tmds_rate_mhz: u16,
        scdc_present: bool,
        rr_capable: bool,
        cable_status: bool,
        ccbpci: bool,
        lte_340mcsc_scramble: bool,
        independent_view_3d: bool,
        dual_view_3d: bool,
        osd_disparity_3d: bool,
        max_frl_rate: HdmiForumFrl,
        uhd_vic: bool,
        dc_48bit_420: bool,
        dc_36bit_420: bool,
        dc_30bit_420: bool,
        fapa_end_extended: bool,
        qms: bool,
        m_delta: bool,
        fva: bool,
        allm: bool,
        fapa_start_location: bool,
        neg_mvrr: bool,
        vrr_min_hz: Option<u8>,
        vrr_max_hz: Option<u16>,
        dsc: Option<HdmiForumDsc>,
    ) -> (r: Self)
        ensures
            r == (HdmiForumSinkCap {
                version,
                max_tmds_rate_mhz,
                scdc_present,
                rr_capable,
                cable_status,
                ccbpci,
                lte_340mcsc_scramble,
                independent_view_3d,
                dual_view_3d,
                osd_disparity_3d,
                max_frl_rate,
                uhd_vic,
                dc_48bit_420,
                dc_36bit_420,
                dc_30bit_420,
                fapa_end_extended,
                qms,
                m_delta,
                fva,
                allm,
                fapa_start_location,
                neg_mvrr,
                vrr_min_hz,
                vrr_max_hz,
                dsc,
            }),
    {
        HdmiForumSinkCap {
            version,
            max_tmds_rate_mhz,
            scdc_present,
            rr_capable,
            cable_status,
            ccbpci,
            lte_340mcsc_scramble,
            independent_view_3d,
            dual_view_3d,
            osd_disparity_3d,
            max_frl_rate,
            uhd_vic,
            dc_48bit_420,
            dc_36bit_420,
            dc_30bit_420,
            fapa_end_extended,
            qms,
            m_delta,
            fva,
            allm,
            fapa_start_location,
            neg_mvrr,
            vrr_min_hz,
            vrr_max_hz,
            dsc,
        }
    }
}

/// Colorimetry Data Block flags.
#[derive(Debug, Clone, Copy, PartialEq, Eq, Structural)]
pub struct ColorimetryFlags(u8);

impl ColorimetryFlags {
    /// The raw flag byte.
    pub closed spec fn spec_bits(self) -> u8 {
        self.0
    }

    /// No flag set.
    pub fn empty() -> (r: Self)
        ensures
            r.spec_bits() == 0,
    {
        ColorimetryFlags(0)
    }

    /// The flags with exactly the given bits.
    pub fn from_bits_retain(bits: u8) -> (r: Self)
        ensures
            r.spec_bits() == bits,
    {
        ColorimetryFlags(bits)
    }

    /// The raw flag byte.
    pub fn bits(&self) -> (r: u8)
        ensures
            r == self.spec_bits(),
    {
        self.0
    }

    /// Whether every bit of `flag` is set.
    pub open spec fn spec_contains(self, flag: u8) -> bool {
        self.spec_bits() & flag == flag
    }

    /// Returns `true` if every bit of `flag` is set.
    pub fn contains(&self, flag: u8) -> (r: bool)
        ensures
            r == self.spec_contains(flag),
    {
        self.0 & flag == flag
    }
}

/// Colorimetry Data Block.
#[derive(Debug, Clone, Copy, PartialEq, Eq, Structural)]
pub struct ColorimetryBlock {
    /// Supported colorimetry standards.
    pub colorimetry: ColorimetryFlags,
    /// Gamut metadata profiles.
    pub metadata_profiles: u8,
}

impl ColorimetryBlock {
    /// Constructs a `ColorimetryBlock` from its fields.
    pub fn new(colorimetry: ColorimetryFlags, metadata_profiles: u8) -> (r: Self)
        ensures
            r == (ColorimetryBlock { colorimetry, metadata_profiles }),
    {
        ColorimetryBlock { colorimetry, metadata_profiles }
    }
}

/// HDR Static Metadata Data Block.
///
/// The luminance values are kept as IEEE 754 single-precision bit patterns
/// (`f32::to_bits`), so the block is carried through negotiation without change.
#[derive(Debug, Clone, Copy, PartialEq, Eq, Structural)]
pub struct HdrStaticMetadata {
    /// Supported EOTFs (bit 0 SDR, 1 HDR, 2 ST 2084, 3 HLG).
    pub eotf: u8,
    /// Supported static metadata descriptor types.
    pub static_metadata_descriptors: u8,
    /// Desired content maximum luminance, as `f32` bits.
    pub max_luminance_bits: Option<u32>,
    /// Desired content maximum frame-average luminance, as `f32` bits.
    pub max_fall_bits: Option<u32>,
    /// Desired content minimum luminance, as `f32` bits.
    pub min_luminance_bits: Option<u32>,
}

impl HdrStaticMetadata {
    /// Constructs an `HdrStaticMetadata` from its fields.
    pub fn new(
        eotf: u8,
        static_metadata_descriptors: u8,
        max_luminance_bits: Option<u32>,
        max_fall_bits: Option<u32>,
        min_luminance_bits: Option<u32>,
    ) -> (r: Self)
        ensures
            r == (HdrStaticMetadata {
                eotf,
                static_metadata_descriptors,
                max_luminance_bits,
                max_fall_bits,
                min_luminance_bits,
            }),
    {
        HdrStaticMetadata {
            eotf,
            static_metadata_descriptors,
            max_luminance_bits,
            max_fall_bits,
            min_luminance_bits,
        }
    }
}

} // verus!
