//! Source (GPU / transmitter) capability input types.

use vstd::prelude::*;

use crate::display::HdmiForumFrl;

verus! {

/// Source quirk flags that relax specific constraint checks.
///
/// Pass `QuirkFlags::empty()` (the default) when no quirk applies.
#[derive(Debug, Clone, Copy, PartialEq, Eq, Structural)]
pub struct QuirkFlags(u32);

impl QuirkFlags {
    /// Ignore the sink's declared vertical refresh rate range: the refresh rate range
    /// check then raises no violation.
    pub const IGNORE_REFRESH_RATE_RANGE: u32 = 1;

    /// The raw flag word.
    pub closed spec fn spec_bits(self) -> u32 {
        self.0
    }

    /// Whether every bit of `other` is set in `self`.
    pub open spec fn spec_contains(self, other: QuirkFlags) -> bool {
        self.spec_bits() & other.spec_bits() == other.spec_bits()
    }

    /// No quirk.
    pub fn empty() -> (r: Self)
        ensures
            r.spec_bits() == 0,
    {
        QuirkFlags(0)
    }

    /// The flags with exactly the given bits.
    pub fn from_bits_retain(bits: u32) -> (r: Self)
        ensures
            r.spec_bits() == bits,
    {
        QuirkFlags(bits)
    }

    /// The raw flag word.
    pub fn bits(&self) -> (r: u32)
        ensures
            r == self.spec_bits(),
    {
        self.0
    }

    /// Returns `true` if every flag of `other` is set in `self`.
    pub fn contains(&self, other: QuirkFlags) -> (r: bool)
        ensures
            r == self.spec_contains(other),
    {
        self.0 & other.0 == other.0
    }
}

impl Default for QuirkFlags {
    fn default() -> (r: Self)
        ensures
            r.spec_bits() == 0,
    {
        QuirkFlags(0)
    }
}

/// Display Stream Compression capabilities of the source.
#[derive(Debug, Clone, Copy, PartialEq, Eq, Structural)]
pub struct DscCapabilities {
    /// Supports VESA DSC 1.2a.
    pub dsc_1p2: bool,
    /// Maximum number of slices the source encoder can produce.
    pub max_slices: u8,
    /// Maximum bits per pixel (in 1/16 increments) the source can encode.
    pub max_bpp_x16: u16,
}

/// Capabilities of the source (GPU or other HDMI transmitter).
#[derive(Debug, Clone, Copy, PartialEq, Eq, Structural)]
pub struct SourceCapabilities {
    /// Maximum TMDS clock the source can output, in kHz; `0` declares no ceiling.
    pub max_tmds_clock: u32,
    /// Maximum FRL rate the source supports; lower tiers are implied.
    pub max_frl_rate: HdmiForumFrl,
    /// Source Display Stream Compression capabilities, if supported.
    pub dsc: Option<DscCapabilities>,
    /// Vendor-specific quirk overrides.
    pub quirks: QuirkFlags,
}

impl SourceCapabilities {
    /// Constructs a `SourceCapabilities` with explicit values and no quirks.
    pub fn new(max_tmds_clock: u32, max_frl_rate: HdmiForumFrl, dsc: Option<DscCapabilities>) -> (r: Self)
        ensures
            r.max_tmds_clock == max_tmds_clock,
            r.max_frl_rate == max_frl_rate,
            r.dsc == dsc,
            r.quirks.spec_bits() == 0,
    {
        SourceCapabilities { max_tmds_clock, max_frl_rate, dsc, quirks: QuirkFlags::empty() }
    }
}

impl Default for SourceCapabilities {
    /// A TMDS-only source with no TMDS ceiling, no DSC and no quirks.
    fn default() -> (r: Self)
        ensures
            r.max_tmds_clock == 0,
            r.max_frl_rate == HdmiForumFrl::NotSupported,
            r.dsc.is_none(),
            r.quirks.spec_bits() == 0,
    {
        SourceCapabilities {
            max_tmds_clock: 0,
            max_frl_rate: HdmiForumFrl::NotSupported,
            dsc: None,
            quirks: QuirkFlags::empty(),
        }
    }
}

} // verus!
