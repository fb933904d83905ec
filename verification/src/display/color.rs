//! Color formats, bit depths and the per-format bit-depth capability map.

use vstd::prelude::*;

use display_types::ColorBitDepth as DtColorBitDepth;
use display_types::ColorBitDepths as DtColorBitDepths;

verus! {

/// Declares the `display_types` bit-depth set type to the verifier.
#[verifier::external_type_specification]
#[verifier::external_body]
pub struct OutsideColorBitDepths(DtColorBitDepths);

/// A single color encoding format of a candidate or negotiated configuration.
#[derive(Debug, Clone, Copy, PartialEq, Eq, Hash, Structural)]
pub enum ColorFormat {
    /// RGB 4:4:4.
    Rgb444,
    /// YCbCr 4:4:4.
    YCbCr444,
    /// YCbCr 4:2:2.
    YCbCr422,
    /// YCbCr 4:2:0.
    YCbCr420,
}

/// The color encodings declared in the EDID base block (byte `0x18` bits 4–3).
#[derive(Debug, Clone, Copy, PartialEq, Eq, Structural)]
pub enum DigitalColorEncoding {
    /// Only RGB 4:4:4 is supported.
    Rgb444,
    /// RGB 4:4:4 and YCbCr 4:4:4 are supported.
    Rgb444YCbCr444,
    /// RGB 4:4:4 and YCbCr 4:2:2 are supported.
    Rgb444YCbCr422,
    /// RGB 4:4:4, YCbCr 4:4:4 and YCbCr 4:2:2 are supported.
    Rgb444YCbCr444YCbCr422,
}

/// Color bit depth per primary color channel.
#[derive(Debug, Clone, Copy, PartialEq, Eq, Structural)]
pub enum ColorBitDepth {
    /// 6 bits per primary color channel.
    Depth6,
    /// 8 bits per primary color channel.
    Depth8,
    /// 10 bits per primary color channel.
    Depth10,
    /// 12 bits per primary color channel.
    Depth12,
    /// 14 bits per primary color channel.
    Depth14,
    /// 16 bits per primary color channel.
    Depth16,
}

impl ColorBitDepth {
    /// Number of bits per primary color channel.
    pub open spec fn spec_bits_per_primary(self) -> u8 {
        match self {
            ColorBitDepth::Depth6 => 6,
            ColorBitDepth::Depth8 => 8,
            ColorBitDepth::Depth10 => 10,
            ColorBitDepth::Depth12 => 12,
            ColorBitDepth::Depth14 => 14,
            ColorBitDepth::Depth16 => 16,
        }
    }

    /// Returns the number of bits per primary color channel.
    pub fn bits_per_primary(&self) -> (r: u8)
        ensures
            r == self.spec_bits_per_primary(),
    {
        match self {
            ColorBitDepth::Depth6 => 6,
            ColorBitDepth::Depth8 => 8,
            ColorBitDepth::Depth10 => 10,
            ColorBitDepth::Depth12 => 12,
            ColorBitDepth::Depth14 => 14,
            ColorBitDepth::Depth16 => 16,
        }
    }
}

/// The set of bit depths supported for one color encoding.
///
/// An empty set means the color format is not supported at all.
#[derive(Debug, Clone, Copy, PartialEq, Eq, Structural)]
pub struct ColorBitDepths {
    bpc6: bool,
    bpc8: bool,
    bpc10: bool,
    bpc12: bool,
    bpc14: bool,
    bpc16: bool,
}

impl ColorBitDepths {
    /// Whether `depth` is in the set.
    pub closed spec fn contains(self, depth: ColorBitDepth) -> bool {
        match depth {
            ColorBitDepth::Depth6 => self.bpc6,
            ColorBitDepth::Depth8 => self.bpc8,
            ColorBitDepth::Depth10 => self.bpc10,
            ColorBitDepth::Depth12 => self.bpc12,
            ColorBitDepth::Depth14 => self.bpc14,
            ColorBitDepth::Depth16 => self.bpc16,
        }
    }

    /// Whether the set holds no bit depth.
    pub open spec fn spec_is_empty(self) -> bool {
        forall|d: ColorBitDepth| !#[trigger] self.contains(d)
    }

    /// Carries a `display_types` bit-depth set over to the model, depth for depth.
    #[verifier::external_body]
    pub(crate) fn from_outside(d: DtColorBitDepths) -> ColorBitDepths {
        ColorBitDepths {
            bpc6: d.supports(DtColorBitDepth::Depth6),
            bpc8: d.supports(DtColorBitDepth::Depth8),
            bpc10: d.supports(DtColorBitDepth::Depth10),
            bpc12: d.supports(DtColorBitDepth::Depth12),
            bpc14: d.supports(DtColorBitDepth::Depth14),
            bpc16: d.supports(DtColorBitDepth::Depth16),
        }
    }

    /// The empty set (format not supported).
    pub fn none() -> (r: Self)
        ensures
            forall|d: ColorBitDepth| !#[trigger] r.contains(d),
    {
        ColorBitDepths {
            bpc6: false,
            bpc8: false,
            bpc10: false,
            bpc12: false,
            bpc14: false,
            bpc16: false,
        }
    }

    /// The set holding only `depth`.
    pub fn only(depth: ColorBitDepth) -> (r: Self)
        ensures
            forall|d: ColorBitDepth| #[trigger] r.contains(d) <==> d == depth,
    {
        ColorBitDepths::none().with(depth)
    }

    /// Returns `true` if the set contains no bit depth.
    pub fn is_empty(self) -> (r: bool)
        ensures
            r == self.spec_is_empty(),
    {
        let r = !(self.bpc6 || self.bpc8 || self.bpc10 || self.bpc12 || self.bpc14 || self.bpc16);
        proof {
            if !r {
                if self.bpc6 { assert(self.contains(ColorBitDepth::Depth6)); }
                if self.bpc8 { assert(self.contains(ColorBitDepth::Depth8)); }
                if self.bpc10 { assert(self.contains(ColorBitDepth::Depth10)); }
                if self.bpc12 { assert(self.contains(ColorBitDepth::Depth12)); }
                if self.bpc14 { assert(self.contains(ColorBitDepth::Depth14)); }
                if self.bpc16 { assert(self.contains(ColorBitDepth::Depth16)); }
            }
        }
        r
    }

    /// Returns a new set that also includes `depth`.
    pub fn with(self, depth: ColorBitDepth) -> (r: Self)
        ensures
            forall|d: ColorBitDepth| #[trigger] r.contains(d) <==> (d == depth || self.contains(d)),
    {
        let mut r = self;
        match depth {
            ColorBitDepth::Depth6 => { r.bpc6 = true; },
            ColorBitDepth::Depth8 => { r.bpc8 = true; },
            ColorBitDepth::Depth10 => { r.bpc10 = true; },
            ColorBitDepth::Depth12 => { r.bpc12 = true; },
            ColorBitDepth::Depth14 => { r.bpc14 = true; },
            ColorBitDepth::Depth16 => { r.bpc16 = true; },
        }
        r
    }

    /// Returns `true` if `depth` is in the set.
    pub fn supports(self, depth: ColorBitDepth) -> (r: bool)
        ensures
            r == self.contains(depth),
    {
        match depth {
            ColorBitDepth::Depth6 => self.bpc6,
            ColorBitDepth::Depth8 => self.bpc8,
            ColorBitDepth::Depth10 => self.bpc10,
            ColorBitDepth::Depth12 => self.bpc12,
            ColorBitDepth::Depth14 => self.bpc14,
            ColorBitDepth::Depth16 => self.bpc16,
        }
    }
}

impl Default for ColorBitDepths {
    fn default() -> (r: Self)
        ensures
            forall|d: ColorBitDepth| !#[trigger] r.contains(d),
    {
        ColorBitDepths::none()
    }
}

/// Supported color format and bit-depth combinations of a display.
#[derive(Debug, Clone, Copy, PartialEq, Eq, Structural)]
pub struct ColorCapabilities {
    /// Supported bit depths for RGB 4:4:4.
    pub rgb444: ColorBitDepths,
    /// Supported bit depths for YCbCr 4:4:4.
    pub ycbcr444: ColorBitDepths,
    /// Supported bit depths for YCbCr 4:2:2.
    pub ycbcr422: ColorBitDepths,
    /// Supported bit depths for YCbCr 4:2:0.
    pub ycbcr420: ColorBitDepths,
}

impl ColorCapabilities {
    /// The bit depths supported for `format`.
    pub open spec fn spec_for_format(self, format: ColorFormat) -> ColorBitDepths {
        match format {
            ColorFormat::Rgb444 => self.rgb444,
            ColorFormat::YCbCr444 => self.ycbcr444,
            ColorFormat::YCbCr422 => self.ycbcr422,
            ColorFormat::YCbCr420 => self.ycbcr420,
        }
    }

    /// Returns the supported bit depths for the given color format.
    pub fn for_format(&self, format: ColorFormat) -> (r: ColorBitDepths)
        ensures
            r == self.spec_for_format(format),
    {
        match format {
            ColorFormat::Rgb444 => self.rgb444,
            ColorFormat::YCbCr444 => self.ycbcr444,
            ColorFormat::YCbCr422 => self.ycbcr422,
            ColorFormat::YCbCr420 => self.ycbcr420,
        }
    }
}

impl Default for ColorCapabilities {
    /// No color format supported.
    fn default() -> (r: Self)
        ensures
            forall|f: ColorFormat, d: ColorBitDepth| !#[trigger] r.spec_for_format(f).contains(d),
    {
        ColorCapabilities {
            rgb444: ColorBitDepths::none(),
            ycbcr444: ColorBitDepths::none(),
            ycbcr422: ColorBitDepths::none(),
            ycbcr420: ColorBitDepths::none(),
        }
    }
}

} // verus!
