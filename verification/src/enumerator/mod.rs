//! Candidate enumerator trait and implementations.
//!
//! The enumerator produces the Cartesian product of modes × color encodings × bit depths ×
//! FRL tiers × DSC states, in odometer order (mode slowest, DSC fastest). It pre-filters
//! the dimensions against the capability triple; the constraint engine stays authoritative.

use vstd::prelude::*;

pub mod iter;

pub use iter::{spec_axes_mode_block, EnumeratorIter};

use crate::display::{ColorBitDepth, ColorBitDepths, ColorCapabilities, ColorFormat, HdmiForumFrl, VideoMode};
use crate::engine::checks::dsc::{sink_supports_dsc, source_supports_dsc, spec_sink_dsc, spec_source_dsc};
use crate::engine::checks::frl::{frl_from_tier, frl_tier, spec_effective_frl_tier};
use crate::types::{CableCapabilities, CandidateConfig, SinkCapabilities, SourceCapabilities};

verus! {

/// `s` with `x` appended when `keep` holds.
pub open spec fn spec_keep<T>(s: Seq<T>, x: T, keep: bool) -> Seq<T> {
    if keep { s.push(x) } else { s }
}

/// The enumerated bit depths a depth set holds, in ascending order (8, 10, 12, 16 bpc).
pub open spec fn spec_enumerated_depths(supported: ColorBitDepths) -> Seq<ColorBitDepth> {
    spec_keep(
        spec_keep(
            spec_keep(
                spec_keep(Seq::empty(), ColorBitDepth::Depth8, supported.contains(ColorBitDepth::Depth8)),
                ColorBitDepth::Depth10,
                supported.contains(ColorBitDepth::Depth10),
            ),
            ColorBitDepth::Depth12,
            supported.contains(ColorBitDepth::Depth12),
        ),
        ColorBitDepth::Depth16,
        supported.contains(ColorBitDepth::Depth16),
    )
}

/// Whether a color format has at least one enumerated bit depth.
pub open spec fn spec_format_enumerated(caps: ColorCapabilities, format: ColorFormat) -> bool {
    spec_enumerated_depths(caps.spec_for_format(format)).len() > 0
}

/// The enumerated color encodings, in order RGB 4:4:4, YCbCr 4:4:4, 4:2:2, 4:2:0: those the
/// sink declares at some enumerated bit depth.
pub open spec fn spec_enumerated_encodings(caps: ColorCapabilities) -> Seq<ColorFormat> {
    spec_keep(
        spec_keep(
            spec_keep(
                spec_keep(Seq::empty(), ColorFormat::Rgb444, spec_format_enumerated(caps, ColorFormat::Rgb444)),
                ColorFormat::YCbCr444,
                spec_format_enumerated(caps, ColorFormat::YCbCr444),
            ),
            ColorFormat::YCbCr422,
            spec_format_enumerated(caps, ColorFormat::YCbCr422),
        ),
        ColorFormat::YCbCr420,
        spec_format_enumerated(caps, ColorFormat::YCbCr420),
    )
}

/// The enumerated FRL rates: every tier at or below the effective ceiling, highest first,
/// ending with `NotSupported` (TMDS), which is always included.
pub open spec fn spec_enumerated_frl_rates(
    sink: &SinkCapabilities,
    source: &SourceCapabilities,
    cable: &CableCapabilities,
) -> Seq<HdmiForumFrl> {
    let ceiling = spec_effective_frl_tier(sink, source, cable);
    Seq::new((ceiling + 1) as nat, |i: int| HdmiForumFrl::spec_from_tier((ceiling - i) as u8))
}

/// The enumerated DSC states: `[false, true]` when both source and sink declare DSC 1.2a,
/// else `[false]`.
pub open spec fn spec_dsc_options(sink: &SinkCapabilities, source: &SourceCapabilities) -> Seq<bool> {
    if spec_source_dsc(source) && spec_sink_dsc(sink) {
        seq![false, true]
    } else {
        seq![false]
    }
}

/// One candidate.
pub open spec fn spec_candidate<'a>(
    mode: &'a VideoMode,
    color_encoding: ColorFormat,
    bit_depth: ColorBitDepth,
    frl_rate: HdmiForumFrl,
    dsc_enabled: bool,
) -> CandidateConfig<'a> {
    CandidateConfig { mode, color_encoding, bit_depth, frl_rate, dsc_enabled }
}

/// The candidates of one (mode, encoding, depth, FRL rate), one per DSC state.
pub open spec fn spec_dsc_block<'a>(
    mode: &'a VideoMode,
    encoding: ColorFormat,
    depth: ColorBitDepth,
    frl: HdmiForumFrl,
    dscs: Seq<bool>,
) -> Seq<CandidateConfig<'a>> {
    Seq::new(dscs.len(), |l: int| spec_candidate(mode, encoding, depth, frl, dscs[l]))
}

/// The candidates of one (mode, encoding, depth), FRL rate before DSC state.
pub open spec fn spec_frl_block<'a>(
    mode: &'a VideoMode,
    encoding: ColorFormat,
    depth: ColorBitDepth,
    frls: Seq<HdmiForumFrl>,
    dscs: Seq<bool>,
) -> Seq<CandidateConfig<'a>> {
    Seq::new(frls.len(), |k: int| spec_dsc_block(mode, encoding, depth, frls[k], dscs)).flatten()
}

/// The candidates of one (mode, encoding), depth before FRL rate.
pub open spec fn spec_depth_block<'a>(
    mode: &'a VideoMode,
    encoding: ColorFormat,
    depths: Seq<ColorBitDepth>,
    frls: Seq<HdmiForumFrl>,
    dscs: Seq<bool>,
) -> Seq<CandidateConfig<'a>> {
    Seq::new(depths.len(), |j: int| spec_frl_block(mode, encoding, depths[j], frls, dscs)).flatten()
}

/// The candidates of one mode, encoding before depth; each encoding with its own depths.
pub open spec fn spec_mode_block<'a>(
    mode: &'a VideoMode,
    caps: ColorCapabilities,
    frls: Seq<HdmiForumFrl>,
    dscs: Seq<bool>,
) -> Seq<CandidateConfig<'a>> {
    let encodings = spec_enumerated_encodings(caps);
    Seq::new(
        encodings.len(),
        |i: int| spec_depth_block(mode, encodings[i], spec_enumerated_depths(caps.spec_for_format(encodings[i])), frls, dscs),
    ).flatten()
}

/// Every candidate for `modes`, in odometer order: mode, encoding, depth, FRL rate, DSC state.
pub open spec fn spec_product<'a>(
    modes: Seq<VideoMode>,
    sink: &SinkCapabilities,
    source: &SourceCapabilities,
    cable: &CableCapabilities,
) -> Seq<CandidateConfig<'a>> {
    let frls = spec_enumerated_frl_rates(sink, source, cable);
    let dscs = spec_dsc_options(sink, source);
    Seq::new(modes.len(), |m: int| spec_mode_block(&modes[m], sink.color_capabilities, frls, dscs)).flatten()
}

/// `Seq::new(n + 1, f)` flattens to `Seq::new(n, f)` flattened, followed by `f(n)`.
pub proof fn lemma_flatten_new_step<A>(n: nat, f: spec_fn(int) -> Seq<A>)
    ensures
        Seq::new(n + 1, f).flatten() == Seq::new(n, f).flatten() + f(n as int),
{
    assert(Seq::new(n + 1, f) =~= Seq::new(n, f).push(f(n as int)));
    Seq::new(n, f).lemma_flatten_push(f(n as int));
}

/// Returns the enumerated bit depths of a depth set, ascending.
fn enumerated_depths(supported: ColorBitDepths) -> (r: Vec<ColorBitDepth>)
    ensures
        r@ == spec_enumerated_depths(supported),
{
    let mut r: Vec<ColorBitDepth> = Vec::new();
    if supported.supports(ColorBitDepth::Depth8) {
        r.push(ColorBitDepth::Depth8);
    }
    if supported.supports(ColorBitDepth::Depth10) {
        r.push(ColorBitDepth::Depth10);
    }
    if supported.supports(ColorBitDepth::Depth12) {
        r.push(ColorBitDepth::Depth12);
    }
    if supported.supports(ColorBitDepth::Depth16) {
        r.push(ColorBitDepth::Depth16);
    }
    r
}

/// Returns the enumerated color encodings of a capability map.
fn enumerated_encodings(caps: &ColorCapabilities) -> (r: Vec<ColorFormat>)
    ensures
        r@ == spec_enumerated_encodings(*caps),
{
    let mut r: Vec<ColorFormat> = Vec::new();
    if enumerated_depths(caps.rgb444).len() > 0 {
        r.push(ColorFormat::Rgb444);
    }
    if enumerated_depths(caps.ycbcr444).len() > 0 {
        r.push(ColorFormat::YCbCr444);
    }
    if enumerated_depths(caps.ycbcr422).len() > 0 {
        r.push(ColorFormat::YCbCr422);
    }
    if enumerated_depths(caps.ycbcr420).len() > 0 {
        r.push(ColorFormat::YCbCr420);
    }
    r
}

/// Returns the enumerated FRL rates, highest tier first, `NotSupported` last.
fn enumerated_frl_rates(
    sink: &SinkCapabilities,
    source: &SourceCapabilities,
    cable: &CableCapabilities,
) -> (r: Vec<HdmiForumFrl>)
    ensures
        r@ == spec_enumerated_frl_rates(sink, source, cable),
{
    let sink_max: u8 = match &sink.hdmi_forum {
        Some(hf) => frl_tier(hf.max_frl_rate),
        None => 0,
    };
    let source_max = frl_tier(source.max_frl_rate);
    let cable_max = frl_tier(cable.max_frl_rate);
    let sink_source = if sink_max <= source_max { sink_max } else { source_max };
    let ceiling = if sink_source <= cable_max { sink_source } else { cable_max };
    let ghost expected = spec_enumerated_frl_rates(sink, source, cable);
    assert(ceiling == spec_effective_frl_tier(sink, source, cable));
    let mut r: Vec<HdmiForumFrl> = Vec::new();
    let mut i: u8 = 0;
    while i <= ceiling
        invariant
            ceiling <= 6,
            i <= ceiling + 1,
            expected.len() == ceiling + 1,
            r@ =~= expected.take(i as int),
            expected == spec_enumerated_frl_rates(sink, source, cable),
            ceiling == spec_effective_frl_tier(sink, source, cable),
        decreases ceiling + 1 - i,
    {
        r.push(frl_from_tier(ceiling - i));
        i += 1;
    }
    assert(expected.take(expected.len() as int) =~= expected);
    r
}

/// Returns the enumerated DSC states.
fn dsc_options(sink: &SinkCapabilities, source: &SourceCapabilities) -> (r: Vec<bool>)
    ensures
        r@ == spec_dsc_options(sink, source),
{
    let mut r: Vec<bool> = Vec::new();
    r.push(false);
    if source_supports_dsc(source) && sink_supports_dsc(sink) {
        r.push(true);
    }
    assert(r@ =~= spec_dsc_options(sink, source));
    r
}

/// Every entry kept by `spec_keep` satisfies `p` when every entry of the base does and the
/// kept entry does.
proof fn lemma_keep_all<T>(s: Seq<T>, x: T, keep: bool, p: spec_fn(T) -> bool)
    requires
        forall|i: int| 0 <= i < s.len() ==> p(#[trigger] s[i]),
        keep ==> p(x),
    ensures
        forall|i: int| 0 <= i < spec_keep(s, x, keep).len() ==> p(#[trigger] spec_keep(s, x, keep)[i]),
{
}

/// Every enumerated color encoding has at least one enumerated bit depth.
proof fn lemma_enumerated_encodings_have_depths(caps: ColorCapabilities)
    ensures
        forall|e: int| 0 <= e < spec_enumerated_encodings(caps).len()
            ==> spec_format_enumerated(caps, #[trigger] spec_enumerated_encodings(caps)[e]),
{
    let p = |f: ColorFormat| spec_format_enumerated(caps, f);
    let s0 = Seq::<ColorFormat>::empty();
    let s1 = spec_keep(s0, ColorFormat::Rgb444, p(ColorFormat::Rgb444));
    let s2 = spec_keep(s1, ColorFormat::YCbCr444, p(ColorFormat::YCbCr444));
    let s3 = spec_keep(s2, ColorFormat::YCbCr422, p(ColorFormat::YCbCr422));
    lemma_keep_all(s0, ColorFormat::Rgb444, p(ColorFormat::Rgb444), p);
    lemma_keep_all(s1, ColorFormat::YCbCr444, p(ColorFormat::YCbCr444), p);
    lemma_keep_all(s2, ColorFormat::YCbCr422, p(ColorFormat::YCbCr422), p);
    lemma_keep_all(s3, ColorFormat::YCbCr420, p(ColorFormat::YCbCr420), p);
    assert(spec_enumerated_encodings(caps) == spec_keep(s3, ColorFormat::YCbCr420, p(ColorFormat::YCbCr420)));
}

/// Builds the odometer over `modes` under the capability triple, reading the first
/// candidate (or exhausted when no color encoding is usable).
pub fn build_iter<'a>(
    modes: &'a [VideoMode],
    sink: &SinkCapabilities,
    source: &SourceCapabilities,
    cable: &CableCapabilities,
) -> (r: EnumeratorIter<'a>)
    ensures
        r.wf(),
        r.spec_remaining() == spec_product::<'a>(modes@, sink, source, cable),
{
    let caps = &sink.color_capabilities;
    let encodings = enumerated_encodings(caps);
    proof {
        lemma_enumerated_encodings_have_depths(*caps);
    }
    let mut depths: Vec<Vec<ColorBitDepth>> = Vec::new();
    let mut i: usize = 0;
    while i < encodings.len()
        invariant
            i <= encodings@.len(),
            encodings@ == spec_enumerated_encodings(*caps),
            forall|e: int| 0 <= e < encodings@.len() ==> spec_format_enumerated(*caps, #[trigger] encodings@[e]),
            depths@.len() == i,
            forall|e: int| 0 <= e < i ==> (#[trigger] depths@[e])@ == spec_enumerated_depths(caps.spec_for_format(encodings@[e])),
        decreases encodings@.len() - i,
    {
        depths.push(enumerated_depths(caps.for_format(encodings[i])));
        i += 1;
    }
    let frl_rates = enumerated_frl_rates(sink, source, cable);
    let dsc = dsc_options(sink, source);
    let mode_idx = if encodings.len() == 0 { modes.len() } else { 0 };
    let it = EnumeratorIter::from_axes(modes, encodings, depths, frl_rates, dsc, mode_idx);
    proof {
        let frls = spec_enumerated_frl_rates(sink, source, cable);
        let dscs = spec_dsc_options(sink, source);
        let encs = spec_enumerated_encodings(*caps);
        assert forall|m: int| 0 <= m < modes@.len() implies
            #[trigger] spec_axes_mode_block(&modes@[m], encs, it.spec_depth_axes(), frls, dscs)
                == spec_mode_block(&modes@[m], *caps, frls, dscs) by {
            assert(Seq::new(encs.len(), |e: int| spec_depth_block(&modes@[m], encs[e], it.spec_depth_axes()[e], frls, dscs))
                =~= Seq::new(encs.len(), |e: int| spec_depth_block(&modes@[m], encs[e], spec_enumerated_depths(caps.spec_for_format(encs[e])), frls, dscs)));
        }
        assert(Seq::new(modes@.len(), |m: int| spec_axes_mode_block(&modes@[m], encs, it.spec_depth_axes(), frls, dscs))
            =~= Seq::new(modes@.len(), |m: int| spec_mode_block(&modes@[m], *caps, frls, dscs)));
    }
    it
}

/// Every candidate for `modes` under the capability triple, in odometer order: the
/// odometer run to exhaustion.
pub fn enumerate_modes<'a>(
    modes: &'a [VideoMode],
    sink: &SinkCapabilities,
    source: &SourceCapabilities,
    cable: &CableCapabilities,
) -> (r: Vec<CandidateConfig<'a>>)
    ensures
        r@ == spec_product::<'a>(modes@, sink, source, cable),
{
    let mut it = build_iter(modes, sink, source, cable);
    let ghost all = it.spec_remaining();
    let mut out: Vec<CandidateConfig<'a>> = Vec::new();
    loop
        invariant
            it.wf(),
            out@ + it.spec_remaining() == all,
        ensures
            out@ == all,
        decreases it.spec_remaining().len(),
    {
        match it.next() {
            Some(c) => {
                out.push(c);
            },
            None => {
                assert(out@ + it.spec_remaining() =~= out@);
                break;
            },
        }
    }
    out
}

/// Generates the candidate configurations for a capability triple.
///
/// Completely policy-free: candidates are produced without pre-filtering on perceived
/// usefulness; rejection happens only in the constraint engine.
pub trait CandidateEnumerator {
    /// The candidates, in enumeration order.
    spec fn spec_candidates<'a>(
        &'a self,
        sink: &'a SinkCapabilities,
        source: &'a SourceCapabilities,
        cable: &'a CableCapabilities,
    ) -> Seq<CandidateConfig<'a>>;

    /// Enumerates all candidate configurations from the given capability triple.
    fn enumerate<'a>(
        &'a self,
        sink: &'a SinkCapabilities,
        source: &'a SourceCapabilities,
        cable: &'a CableCapabilities,
    ) -> (r: Vec<CandidateConfig<'a>>)
        ensures
            r@ == self.spec_candidates(sink, source, cable),
    ;
}

/// Candidate enumerator backed by a caller-supplied mode slice.
#[derive(Debug)]
pub struct SliceEnumerator<'modes> {
    modes: &'modes [VideoMode],
}

impl<'modes> SliceEnumerator<'modes> {
    /// The enumerator's modes.
    pub closed spec fn spec_modes(&self) -> &'modes [VideoMode] {
        self.modes
    }

    /// Creates a new enumerator over the given mode slice.
    pub fn new(modes: &'modes [VideoMode]) -> (r: Self)
        ensures
            r.spec_modes() == modes,
    {
        SliceEnumerator { modes }
    }
}

impl<'modes> CandidateEnumerator for SliceEnumerator<'modes> {
    open spec fn spec_candidates<'a>(
        &'a self,
        sink: &'a SinkCapabilities,
        source: &'a SourceCapabilities,
        cable: &'a CableCapabilities,
    ) -> Seq<CandidateConfig<'a>> {
        spec_product::<'a>(self.spec_modes()@, sink, source, cable)
    }

    fn enumerate<'a>(
        &'a self,
        sink: &'a SinkCapabilities,
        source: &'a SourceCapabilities,
        cable: &'a CableCapabilities,
    ) -> (r: Vec<CandidateConfig<'a>>) {
        enumerate_modes(self.modes, sink, source, cable)
    }
}

/// Default candidate enumerator: the full Cartesian product over the sink's supported modes.
#[derive(Debug, Default)]
pub struct DefaultEnumerator;

impl CandidateEnumerator for DefaultEnumerator {
    open spec fn spec_candidates<'a>(
        &'a self,
        sink: &'a SinkCapabilities,
        source: &'a SourceCapabilities,
        cable: &'a CableCapabilities,
    ) -> Seq<CandidateConfig<'a>> {
        spec_product::<'a>(sink.supported_modes@, sink, source, cable)
    }

    fn enumerate<'a>(
        &'a self,
        sink: &'a SinkCapabilities,
        source: &'a SourceCapabilities,
        cable: &'a CableCapabilities,
    ) -> (r: Vec<CandidateConfig<'a>>) {
        enumerate_modes(sink.supported_modes.as_slice(), sink, source, cable)
    }
}

} // verus!
