//! The ranking key: the criteria of the default ranker as a sequence compared lexicographically.

use vstd::prelude::*;

use crate::display::{ColorFormat, VideoMode};
use crate::output::config::NegotiatedConfig;
use crate::ranker::policy::NegotiationPolicy;

verus! {

/// Pixel area of a mode (`width × height`).
pub open spec fn spec_pixel_area(mode: VideoMode) -> u32 {
    (mode.width * mode.height) as u32
}

/// Returns the pixel area of a video mode (`width × height`); it always fits in `u32`.
pub fn pixel_area(mode: &VideoMode) -> (r: u32)
    ensures
        r == mode.width * mode.height,
        r == spec_pixel_area(*mode),
{
    proof {
        assert(mode.width * mode.height <= 65535 * 65535) by (nonlinear_arith)
            requires mode.width <= 65535, mode.height <= 65535;
    }
    mode.width as u32 * mode.height as u32
}

/// Color fidelity rank of a format (higher is better): RGB 4:4:4 3, YCbCr 4:4:4 2,
/// YCbCr 4:2:2 1, YCbCr 4:2:0 0.
pub open spec fn spec_color_format_quality(format: ColorFormat) -> u8 {
    match format {
        ColorFormat::Rgb444 => 3,
        ColorFormat::YCbCr444 => 2,
        ColorFormat::YCbCr422 => 1,
        ColorFormat::YCbCr420 => 0,
    }
}

/// Returns the color fidelity rank of a format (higher is better).
///
/// RGB 4:4:4 ranks above YCbCr 4:4:4 because it needs no color-space conversion at the sink.
pub fn color_format_quality(format: ColorFormat) -> (r: u8)
    ensures
        r == spec_color_format_quality(format),
{
    match format {
        ColorFormat::Rgb444 => 3,
        ColorFormat::YCbCr444 => 2,
        ColorFormat::YCbCr422 => 1,
        ColorFormat::YCbCr420 => 0,
    }
}

/// The ranking key of a configuration; a smaller key ranks first. In priority order:
///
/// 1. DSC penalty (when the policy penalizes DSC): configurations without DSC first.
/// 2. Native resolution (when preferred): configurations whose pixel area is the native one first.
/// 3. Quality: with color fidelity preferred, bit depth, color format quality, then refresh rate,
///    each descending; else with high refresh preferred, refresh rate, bit depth, then color
///    format quality, each descending; else (power saving) the same three ascending.
/// 4. Progressive before interlaced.
/// 5. Lower FRL tier first.
/// 6. Larger pixel area first.
pub open spec fn spec_rank_key<W>(c: NegotiatedConfig<W>, policy: NegotiationPolicy, native: u32) -> Seq<int> {
    let bits = c.bit_depth.spec_bits_per_primary() as int;
    let quality = spec_color_format_quality(c.color_encoding) as int;
    let hz = c.mode.refresh_rate as int;
    let area = spec_pixel_area(c.mode) as int;
    let dsc: int = if policy.penalize_dsc && c.dsc_required { 1 } else { 0 };
    let non_native: int = if policy.prefer_native_resolution && area != native { 1 } else { 0 };
    let interlaced: int = if c.mode.interlaced { 1 } else { 0 };
    let tier = c.frl_rate.spec_tier() as int;
    if policy.prefer_color_fidelity {
        seq![dsc, non_native, -bits, -quality, -hz, interlaced, tier, -area]
    } else if policy.prefer_high_refresh {
        seq![dsc, non_native, -hz, -bits, -quality, interlaced, tier, -area]
    } else {
        seq![dsc, non_native, hz, bits, quality, interlaced, tier, -area]
    }
}

/// Lexicographic comparison of two keys: `-1` when `a` comes first, `1` when `b` does, `0`
/// when neither (keys of unequal length compare on their common prefix).
pub open spec fn spec_lex(a: Seq<int>, b: Seq<int>) -> int
    decreases a.len(),
{
    if a.len() == 0 || b.len() == 0 {
        0
    } else if a[0] < b[0] {
        -1
    } else if a[0] > b[0] {
        1
    } else {
        spec_lex(a.drop_first(), b.drop_first())
    }
}

/// The comparison of the default ranker: `-1` when `a` ranks before `b`, `1` after, `0` tied.
pub open spec fn spec_compare<W>(
    a: NegotiatedConfig<W>,
    b: NegotiatedConfig<W>,
    policy: NegotiationPolicy,
    native: u32,
) -> int {
    spec_lex(spec_rank_key(a, policy, native), spec_rank_key(b, policy, native))
}

/// Swapping the operands negates the comparison.
pub proof fn lemma_lex_antisymmetric(a: Seq<int>, b: Seq<int>)
    ensures
        spec_lex(a, b) == -spec_lex(b, a),
    decreases a.len(),
{
    if a.len() > 0 && b.len() > 0 && a[0] == b[0] {
        lemma_lex_antisymmetric(a.drop_first(), b.drop_first());
    }
}

/// Every key compares equal to itself.
pub proof fn lemma_lex_reflexive(a: Seq<int>)
    ensures
        spec_lex(a, a) == 0,
    decreases a.len(),
{
    if a.len() > 0 {
        lemma_lex_reflexive(a.drop_first());
    }
}

/// The comparison yields only `-1`, `0` or `1`.
pub proof fn lemma_lex_range(a: Seq<int>, b: Seq<int>)
    ensures
        -1 <= spec_lex(a, b) <= 1,
    decreases a.len(),
{
    if a.len() > 0 && b.len() > 0 && a[0] == b[0] {
        lemma_lex_range(a.drop_first(), b.drop_first());
    }
}

/// Lexicographic order on keys of one length is transitive, strictly when either step is strict.
pub proof fn lemma_lex_transitive(a: Seq<int>, b: Seq<int>, c: Seq<int>)
    requires
        a.len() == b.len(),
        b.len() == c.len(),
        spec_lex(a, b) <= 0,
        spec_lex(b, c) <= 0,
    ensures
        spec_lex(a, c) <= 0,
        spec_lex(a, c) == 0 ==> spec_lex(a, b) == 0 && spec_lex(b, c) == 0,
    decreases a.len(),
{
    if a.len() > 0 && a[0] == b[0] && b[0] == c[0] {
        lemma_lex_transitive(a.drop_first(), b.drop_first(), c.drop_first());
    }
}

/// Keys that compare equal are equal.
pub proof fn lemma_lex_zero_equal(a: Seq<int>, b: Seq<int>)
    requires
        a.len() == b.len(),
        spec_lex(a, b) == 0,
    ensures
        a == b,
    decreases a.len(),
{
    if a.len() > 0 {
        lemma_lex_zero_equal(a.drop_first(), b.drop_first());
        assert(a =~= seq![a[0]] + a.drop_first());
        assert(b =~= seq![b[0]] + b.drop_first());
    } else {
        assert(a =~= b);
    }
}

/// Every ranking key has eight entries.
pub proof fn lemma_rank_key_len<W>(c: NegotiatedConfig<W>, policy: NegotiationPolicy, native: u32)
    ensures
        spec_rank_key(c, policy, native).len() == 8,
{
}

/// Returns the ranking key of a configuration.
pub(crate) fn rank_key<W>(c: &NegotiatedConfig<W>, policy: &NegotiationPolicy, native: u32) -> (r: Vec<i64>)
    ensures
        r@.len() == 8,
        forall|i: int| 0 <= i < 8 ==> r@[i] as int == #[trigger] spec_rank_key(*c, *policy, native)[i],
{
    let bits = c.bit_depth.bits_per_primary() as i64;
    let quality = color_format_quality(c.color_encoding) as i64;
    let hz = c.mode.refresh_rate as i64;
    let area = pixel_area(&c.mode) as i64;
    let dsc: i64 = if policy.penalize_dsc && c.dsc_required { 1 } else { 0 };
    let non_native: i64 = if policy.prefer_native_resolution && area != native as i64 { 1 } else { 0 };
    let interlaced: i64 = if c.mode.interlaced { 1 } else { 0 };
    let tier = crate::engine::checks::frl::frl_tier(c.frl_rate) as i64;
    let neg_bits = -bits;
    let neg_quality = -quality;
    let neg_hz = -hz;
    let neg_area = -area;
    let r = if policy.prefer_color_fidelity {
        vec![dsc, non_native, neg_bits, neg_quality, neg_hz, interlaced, tier, neg_area]
    } else if policy.prefer_high_refresh {
        vec![dsc, non_native, neg_hz, neg_bits, neg_quality, interlaced, tier, neg_area]
    } else {
        vec![dsc, non_native, hz, bits, quality, interlaced, tier, neg_area]
    };
    r
}

/// Lexicographic comparison of two equal-length keys: `-1`, `0` or `1`.
pub(crate) fn lex_compare(a: &Vec<i64>, b: &Vec<i64>, Ghost(sa): Ghost<Seq<int>>, Ghost(sb): Ghost<Seq<int>>) -> (r: i8)
    requires
        a@.len() == b@.len(),
        sa.len() == a@.len(),
        sb.len() == b@.len(),
        forall|i: int| 0 <= i < sa.len() ==> a@[i] as int == sa[i],
        forall|i: int| 0 <= i < sb.len() ==> b@[i] as int == sb[i],
    ensures
        r as int == spec_lex(sa, sb),
{
    let mut i: usize = 0;
    assert(sa.skip(0) =~= sa);
    assert(sb.skip(0) =~= sb);
    while i < a.len()
        invariant
            a@.len() == b@.len(),
            sa.len() == a@.len(),
            sb.len() == b@.len(),
            i <= a@.len(),
            forall|k: int| 0 <= k < sa.len() ==> a@[k] as int == sa[k],
            forall|k: int| 0 <= k < sb.len() ==> b@[k] as int == sb[k],
            spec_lex(sa, sb) == spec_lex(sa.skip(i as int), sb.skip(i as int)),
        decreases a@.len() - i,
    {
        assert(sa.skip(i as int)[0] == sa[i as int]);
        assert(sb.skip(i as int)[0] == sb[i as int]);
        if a[i] < b[i] {
            return -1;
        }
        if a[i] > b[i] {
            return 1;
        }
        assert(sa.skip(i as int).drop_first() =~= sa.skip(i + 1));
        assert(sb.skip(i as int).drop_first() =~= sb.skip(i + 1));
        i += 1;
    }
    assert(sa.skip(i as int).len() == 0);
    0
}

} // verus!
