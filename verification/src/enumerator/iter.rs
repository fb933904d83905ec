//! The odometer iterator over the candidate product.

use vstd::prelude::*;

use crate::display::{ColorBitDepth, ColorFormat, HdmiForumFrl, VideoMode};
use crate::enumerator::{spec_candidate, spec_depth_block, spec_dsc_block, spec_frl_block};
use crate::types::CandidateConfig;

verus! {

/// Flattening a prefix one entry longer appends that entry.
pub proof fn lemma_flatten_take_step<A>(s: Seq<Seq<A>>, i: int)
    requires
        0 <= i < s.len(),
    ensures
        s.take(i + 1).flatten() == s.take(i).flatten() + s[i],
{
    assert(s.take(i + 1) =~= s.take(i).push(s[i]));
    s.take(i).lemma_flatten_push(s[i]);
}

/// Entry `r` of the `i`-th inner sequence sits in the flattening right after the
/// flattened prefix of the first `i` inner sequences.
pub proof fn lemma_flatten_index<A>(s: Seq<Seq<A>>, i: int, r: int)
    requires
        0 <= i < s.len(),
        0 <= r < s[i].len(),
    ensures
        s.take(i).flatten().len() + s[i].len() <= s.flatten().len(),
        s.flatten()[s.take(i).flatten().len() + r] == s[i][r],
{
    let x = s.take(i);
    let y = s.skip(i);
    assert(s =~= x + y);
    vstd::seq_lib::lemma_flatten_concat(x, y);
    assert(y.first() == s[i]);
    assert(y.flatten() == y.first() + y.drop_first().flatten());
    assert((x + y).flatten() == x.flatten() + y.flatten());
    assert(s.flatten() == x.flatten() + (s[i] + y.drop_first().flatten()));
}

/// When every inner sequence has length `b`, a prefix of `i` of them flattens to `i × b`
/// entries.
pub proof fn lemma_flatten_uniform_take<A>(s: Seq<Seq<A>>, b: int, i: int)
    requires
        0 <= i <= s.len(),
        forall|x: int| 0 <= x < s.len() ==> #[trigger] s[x].len() == b,
    ensures
        s.take(i).flatten().len() == i * b,
    decreases i,
{
    if i == 0 {
        assert(s.take(0) =~= Seq::<Seq<A>>::empty());
    } else {
        lemma_flatten_uniform_take(s, b, i - 1);
        lemma_flatten_take_step(s, i - 1);
        assert(i * b == (i - 1) * b + b) by (nonlinear_arith);
    }
}

/// The candidates of one mode over explicit axes: encoding by encoding, each with its own
/// depth list, then FRL rate, then DSC state.
pub open spec fn spec_axes_mode_block<'a>(
    mode: &'a VideoMode,
    encs: Seq<ColorFormat>,
    deps: Seq<Seq<ColorBitDepth>>,
    frls: Seq<HdmiForumFrl>,
    dscs: Seq<bool>,
) -> Seq<CandidateConfig<'a>> {
    Seq::new(encs.len(), |e: int| spec_depth_block(mode, encs[e], deps[e], frls, dscs)).flatten()
}

/// Every candidate over explicit axes, in odometer order: mode slowest, DSC state fastest.
pub open spec fn spec_axes_product<'a>(
    modes: Seq<VideoMode>,
    encs: Seq<ColorFormat>,
    deps: Seq<Seq<ColorBitDepth>>,
    frls: Seq<HdmiForumFrl>,
    dscs: Seq<bool>,
) -> Seq<CandidateConfig<'a>> {
    Seq::new(modes.len(), |m: int| spec_axes_mode_block(&modes[m], encs, deps, frls, dscs)).flatten()
}

/// Number of candidates of the first `e` encodings of one mode, each encoding holding its
/// depths × `size` candidates.
pub open spec fn spec_axes_offset(deps: Seq<Seq<ColorBitDepth>>, size: int, e: int) -> int
    decreases e,
{
    if e <= 0 {
        0
    } else {
        spec_axes_offset(deps, size, e - 1) + deps[e - 1].len() * size
    }
}

/// `i × b + r` stays below `n × b` for `i < n` and `r < b`.
proof fn lemma_mixed_radix(i: int, n: int, r: int, b: int)
    requires
        0 <= i < n,
        0 <= r < b,
    ensures
        0 <= i * b + r < n * b,
        i * b + r + 1 <= n * b,
{
    assert(0 <= i * b + r < n * b) by (nonlinear_arith)
        requires
            0 <= i < n,
            0 <= r < b,
    ;
}

/// Odometer iterator over the Cartesian product modes × color encodings × bit depths (per
/// encoding) × FRL rates × DSC states: the innermost index (DSC) advances first and carries
/// into the next when it wraps; the iterator is exhausted when the mode index reaches the
/// end of the mode list.
#[derive(Debug)]
pub struct EnumeratorIter<'a> {
    modes: &'a [VideoMode],
    encodings: Vec<ColorFormat>,
    depths: Vec<Vec<ColorBitDepth>>,
    frl_rates: Vec<HdmiForumFrl>,
    dsc: Vec<bool>,
    mode_idx: usize,
    enc_idx: usize,
    dep_idx: usize,
    frl_idx: usize,
    dsc_idx: usize,
}

impl<'a> EnumeratorIter<'a> {
    /// The bit depth lists, one per encoding.
    pub closed spec fn spec_depth_axes(self) -> Seq<Seq<ColorBitDepth>> {
        self.depths@.map_values(|d: Vec<ColorBitDepth>| d@)
    }

    /// Every candidate of the product, in odometer order.
    pub closed spec fn spec_all(self) -> Seq<CandidateConfig<'a>> {
        spec_axes_product(self.modes@, self.encodings@, self.spec_depth_axes(), self.frl_rates@, self.dsc@)
    }

    /// Number of candidates per (mode, encoding, depth): FRL rates × DSC states.
    pub closed spec fn spec_depth_size(self) -> int {
        (self.frl_rates@.len() * self.dsc@.len()) as int
    }

    /// Number of candidates of the first `e` encodings of one mode.
    pub closed spec fn spec_offset(self, e: int) -> int {
        spec_axes_offset(self.spec_depth_axes(), self.spec_depth_size(), e)
    }

    /// Number of candidates per mode.
    pub closed spec fn spec_mode_size(self) -> int {
        self.spec_offset(self.encodings@.len() as int)
    }

    /// How many candidates have been produced: the position of the current odometer reading
    /// in the product.
    pub closed spec fn spec_position(self) -> int {
        self.mode_idx * self.spec_mode_size() + self.spec_offset(self.enc_idx as int)
            + self.dep_idx * self.spec_depth_size() + self.frl_idx * self.dsc@.len() + self.dsc_idx
    }

    /// The candidates still to come.
    pub closed spec fn spec_remaining(self) -> Seq<CandidateConfig<'a>> {
        self.spec_all().skip(self.spec_position())
    }

    /// The candidate at the odometer's reading.
    pub closed spec fn spec_current(self) -> CandidateConfig<'a> {
        spec_candidate(
            &self.modes@[self.mode_idx as int],
            self.encodings@[self.enc_idx as int],
            self.spec_depth_axes()[self.enc_idx as int][self.dep_idx as int],
            self.frl_rates@[self.frl_idx as int],
            self.dsc@[self.dsc_idx as int],
        )
    }

    /// The odometer's consistency: every axis non-empty (a depth list per encoding), the
    /// reading within the axes while not exhausted, and all inner indices zero once exhausted.
    pub closed spec fn wf(self) -> bool {
        &&& self.depths@.len() == self.encodings@.len()
        &&& self.frl_rates@.len() >= 1
        &&& self.dsc@.len() >= 1
        &&& forall|e: int| 0 <= e < self.encodings@.len() ==> #[trigger] self.depths@[e]@.len() >= 1
        &&& self.mode_idx <= self.modes@.len()
        &&& self.encodings@.len() == 0 ==> self.mode_idx == self.modes@.len()
        &&& self.mode_idx < self.modes@.len() ==> {
            &&& self.enc_idx < self.encodings@.len()
            &&& self.dep_idx < self.depths@[self.enc_idx as int]@.len()
            &&& self.frl_idx < self.frl_rates@.len()
            &&& self.dsc_idx < self.dsc@.len()
        }
        &&& self.mode_idx == self.modes@.len() ==> {
            &&& self.enc_idx == 0
            &&& self.dep_idx == 0
            &&& self.frl_idx == 0
            &&& self.dsc_idx == 0
        }
    }

    /// The encoding offsets grow by each encoding's block.
    proof fn lemma_offset_step(self, e: int)
        requires
            self.wf(),
            0 <= e < self.encodings@.len(),
        ensures
            self.spec_offset(e + 1) == self.spec_offset(e) + self.spec_depth_axes()[e].len() * self.spec_depth_size(),
            self.spec_offset(e) + self.spec_depth_axes()[e].len() * self.spec_depth_size() <= self.spec_mode_size(),
    {
        self.lemma_offset_monotone(e + 1, self.encodings@.len() as int);
    }

    /// The encoding offsets never decrease.
    proof fn lemma_offset_monotone(self, a: int, b: int)
        requires
            self.wf(),
            0 <= a <= b <= self.encodings@.len(),
        ensures
            self.spec_offset(a) <= self.spec_offset(b),
            0 <= self.spec_offset(b),
        decreases b,
    {
        if b > 0 {
            let n = self.spec_depth_axes()[b - 1].len() as int;
            let z = self.spec_depth_size();
            assert(n * z >= 0) by (nonlinear_arith)
                requires
                    n >= 0,
                    z >= 0,
            ;
            if a < b {
                self.lemma_offset_monotone(a, b - 1);
            } else {
                self.lemma_offset_monotone(b - 1, b - 1);
            }
        }
    }

    /// A prefix of `e` encoding blocks of one mode holds the offset of encoding `e`
    /// candidates.
    proof fn lemma_prefix_len(self, mode: &'a VideoMode, e: int)
        requires
            self.wf(),
            0 <= e <= self.encodings@.len(),
        ensures
            Seq::new(
                self.encodings@.len(),
                |x: int| spec_depth_block(mode, self.encodings@[x], self.spec_depth_axes()[x], self.frl_rates@, self.dsc@),
            ).take(e).flatten().len() == self.spec_offset(e),
        decreases e,
    {
        let s = Seq::new(
            self.encodings@.len(),
            |x: int| spec_depth_block(mode, self.encodings@[x], self.spec_depth_axes()[x], self.frl_rates@, self.dsc@),
        );
        if e > 0 {
            self.lemma_prefix_len(mode, e - 1);
            lemma_flatten_take_step(s, e - 1);
            self.lemma_encoding_block_len(mode, e - 1);
        } else {
            assert(s.take(0) =~= Seq::<Seq<CandidateConfig<'a>>>::empty());
        }
    }

    /// A mode block holds the mode size candidates.
    proof fn lemma_mode_len(self, mode: &'a VideoMode)
        requires
            self.wf(),
        ensures
            spec_axes_mode_block(mode, self.encodings@, self.spec_depth_axes(), self.frl_rates@, self.dsc@).len()
                == self.spec_mode_size(),
    {
        let s = Seq::new(
            self.encodings@.len(),
            |x: int| spec_depth_block(mode, self.encodings@[x], self.spec_depth_axes()[x], self.frl_rates@, self.dsc@),
        );
        self.lemma_prefix_len(mode, self.encodings@.len() as int);
        assert(s.take(s.len() as int) =~= s);
    }

    /// An FRL block holds FRL rates × DSC states candidates.
    proof fn lemma_frl_block_len(self, mode: &'a VideoMode, enc: ColorFormat, d: ColorBitDepth)
        requires
            self.wf(),
        ensures
            spec_frl_block(mode, enc, d, self.frl_rates@, self.dsc@).len() == self.spec_depth_size(),
    {
        let frls = self.frl_rates@;
        let dscs = self.dsc@;
        let t = Seq::new(frls.len(), |k: int| spec_dsc_block(mode, enc, d, frls[k], dscs));
        assert forall|k: int| 0 <= k < t.len() implies #[trigger] t[k].len() == dscs.len() by {}
        lemma_flatten_uniform_take(t, dscs.len() as int, t.len() as int);
        assert(t.take(t.len() as int) =~= t);
    }

    /// An encoding block holds depths × FRL rates × DSC states candidates.
    proof fn lemma_encoding_block_len(self, mode: &'a VideoMode, e: int)
        requires
            self.wf(),
            0 <= e < self.encodings@.len(),
        ensures
            spec_depth_block(mode, self.encodings@[e], self.spec_depth_axes()[e], self.frl_rates@, self.dsc@).len()
                == self.spec_depth_axes()[e].len() * self.spec_depth_size(),
    {
        let enc = self.encodings@[e];
        let depths = self.spec_depth_axes()[e];
        let s = Seq::new(depths.len(), |j: int| spec_frl_block(mode, enc, depths[j], self.frl_rates@, self.dsc@));
        assert forall|j: int| 0 <= j < s.len() implies #[trigger] s[j].len() == self.spec_depth_size() by {
            self.lemma_frl_block_len(mode, enc, depths[j]);
        }
        lemma_flatten_uniform_take(s, self.spec_depth_size(), s.len() as int);
        assert(s.take(s.len() as int) =~= s);
    }

    /// The product holds modes × mode size candidates.
    proof fn lemma_all_len(self)
        requires
            self.wf(),
        ensures
            self.spec_all().len() == self.modes@.len() * self.spec_mode_size(),
    {
        let v = Seq::new(
            self.modes@.len(),
            |m: int| spec_axes_mode_block(&self.modes@[m], self.encodings@, self.spec_depth_axes(), self.frl_rates@, self.dsc@),
        );
        assert forall|m: int| 0 <= m < v.len() implies #[trigger] v[m].len() == self.spec_mode_size() by {
            self.lemma_mode_len(&self.modes@[m]);
        }
        lemma_flatten_uniform_take(v, self.spec_mode_size(), v.len() as int);
        assert(v.take(v.len() as int) =~= v);
    }

    /// While not exhausted, the reading's position lies within the product and holds the
    /// current candidate.
    proof fn lemma_current_at_position(self)
        requires
            self.wf(),
            self.mode_idx < self.modes@.len(),
        ensures
            0 <= self.spec_position() < self.spec_all().len(),
            self.spec_all()[self.spec_position()] == self.spec_current(),
    {
        let (mi, ei, di, fi, li) = (self.mode_idx as int, self.enc_idx as int, self.dep_idx as int, self.frl_idx as int, self.dsc_idx as int);
        let frls = self.frl_rates@;
        let dscs = self.dsc@;
        let nd = dscs.len() as int;
        let fd = self.spec_depth_size();
        let mode = &self.modes@[mi];
        let enc = self.encodings@[ei];
        let depths = self.spec_depth_axes()[ei];
        let d = depths[di];
        assert(depths.len() >= 1 && depths == self.depths@[ei]@);
        // FRL level: entry fi × |dsc| + li of the FRL block.
        let t = Seq::new(frls.len(), |k: int| spec_dsc_block(mode, enc, d, frls[k], dscs));
        assert forall|k: int| 0 <= k < t.len() implies #[trigger] t[k].len() == nd by {}
        lemma_flatten_uniform_take(t, nd, fi);
        lemma_flatten_index(t, fi, li);
        lemma_mixed_radix(fi, frls.len() as int, li, nd);
        let q3 = fi * nd + li;
        assert(spec_frl_block(mode, enc, d, frls, dscs)[q3] == spec_candidate(mode, enc, d, frls[fi], dscs[li]));
        // Depth level: entry di × fd + q3 of the encoding block.
        let u = Seq::new(depths.len(), |j: int| spec_frl_block(mode, enc, depths[j], frls, dscs));
        assert forall|j: int| 0 <= j < u.len() implies #[trigger] u[j].len() == fd by {
            self.lemma_frl_block_len(mode, enc, depths[j]);
        }
        lemma_flatten_uniform_take(u, fd, di);
        assert(fd == frls.len() * nd);
        lemma_flatten_index(u, di, q3);
        lemma_mixed_radix(di, depths.len() as int, q3, fd);
        let q2 = di * fd + q3;
        assert(spec_depth_block(mode, enc, depths, frls, dscs)[q2] == spec_frl_block(mode, enc, d, frls, dscs)[q3]);
        // Encoding level: entry offset(ei) + q2 of the mode block.
        let w = Seq::new(
            self.encodings@.len(),
            |x: int| spec_depth_block(mode, self.encodings@[x], self.spec_depth_axes()[x], frls, dscs),
        );
        self.lemma_prefix_len(mode, ei);
        self.lemma_encoding_block_len(mode, ei);
        lemma_flatten_index(w, ei, q2);
        self.lemma_offset_step(ei);
        let q = self.spec_offset(ei) + q2;
        assert(spec_axes_mode_block(mode, self.encodings@, self.spec_depth_axes(), frls, dscs)[q]
            == spec_depth_block(mode, enc, depths, frls, dscs)[q2]);
        // Mode level: entry mi × mode size + q of the product.
        let ms = self.spec_mode_size();
        let v = Seq::new(
            self.modes@.len(),
            |m: int| spec_axes_mode_block(&self.modes@[m], self.encodings@, self.spec_depth_axes(), frls, dscs),
        );
        assert forall|m: int| 0 <= m < v.len() implies #[trigger] v[m].len() == ms by {
            self.lemma_mode_len(&self.modes@[m]);
        }
        lemma_flatten_uniform_take(v, ms, mi);
        self.lemma_offset_monotone(0, ei);
        lemma_flatten_index(v, mi, q);
        lemma_mixed_radix(mi, self.modes@.len() as int, q, ms);
        assert(self.spec_position() == mi * ms + q);
    }
}

impl<'a> EnumeratorIter<'a> {
    /// The positions of two readings over the same axes differ by their index differences.
    proof fn lemma_same_axes(self, other: Self)
        requires
            self.modes == other.modes,
            self.encodings@ == other.encodings@,
            self.depths@ == other.depths@,
            self.frl_rates@ == other.frl_rates@,
            self.dsc@ == other.dsc@,
        ensures
            self.spec_all() == other.spec_all(),
            self.spec_mode_size() == other.spec_mode_size(),
            self.spec_depth_size() == other.spec_depth_size(),
            forall|e: int| self.spec_offset(e) == #[trigger] other.spec_offset(e),
    {
        assert(self.spec_depth_axes() == other.spec_depth_axes());
    }

    /// Advances the odometer and returns the candidate it was reading, or `None` once
    /// every candidate has been produced.
    pub fn next(&mut self) -> (r: Option<CandidateConfig<'a>>)
        requires
            old(self).wf(),
        ensures
            final(self).wf(),
            final(self).spec_all() == old(self).spec_all(),
            old(self).spec_remaining().len() == 0 ==> r is None && final(self).spec_remaining().len() == 0,
            old(self).spec_remaining().len() > 0 ==> r == Some(old(self).spec_remaining()[0])
                && final(self).spec_remaining() == old(self).spec_remaining().drop_first(),
    {
        let ghost s0 = *self;
        proof {
            s0.lemma_all_len();
            s0.lemma_offset_monotone(0, 0);
        }
        if self.mode_idx >= self.modes.len() {
            assert(s0.mode_idx == s0.modes@.len());
            assert(s0.enc_idx == 0 && s0.dep_idx == 0 && s0.frl_idx == 0 && s0.dsc_idx == 0);
            assert(s0.spec_offset(0) == 0);
            let ghost z1 = s0.dep_idx as int;
            let ghost z2 = s0.frl_idx as int;
            let ghost y1 = s0.spec_depth_size();
            let ghost y2 = s0.dsc@.len() as int;
            assert(z1 * y1 == 0 && z2 * y2 == 0) by (nonlinear_arith)
                requires
                    z1 == 0,
                    z2 == 0,
            ;
            assert(s0.spec_position() == s0.modes@.len() * s0.spec_mode_size());
            return None;
        }
        assert(s0.mode_idx < s0.modes@.len());
        assert(self.dsc_idx < self.dsc@.len());
        proof {
            s0.lemma_current_at_position();
        }
        let n_dsc = self.dsc.len();
        let n_frl = self.frl_rates.len();
        let n_dep = self.depths[self.enc_idx].len();
        let n_enc = self.encodings.len();
        let candidate = CandidateConfig {
            mode: &self.modes[self.mode_idx],
            color_encoding: self.encodings[self.enc_idx],
            bit_depth: self.depths[self.enc_idx][self.dep_idx],
            frl_rate: self.frl_rates[self.frl_idx],
            dsc_enabled: self.dsc[self.dsc_idx],
        };
        let ghost p = s0.spec_position();
        let ghost nd = s0.dsc@.len() as int;
        let ghost fd = s0.spec_depth_size();
        let ghost ms = s0.spec_mode_size();
        let ghost (mi, ei, di, fi, li) = (s0.mode_idx as int, s0.enc_idx as int, s0.dep_idx as int, s0.frl_idx as int, s0.dsc_idx as int);
        assert(candidate == s0.spec_current());
        assert(s0.spec_remaining()[0] == candidate);
        assert(s0.spec_all().skip(p + 1) =~= s0.spec_remaining().drop_first());

        // Advance the odometer, innermost (DSC) first.
        self.dsc_idx += 1;
        if self.dsc_idx < n_dsc {
            proof {
                self.lemma_same_axes(s0);
            }
            assert(self.spec_position() == p + 1);
            return Some(candidate);
        }
        self.dsc_idx = 0;
        self.frl_idx += 1;
        if self.frl_idx < n_frl {
            proof {
                self.lemma_same_axes(s0);
                assert((fi + 1) * nd == fi * nd + nd) by (nonlinear_arith);
            }
            assert(self.spec_position() == p + 1);
            return Some(candidate);
        }
        self.frl_idx = 0;
        self.dep_idx += 1;
        let ghost nf = s0.frl_rates@.len() as int;
        proof {
            assert(fd == nf * nd);
            assert((nf - 1) * nd + nd == nf * nd) by (nonlinear_arith);
        }
        if self.dep_idx < n_dep {
            proof {
                self.lemma_same_axes(s0);
                assert((di + 1) * fd == di * fd + fd) by (nonlinear_arith);
            }
            assert(self.spec_position() == p + 1);
            return Some(candidate);
        }
        let ghost ndep = s0.depths@[ei]@.len() as int;
        proof {
            assert((ndep - 1) * fd + fd == ndep * fd) by (nonlinear_arith);
            s0.lemma_offset_step(ei);
            assert(s0.spec_depth_axes()[ei].len() == ndep);
        }
        self.dep_idx = 0;
        assert(self.enc_idx == s0.enc_idx && s0.enc_idx < s0.encodings@.len());
        self.enc_idx += 1;
        if self.enc_idx < n_enc {
            proof {
                self.lemma_same_axes(s0);
            }
            assert(self.spec_position() == p + 1);
            return Some(candidate);
        }
        self.enc_idx = 0;
        self.mode_idx += 1;
        proof {
            self.lemma_same_axes(s0);
            assert((mi + 1) * ms == mi * ms + ms) by (nonlinear_arith);
            assert(ei + 1 == s0.encodings@.len());
        }
        assert(self.spec_position() == p + 1);
        Some(candidate)
    }
}

impl<'a> EnumeratorIter<'a> {
    /// An odometer over the given axes reading `mode_idx` with every inner index at zero:
    /// the start of the product when `mode_idx` is 0, exhausted when it is the number of modes.
    pub(crate) fn from_axes(
        modes: &'a [VideoMode],
        encodings: Vec<ColorFormat>,
        depths: Vec<Vec<ColorBitDepth>>,
        frl_rates: Vec<HdmiForumFrl>,
        dsc: Vec<bool>,
        mode_idx: usize,
    ) -> (r: Self)
        requires
            depths@.len() == encodings@.len(),
            frl_rates@.len() >= 1,
            dsc@.len() >= 1,
            forall|e: int| 0 <= e < encodings@.len() ==> (#[trigger] depths@[e])@.len() >= 1,
            encodings@.len() == 0 ==> mode_idx == modes@.len(),
            encodings@.len() > 0 ==> mode_idx == 0,
        ensures
            r.wf(),
            r.spec_depth_axes() == depths@.map_values(|d: Vec<ColorBitDepth>| d@),
            r.spec_all() == spec_axes_product(modes@, encodings@, r.spec_depth_axes(), frl_rates@, dsc@),
            r.spec_remaining() == r.spec_all(),
    {
        let r = EnumeratorIter { modes, encodings, depths, frl_rates, dsc, mode_idx, enc_idx: 0, dep_idx: 0, frl_idx: 0, dsc_idx: 0 };
        proof {
            r.lemma_offset_monotone(0, 0);
            let ms = r.spec_mode_size();
            let mi = mode_idx as int;
            if mode_idx != 0 {
                assert(ms == 0);
            }
            assert(mi * ms == 0) by (nonlinear_arith)
                requires
                    mi == 0 || ms == 0,
            ;
            assert(r.spec_position() == 0);
            assert(r.spec_all().skip(0) =~= r.spec_all());
        }
        r
    }
}

} // verus!
