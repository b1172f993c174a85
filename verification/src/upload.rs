//! Plane ingestion: deriving a canonical plane-data descriptor from
//! four 64-bit component bit masks, and uploading the described
//! pixels into a device texture.
//!
//! A mask of zero means the component is absent.  Each non-zero mask
//! contributes a component whose bit size is the mask's number of set
//! bits and whose bit offset is the mask's number of trailing zeros;
//! the components are ordered by rising bit offset (ties by channel)
//! and stored as per-component sizes, paddings and a channel index
//! map.  The inference is deterministic, and re-deriving a descriptor
//! from the masks it denotes yields the same descriptor
//! ([`lemma_mask_inference_idempotent`]).

use vstd::prelude::*;

verus! {

use vstd::seq_lib::lemma_multiset_commutative;
use vstd::seq_lib::lemma_sorted_unique;
use vstd::relations::sorted_by;
use vstd::relations::total_ordering;

use crate::bits::bit_count;
use crate::bits::trailing_zeros;
use crate::bits::contiguous_mask;
use crate::bits::lemma_bit_length_bound;
use crate::bits::lemma_contiguous_mask_counts;
use crate::bits::lemma_contiguous_mask_fits;
use crate::bits::lemma_count_zeros_le_length;
use crate::bits::lemma_u64_below_pow2_64;
use crate::bits::mask_bit_count;
use crate::bits::mask_trailing_zeros;
use crate::bits::build_contiguous_mask;
use crate::gpu::FmtType;
use crate::gpu::HandleType;
use crate::gpu::SharedMem;
use crate::gpu::Tex;
use crate::gpu::TexAddressMode;
use crate::gpu::TexParams;
use crate::gpu::TexSampleMode;
use crate::renderer::Plane;
use crate::vulkan::Vulkan;

/// One inferred component: the source channel it maps to, its bit
/// size, and its absolute bit offset within a pixel.
pub ghost struct CompLayout {
    pub chan: int,
    pub size: int,
    pub shift: int,
}

/// The component order: by bit offset, ties by channel, then by
/// size.  Comparing every field makes the order antisymmetric, so it
/// is a total ordering on components.
pub open spec fn comp_le(a: CompLayout, b: CompLayout) -> bool {
    if a.shift != b.shift {
        a.shift < b.shift
    } else if a.chan != b.chan {
        a.chan < b.chan
    } else {
        a.size <= b.size
    }
}

/// The component order as a relation value.
pub open spec fn comp_leq() -> spec_fn(CompLayout, CompLayout) -> bool {
    |a: CompLayout, b: CompLayout| comp_le(a, b)
}

pub proof fn lemma_comp_leq_total_ordering()
    ensures
        total_ordering(comp_leq()),
{
    assert(vstd::relations::reflexive(comp_leq())) by {
        assert forall|a: CompLayout| #[trigger] comp_leq()(a, a) by {}
    }
    assert(vstd::relations::antisymmetric(comp_leq())) by {
        assert forall|a: CompLayout, b: CompLayout|
            #[trigger] comp_leq()(a, b) && #[trigger] comp_leq()(b, a) implies a == b by {}
    }
    assert(vstd::relations::transitive(comp_leq())) by {
        assert forall|a: CompLayout, b: CompLayout, c: CompLayout|
            #[trigger] comp_leq()(a, b) && #[trigger] comp_leq()(b, c) implies comp_leq()(a, c) by {}
    }
    assert(vstd::relations::strongly_connected(comp_leq())) by {
        assert forall|a: CompLayout, b: CompLayout|
            #[trigger] comp_leq()(a, b) || #[trigger] comp_leq()(b, a) by {}
    }
}

/// The component channel `i` contributes: its mask's bit count and
/// trailing-zero count.
pub open spec fn comp_at(masks: Seq<u64>, i: int) -> CompLayout {
    CompLayout {
        chan: i,
        size: bit_count(masks[i] as int) as int,
        shift: trailing_zeros(masks[i] as int) as int,
    }
}

/// The components of the first `n` channels, in channel order,
/// skipping absent (zero) masks.
pub open spec fn comps_upto(masks: Seq<u64>, n: int) -> Seq<CompLayout>
    decreases n,
{
    if n <= 0 {
        Seq::empty()
    } else if masks[n - 1] == 0 {
        comps_upto(masks, n - 1)
    } else {
        comps_upto(masks, n - 1).push(comp_at(masks, n - 1))
    }
}

/// The components of all four channels, in channel order.
pub open spec fn comps_of(masks: Seq<u64>) -> Seq<CompLayout> {
    comps_upto(masks, 4)
}

/// The inferred component layout: the present components sorted by
/// bit offset.
pub open spec fn infer_comps(masks: Seq<u64>) -> Seq<CompLayout> {
    comps_of(masks).sort_by(comp_leq())
}

/// Every component a mask 4-tuple contributes is well-formed: its
/// channel is the index of a non-zero mask, and its size and offset
/// fit the 64 bits of the mask.
pub open spec fn comp_wf(c: CompLayout) -> bool {
    &&& 0 <= c.chan < 4
    &&& 1 <= c.size <= 64
    &&& 0 <= c.shift < 64
    &&& c.size + c.shift <= 64
}

/// The mask a well-formed component denotes: `size` set bits
/// starting at bit `shift`.
pub open spec fn canon_mask_of(c: CompLayout) -> u64
    recommends
        comp_wf(c),
{
    contiguous_mask(c.size, c.shift) as u64
}

/// The mask 4-tuple a component sequence denotes: each component
/// sets its channel's mask; channels no component maps to stay 0.
pub open spec fn rebuild_masks(comps: Seq<CompLayout>) -> Seq<u64>
    decreases comps.len(),
{
    if comps.len() == 0 {
        seq![0u64, 0u64, 0u64, 0u64]
    } else {
        rebuild_masks(comps.drop_last()).update(comps.last().chan, canon_mask_of(comps.last()))
    }
}

/// Membership in `comps_upto`: every element is the component of its
/// own (non-zero) channel, and channels stay below `n`.
proof fn lemma_comps_upto_elem(masks: Seq<u64>, n: int, x: CompLayout)
    requires
        comps_upto(masks, n).contains(x),
    ensures
        0 <= x.chan < n,
        masks[x.chan] != 0,
        x == comp_at(masks, x.chan),
    decreases n,
{
    if n > 0 {
        let prefix = comps_upto(masks, n - 1);
        if masks[n - 1] == 0 {
            lemma_comps_upto_elem(masks, n - 1, x);
        } else {
            if x == comp_at(masks, n - 1) && x.chan == n - 1 {
            } else {
                // x is in the prefix
                let s = prefix.push(comp_at(masks, n - 1));
                let i = choose|i: int| 0 <= i < s.len() && s[i] == x;
                if i < prefix.len() {
                    assert(prefix.contains(x));
                    lemma_comps_upto_elem(masks, n - 1, x);
                } else {
                    assert(x == comp_at(masks, n - 1));
                }
            }
        }
    }
}

/// The channels of `comps_upto` rise strictly, so the sequence has
/// no duplicate elements.
proof fn lemma_comps_upto_no_duplicates(masks: Seq<u64>, n: int)
    ensures
        comps_upto(masks, n).no_duplicates(),
    decreases n,
{
    if n <= 0 {
    } else {
        lemma_comps_upto_no_duplicates(masks, n - 1);
        if masks[n - 1] != 0 {
            let prefix = comps_upto(masks, n - 1);
            let c = comp_at(masks, n - 1);
            if prefix.contains(c) {
                lemma_comps_upto_elem(masks, n - 1, c);
                assert(false);
            }
            assert forall|i: int, j: int|
                0 <= i < j < prefix.push(c).len() implies prefix.push(c)[i] != prefix.push(c)[j] by {
                if j < prefix.len() {
                } else {
                    assert(prefix.push(c)[j] == c);
                    assert(prefix.contains(prefix[i])) by {
                        assert(prefix[i] == prefix.push(c)[i]);
                    }
                }
            }
        }
    }
}

/// Every element of `comps_upto` is well-formed.
proof fn lemma_comps_upto_wf(masks: Seq<u64>, n: int, x: CompLayout)
    requires
        n <= 4,
        comps_upto(masks, n).contains(x),
    ensures
        comp_wf(x),
{
    lemma_comps_upto_elem(masks, n, x);
    let m = masks[x.chan];
    lemma_u64_below_pow2_64(m);
    lemma_bit_length_bound(m as int, 64);
    lemma_count_zeros_le_length(m as int);
}

/// What sorting guarantees for the inferred layout: same components,
/// sorted, all well-formed, channels pairwise distinct.
proof fn lemma_infer_comps_props(masks: Seq<u64>)
    requires
        masks.len() == 4,
    ensures
        infer_comps(masks).to_multiset() == comps_of(masks).to_multiset(),
        sorted_by(infer_comps(masks), comp_leq()),
        forall|i: int|
            0 <= i < infer_comps(masks).len() ==> comp_wf(#[trigger] infer_comps(masks)[i]),
        forall|i: int, j: int|
            0 <= i < j < infer_comps(masks).len() ==> infer_comps(masks)[i].chan != infer_comps(
                masks,
            )[j].chan,
        infer_comps(masks).len() <= 4,
{
    broadcast use vstd::seq_lib::group_to_multiset_ensures;

    lemma_comp_leq_total_ordering();
    let base = comps_of(masks);
    let sorted = infer_comps(masks);
    base.lemma_sort_by_ensures(comp_leq());
    assert(sorted.to_multiset() == base.to_multiset());
    // well-formedness carries over through membership
    assert forall|i: int| 0 <= i < sorted.len() implies comp_wf(#[trigger] sorted[i]) by {
        assert(sorted.to_multiset().contains(sorted[i])) by {
            assert(sorted.contains(sorted[i]));
        }
        assert(base.contains(sorted[i]));
        lemma_comps_upto_wf(masks, 4, sorted[i]);
    }
    // distinct channels: equal channels would mean equal elements,
    // and the multiset of a duplicate-free sequence has no value twice
    lemma_comps_upto_no_duplicates(masks, 4);
    base.lemma_multiset_has_no_duplicates();
    sorted.lemma_multiset_has_no_duplicates_conv();
    assert forall|i: int, j: int|
        0 <= i < j < sorted.len() implies sorted[i].chan != sorted[j].chan by {
        if sorted[i].chan == sorted[j].chan {
            assert(base.contains(sorted[i])) by {
                assert(sorted.contains(sorted[i]));
            }
            assert(base.contains(sorted[j])) by {
                assert(sorted.contains(sorted[j]));
            }
            lemma_comps_upto_elem(masks, 4, sorted[i]);
            lemma_comps_upto_elem(masks, 4, sorted[j]);
            assert(sorted[i] == sorted[j]);
            assert(false);
        }
    }
    // length: at most one component per channel
    assert(base.len() <= 4) by {
        lemma_comps_upto_len(masks, 4);
    }
    assert(sorted.len() == sorted.to_multiset().len());
    assert(base.len() == base.to_multiset().len());
}

/// `comps_upto` yields at most one component per channel.
proof fn lemma_comps_upto_len(masks: Seq<u64>, n: int)
    ensures
        comps_upto(masks, n).len() <= if n >= 0 {
            n
        } else {
            0
        },
    decreases n,
{
    if n > 0 {
        lemma_comps_upto_len(masks, n - 1);
    }
}

/// An executable component entry used while inferring a layout.
#[derive(Clone, Copy, Debug)]
struct CompEntry {
    chan: u32,
    size: u32,
    shift: u32,
}

spec fn entry_view(e: CompEntry) -> CompLayout {
    CompLayout { chan: e.chan as int, size: e.size as int, shift: e.shift as int }
}

/// Strictly-before test for the insertion sort.
fn comp_before(a: &CompEntry, b: &CompEntry) -> (r: bool)
    ensures
        r == !comp_le(entry_view(*b), entry_view(*a)),
{
    if a.shift != b.shift {
        a.shift < b.shift
    } else if a.chan != b.chan {
        a.chan < b.chan
    } else {
        a.size < b.size
    }
}

/// A plane-data descriptor: the canonical description of one plane
/// of raw pixels handed to the uploader.  Per-component sizes and
/// paddings are in bits; a component size of 0 marks an unused slot.
/// The pixel bytes are owned by the descriptor.
pub struct PlaneData {
    pub type_: FmtType,
    pub width: usize,
    pub height: usize,
    pub component_size: [i32; 4],
    pub component_pad: [i32; 4],
    pub component_map: [i32; 4],
    pub pixel_stride: usize,
    pub row_stride: usize,
    pub pixels: Vec<u8>,
    /// Handle of a source buffer the pixels live in; 0 when the
    /// bytes come from host memory.
    pub buf: u64,
    pub buf_offset: usize,
}

impl PlaneData {
    /// How many of the four component slots are in use: the leading
    /// run of non-zero sizes.
    pub open spec fn num_components(&self) -> int {
        if self.component_size@[0] == 0 {
            0
        } else if self.component_size@[1] == 0 {
            1
        } else if self.component_size@[2] == 0 {
            2
        } else if self.component_size@[3] == 0 {
            3
        } else {
            4
        }
    }

    /// The absolute bit offset of component `n`: all earlier sizes
    /// and paddings, plus its own padding.
    pub open spec fn comp_shift(&self, n: int) -> int
        decreases n,
    {
        if n <= 0 {
            self.component_pad@[0] as int
        } else {
            self.comp_shift(n - 1) + self.component_size@[n - 1] + self.component_pad@[n]
        }
    }

    /// The component layout the descriptor's arrays denote.
    pub open spec fn layout_comps(&self) -> Seq<CompLayout> {
        Seq::new(
            self.num_components() as nat,
            |n: int|
                CompLayout {
                    chan: self.component_map@[n] as int,
                    size: self.component_size@[n] as int,
                    shift: self.comp_shift(n),
                },
        )
    }

    /// A canonical descriptor layout: the used slots are a leading
    /// run, every denoted component is well-formed, and unused slots
    /// are zeroed.
    pub open spec fn layout_wf(&self) -> bool {
        &&& forall|n: int|
            0 <= n < self.num_components() ==> comp_wf(#[trigger] self.layout_comps()[n])
        &&& forall|n: int|
            self.num_components() <= n < 4 ==> #[trigger] self.component_size@[n] == 0
        &&& forall|n: int| self.num_components() <= n < 4 ==> #[trigger] self.component_pad@[n] == 0
        &&& forall|n: int| self.num_components() <= n < 4 ==> #[trigger] self.component_map@[n] == 0
    }
}

impl Default for PlaneData {
    /// An empty descriptor, to be filled by setters and
    /// [`PlaneData::data_from_mask`].
    fn default() -> (r: PlaneData)
        ensures
            r.type_ == FmtType::FMT_UNKNOWN,
            r.width == 0 && r.height == 0,
            r.component_size@ == seq![0i32, 0i32, 0i32, 0i32],
            r.component_pad@ == seq![0i32, 0i32, 0i32, 0i32],
            r.component_map@ == seq![0i32, 0i32, 0i32, 0i32],
            r.pixel_stride == 0 && r.row_stride == 0,
            r.pixels@ == Seq::<u8>::empty(),
            r.buf == 0 && r.buf_offset == 0,
    {
        let r = PlaneData {
            type_: FmtType::FMT_UNKNOWN,
            width: 0,
            height: 0,
            component_size: [0, 0, 0, 0],
            component_pad: [0, 0, 0, 0],
            component_map: [0, 0, 0, 0],
            pixel_stride: 0,
            row_stride: 0,
            pixels: Vec::new(),
            buf: 0,
            buf_offset: 0,
        };
        proof {
            assert(r.component_size@ =~= seq![0i32, 0i32, 0i32, 0i32]);
            assert(r.component_pad@ =~= seq![0i32, 0i32, 0i32, 0i32]);
            assert(r.component_map@ =~= seq![0i32, 0i32, 0i32, 0i32]);
        }
        r
    }
}

impl PlaneData {
    pub fn set_type_(&mut self, type_: &FmtType)
        ensures
            final(self).type_ == *type_,
            final(self).width == old(self).width,
            final(self).height == old(self).height,
            final(self).component_size@ == old(self).component_size@,
            final(self).component_pad@ == old(self).component_pad@,
            final(self).component_map@ == old(self).component_map@,
            final(self).pixel_stride == old(self).pixel_stride,
            final(self).row_stride == old(self).row_stride,
            final(self).pixels@ == old(self).pixels@,
            final(self).buf == old(self).buf,
            final(self).buf_offset == old(self).buf_offset,
    {
        self.type_ = *type_;
    }

    pub fn set_width(&mut self, width: usize)
        ensures
            final(self).width == width,
            final(self).type_ == old(self).type_,
            final(self).height == old(self).height,
            final(self).component_size@ == old(self).component_size@,
            final(self).component_pad@ == old(self).component_pad@,
            final(self).component_map@ == old(self).component_map@,
            final(self).pixel_stride == old(self).pixel_stride,
            final(self).row_stride == old(self).row_stride,
            final(self).pixels@ == old(self).pixels@,
            final(self).buf == old(self).buf,
            final(self).buf_offset == old(self).buf_offset,
    {
        self.width = width;
    }

    pub fn set_height(&mut self, height: usize)
        ensures
            final(self).height == height,
            final(self).type_ == old(self).type_,
            final(self).width == old(self).width,
            final(self).component_size@ == old(self).component_size@,
            final(self).component_pad@ == old(self).component_pad@,
            final(self).component_map@ == old(self).component_map@,
            final(self).pixel_stride == old(self).pixel_stride,
            final(self).row_stride == old(self).row_stride,
            final(self).pixels@ == old(self).pixels@,
            final(self).buf == old(self).buf,
            final(self).buf_offset == old(self).buf_offset,
    {
        self.height = height;
    }

    pub fn set_pixel_stride(&mut self, pixel_stride: usize)
        ensures
            final(self).pixel_stride == pixel_stride,
            final(self).type_ == old(self).type_,
            final(self).width == old(self).width,
            final(self).height == old(self).height,
            final(self).component_size@ == old(self).component_size@,
            final(self).component_pad@ == old(self).component_pad@,
            final(self).component_map@ == old(self).component_map@,
            final(self).row_stride == old(self).row_stride,
            final(self).pixels@ == old(self).pixels@,
            final(self).buf == old(self).buf,
            final(self).buf_offset == old(self).buf_offset,
    {
        self.pixel_stride = pixel_stride;
    }

    pub fn set_row_stride(&mut self, row_stride: usize)
        ensures
            final(self).row_stride == row_stride,
            final(self).type_ == old(self).type_,
            final(self).width == old(self).width,
            final(self).height == old(self).height,
            final(self).component_size@ == old(self).component_size@,
            final(self).component_pad@ == old(self).component_pad@,
            final(self).component_map@ == old(self).component_map@,
            final(self).pixel_stride == old(self).pixel_stride,
            final(self).pixels@ == old(self).pixels@,
            final(self).buf == old(self).buf,
            final(self).buf_offset == old(self).buf_offset,
    {
        self.row_stride = row_stride;
    }

    /// Copies the raw pixel bytes into the descriptor, which owns
    /// them from then on.
    pub fn set_pixels(&mut self, pixels: &[u8])
        ensures
            final(self).pixels@ == pixels@,
            final(self).type_ == old(self).type_,
            final(self).width == old(self).width,
            final(self).height == old(self).height,
            final(self).component_size@ == old(self).component_size@,
            final(self).component_pad@ == old(self).component_pad@,
            final(self).component_map@ == old(self).component_map@,
            final(self).pixel_stride == old(self).pixel_stride,
            final(self).row_stride == old(self).row_stride,
            final(self).buf == old(self).buf,
            final(self).buf_offset == old(self).buf_offset,
    {
        let mut owned: Vec<u8> = Vec::new();
        let mut i: usize = 0;
        while i < pixels.len()
            invariant
                i <= pixels.len(),
                owned@ == pixels@.subrange(0, i as int),
            decreases pixels.len() - i,
        {
            owned.push(pixels[i]);
            i = i + 1;
        }
        proof {
            assert(owned@ =~= pixels@);
        }
        self.pixels = owned;
    }

    pub fn set_buf_offset(&mut self, buf_offset: usize)
        ensures
            final(self).buf_offset == buf_offset,
            final(self).type_ == old(self).type_,
            final(self).width == old(self).width,
            final(self).height == old(self).height,
            final(self).component_size@ == old(self).component_size@,
            final(self).component_pad@ == old(self).component_pad@,
            final(self).component_map@ == old(self).component_map@,
            final(self).pixel_stride == old(self).pixel_stride,
            final(self).row_stride == old(self).row_stride,
            final(self).pixels@ == old(self).pixels@,
            final(self).buf == old(self).buf,
    {
        self.buf_offset = buf_offset;
    }
}

/// The layouts a sequence of entries denotes.
spec fn entries_view(s: Seq<CompEntry>) -> Seq<CompLayout> {
    s.map_values(|e: CompEntry| entry_view(e))
}

impl PlaneData {
    /// Derives the component layout from four component bit masks
    /// (red, green, blue, alpha; a zero mask means the component is
    /// absent).  The descriptor's component arrays are replaced by
    /// the canonical inferred layout; the remaining fields are left
    /// untouched.
    pub fn data_from_mask(&mut self, mask: &[u64; 4])
        ensures
            final(self).layout_wf(),
            final(self).layout_comps() == infer_comps(mask@),
            final(self).type_ == old(self).type_,
            final(self).width == old(self).width,
            final(self).height == old(self).height,
            final(self).pixel_stride == old(self).pixel_stride,
            final(self).row_stride == old(self).row_stride,
            final(self).pixels@ == old(self).pixels@,
            final(self).buf == old(self).buf,
            final(self).buf_offset == old(self).buf_offset,
    {
        // Collect the present components in channel order.
        let mut comps: Vec<CompEntry> = Vec::new();
        let mut i: usize = 0;
        while i < 4
            invariant
                i <= 4,
                entries_view(comps@) == comps_upto(mask@, i as int),
                forall|k: int|
                    0 <= k < comps@.len() ==> comp_wf(entry_view(#[trigger] comps@[k])),
            decreases 4 - i,
        {
            let m = mask[i];
            if m != 0 {
                let sh = mask_trailing_zeros(m);
                let sz = mask_bit_count(m);
                proof {
                    lemma_u64_below_pow2_64(m);
                    lemma_bit_length_bound(m as int, 64);
                    lemma_count_zeros_le_length(m as int);
                }
                let e = CompEntry { chan: i as u32, size: sz, shift: sh };
                proof {
                    assert(entry_view(e) == comp_at(mask@, i as int));
                }
                comps.push(e);
                proof {
                    assert(entries_view(comps@) =~= comps_upto(mask@, i as int).push(
                        comp_at(mask@, i as int),
                    ));
                }
            }
            i = i + 1;
        }
        proof {
            assert(entries_view(comps@) == comps_of(mask@));
            lemma_comp_leq_total_ordering();
        }
        // Insertion sort by bit offset.
        let ghost all = comps@;
        let mut sorted_v: Vec<CompEntry> = Vec::new();
        proof {
            broadcast use vstd::seq_lib::group_to_multiset_ensures;

            assert(comps@.subrange(0, 0) =~= Seq::<CompEntry>::empty());
            assert(entries_view(sorted_v@) =~= Seq::<CompLayout>::empty());
            assert(entries_view(comps@.subrange(0, 0)) =~= Seq::<CompLayout>::empty());
        }
        let mut t: usize = 0;
        while t < comps.len()
            invariant
                t <= comps@.len(),
                comps@ == all,
                total_ordering(comp_leq()),
                sorted_by(entries_view(sorted_v@), comp_leq()),
                entries_view(sorted_v@).to_multiset() == entries_view(
                    comps@.subrange(0, t as int),
                ).to_multiset(),
                forall|k: int|
                    0 <= k < comps@.len() ==> comp_wf(entry_view(#[trigger] comps@[k])),
                forall|k: int|
                    0 <= k < sorted_v@.len() ==> comp_wf(entry_view(#[trigger] sorted_v@[k])),
            decreases comps@.len() - t,
        {
            broadcast use vstd::seq_lib::group_to_multiset_ensures;

            let c = comps[t];
            let mut pos: usize = sorted_v.len();
            while pos > 0 && comp_before(&c, &sorted_v[pos - 1])
                invariant
                    pos <= sorted_v@.len(),
                    forall|k: int|
                        pos <= k < sorted_v@.len() ==> !comp_le(
                            entry_view(#[trigger] sorted_v@[k]),
                            entry_view(c),
                        ),
                decreases pos,
            {
                pos = pos - 1;
            }
            let ghost ov = entries_view(sorted_v@);
            let ghost cv = entry_view(c);
            sorted_v.insert(pos, c);
            proof {
                let nv = entries_view(sorted_v@);
                assert(nv =~= ov.insert(pos as int, cv));
                ov.insert_ensures(pos as int, cv);
                // before the insertion point everything is at most c
                assert forall|k: int| 0 <= k < pos implies comp_le(ov[k], cv) by {
                    assert(comp_le(ov[pos - 1], cv));
                    if k < pos - 1 {
                        assert(sorted_by(ov, comp_leq()));
                        assert(comp_leq()(ov[k], ov[pos - 1]));
                    }
                }
                // from the insertion point on everything exceeds c
                assert forall|k: int| pos <= k < ov.len() implies comp_le(cv, ov[k]) by {
                    assert(!comp_le(ov[k], cv));
                }
                assert(sorted_by(nv, comp_leq())) by {
                    assert forall|x: int, y: int|
                        0 <= x < y < nv.len() implies comp_leq()(nv[x], nv[y]) by {
                        if y < pos {
                            assert(nv[x] == ov[x] && nv[y] == ov[y]);
                        } else if x > pos {
                            assert(nv[x] == ov[x - 1] && nv[y] == ov[y - 1]);
                        } else if x == pos && y > pos {
                            assert(nv[x] == cv && nv[y] == ov[y - 1]);
                        } else if x < pos && y == pos {
                            assert(nv[x] == ov[x] && nv[y] == cv);
                        } else {
                            // x < pos < y
                            assert(nv[x] == ov[x] && nv[y] == ov[y - 1]);
                            assert(comp_le(ov[x], cv));
                            assert(comp_le(cv, ov[y - 1]));
                        }
                    }
                }
                // the multiset gains exactly c
                let front = ov.subrange(0, pos as int);
                let back = ov.subrange(pos as int, ov.len() as int);
                assert(nv =~= front.push(cv) + back);
                lemma_multiset_commutative(front.push(cv), back);
                assert(ov =~= front + back);
                lemma_multiset_commutative(front, back);
                assert(nv.to_multiset() =~= ov.to_multiset().insert(cv));
                // and the prefix of the input gains exactly c as well
                assert(comps@.subrange(0, t + 1) =~= comps@.subrange(0, t as int).push(c));
                assert(entries_view(comps@.subrange(0, t + 1)) =~= entries_view(
                    comps@.subrange(0, t as int),
                ).push(cv));
            }
            t = t + 1;
        }
        proof {
            assert(comps@.subrange(0, comps@.len() as int) =~= comps@);
            lemma_infer_comps_props(mask@);
            comps_of(mask@).lemma_sort_by_ensures(comp_leq());
            lemma_sorted_unique(entries_view(sorted_v@), infer_comps(mask@), comp_leq());
            assert(entries_view(sorted_v@) == infer_comps(mask@));
        }
        // Lay the sorted components out as sizes, paddings and a map.
        let num = sorted_v.len();
        proof {
            assert(num <= 4) by {
                assert(entries_view(sorted_v@).len() == sorted_v@.len());
            }
        }
        let (s0, p0, m0, o0): (i32, i32, i32, i32) = if num > 0 {
            let e = sorted_v[0];
            (e.size as i32, e.shift as i32, e.chan as i32, (e.shift + e.size) as i32)
        } else {
            (0, 0, 0, 0)
        };
        let (s1, p1, m1, o1): (i32, i32, i32, i32) = if num > 1 {
            let e = sorted_v[1];
            (e.size as i32, e.shift as i32 - o0, e.chan as i32, (e.shift + e.size) as i32)
        } else {
            (0, 0, 0, o0)
        };
        let (s2, p2, m2, o2): (i32, i32, i32, i32) = if num > 2 {
            let e = sorted_v[2];
            (e.size as i32, e.shift as i32 - o1, e.chan as i32, (e.shift + e.size) as i32)
        } else {
            (0, 0, 0, o1)
        };
        let (s3, p3, m3, _o3): (i32, i32, i32, i32) = if num > 3 {
            let e = sorted_v[3];
            (e.size as i32, e.shift as i32 - o2, e.chan as i32, (e.shift + e.size) as i32)
        } else {
            (0, 0, 0, o2)
        };
        self.component_size = [s0, s1, s2, s3];
        self.component_pad = [p0, p1, p2, p3];
        self.component_map = [m0, m1, m2, m3];
        proof {
            let sorted = entries_view(sorted_v@);
            assert(self.component_size@ =~= seq![s0, s1, s2, s3]);
            assert(self.component_pad@ =~= seq![p0, p1, p2, p3]);
            assert(self.component_map@ =~= seq![m0, m1, m2, m3]);
            assert(self.num_components() == num as int);
            assert(self.comp_shift(0) == p0);
            assert(self.comp_shift(1) == p0 + s0 + p1);
            assert(self.comp_shift(2) == self.comp_shift(1) + s1 + p2);
            assert(self.comp_shift(3) == self.comp_shift(2) + s2 + p3);
            assert(self.layout_comps() =~= sorted) by {
                assert forall|n: int| 0 <= n < num implies self.layout_comps()[n] == sorted[n] by {
                    assert(sorted[n] == entry_view(sorted_v@[n]));
                }
            }
        }
    }

    /// The four component bit masks this descriptor denotes: each
    /// used slot contributes a contiguous mask of `component_size`
    /// bits at its absolute bit offset, on the channel its map entry
    /// names; channels no slot maps to are zero.
    pub fn component_masks(&self) -> (r: [u64; 4])
        requires
            self.layout_wf(),
        ensures
            r@ == rebuild_masks(self.layout_comps()),
    {
        let num: usize = if self.component_size[0] == 0 {
            0
        } else if self.component_size[1] == 0 {
            1
        } else if self.component_size[2] == 0 {
            2
        } else if self.component_size[3] == 0 {
            3
        } else {
            4
        };
        proof {
            assert(num as int == self.num_components());
        }
        let mut r0: u64 = 0;
        let mut r1: u64 = 0;
        let mut r2: u64 = 0;
        let mut r3: u64 = 0;
        let mut off: i32 = 0;
        let mut n: usize = 0;
        while n < num
            invariant
                n <= num,
                num as int == self.num_components(),
                self.layout_wf(),
                off as int == if n == 0 {
                    0int
                } else {
                    self.comp_shift(n - 1) + self.component_size@[n - 1]
                },
                0 <= off <= 64,
                seq![r0, r1, r2, r3] == rebuild_masks(self.layout_comps().take(n as int)),
            decreases num - n,
        {
            let sz = self.component_size[n];
            let pad = self.component_pad[n];
            let ch = self.component_map[n];
            proof {
                assert(comp_wf(self.layout_comps()[n as int]));
                assert(self.layout_comps()[n as int].shift == self.comp_shift(n as int));
                if n > 0 {
                    assert(self.comp_shift(n as int) == self.comp_shift(n as int - 1)
                        + self.component_size@[n as int - 1] + self.component_pad@[n as int]);
                }
            }
            let sh = off + pad;
            let mask = build_contiguous_mask(sz as u32, sh as u32);
            proof {
                assert(mask == canon_mask_of(self.layout_comps()[n as int])) by {
                    lemma_contiguous_mask_fits(sz as int, sh as int);
                }
            }
            if ch == 0 {
                r0 = mask;
            } else if ch == 1 {
                r1 = mask;
            } else if ch == 2 {
                r2 = mask;
            } else {
                r3 = mask;
            }
            proof {
                let taken = self.layout_comps().take(n as int + 1);
                assert(taken.drop_last() =~= self.layout_comps().take(n as int));
                assert(taken.last() == self.layout_comps()[n as int]);
                assert(seq![r0, r1, r2, r3] =~= rebuild_masks(
                    self.layout_comps().take(n as int),
                ).update(ch as int, mask));
            }
            off = sh + sz;
            n = n + 1;
        }
        proof {
            assert(self.layout_comps().take(num as int) =~= self.layout_comps());
        }
        let r = [r0, r1, r2, r3];
        proof {
            assert(r@ =~= seq![r0, r1, r2, r3]);
        }
        r
    }
}

impl PlaneData {
    /// The bits the first `n` components occupy, paddings aside.
    pub open spec fn sum_component_bits(&self, n: int) -> int
        decreases n,
    {
        if n <= 0 {
            0
        } else {
            self.sum_component_bits(n - 1) + self.component_size@[n - 1]
        }
    }

    /// The component layouts the uploader supports: at least one
    /// component, each 8, 16 or 32 bits wide, byte-aligned without
    /// padding, mapping to one of the four channels.
    pub open spec fn upload_format_ok(&self) -> bool {
        &&& self.num_components() >= 1
        &&& forall|n: int|
            0 <= n < self.num_components() ==> (#[trigger] self.component_size@[n] == 8
                || self.component_size@[n] == 16 || self.component_size@[n] == 32)
                && self.component_pad@[n] == 0 && 0 <= self.component_map@[n] < 4
    }

    /// Everything a successful upload demands: a live device, an
    /// unsigned-normalized sample format, a supported component
    /// layout that fits the pixel stride, an extent within the
    /// device's limits, and strides consistent with the pixel bytes.
    pub open spec fn upload_ok(&self, vk: Vulkan) -> bool {
        &&& vk.is_alive()
        &&& self.type_ == FmtType::FMT_UNORM
        &&& self.upload_format_ok()
        &&& self.sum_component_bits(self.num_components()) <= self.pixel_stride * 8
        &&& 1 <= self.width <= vk.max_extent_w
        &&& 1 <= self.height <= vk.max_extent_h
        &&& self.width * self.pixel_stride <= self.row_stride
        &&& self.row_stride * self.height <= self.pixels@.len()
    }

    /// Uploads the described pixels into a texture created against
    /// the device and returns, through `out_plane` and `tex`, the
    /// sampling descriptor and the texture.  Returns `true` exactly
    /// when the descriptor is acceptable (see
    /// [`PlaneData::upload_ok`]); on `false` — an unsupported format,
    /// an oversized extent or inconsistent strides — nothing is
    /// created or changed, and the caller must abort this frame's
    /// construction.
    pub fn upload_plane(&self, vk: &mut Vulkan, out_plane: &mut Plane, tex: &mut Tex) -> (ok: bool)
        requires
            old(vk).next_child < u64::MAX,
            old(vk).live_children < u64::MAX,
        ensures
            ok == self.upload_ok(*old(vk)),
            ok ==> {
                &&& final(vk).vk == old(vk).vk
                &&& final(vk).parent == old(vk).parent
                &&& final(vk).surface == old(vk).surface
                &&& final(vk).max_extent_w == old(vk).max_extent_w
                &&& final(vk).max_extent_h == old(vk).max_extent_h
                &&& final(vk).live_children == old(vk).live_children + 1
                &&& final(vk).next_child == old(vk).next_child + 1
                &&& final(tex).is_alive()
                &&& final(tex).tex == old(vk).next_child + 1
                &&& final(tex).gpu == old(vk).vk
                &&& final(tex).w == self.width
                &&& final(tex).h == self.height
                &&& final(tex).d == 0
                &&& final(tex).format == FmtType::FMT_UNORM
                &&& final(tex).sampleable
                &&& final(tex).host_writable
                &&& !final(tex).renderable
                &&& !final(tex).storable
                &&& !final(tex).blit_src
                &&& !final(tex).blit_dst
                &&& !final(tex).host_readable
                &&& final(tex).sample_mode == TexSampleMode::SAMPLE_NEAREST
                &&& final(tex).address_mode == TexAddressMode::ADDRESS_CLAMP
                &&& final(out_plane).texture == final(tex).tex
                &&& final(out_plane).tex_w == self.width
                &&& final(out_plane).tex_h == self.height
                &&& final(out_plane).tex_sampleable
                &&& final(out_plane).components == self.num_components()
                &&& final(out_plane).component_mapping@ == self.component_map@
                &&& final(out_plane).shift_x == 0
                &&& final(out_plane).shift_y == 0
            },
            !ok ==> *final(vk) == *old(vk) && *final(out_plane) == *old(out_plane) && *final(tex)
                == *old(tex),
    {
        if vk.vk == 0 {
            return false;
        }
        match self.type_ {
            FmtType::FMT_UNORM => {},
            _ => {
                return false;
            },
        }
        let num: usize = if self.component_size[0] == 0 {
            0
        } else if self.component_size[1] == 0 {
            1
        } else if self.component_size[2] == 0 {
            2
        } else if self.component_size[3] == 0 {
            3
        } else {
            4
        };
        proof {
            assert(num as int == self.num_components());
        }
        if num == 0 {
            return false;
        }
        let mut bits: u32 = 0;
        let mut n: usize = 0;
        while n < num
            invariant
                n <= num,
                num as int == self.num_components(),
                num <= 4,
                bits == self.sum_component_bits(n as int),
                bits <= 32 * n,
                forall|k: int|
                    0 <= k < n ==> (#[trigger] self.component_size@[k] == 8
                        || self.component_size@[k] == 16 || self.component_size@[k] == 32)
                        && self.component_pad@[k] == 0 && 0 <= self.component_map@[k] < 4,
            decreases num - n,
        {
            let sz = self.component_size[n];
            if !(sz == 8 || sz == 16 || sz == 32) {
                return false;
            }
            if self.component_pad[n] != 0 {
                return false;
            }
            let mp = self.component_map[n];
            if mp < 0 || mp > 3 {
                return false;
            }
            bits = bits + sz as u32;
            n = n + 1;
        }
        let stride_bits_ok: bool = if self.pixel_stride >= 16 {
            true
        } else {
            bits as usize <= self.pixel_stride * 8
        };
        proof {
            if self.pixel_stride >= 16 {
                assert(self.sum_component_bits(self.num_components()) <= 128 <= self.pixel_stride
                    * 8);
            }
        }
        if !stride_bits_ok {
            return false;
        }
        if self.width == 0 || self.width > vk.max_extent_w {
            return false;
        }
        if self.height == 0 || self.height > vk.max_extent_h {
            return false;
        }
        let row_ok = match self.width.checked_mul(self.pixel_stride) {
            Some(v) => v <= self.row_stride,
            None => false,
        };
        if !row_ok {
            return false;
        }
        let pixel_count = self.pixels.len();
        let len_ok = match self.row_stride.checked_mul(self.height) {
            Some(v) => v <= pixel_count,
            None => false,
        };
        if !len_ok {
            return false;
        }
        let params = TexParams {
            w: self.width,
            h: self.height,
            d: 0,
            format: FmtType::FMT_UNORM,
            sampleable: true,
            renderable: false,
            storable: false,
            blit_src: false,
            blit_dst: false,
            host_writable: true,
            host_readable: false,
            sample_mode: TexSampleMode::SAMPLE_NEAREST,
            address_mode: TexAddressMode::ADDRESS_CLAMP,
            export_handle: HandleType::HANDLE_FD,
            import_handle: HandleType::HANDLE_FD,
            shared_mem: SharedMem { handle: 0, size: 0, offset: 0 },
            initial_data: Vec::new(),
        };
        let new_tex = Tex::new(vk, &params);
        *out_plane = Plane {
            texture: new_tex.tex,
            tex_w: new_tex.w,
            tex_h: new_tex.h,
            tex_sampleable: true,
            components: num,
            component_mapping: self.component_map,
            shift_x: 0,
            shift_y: 0,
        };
        *tex = new_tex;
        true
    }
}

/// `comps_upto` reads only the first `n` channels.
proof fn lemma_comps_upto_prefix(m1: Seq<u64>, m2: Seq<u64>, n: int)
    requires
        forall|k: int| 0 <= k < n ==> m1[k] == m2[k],
    ensures
        comps_upto(m1, n) == comps_upto(m2, n),
    decreases n,
{
    if n > 0 {
        lemma_comps_upto_prefix(m1, m2, n - 1);
        assert(comp_at(m1, n - 1) == comp_at(m2, n - 1));
    }
}

/// Raising one absent channel to a non-zero mask adds exactly that
/// channel's component to the collected components.
proof fn lemma_comps_upto_update(m: Seq<u64>, j: int, v: u64, n: int)
    requires
        m.len() == 4,
        0 <= j < 4,
        m[j] == 0,
        v != 0,
        j < n <= 4,
    ensures
        comps_upto(m.update(j, v), n).to_multiset() == comps_upto(m, n).to_multiset().insert(
            comp_at(m.update(j, v), j),
        ),
    decreases n,
{
    broadcast use vstd::seq_lib::group_to_multiset_ensures;
    broadcast use vstd::multiset::group_multiset_axioms;

    let mu = m.update(j, v);
    let b = comp_at(mu, j);
    if n - 1 == j {
        assert(comps_upto(mu, n) == comps_upto(mu, n - 1).push(b));
        lemma_comps_upto_prefix(mu, m, n - 1);
        assert(comps_upto(m, n) == comps_upto(m, n - 1));
    } else {
        // j < n - 1, so both sequences take the same step at n - 1
        lemma_comps_upto_update(m, j, v, n - 1);
        assert(mu[n - 1] == m[n - 1]);
        assert(comp_at(mu, n - 1) == comp_at(m, n - 1));
        if m[n - 1] == 0 {
        } else {
            let a = comp_at(m, n - 1);
            assert(comps_upto(mu, n).to_multiset() =~= comps_upto(mu, n - 1).to_multiset().insert(
                a,
            ));
            assert(comps_upto(m, n).to_multiset() =~= comps_upto(m, n - 1).to_multiset().insert(a));
            assert(comps_upto(m, n - 1).to_multiset().insert(b).insert(a) =~= comps_upto(
                m,
                n - 1,
            ).to_multiset().insert(a).insert(b));
        }
    }
}

/// Pairwise-distinct channels.
pub open spec fn chans_distinct(comps: Seq<CompLayout>) -> bool {
    forall|i: int, j: int|
        0 <= i < j < comps.len() ==> (#[trigger] comps[i]).chan != (#[trigger] comps[j]).chan
}

/// All components well-formed.
pub open spec fn comps_wf(comps: Seq<CompLayout>) -> bool {
    forall|i: int| 0 <= i < comps.len() ==> comp_wf(#[trigger] comps[i])
}

/// What `rebuild_masks` produces: each component's channel carries
/// that component's contiguous mask, every other channel is zero.
proof fn lemma_rebuild_masks_char(comps: Seq<CompLayout>)
    requires
        comps_wf(comps),
        chans_distinct(comps),
    ensures
        rebuild_masks(comps).len() == 4,
        forall|n: int|
            0 <= n < comps.len() ==> rebuild_masks(comps)[(#[trigger] comps[n]).chan]
                == canon_mask_of(comps[n]),
        forall|j: int|
            0 <= j < 4 && (forall|n: int|
                0 <= n < comps.len() ==> (#[trigger] comps[n]).chan != j) ==> rebuild_masks(
                comps,
            )[j] == 0,
    decreases comps.len(),
{
    if comps.len() > 0 {
        let prefix = comps.drop_last();
        let c = comps.last();
        lemma_rebuild_masks_char(prefix);
        assert forall|n: int|
            0 <= n < comps.len() implies rebuild_masks(comps)[(#[trigger] comps[n]).chan]
            == canon_mask_of(comps[n]) by {
            if n < comps.len() - 1 {
                assert(comps[n].chan != c.chan);
                assert(prefix[n] == comps[n]);
            }
        }
    }
}

/// A well-formed component's mask is non-zero and reproduces the
/// component: its bit count is the size and its trailing zeros are
/// the offset.
proof fn lemma_canon_mask_counts(c: CompLayout)
    requires
        comp_wf(c),
    ensures
        canon_mask_of(c) != 0,
        bit_count(canon_mask_of(c) as int) == c.size,
        trailing_zeros(canon_mask_of(c) as int) == c.shift,
{
    lemma_contiguous_mask_counts(c.size, c.shift);
    lemma_contiguous_mask_fits(c.size, c.shift);
    vstd::arithmetic::power2::lemma2_to64();
    vstd::arithmetic::power2::lemma2_to64_rest();
    assert(canon_mask_of(c) == contiguous_mask(c.size, c.shift));
}

/// Deriving components from the masks a component sequence denotes
/// gives back exactly those components (as a multiset).
proof fn lemma_comps_of_rebuild(comps: Seq<CompLayout>)
    requires
        comps_wf(comps),
        chans_distinct(comps),
    ensures
        comps_of(rebuild_masks(comps)).to_multiset() == comps.to_multiset(),
    decreases comps.len(),
{
    broadcast use vstd::seq_lib::group_to_multiset_ensures;
    broadcast use vstd::multiset::group_multiset_axioms;

    if comps.len() == 0 {
        let zero = rebuild_masks(comps);
        assert(zero == seq![0u64, 0u64, 0u64, 0u64]);
        assert(zero[0] == 0 && zero[1] == 0 && zero[2] == 0 && zero[3] == 0);
        assert(comps_upto(zero, 0) == Seq::<CompLayout>::empty());
        assert(comps_upto(zero, 1) == comps_upto(zero, 0));
        assert(comps_upto(zero, 2) == comps_upto(zero, 1));
        assert(comps_upto(zero, 3) == comps_upto(zero, 2));
        assert(comps_upto(zero, 4) == comps_upto(zero, 3));
        assert(comps_of(zero).to_multiset() =~= comps.to_multiset());
    } else {
        let prefix = comps.drop_last();
        let c = comps.last();
        let mp = rebuild_masks(prefix);
        lemma_rebuild_masks_char(prefix);
        lemma_rebuild_masks_char(comps);
        lemma_canon_mask_counts(c);
        // the last component's channel is still absent in the prefix masks
        assert(mp[c.chan] == 0) by {
            assert forall|n: int| 0 <= n < prefix.len() implies (#[trigger] prefix[n]).chan
                != c.chan by {
                assert(comps[n] == prefix[n]);
                assert(comps[n].chan != comps[comps.len() - 1].chan);
            }
        }
        lemma_comps_of_rebuild(prefix);
        lemma_comps_upto_update(mp, c.chan, canon_mask_of(c), 4);
        assert(rebuild_masks(comps) == mp.update(c.chan, canon_mask_of(c)));
        // the added component is the last component itself
        assert(comp_at(mp.update(c.chan, canon_mask_of(c)), c.chan) == c);
        assert(comps.to_multiset() =~= prefix.to_multiset().insert(c)) by {
            assert(prefix.push(c) =~= comps);
        }
    }
}

/// The canonical descriptor form is unique: two canonical
/// descriptors denoting the same component layout hold identical
/// component arrays.  With inference being a function of the masks
/// alone, equal mask 4-tuples therefore derive identical
/// descriptors.
pub proof fn lemma_canonical_descriptor_unique(a: PlaneData, b: PlaneData)
    requires
        a.layout_wf(),
        b.layout_wf(),
        a.layout_comps() == b.layout_comps(),
    ensures
        a.component_size@ =~= b.component_size@,
        a.component_pad@ =~= b.component_pad@,
        a.component_map@ =~= b.component_map@,
{
    let num = a.num_components();
    assert(0 <= a.num_components() <= 4);
    assert(0 <= b.num_components() <= 4);
    assert(a.layout_comps().len() == a.num_components() as nat);
    assert(b.layout_comps().len() == b.num_components() as nat);
    assert(a.layout_comps().len() == b.layout_comps().len());
    assert(b.num_components() == num);
    assert forall|n: int| 0 <= n < 4 implies a.component_size@[n] == b.component_size@[n]
        && a.component_map@[n] == b.component_map@[n] by {
        if n < num {
            assert(a.layout_comps()[n] == b.layout_comps()[n]);
            assert(a.layout_comps()[n].size == a.component_size@[n] as int);
            assert(b.layout_comps()[n].size == b.component_size@[n] as int);
            assert(a.layout_comps()[n].chan == a.component_map@[n] as int);
            assert(b.layout_comps()[n].chan == b.component_map@[n] as int);
        } else {
            assert(a.component_size@[n] == 0 && a.component_map@[n] == 0);
            assert(b.component_size@[n] == 0 && b.component_map@[n] == 0);
        }
    }
    assert forall|n: int| 0 <= n < 4 implies a.component_pad@[n] == b.component_pad@[n] by {
        if n < num {
            assert(a.layout_comps()[n] == b.layout_comps()[n]);
            assert(a.layout_comps()[n].shift == a.comp_shift(n));
            assert(b.layout_comps()[n].shift == b.comp_shift(n));
            if n == 0 {
                assert(a.component_pad@[0] == a.comp_shift(0));
                assert(b.component_pad@[0] == b.comp_shift(0));
            } else {
                assert(a.layout_comps()[n - 1] == b.layout_comps()[n - 1]);
                // the padding is the gap between consecutive offsets
                assert(a.component_pad@[n] == a.comp_shift(n) - a.comp_shift(n - 1)
                    - a.component_size@[n - 1]);
                assert(b.component_pad@[n] == b.comp_shift(n) - b.comp_shift(n - 1)
                    - b.component_size@[n - 1]);
                assert(a.comp_shift(n) == a.layout_comps()[n].shift);
                assert(b.comp_shift(n) == b.layout_comps()[n].shift);
                assert(a.comp_shift(n - 1) == a.layout_comps()[n - 1].shift);
                assert(b.comp_shift(n - 1) == b.layout_comps()[n - 1].shift);
            }
        } else {
            assert(a.component_pad@[n] == 0);
            assert(b.component_pad@[n] == 0);
        }
    }
}

/// Mask-to-layout inference is idempotent: the masks a derived
/// layout denotes infer back to the very same layout.  Together with
/// the inference being a function of the masks alone, a descriptor
/// round-trips through [`PlaneData::component_masks`] unchanged.
pub proof fn lemma_mask_inference_idempotent(masks: Seq<u64>)
    requires
        masks.len() == 4,
    ensures
        infer_comps(rebuild_masks(infer_comps(masks))) == infer_comps(masks),
{
    broadcast use vstd::seq_lib::group_to_multiset_ensures;

    lemma_comp_leq_total_ordering();
    let c = infer_comps(masks);
    lemma_infer_comps_props(masks);
    assert(comps_wf(c));
    assert(chans_distinct(c));
    lemma_comps_of_rebuild(c);
    let m2 = rebuild_masks(c);
    assert(m2.len() == 4) by {
        lemma_rebuild_masks_char(c);
    }
    lemma_infer_comps_props(m2);
    assert(infer_comps(m2).to_multiset() == c.to_multiset());
    lemma_sorted_unique(infer_comps(m2), c, comp_leq());
}

} // verus!
