//! Format capabilities: what a format can be used for, derived from the
//! support bits the native device reports, and the table that remembers the
//! answer for every format.

use vstd::prelude::*;

verus! {

/// Number of format identifiers. Identifier 0 stands for "no format".
pub const NUM_FORMATS: usize = 185;

/// Image view can be sampled.
pub const IMAGE_SAMPLED: u32 = 0x1;

/// Image view can be used as storage image.
pub const IMAGE_STORAGE: u32 = 0x2;

/// Image view can be used as storage image with atomics.
pub const IMAGE_STORAGE_ATOMIC: u32 = 0x4;

/// Image view can be used as color and input attachment.
pub const IMAGE_COLOR_ATTACHMENT: u32 = 0x80;

/// Image view can be used as color attachment with blending.
pub const IMAGE_COLOR_ATTACHMENT_BLEND: u32 = 0x100;

/// Image view can be used as depth-stencil and input attachment.
pub const IMAGE_DEPTH_STENCIL_ATTACHMENT: u32 = 0x200;

/// Image can be the source of a blit.
pub const IMAGE_BLIT_SRC: u32 = 0x400;

/// Image can be the destination of a blit.
pub const IMAGE_BLIT_DST: u32 = 0x800;

/// Image can be sampled with a linear filter.
pub const IMAGE_SAMPLED_LINEAR: u32 = 0x1000;

/// Buffer view can be used as uniform texel buffer.
pub const BUFFER_UNIFORM_TEXEL: u32 = 0x8;

/// Buffer view can be used as storage texel buffer.
pub const BUFFER_STORAGE_TEXEL: u32 = 0x10;

/// Buffer view can be used as storage texel buffer with atomics.
pub const BUFFER_STORAGE_TEXEL_ATOMIC: u32 = 0x20;

/// Format can be used for vertex data.
pub const BUFFER_VERTEX: u32 = 0x40;

/// Native support bit: the format can back a buffer.
pub const SUPPORT1_BUFFER: u32 = 0x1;

/// Native support bit: the format can be read by the input assembler.
pub const SUPPORT1_IA_VERTEX_BUFFER: u32 = 0x2;

/// Native support bit: one-dimensional textures.
pub const SUPPORT1_TEXTURE1D: u32 = 0x10;

/// Native support bit: two-dimensional textures.
pub const SUPPORT1_TEXTURE2D: u32 = 0x20;

/// Native support bit: three-dimensional textures.
pub const SUPPORT1_TEXTURE3D: u32 = 0x40;

/// Native support bit: cube textures.
pub const SUPPORT1_TEXTURECUBE: u32 = 0x80;

/// Native support bit: shaders can load from the format.
pub const SUPPORT1_SHADER_LOAD: u32 = 0x100;

/// Native support bit: shaders can sample the format with a filter.
pub const SUPPORT1_SHADER_SAMPLE: u32 = 0x200;

/// Native support bit: the format can be rendered to.
pub const SUPPORT1_RENDER_TARGET: u32 = 0x4000;

/// Native support bit: the format can be blended.
pub const SUPPORT1_BLENDABLE: u32 = 0x8000;

/// Native support bit: the format can be a depth-stencil target.
pub const SUPPORT1_DEPTH_STENCIL: u32 = 0x10000;

/// Native support bit: atomic add on unordered-access views.
pub const SUPPORT2_UAV_ATOMIC_ADD: u32 = 0x1;

/// Native support bit: typed stores to unordered-access views.
pub const SUPPORT2_UAV_TYPED_STORE: u32 = 0x80;

/// A set of image features.
#[derive(Clone, Copy, Debug, PartialEq, Eq, Hash, Structural)]
pub struct ImageFeature {
    pub bits: u32,
}

/// A set of buffer features.
#[derive(Clone, Copy, Debug, PartialEq, Eq, Hash, Structural)]
pub struct BufferFeature {
    pub bits: u32,
}

impl ImageFeature {
    /// Whether every feature of `other` is in the set.
    pub open spec fn spec_contains(&self, other: ImageFeature) -> bool {
        self.bits & other.bits == other.bits
    }

    /// The set with exactly the given bits.
    pub fn from_bits(bits: u32) -> (set: ImageFeature)
        ensures
            set.bits == bits,
    {
        ImageFeature { bits }
    }

    /// Whether every feature of `other` is in the set.
    #[verifier::when_used_as_spec(spec_contains)]
    pub fn contains(&self, other: ImageFeature) -> (yes: bool)
        ensures
            yes == self.spec_contains(other),
    {
        self.bits & other.bits == other.bits
    }
}

impl BufferFeature {
    /// Whether every feature of `other` is in the set.
    pub open spec fn spec_contains(&self, other: BufferFeature) -> bool {
        self.bits & other.bits == other.bits
    }

    /// The set with exactly the given bits.
    pub fn from_bits(bits: u32) -> (set: BufferFeature)
        ensures
            set.bits == bits,
    {
        BufferFeature { bits }
    }

    /// Whether every feature of `other` is in the set.
    #[verifier::when_used_as_spec(spec_contains)]
    pub fn contains(&self, other: BufferFeature) -> (yes: bool)
        ensures
            yes == self.spec_contains(other),
    {
        self.bits & other.bits == other.bits
    }
}

/// The empty set where `on` is false, `bits` where it is true.
pub open spec fn bits_if(on: bool, bits: u32) -> u32 {
    if on {
        bits
    } else {
        0
    }
}

/// The two words of support bits that the native device reports for a format.
#[derive(Clone, Copy, Debug, PartialEq, Eq, Structural)]
pub struct FormatSupport {
    pub support1: u32,
    pub support2: u32,
}

impl FormatSupport {
    /// Whether the first word holds one of the bits of `mask`.
    pub open spec fn has1(&self, mask: u32) -> bool {
        self.support1 & mask != 0
    }

    /// Whether the second word holds one of the bits of `mask`.
    pub open spec fn has2(&self, mask: u32) -> bool {
        self.support2 & mask != 0
    }

    /// The format can back a buffer.
    pub open spec fn can_buffer(&self) -> bool {
        self.has1(SUPPORT1_BUFFER)
    }

    /// The format can back a texture of some dimension.
    pub open spec fn can_image(&self) -> bool {
        self.has1(
            SUPPORT1_TEXTURE1D | SUPPORT1_TEXTURE2D | SUPPORT1_TEXTURE3D | SUPPORT1_TEXTURECUBE,
        )
    }

    /// The format can back a texture with linear tiling: it can back a
    /// texture, and its texels are not compressed in blocks.
    pub open spec fn can_linear(&self, compressed: bool) -> bool {
        self.can_image() && !compressed
    }

    /// Features of images with optimal tiling.
    pub open spec fn optimal_tiling(&self) -> ImageFeature {
        ImageFeature {
            bits: bits_if(self.can_image(), IMAGE_SAMPLED | IMAGE_BLIT_SRC) | bits_if(
                self.has1(SUPPORT1_SHADER_SAMPLE),
                IMAGE_SAMPLED_LINEAR,
            ) | bits_if(self.has1(SUPPORT1_RENDER_TARGET), IMAGE_COLOR_ATTACHMENT | IMAGE_BLIT_DST)
                | bits_if(self.has1(SUPPORT1_BLENDABLE), IMAGE_COLOR_ATTACHMENT_BLEND) | bits_if(
                self.has1(SUPPORT1_DEPTH_STENCIL),
                IMAGE_DEPTH_STENCIL_ATTACHMENT,
            ) | bits_if(
                self.has2(SUPPORT2_UAV_ATOMIC_ADD) && self.can_image(),
                IMAGE_STORAGE_ATOMIC,
            ) | bits_if(self.has2(SUPPORT2_UAV_TYPED_STORE) && self.can_image(), IMAGE_STORAGE),
        }
    }

    /// Features of images with linear tiling.
    pub open spec fn linear_tiling(&self, compressed: bool) -> ImageFeature {
        ImageFeature {
            bits: bits_if(self.can_linear(compressed), IMAGE_SAMPLED | IMAGE_BLIT_SRC) | bits_if(
                self.has1(SUPPORT1_RENDER_TARGET) && self.can_linear(compressed),
                IMAGE_COLOR_ATTACHMENT | IMAGE_BLIT_DST,
            ),
        }
    }

    /// Features of buffers.
    pub open spec fn buffer_features(&self) -> BufferFeature {
        BufferFeature {
            bits: bits_if(self.has1(SUPPORT1_IA_VERTEX_BUFFER), BUFFER_VERTEX) | bits_if(
                self.has1(SUPPORT1_SHADER_LOAD) && self.can_buffer(),
                BUFFER_UNIFORM_TEXEL,
            ) | bits_if(
                self.has2(SUPPORT2_UAV_ATOMIC_ADD) && self.can_buffer(),
                BUFFER_STORAGE_TEXEL_ATOMIC,
            ) | bits_if(
                self.has2(SUPPORT2_UAV_TYPED_STORE) && self.can_buffer(),
                BUFFER_STORAGE_TEXEL,
            ),
        }
    }
}

/// What a format can be used for.
#[derive(Clone, Copy, Debug, PartialEq, Eq, Hash, Structural)]
pub struct Properties {
    /// Features of images with linear tiling.
    pub linear_tiling: ImageFeature,
    /// Features of images with optimal tiling.
    pub optimal_tiling: ImageFeature,
    /// Features of buffers.
    pub buffer_features: BufferFeature,
}

impl Properties {
    /// The properties of a format that can be used for nothing.
    pub open spec fn spec_empty() -> Properties {
        Properties {
            linear_tiling: ImageFeature { bits: 0 },
            optimal_tiling: ImageFeature { bits: 0 },
            buffer_features: BufferFeature { bits: 0 },
        }
    }

    /// The properties that follow from the native support bits of a format
    /// and from whether its texels are compressed in blocks.
    pub open spec fn spec_from_support(support: FormatSupport, compressed: bool) -> Properties {
        Properties {
            linear_tiling: support.linear_tiling(compressed),
            optimal_tiling: support.optimal_tiling(),
            buffer_features: support.buffer_features(),
        }
    }

    /// The properties of a format that can be used for nothing.
    #[verifier::when_used_as_spec(spec_empty)]
    pub fn empty() -> (props: Properties)
        ensures
            props == Self::spec_empty(),
    {
        Properties {
            linear_tiling: ImageFeature { bits: 0 },
            optimal_tiling: ImageFeature { bits: 0 },
            buffer_features: BufferFeature { bits: 0 },
        }
    }

    /// Derives the properties of a format from the support bits that the
    /// native device reports for it.
    #[verifier::when_used_as_spec(spec_from_support)]
    pub fn from_support(support: FormatSupport, compressed: bool) -> (props: Properties)
        ensures
            props == Self::spec_from_support(support, compressed),
    {
        let mut optimal: u32 = 0;
        let mut linear: u32 = 0;
        let mut buffer: u32 = 0;
        let can_buffer = 0 != support.support1 & SUPPORT1_BUFFER;
        let can_image = 0 != support.support1 & (SUPPORT1_TEXTURE1D | SUPPORT1_TEXTURE2D
            | SUPPORT1_TEXTURE3D | SUPPORT1_TEXTURECUBE);
        let can_linear = can_image && !compressed;
        proof {
            lemma_or_zero();
        }
        if can_image {
            optimal |= IMAGE_SAMPLED | IMAGE_BLIT_SRC;
        }
        if can_linear {
            linear |= IMAGE_SAMPLED | IMAGE_BLIT_SRC;
        }
        if support.support1 & SUPPORT1_IA_VERTEX_BUFFER != 0 {
            buffer |= BUFFER_VERTEX;
        }
        if support.support1 & SUPPORT1_SHADER_SAMPLE != 0 {
            optimal |= IMAGE_SAMPLED_LINEAR;
        }
        if support.support1 & SUPPORT1_RENDER_TARGET != 0 {
            optimal |= IMAGE_COLOR_ATTACHMENT | IMAGE_BLIT_DST;
            if can_linear {
                linear |= IMAGE_COLOR_ATTACHMENT | IMAGE_BLIT_DST;
            }
        }
        if support.support1 & SUPPORT1_BLENDABLE != 0 {
            optimal |= IMAGE_COLOR_ATTACHMENT_BLEND;
        }
        if support.support1 & SUPPORT1_DEPTH_STENCIL != 0 {
            optimal |= IMAGE_DEPTH_STENCIL_ATTACHMENT;
        }
        if support.support1 & SUPPORT1_SHADER_LOAD != 0 {
            if can_buffer {
                buffer |= BUFFER_UNIFORM_TEXEL;
            }
        }
        if support.support2 & SUPPORT2_UAV_ATOMIC_ADD != 0 {
            if can_buffer {
                buffer |= BUFFER_STORAGE_TEXEL_ATOMIC;
            }
            if can_image {
                optimal |= IMAGE_STORAGE_ATOMIC;
            }
        }
        if support.support2 & SUPPORT2_UAV_TYPED_STORE != 0 {
            if can_buffer {
                buffer |= BUFFER_STORAGE_TEXEL;
            }
            if can_image {
                optimal |= IMAGE_STORAGE;
            }
        }
        Properties {
            linear_tiling: ImageFeature { bits: linear },
            optimal_tiling: ImageFeature { bits: optimal },
            buffer_features: BufferFeature { bits: buffer },
        }
    }
}

/// Joining the empty set to a set of bits, on either side, changes nothing.
pub proof fn lemma_or_zero()
    ensures
        forall|x: u32| #[trigger] (x | 0) == x,
        forall|x: u32| #[trigger] (0 | x) == x,
{
    assert forall|x: u32| #[trigger] (x | 0) == x by {
        assert(x | 0 == x) by (bit_vector);
    }
    assert forall|x: u32| #[trigger] (0 | x) == x by {
        assert(0 | x == x) by (bit_vector);
    }
}


/// Which features the derived sets hold, feature by feature.
pub proof fn lemma_derived_features(support: FormatSupport, compressed: bool)
    ensures
        ({
            let optimal = support.optimal_tiling().bits;
            let linear = support.linear_tiling(compressed).bits;
            let buffer = support.buffer_features().bits;
            let render = support.has1(SUPPORT1_RENDER_TARGET);
            &&& optimal & IMAGE_SAMPLED != 0 <==> support.can_image()
            &&& optimal & IMAGE_BLIT_SRC != 0 <==> support.can_image()
            &&& optimal & IMAGE_SAMPLED_LINEAR != 0 <==> support.has1(SUPPORT1_SHADER_SAMPLE)
            &&& optimal & IMAGE_COLOR_ATTACHMENT != 0 <==> render
            &&& optimal & IMAGE_BLIT_DST != 0 <==> render
            &&& optimal & IMAGE_COLOR_ATTACHMENT_BLEND != 0 <==> support.has1(SUPPORT1_BLENDABLE)
            &&& optimal & IMAGE_DEPTH_STENCIL_ATTACHMENT != 0 <==> support.has1(
                SUPPORT1_DEPTH_STENCIL,
            )
            &&& optimal & IMAGE_STORAGE_ATOMIC != 0 <==> support.has2(SUPPORT2_UAV_ATOMIC_ADD)
                && support.can_image()
            &&& optimal & IMAGE_STORAGE != 0 <==> support.has2(SUPPORT2_UAV_TYPED_STORE)
                && support.can_image()
            &&& linear & IMAGE_SAMPLED != 0 <==> support.can_linear(compressed)
            &&& linear & IMAGE_BLIT_SRC != 0 <==> support.can_linear(compressed)
            &&& linear & IMAGE_COLOR_ATTACHMENT != 0 <==> render && support.can_linear(compressed)
            &&& linear & IMAGE_BLIT_DST != 0 <==> render && support.can_linear(compressed)
            &&& linear & !(IMAGE_SAMPLED | IMAGE_BLIT_SRC | IMAGE_COLOR_ATTACHMENT
                | IMAGE_BLIT_DST) == 0
            &&& buffer & BUFFER_VERTEX != 0 <==> support.has1(SUPPORT1_IA_VERTEX_BUFFER)
            &&& buffer & BUFFER_UNIFORM_TEXEL != 0 <==> support.has1(SUPPORT1_SHADER_LOAD)
                && support.can_buffer()
            &&& buffer & BUFFER_STORAGE_TEXEL_ATOMIC != 0 <==> support.has2(
                SUPPORT2_UAV_ATOMIC_ADD,
            ) && support.can_buffer()
            &&& buffer & BUFFER_STORAGE_TEXEL != 0 <==> support.has2(SUPPORT2_UAV_TYPED_STORE)
                && support.can_buffer()
        }),
{
    let optimal = support.optimal_tiling().bits;
    let linear = support.linear_tiling(compressed).bits;
    let buffer = support.buffer_features().bits;
    let a = support.can_image();
    let b = support.has1(SUPPORT1_SHADER_SAMPLE);
    let c = support.has1(SUPPORT1_RENDER_TARGET);
    let d = support.has1(SUPPORT1_BLENDABLE);
    let e = support.has1(SUPPORT1_DEPTH_STENCIL);
    let f = support.has2(SUPPORT2_UAV_ATOMIC_ADD) && support.can_image();
    let g = support.has2(SUPPORT2_UAV_TYPED_STORE) && support.can_image();
    assert({
        &&& (optimal & 0x1 != 0 <==> a)
        &&& (optimal & 0x400 != 0 <==> a)
        &&& (optimal & 0x1000 != 0 <==> b)
        &&& (optimal & 0x80 != 0 <==> c)
        &&& (optimal & 0x800 != 0 <==> c)
        &&& (optimal & 0x100 != 0 <==> d)
        &&& (optimal & 0x200 != 0 <==> e)
        &&& (optimal & 0x4 != 0 <==> f)
        &&& (optimal & 0x2 != 0 <==> g)
    }) by (bit_vector)
        requires
            optimal == (if a { 0x1u32 | 0x400u32 } else { 0u32 }) | (if b { 0x1000u32 } else { 0u32 })
                | (if c { 0x80u32 | 0x800u32 } else { 0u32 }) | (if d { 0x100u32 } else { 0u32 })
                | (if e { 0x200u32 } else { 0u32 }) | (if f { 0x4u32 } else { 0u32 }) | (if g {
                0x2u32
            } else {
                0u32
            }),
    ;
    let l = support.can_linear(compressed);
    let m = c && l;
    assert({
        &&& (linear & 0x1 != 0 <==> l)
        &&& (linear & 0x400 != 0 <==> l)
        &&& (linear & 0x80 != 0 <==> m)
        &&& (linear & 0x800 != 0 <==> m)
        &&& linear & !(0x1u32 | 0x400u32 | 0x80u32 | 0x800u32) == 0
    }) by (bit_vector)
        requires
            linear == (if l { 0x1u32 | 0x400u32 } else { 0u32 }) | (if m { 0x80u32 | 0x800u32 } else { 0u32 }),
    ;
    let p = support.has1(SUPPORT1_IA_VERTEX_BUFFER);
    let q = support.has1(SUPPORT1_SHADER_LOAD) && support.can_buffer();
    let r = support.has2(SUPPORT2_UAV_ATOMIC_ADD) && support.can_buffer();
    let s = support.has2(SUPPORT2_UAV_TYPED_STORE) && support.can_buffer();
    assert({
        &&& (buffer & 0x40 != 0 <==> p)
        &&& (buffer & 0x8 != 0 <==> q)
        &&& (buffer & 0x20 != 0 <==> r)
        &&& (buffer & 0x10 != 0 <==> s)
    }) by (bit_vector)
        requires
            buffer == (if p { 0x40u32 } else { 0u32 }) | (if q { 0x8u32 } else { 0u32 }) | (if r {
                0x20u32
            } else {
                0u32
            }) | (if s { 0x10u32 } else { 0u32 }),
    ;
}

/// Whether the texels of a format are compressed in blocks, by the
/// position of the format in the table of base formats: the format with
/// identifier `i` stands at position `i - 1`.
pub uninterp spec fn block_compressed(base_index: usize) -> bool;

/// Looks the format up in `gfx_hal::format::BASE_FORMATS` and asks its
/// surface type, through `SurfaceType::desc` and `FormatDesc::is_compressed`,
/// whether its texel blocks are larger than one texel. The table has one
/// entry for every format identifier but 0, so the index must stay below
/// `NUM_FORMATS - 1`. The answer depends on the position alone.
#[verifier::external_body]
fn is_block_compressed(base_index: usize) -> (compressed: bool)
    requires
        base_index < NUM_FORMATS - 1,
    ensures
        compressed == block_compressed(base_index),
{
    gfx_hal::format::BASE_FORMATS[base_index].0.desc().is_compressed()
}

/// What the native side found out about a format: `None` where the format
/// has no native counterpart, else the support bits of that counterpart.
pub type NativeAnswer = Option<FormatSupport>;

/// The properties of the format with identifier `index`, given the native
/// answer for it. A format without a native counterpart can be used for
/// nothing.
pub open spec fn resolve_spec(index: usize, native: NativeAnswer) -> Properties {
    match native {
        None => Properties::spec_empty(),
        Some(support) => Properties::spec_from_support(
            support,
            block_compressed((index - 1) as usize),
        ),
    }
}

/// Computes the properties of the format with identifier `index` from the
/// native answer for it.
pub fn resolve(index: usize, native: NativeAnswer) -> (props: Properties)
    requires
        1 <= index < NUM_FORMATS,
    ensures
        props == resolve_spec(index, native),
{
    match native {
        None => Properties::empty(),
        Some(support) => {
            let compressed = is_block_compressed(index - 1);
            Properties::from_support(support, compressed)
        },
    }
}

/// What a slot answers: the remembered properties where there are some, else
/// the properties that follow from the native answer.
pub open spec fn slot_answer(slot: Option<Properties>, index: usize, native: NativeAnswer)
    -> Properties {
    match slot {
        Some(props) => props,
        None => resolve_spec(index, native),
    }
}

/// Answers from one slot of the table, filling it on the first question.
/// The native answer is looked at only where the slot is empty.
pub fn resolve_slot(slot: &mut Option<Properties>, index: usize, native: NativeAnswer) -> (props:
    Properties)
    requires
        index < NUM_FORMATS,
        index == 0 ==> old(slot).is_some(),
    ensures
        props == slot_answer(*old(slot), index, native),
        *final(slot) == Some(props),
{
    match *slot {
        Some(props) => props,
        None => {
            let props = resolve(index, native);
            *slot = Some(props);
            props
        },
    }
}

/// The table that remembers the properties of every format once they have
/// been asked for. Slot 0 stands for "no format" and is filled from the
/// start.
#[derive(Debug)]
pub struct FormatProperties {
    slots: Vec<Option<Properties>>,
}

impl View for FormatProperties {
    type V = Seq<Option<Properties>>;

    closed spec fn view(&self) -> Seq<Option<Properties>> {
        self.slots@
    }
}

/// The table before any format has been asked for.
pub open spec fn fresh_slots() -> Seq<Option<Properties>> {
    Seq::new(
        NUM_FORMATS as nat,
        |i: int|
            if i == 0 {
                Some(Properties::spec_empty())
            } else {
                None
            },
    )
}

/// The answer to a question and the table after it.
pub open spec fn get_spec(slots: Seq<Option<Properties>>, index: usize, native: NativeAnswer) -> (
    Properties,
    Seq<Option<Properties>>,
) {
    let props = slot_answer(slots[index as int], index, native);
    (props, slots.update(index as int, Some(props)))
}

impl FormatProperties {
    /// There is one slot for every format identifier, and the slot of
    /// identifier 0 holds the empty properties.
    pub open spec fn wf(&self) -> bool {
        &&& self@.len() == NUM_FORMATS
        &&& self@[0] == Some(Properties::spec_empty())
    }

    /// A table with nothing remembered but the empty properties of
    /// identifier 0.
    pub fn new() -> (table: FormatProperties)
        ensures
            table.wf(),
            table@ == fresh_slots(),
    {
        let mut slots: Vec<Option<Properties>> = Vec::new();
        slots.push(Some(Properties::empty()));
        let mut i: usize = 1;
        while i < NUM_FORMATS
            invariant
                1 <= i <= NUM_FORMATS,
                slots@ == fresh_slots().take(i as int),
            decreases NUM_FORMATS - i,
        {
            slots.push(None);
            assert(slots@ =~= fresh_slots().take(i + 1));
            i += 1;
        }
        assert(slots@ =~= fresh_slots());
        FormatProperties { slots }
    }

    /// What the table remembers of a format.
    pub fn cached(&self, index: usize) -> (slot: Option<Properties>)
        requires
            self.wf(),
            index < NUM_FORMATS,
        ensures
            slot == self@[index as int],
    {
        self.slots[index]
    }

    /// The properties of a format: what the table remembers of it, or, the
    /// first time, what follows from the native answer, which the table then
    /// remembers. `native` is looked at only where nothing is remembered,
    /// so a caller asks the native side only after `cached` gave `None`.
    pub fn get(&mut self, index: usize, native: NativeAnswer) -> (props: Properties)
        requires
            old(self).wf(),
            index < NUM_FORMATS,
        ensures
            final(self).wf(),
            (props, final(self)@) == get_spec(old(self)@, index, native),
    {
        let mut slot = self.slots[index];
        let props = resolve_slot(&mut slot, index, native);
        self.slots.set(index, slot);
        props
    }
}

/// Once a format has been asked for, every later question about it gets the
/// same answer, whatever the native side says then, and leaves the table as
/// it is. So asking twice, even with the native side asked twice, does no
/// harm.
pub proof fn lemma_get_is_stable(
    slots: Seq<Option<Properties>>,
    index: usize,
    first: NativeAnswer,
    second: NativeAnswer,
)
    requires
        index < slots.len(),
    ensures
        get_spec(get_spec(slots, index, first).1, index, second) == get_spec(
            slots,
            index,
            first,
        ),
{
    let (props, after) = get_spec(slots, index, first);
    assert(after.update(index as int, Some(props)) =~= after);
}

/// The table after a run of questions about one format, one native answer
/// at hand for each question.
pub open spec fn table_after(
    slots: Seq<Option<Properties>>,
    index: usize,
    natives: Seq<NativeAnswer>,
) -> Seq<Option<Properties>>
    decreases natives.len(),
{
    if natives.len() == 0 {
        slots
    } else {
        get_spec(table_after(slots, index, natives.drop_last()), index, natives.last()).1
    }
}

/// The answer to the last question of a run.
pub open spec fn last_answer(
    slots: Seq<Option<Properties>>,
    index: usize,
    natives: Seq<NativeAnswer>,
) -> Properties {
    get_spec(table_after(slots, index, natives.drop_last()), index, natives.last()).0
}

/// However often a format is asked for, and whatever the native side has to
/// say each time, the last answer is the first answer, and only the first
/// question can find the slot empty: the native side is needed at most once.
/// Applied to every prefix of a run, this makes all answers of the run the
/// same.
pub proof fn lemma_repeated_gets(
    slots: Seq<Option<Properties>>,
    index: usize,
    natives: Seq<NativeAnswer>,
)
    requires
        index < slots.len(),
        natives.len() > 0,
    ensures
        last_answer(slots, index, natives) == get_spec(slots, index, natives[0]).0,
        table_after(slots, index, natives) == get_spec(slots, index, natives[0]).1,
        natives.len() > 1 ==> table_after(slots, index, natives.drop_last())[index as int].is_some(),
    decreases natives.len(),
{
    let rest = natives.drop_last();
    if natives.len() == 1 {
        assert(table_after(slots, index, rest) == slots);
    } else {
        lemma_repeated_gets(slots, index, rest);
        assert(rest[0] == natives[0]);
        lemma_get_is_stable(slots, index, natives[0], natives.last());
    }
}

/// A question about one format changes nothing that the table remembers of
/// another, and a question about a remembered format changes nothing at all.
pub proof fn lemma_get_is_local(
    slots: Seq<Option<Properties>>,
    index: usize,
    native: NativeAnswer,
    other: usize,
)
    requires
        index < slots.len(),
        other < slots.len(),
    ensures
        other != index ==> get_spec(slots, index, native).1[other as int] == slots[other as int],
        slots[index as int].is_some() ==> get_spec(slots, index, native).1 == slots,
        slots[index as int].is_some() ==> get_spec(slots, index, native).0
            == slots[index as int].unwrap(),
{
    if slots[index as int].is_some() {
        assert(get_spec(slots, index, native).1 =~= slots);
    }
}

} // verus!
