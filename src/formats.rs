//! Pixel and sample format descriptors consumed by the allocator.
use vstd::prelude::*;
use vstd::arithmetic::power2::{pow2, lemma_pow2_pos, lemma_pow2_strictly_increases, lemma2_to64, lemma2_to64_rest};
use vstd::arithmetic::div_mod::{lemma_small_mod, lemma_basic_div, lemma_hoist_over_denominator, lemma_fundamental_div_mod};
use vstd::bits::{lemma_usize_shl_is_mul, lemma_usize_pow2_no_overflow};

verus! {

/// `v / 2^s`, rounded up.
pub open spec fn ceil_shift(v: nat, s: nat) -> nat {
    v / pow2(s) + if v % pow2(s) == 0 { 0nat } else { 1nat }
}

/// Number of bytes taken by `count` items of `bits` bits each, packed tightly.
pub open spec fn bytes_for_bits(count: nat, bits: nat) -> nat {
    (count * bits + 7) / 8
}

/// Powers of two from the width of `usize` up do not fit in it.
pub(crate) proof fn lemma_pow2_exceeds_usize(s: nat)
    requires
        s >= usize::BITS,
    ensures
        pow2(s) > usize::MAX,
{
    lemma2_to64();
    lemma2_to64_rest();
    if s > usize::BITS {
        lemma_pow2_strictly_increases(usize::BITS as nat, s);
    }
}

/// Divides `v` by `2^s`, rounding up.
pub fn scale_down(v: usize, s: u8) -> (r: usize)
    ensures
        r == ceil_shift(v as nat, s as nat),
        r <= v,
{
    proof {
        lemma_pow2_pos(s as nat);
    }
    if (s as u32) >= usize::BITS {
        proof {
            lemma_pow2_exceeds_usize(s as nat);
            lemma_basic_div(v as int, pow2(s as nat) as int);
            lemma_small_mod(v as nat, pow2(s as nat));
        }
        if v == 0 {
            0
        } else {
            1
        }
    } else {
        proof {
            lemma_usize_pow2_no_overflow(s as nat);
            lemma_usize_shl_is_mul(1, s as usize);
        }
        let d: usize = 1usize << (s as usize);
        assert(d as nat == pow2(s as nat));
        let q: usize = v / d;
        let rem: usize = v % d;
        proof {
            lemma_fundamental_div_mod(v as int, d as int);
        }
        if rem == 0 {
            q
        } else {
            assert(d >= 2);
            assert(q * d <= v) by (nonlinear_arith)
                requires
                    v == d * q + rem,
                    rem >= 0,
                    d > 0,
            ;
            assert(q < v) by (nonlinear_arith)
                requires
                    q * d <= v,
                    d >= 2,
                    rem > 0,
                    v == d * q + rem,
            ;
            q + 1
        }
    }
}

/// Number of bytes taken by `count` items of `bits` bits each, or `None` where
/// that number does not fit in `usize`.
pub fn bits_to_bytes(count: usize, bits: usize) -> (r: Option<usize>)
    requires
        bits <= 256,
    ensures
        match r {
            Some(n) => n == bytes_for_bits(count as nat, bits as nat),
            None => bytes_for_bits(count as nat, bits as nat) > usize::MAX,
        },
{
    let q: usize = count / 8;
    let rem: usize = count % 8;
    assert(rem * bits <= 7 * 256) by (nonlinear_arith)
        requires
            rem < 8,
            bits <= 256,
    ;
    let lo: usize = (rem * bits + 7) / 8;
    proof {
        let hi: int = q * bits;
        assert(count * bits + 7 == (rem * bits + 7) + hi * 8) by (nonlinear_arith)
            requires
                count == 8 * q + rem,
                hi == q * bits,
        ;
        lemma_hoist_over_denominator((rem * bits + 7) as int, hi as int, 8);
        assert(bytes_for_bits(count as nat, bits as nat) == lo + hi);
    }
    match q.checked_mul(bits) {
        None => None,
        Some(hi) => hi.checked_add(lo),
    }
}

/// Per-component descriptor of a pixel format.
#[derive(Clone, Copy, Debug, PartialEq, Eq, Structural)]
pub struct NAChromaton {
    /// Horizontal subsampling, as a power of two.
    pub h_ss: u8,
    /// Vertical subsampling, as a power of two.
    pub v_ss: u8,
    /// Whether the component is packed together with others into one element.
    pub packed: bool,
    /// Bit depth of the component.
    pub depth: u8,
    /// Shift of the component inside a packed element.
    pub shift: u8,
    /// Offset of the component inside a packed element.
    pub comp_offs: u8,
    /// Distance to the next element of the same component.
    pub next_elem: u8,
}

impl NAChromaton {
    /// Width of this component for a picture `w` pixels wide.
    pub open spec fn width_of(self, w: nat) -> nat {
        ceil_shift(w, self.h_ss as nat)
    }

    /// Height of this component for a picture `h` lines high.
    pub open spec fn height_of(self, h: nat) -> nat {
        ceil_shift(h, self.v_ss as nat)
    }

    /// Size of one line of this component, in elements for a component of its own
    /// and in bytes for a packed one.
    pub open spec fn linesize_of(self, w: nat) -> nat {
        if self.packed {
            bytes_for_bits(self.width_of(w), self.depth as nat)
        } else {
            self.width_of(w)
        }
    }

    /// Returns the horizontal and vertical subsampling.
    pub fn get_subsampling(&self) -> (r: (u8, u8))
        ensures
            r == (self.h_ss, self.v_ss),
    {
        (self.h_ss, self.v_ss)
    }

    /// Reports whether the component is packed.
    pub fn is_packed(&self) -> (r: bool)
        ensures
            r == self.packed,
    {
        self.packed
    }

    /// Returns the bit depth.
    pub fn get_depth(&self) -> (r: u8)
        ensures
            r == self.depth,
    {
        self.depth
    }

    /// Returns the bit shift inside a packed element.
    pub fn get_shift(&self) -> (r: u8)
        ensures
            r == self.shift,
    {
        self.shift
    }

    /// Returns the offset inside a packed element.
    pub fn get_offset(&self) -> (r: u8)
        ensures
            r == self.comp_offs,
    {
        self.comp_offs
    }

    /// Returns the distance to the next element of the same component.
    pub fn get_step(&self) -> (r: u8)
        ensures
            r == self.next_elem,
    {
        self.next_elem
    }

    /// Returns the component width for a picture `width` pixels wide.
    pub fn get_width(&self, width: usize) -> (r: usize)
        ensures
            r == self.width_of(width as nat),
    {
        scale_down(width, self.h_ss)
    }

    /// Returns the component height for a picture `height` lines high.
    pub fn get_height(&self, height: usize) -> (r: usize)
        ensures
            r == self.height_of(height as nat),
    {
        scale_down(height, self.v_ss)
    }

    /// Returns the line size for a picture `width` pixels wide, or `None` where it
    /// does not fit in `usize`.
    pub fn get_linesize(&self, width: usize) -> (r: Option<usize>)
        ensures
            match r {
                Some(n) => n == self.linesize_of(width as nat),
                None => self.linesize_of(width as nat) > usize::MAX,
            },
    {
        let w: usize = self.get_width(width);
        if self.packed {
            bits_to_bytes(w, self.depth as usize)
        } else {
            Some(w)
        }
    }
}

/// Pixel format description.
#[derive(Clone, Copy, Debug, PartialEq, Eq)]
pub struct NAPixelFormaton {
    /// Number of components.
    pub components: u8,
    /// Component descriptors.
    pub comp_info: [Option<NAChromaton>; 5],
    /// Size of one packed element in bytes.
    pub elem_size: u8,
    /// Big-endian storage.
    pub be: bool,
    /// Whether an alpha component is present.
    pub alpha: bool,
    /// Whether the picture is paletted.
    pub palette: bool,
}

impl NAPixelFormaton {
    /// Descriptor of component `i`, if the format has one there.
    pub open spec fn chromaton_at(self, i: int) -> Option<NAChromaton> {
        if 0 <= i < 5 {
            self.comp_info@[i]
        } else {
            None
        }
    }

    /// Every declared component has a descriptor.
    pub open spec fn all_described(self) -> bool {
        forall|i: int| 0 <= i < self.components ==> (#[trigger] self.chromaton_at(i)).is_some()
    }

    /// Descriptor of declared component `i`.
    pub open spec fn chr(self, i: int) -> NAChromaton {
        self.chromaton_at(i).unwrap()
    }

    /// Constructs a new pixel format description.
    pub fn new(
        components: u8,
        comp_info: [Option<NAChromaton>; 5],
        elem_size: u8,
        be: bool,
        alpha: bool,
        palette: bool,
    ) -> (r: Self)
        ensures
            r == (NAPixelFormaton { components, comp_info, elem_size, be, alpha, palette }),
    {
        NAPixelFormaton { components, comp_info, elem_size, be, alpha, palette }
    }

    /// Returns the number of components.
    pub fn get_num_comp(&self) -> (r: usize)
        ensures
            r == self.components,
    {
        self.components as usize
    }

    /// Returns the descriptor of component `idx`, if there is one.
    pub fn get_chromaton(&self, idx: usize) -> (r: Option<NAChromaton>)
        ensures
            r == self.chromaton_at(idx as int),
    {
        if idx < 5 {
            self.comp_info[idx]
        } else {
            None
        }
    }

    /// Returns the size of one packed element in bytes.
    pub fn get_elem_size(&self) -> (r: u8)
        ensures
            r == self.elem_size,
    {
        self.elem_size
    }

    /// Reports whether the format is big-endian.
    pub fn is_be(&self) -> (r: bool)
        ensures
            r == self.be,
    {
        self.be
    }

    /// Reports whether the format has an alpha component.
    pub fn has_alpha(&self) -> (r: bool)
        ensures
            r == self.alpha,
    {
        self.alpha
    }

    /// Reports whether the format is paletted.
    pub fn is_paletted(&self) -> (r: bool)
        ensures
            r == self.palette,
    {
        self.palette
    }
}

/// Audio sample format description.
#[derive(Clone, Copy, Debug, PartialEq, Eq, Structural)]
pub struct NASoniton {
    /// Bits per sample.
    pub bits: u8,
    /// Big-endian samples.
    pub be: bool,
    /// Samples are packed tightly regardless of byte boundaries.
    pub packed: bool,
    /// Each channel is stored in a plane of its own.
    pub planar: bool,
    /// Floating-point samples.
    pub float: bool,
    /// Signed samples.
    pub signed: bool,
}

impl NASoniton {
    /// Bytes taken by `length` samples of this format.
    pub open spec fn audio_size_of(self, length: nat) -> nat {
        if self.packed {
            bytes_for_bits(length, self.bits as nat)
        } else {
            length * ((self.bits as nat + 7) / 8)
        }
    }

    /// Constructs a new sample format description.
    pub fn new(bits: u8, be: bool, packed: bool, planar: bool, float: bool, signed: bool) -> (r: Self)
        ensures
            r == (NASoniton { bits, be, packed, planar, float, signed }),
    {
        NASoniton { bits, be, packed, planar, float, signed }
    }

    /// Returns the number of bits per sample.
    pub fn get_bits(&self) -> (r: u8)
        ensures
            r == self.bits,
    {
        self.bits
    }

    /// Reports whether samples are big-endian.
    pub fn is_be(&self) -> (r: bool)
        ensures
            r == self.be,
    {
        self.be
    }

    /// Reports whether samples are packed.
    pub fn is_packed(&self) -> (r: bool)
        ensures
            r == self.packed,
    {
        self.packed
    }

    /// Reports whether channels are stored in planes of their own.
    pub fn is_planar(&self) -> (r: bool)
        ensures
            r == self.planar,
    {
        self.planar
    }

    /// Reports whether samples are floating-point.
    pub fn is_float(&self) -> (r: bool)
        ensures
            r == self.float,
    {
        self.float
    }

    /// Reports whether samples are signed.
    pub fn is_signed(&self) -> (r: bool)
        ensures
            r == self.signed,
    {
        self.signed
    }

    /// Returns the number of bytes taken by `length` samples, or `None` where it
    /// does not fit in `usize`.
    pub fn get_audio_size(&self, length: usize) -> (r: Option<usize>)
        ensures
            match r {
                Some(n) => n == self.audio_size_of(length as nat),
                None => self.audio_size_of(length as nat) > usize::MAX,
            },
    {
        if self.packed {
            bits_to_bytes(length, self.bits as usize)
        } else {
            let bytes: usize = (self.bits as usize + 7) / 8;
            length.checked_mul(bytes)
        }
    }
}

/// Signed 16-bit samples, one plane per channel.
pub open spec fn s16_planar() -> NASoniton {
    NASoniton { bits: 16, be: false, packed: false, planar: true, float: false, signed: true }
}

/// Signed 16-bit samples, one plane per channel.
pub fn snd_s16p_format() -> (r: NASoniton)
    ensures
        r == s16_planar(),
{
    NASoniton::new(16, false, false, true, false, true)
}

/// 32-bit floating-point samples, one plane per channel.
pub fn snd_f32p_format() -> (r: NASoniton)
    ensures
        r == (NASoniton { bits: 32, be: false, packed: false, planar: true, float: true, signed: true }),
{
    NASoniton::new(32, false, false, true, true, true)
}

/// Audio channel identifiers.
#[derive(Clone, Copy, Debug, PartialEq, Eq, Structural)]
pub enum NAChannelType {
    C,
    L,
    R,
    Cs,
    Ls,
    Rs,
    Lss,
    Rss,
    LFE,
    Lc,
    Rc,
    Lh,
    Rh,
    Ch,
    LFE2,
    Lw,
    Rw,
    Ov,
    Lhs,
    Rhs,
    Chs,
    Ll,
    Rl,
    Cl,
    Lt,
    Rt,
    Lo,
    Ro,
}

/// Ordered list of the channels of an audio stream.
#[derive(Debug)]
pub struct NAChannelMap {
    ids: Vec<NAChannelType>,
}

impl View for NAChannelMap {
    type V = Seq<NAChannelType>;

    closed spec fn view(&self) -> Seq<NAChannelType> {
        self.ids@
    }
}

impl Clone for NAChannelMap {
    fn clone(&self) -> (r: Self)
        ensures
            r@ == self@,
    {
        let mut ids: Vec<NAChannelType> = Vec::new();
        let mut i: usize = 0;
        while i < self.ids.len()
            invariant
                i <= self.ids@.len(),
                ids@ == self.ids@.subrange(0, i as int),
            decreases self.ids@.len() - i,
        {
            ids.push(self.ids[i]);
            i += 1;
            assert(ids@ =~= self.ids@.subrange(0, i as int));
        }
        assert(ids@ =~= self.ids@);
        NAChannelMap { ids }
    }
}

impl NAChannelMap {
    /// Constructs an empty channel map.
    pub fn new() -> (r: Self)
        ensures
            r@ == Seq::<NAChannelType>::empty(),
    {
        NAChannelMap { ids: Vec::new() }
    }

    /// Appends a channel.
    pub fn add_channel(&mut self, ch: NAChannelType)
        ensures
            final(self)@ == old(self)@.push(ch),
    {
        self.ids.push(ch);
    }

    /// Returns the number of channels.
    pub fn num_channels(&self) -> (r: usize)
        ensures
            r == self@.len(),
    {
        self.ids.len()
    }

    /// Returns the channel at position `idx`.
    pub fn get_channel(&self, idx: usize) -> (r: NAChannelType)
        requires
            idx < self@.len(),
        ensures
            r == self@[idx as int],
    {
        self.ids[idx]
    }

    /// Returns the position of channel `t`, if present.
    pub fn find_channel_id(&self, t: NAChannelType) -> (r: Option<u8>)
        ensures
            match r {
                Some(i) => i < self@.len() && self@[i as int] == t && forall|j: int|
                    0 <= j < i ==> self@[j] != t,
                None => forall|j: int| 0 <= j < self@.len() && j < 256 ==> self@[j] != t,
            },
    {
        let mut i: usize = 0;
        while i < self.ids.len() && i < 256
            invariant
                i <= self.ids@.len(),
                i <= 256,
                forall|j: int| 0 <= j < i ==> self.ids@[j] != t,
            decreases self.ids@.len() - i,
        {
            if self.ids[i] == t {
                return Some(i as u8);
            }
            i += 1;
        }
        None
    }
}

} // verus!
