//! Buffer allocation: overflow-checked, alignment-respecting layouts for video
//! pictures and audio frames of any format.
use vstd::prelude::*;
use vstd::arithmetic::power2::{pow2, lemma_pow2_pos};
use vstd::arithmetic::div_mod::{lemma_small_mod, lemma_mod_decreases};
use vstd::bits::{lemma_usize_shl_is_mul, lemma_usize_pow2_no_overflow};
use crate::formats::{lemma_pow2_exceeds_usize, NAChannelMap, NAChannelType, NAPixelFormaton, NAChromaton, NASoniton};
use crate::info::{NAAudioInfo, NAVideoInfo};
use crate::buffer::{
    AudioBufferView, BufferView, NAAudioBuffer, NABufferType, NAVideoBuffer, NAVideoBufferRef,
    VideoBufferView,
};
use crate::refs::NABufferRef;

verus! {

/// A list of possible frame allocator errors.
#[derive(Debug, Clone, Copy, PartialEq, Eq, Structural)]
pub enum AllocatorError {
    /// Requested picture dimensions are too large.
    TooLargeDimensions,
    /// Invalid input format.
    FormatError,
}

/// Smallest multiple of `2^a` that is not below `v`.
pub open spec fn align_up(v: nat, a: nat) -> nat {
    if v % pow2(a) == 0 {
        v
    } else {
        (v - v % pow2(a) + pow2(a)) as nat
    }
}

/// Element width of a video buffer.
pub enum VideoKind {
    Video8,
    Video16,
    Video32,
    Packed,
}

/// Layout of a video buffer: element width, component offsets and strides (in
/// elements), and storage length (in elements).
pub struct VideoLayout {
    pub kind: VideoKind,
    pub offs: Seq<nat>,
    pub strides: Seq<nat>,
    pub len: nat,
}

/// Some declared component is stored in a plane of its own.
pub open spec fn has_unpacked(f: NAPixelFormaton) -> bool {
    exists|i: int| 0 <= i < f.components && !(#[trigger] f.chr(i)).packed
}

/// Every packed component ends on a byte boundary.
pub open spec fn all_bytealigned(f: NAPixelFormaton) -> bool {
    forall|i: int|
        0 <= i < f.components && (#[trigger] f.chr(i)).packed ==> (f.chr(i).shift + f.chr(i).depth) % 8 == 0
}

/// Largest bit depth among the first `k` components.
pub open spec fn max_depth_upto(f: NAPixelFormaton, k: nat) -> nat
    decreases k,
{
    if k == 0 {
        0
    } else {
        let m = max_depth_upto(f, (k - 1) as nat);
        let d = f.chr(k - 1).depth as nat;
        if d > m {
            d
        } else {
            m
        }
    }
}

/// Largest bit depth among the components.
pub open spec fn deepest(f: NAPixelFormaton) -> nat {
    max_depth_upto(f, f.components as nat)
}

/// Element width that holds components of bit depth up to `depth`.
pub open spec fn kind_for_depth(depth: nat) -> VideoKind {
    if depth <= 8 {
        VideoKind::Video8
    } else if depth <= 16 {
        VideoKind::Video16
    } else {
        VideoKind::Video32
    }
}

/// Size of plane `i` of a planar picture padded to `pw` by `ph`.
pub open spec fn plane_len(f: NAPixelFormaton, i: int, pw: nat, ph: nat) -> nat {
    (f.chr(i).linesize_of(pw) * f.chr(i).height_of(ph)) as nat
}

/// Offset of plane `k` of a planar picture: the sizes of the planes before it.
pub open spec fn plane_offset(f: NAPixelFormaton, k: nat, pw: nat, ph: nat) -> nat
    decreases k,
{
    if k == 0 {
        0
    } else {
        plane_offset(f, (k - 1) as nat, pw, ph) + plane_len(f, k - 1, pw, ph)
    }
}

/// Layout of a paletted picture: the pixel plane, then a palette of 256 entries.
pub open spec fn paletted_layout(f: NAPixelFormaton, pw: nat, ph: nat) -> Result<VideoLayout, AllocatorError> {
    let stride = f.chr(0).linesize_of(pw);
    let pic = (stride * ph) as nat;
    let len = (pic + 256 * f.elem_size) as nat;
    if stride > usize::MAX || len > usize::MAX {
        Err(AllocatorError::TooLargeDimensions)
    } else {
        Ok(VideoLayout { kind: VideoKind::Video8, offs: seq![0, pic], strides: seq![stride], len })
    }
}

/// Layout of a planar picture: the planes one after another, in elements wide
/// enough for the deepest component.
pub open spec fn planar_layout(f: NAPixelFormaton, pw: nat, ph: nat) -> Result<VideoLayout, AllocatorError> {
    let n = f.components as nat;
    if (exists|i: int| 0 <= i < n && (#[trigger] f.chr(i)).linesize_of(pw) > usize::MAX)
        || plane_offset(f, n, pw, ph) > usize::MAX {
        Err(AllocatorError::TooLargeDimensions)
    } else {
        Ok(VideoLayout {
            kind: kind_for_depth(deepest(f)),
            offs: Seq::new(n, |i: int| plane_offset(f, i as nat, pw, ph)),
            strides: Seq::new(n, |i: int| f.chr(i).linesize_of(pw)),
            len: plane_offset(f, n, pw, ph),
        })
    }
}

/// Layout of a packed picture stored byte by byte.
pub open spec fn packed_layout(f: NAPixelFormaton, pw: nat, ph: nat) -> Result<VideoLayout, AllocatorError> {
    let line = (pw * f.elem_size) as nat;
    if line > usize::MAX || line * ph > usize::MAX {
        Err(AllocatorError::TooLargeDimensions)
    } else {
        Ok(VideoLayout { kind: VideoKind::Packed, offs: seq![], strides: seq![line], len: (line * ph) as nat })
    }
}

/// Layout of a packed picture stored one 16- or 32-bit element per pixel.
pub open spec fn native_layout(f: NAPixelFormaton, pw: nat, ph: nat) -> Result<VideoLayout, AllocatorError> {
    if pw * ph > usize::MAX {
        Err(AllocatorError::TooLargeDimensions)
    } else {
        Ok(VideoLayout {
            kind: if f.elem_size == 2 { VideoKind::Video16 } else { VideoKind::Video32 },
            offs: seq![],
            strides: seq![pw],
            len: (pw * ph) as nat,
        })
    }
}

/// Layout of a picture of `vinfo` with dimensions padded to multiples of
/// `2^align`, or the error its allocation gives.
pub open spec fn video_layout(vinfo: NAVideoInfo, align: nat) -> Result<VideoLayout, AllocatorError> {
    let f = vinfo.format;
    let pw = align_up(vinfo.width as nat, align);
    let ph = align_up(vinfo.height as nat, align);
    if !f.all_described() {
        Err(AllocatorError::FormatError)
    } else if pw > usize::MAX || ph > usize::MAX {
        Err(AllocatorError::TooLargeDimensions)
    } else if f.palette {
        if f.chromaton_at(0) is None {
            Err(AllocatorError::FormatError)
        } else {
            paletted_layout(f, pw, ph)
        }
    } else if has_unpacked(f) {
        planar_layout(f, pw, ph)
    } else if all_bytealigned(f) || (f.elem_size != 2 && f.elem_size != 4) {
        packed_layout(f, pw, ph)
    } else {
        native_layout(f, pw, ph)
    }
}

/// `a` holds the numbers of `b`.
pub open spec fn sizes_match(a: Seq<usize>, b: Seq<nat>) -> bool {
    a.len() == b.len() && forall|i: int| 0 <= i < a.len() ==> a[i] == b[i]
}

/// A fresh video buffer of picture `vinfo` laid out as `lay`, zero-filled.
pub open spec fn video_view_is<T>(v: VideoBufferView<T>, vinfo: NAVideoInfo, lay: VideoLayout, zero: T) -> bool {
    &&& v.info == vinfo
    &&& sizes_match(v.offs, lay.offs)
    &&& sizes_match(v.strides, lay.strides)
    &&& v.data.len() == lay.len
    &&& forall|i: int| 0 <= i < v.data.len() ==> v.data[i] == zero
}

/// `b` is a fresh buffer of picture `vinfo` laid out as `lay`.
pub open spec fn video_buffer_is(b: BufferView, vinfo: NAVideoInfo, lay: VideoLayout) -> bool {
    match lay.kind {
        VideoKind::Video8 => b matches BufferView::Video(v) && video_view_is(v, vinfo, lay, 0u8),
        VideoKind::Video16 => b matches BufferView::Video16(v) && video_view_is(v, vinfo, lay, 0u16),
        VideoKind::Video32 => b matches BufferView::Video32(v) && video_view_is(v, vinfo, lay, 0u32),
        VideoKind::Packed => b matches BufferView::VideoPacked(v) && video_view_is(v, vinfo, lay, 0u8),
    }
}

/// Rounds `v` up to a multiple of `2^align`, or `None` where that does not fit.
fn pad_dimension(v: usize, align: u8) -> (r: Option<usize>)
    ensures
        match r {
            Some(p) => p == align_up(v as nat, align as nat),
            None => align_up(v as nat, align as nat) > usize::MAX,
        },
{
    proof {
        lemma_pow2_pos(align as nat);
    }
    if (align as u32) >= usize::BITS {
        proof {
            lemma_pow2_exceeds_usize(align as nat);
            lemma_small_mod(v as nat, pow2(align as nat));
        }
        if v == 0 {
            Some(0)
        } else {
            None
        }
    } else {
        proof {
            lemma_usize_pow2_no_overflow(align as nat);
            lemma_usize_shl_is_mul(1, align as usize);
        }
        let d: usize = 1usize << (align as usize);
        assert(d as nat == pow2(align as nat));
        let rem: usize = v % d;
        proof {
            lemma_mod_decreases(v as nat, d as nat);
        }
        if rem == 0 {
            Some(v)
        } else {
            (v - rem).checked_add(d)
        }
    }
}

proof fn lemma_plane_offset_monotone(f: NAPixelFormaton, k: nat, m: nat, pw: nat, ph: nat)
    requires
        k <= m,
    ensures
        plane_offset(f, k, pw, ph) <= plane_offset(f, m, pw, ph),
    decreases m - k,
{
    if k < m {
        lemma_plane_offset_monotone(f, k, (m - 1) as nat, pw, ph);
    }
}

/// A fresh 8-bit video buffer, zero-filled.
fn video8(vinfo: NAVideoInfo, len: usize, offs: Vec<usize>, strides: Vec<usize>) -> (r: NAVideoBufferRef<u8>)
    ensures
        r.value()@.info == vinfo,
        r.value()@.offs == offs@,
        r.value()@.strides == strides@,
        r.value()@.data.len() == len,
        forall|i: int| 0 <= i < len ==> r.value()@.data[i] == 0u8,
{
    let data: Vec<u8> = vec![0u8; len];
    NAVideoBuffer::from_parts(vinfo, data, offs, strides).into_ref()
}

/// A fresh 16-bit video buffer, zero-filled.
fn video16(vinfo: NAVideoInfo, len: usize, offs: Vec<usize>, strides: Vec<usize>) -> (r: NAVideoBufferRef<u16>)
    ensures
        r.value()@.info == vinfo,
        r.value()@.offs == offs@,
        r.value()@.strides == strides@,
        r.value()@.data.len() == len,
        forall|i: int| 0 <= i < len ==> r.value()@.data[i] == 0u16,
{
    let data: Vec<u16> = vec![0u16; len];
    NAVideoBuffer::from_parts(vinfo, data, offs, strides).into_ref()
}

/// A fresh 32-bit video buffer, zero-filled.
fn video32(vinfo: NAVideoInfo, len: usize, offs: Vec<usize>, strides: Vec<usize>) -> (r: NAVideoBufferRef<u32>)
    ensures
        r.value()@.info == vinfo,
        r.value()@.offs == offs@,
        r.value()@.strides == strides@,
        r.value()@.data.len() == len,
        forall|i: int| 0 <= i < len ==> r.value()@.data[i] == 0u32,
{
    let data: Vec<u32> = vec![0u32; len];
    NAVideoBuffer::from_parts(vinfo, data, offs, strides).into_ref()
}

/// Allocates a paletted picture.
fn alloc_paletted(vinfo: NAVideoInfo, width: usize, height: usize) -> (r: Result<NABufferType, AllocatorError>)
    requires
        vinfo.format.chromaton_at(0) is Some,
    ensures
        match paletted_layout(vinfo.format, width as nat, height as nat) {
            Ok(lay) => r matches Ok(b) && video_buffer_is(b@, vinfo, lay),
            Err(e) => r == Err::<NABufferType, AllocatorError>(e),
        },
{
    let fmt: NAPixelFormaton = vinfo.format;
    let chr: NAChromaton = match fmt.get_chromaton(0) {
        Some(c) => c,
        None => return Err(AllocatorError::FormatError),
    };
    let stride: usize = match chr.get_linesize(width) {
        Some(s) => s,
        None => return Err(AllocatorError::TooLargeDimensions),
    };
    let pic_sz: usize = match stride.checked_mul(height) {
        Some(s) => s,
        None => return Err(AllocatorError::TooLargeDimensions),
    };
    let pal_size: usize = 256 * (fmt.get_elem_size() as usize);
    let new_size: usize = match pic_sz.checked_add(pal_size) {
        Some(s) => s,
        None => return Err(AllocatorError::TooLargeDimensions),
    };
    let mut offs: Vec<usize> = Vec::new();
    offs.push(0);
    offs.push(pic_sz);
    let mut strides: Vec<usize> = Vec::new();
    strides.push(stride);
    let r: NABufferType = NABufferType::Video(video8(vinfo, new_size, offs, strides));
    proof {
        let lay = paletted_layout(fmt, width as nat, height as nat)->Ok_0;
        assert(offs@ =~= seq![0usize, pic_sz]);
        assert(sizes_match(offs@, lay.offs));
        assert(sizes_match(strides@, lay.strides));
    }
    Ok(r)
}

/// Allocates a planar picture, in elements wide enough for components of depth
/// `max_depth`.
fn alloc_planar(vinfo: NAVideoInfo, width: usize, height: usize, max_depth: u8) -> (r: Result<NABufferType, AllocatorError>)
    requires
        vinfo.format.all_described(),
        max_depth == deepest(vinfo.format),
    ensures
        match planar_layout(vinfo.format, width as nat, height as nat) {
            Ok(lay) => r matches Ok(b) && video_buffer_is(b@, vinfo, lay),
            Err(e) => r == Err::<NABufferType, AllocatorError>(e),
        },
{
    let fmt: NAPixelFormaton = vinfo.format;
    let ncomp: usize = fmt.get_num_comp();
    let ghost n: nat = ncomp as nat;
    let ghost w: nat = width as nat;
    let ghost h: nat = height as nat;
    let mut new_size: usize = 0;
    let mut offs: Vec<usize> = Vec::new();
    let mut strides: Vec<usize> = Vec::new();
    let mut i: usize = 0;
    while i < ncomp
        invariant
            ncomp == fmt.components,
            fmt == vinfo.format,
            fmt.all_described(),
            i <= ncomp,
            n == ncomp,
            w == width,
            h == height,
            new_size == plane_offset(fmt, i as nat, w, h),
            offs@.len() == i,
            strides@.len() == i,
            forall|j: int| 0 <= j < i ==> offs@[j] == plane_offset(fmt, j as nat, w, h),
            forall|j: int| 0 <= j < i ==> strides@[j] == (#[trigger] fmt.chr(j)).linesize_of(w),
        decreases ncomp - i,
    {
        assert(fmt.chromaton_at(i as int).is_some());
        let chr: NAChromaton = match fmt.get_chromaton(i) {
            Some(c) => c,
            None => return Err(AllocatorError::FormatError),
        };
        assert(chr == fmt.chr(i as int));
        offs.push(new_size);
        let stride: usize = match chr.get_linesize(width) {
            Some(s) => s,
            None => {
                assert(fmt.chr(i as int).linesize_of(w) > usize::MAX);
                return Err(AllocatorError::TooLargeDimensions);
            },
        };
        let cur_h: usize = chr.get_height(height);
        let cur_sz: usize = match stride.checked_mul(cur_h) {
            Some(s) => s,
            None => {
                proof {
                    lemma_plane_offset_monotone(fmt, (i + 1) as nat, n, w, h);
                }
                return Err(AllocatorError::TooLargeDimensions);
            },
        };
        new_size = match new_size.checked_add(cur_sz) {
            Some(s) => s,
            None => {
                proof {
                    lemma_plane_offset_monotone(fmt, (i + 1) as nat, n, w, h);
                }
                return Err(AllocatorError::TooLargeDimensions);
            },
        };
        strides.push(stride);
        i += 1;
    }
    proof {
        assert forall|j: int| 0 <= j < n implies !((#[trigger] fmt.chr(j)).linesize_of(w) > usize::MAX) by {
            assert(strides@[j] == fmt.chr(j).linesize_of(w));
        }
        let lay = planar_layout(fmt, w, h)->Ok_0;
        assert(sizes_match(offs@, lay.offs));
        assert(sizes_match(strides@, lay.strides));
    }
    if max_depth <= 8 {
        Ok(NABufferType::Video(video8(vinfo, new_size, offs, strides)))
    } else if max_depth <= 16 {
        Ok(NABufferType::Video16(video16(vinfo, new_size, offs, strides)))
    } else {
        Ok(NABufferType::Video32(video32(vinfo, new_size, offs, strides)))
    }
}

/// Allocates a packed picture stored byte by byte.
fn alloc_packed(vinfo: NAVideoInfo, width: usize, height: usize) -> (r: Result<NABufferType, AllocatorError>)
    ensures
        match packed_layout(vinfo.format, width as nat, height as nat) {
            Ok(lay) => r matches Ok(b) && video_buffer_is(b@, vinfo, lay),
            Err(e) => r == Err::<NABufferType, AllocatorError>(e),
        },
{
    let elem_sz: u8 = vinfo.format.get_elem_size();
    let line_sz: usize = match width.checked_mul(elem_sz as usize) {
        Some(s) => s,
        None => return Err(AllocatorError::TooLargeDimensions),
    };
    let new_sz: usize = match line_sz.checked_mul(height) {
        Some(s) => s,
        None => return Err(AllocatorError::TooLargeDimensions),
    };
    let mut strides: Vec<usize> = Vec::new();
    strides.push(line_sz);
    let r: NABufferType = NABufferType::VideoPacked(video8(vinfo, new_sz, Vec::new(), strides));
    proof {
        let lay = packed_layout(vinfo.format, width as nat, height as nat)->Ok_0;
        assert(sizes_match(strides@, lay.strides));
    }
    Ok(r)
}

/// Allocates a packed picture stored one 16- or 32-bit element per pixel.
fn alloc_native(vinfo: NAVideoInfo, width: usize, height: usize) -> (r: Result<NABufferType, AllocatorError>)
    requires
        vinfo.format.elem_size == 2 || vinfo.format.elem_size == 4,
    ensures
        match native_layout(vinfo.format, width as nat, height as nat) {
            Ok(lay) => r matches Ok(b) && video_buffer_is(b@, vinfo, lay),
            Err(e) => r == Err::<NABufferType, AllocatorError>(e),
        },
{
    let new_sz: usize = match width.checked_mul(height) {
        Some(s) => s,
        None => return Err(AllocatorError::TooLargeDimensions),
    };
    let mut strides: Vec<usize> = Vec::new();
    strides.push(width);
    proof {
        let lay = native_layout(vinfo.format, width as nat, height as nat)->Ok_0;
        assert(sizes_match(strides@, lay.strides));
    }
    if vinfo.format.get_elem_size() == 2 {
        Ok(NABufferType::Video16(video16(vinfo, new_sz, Vec::new(), strides)))
    } else {
        Ok(NABufferType::Video32(video32(vinfo, new_sz, Vec::new(), strides)))
    }
}

/// Constructs a new video buffer with requested format.
///
/// `align` is power of two alignment for image. E.g. the value of 5 means that
/// frame dimensions will be padded to be multiple of 32.
pub fn alloc_video_buffer(vinfo: NAVideoInfo, align: u8) -> (r: Result<NABufferType, AllocatorError>)
    ensures
        match video_layout(vinfo, align as nat) {
            Ok(lay) => r matches Ok(b) && video_buffer_is(b@, vinfo, lay),
            Err(e) => r == Err::<NABufferType, AllocatorError>(e),
        },
{
    let fmt: NAPixelFormaton = vinfo.format;
    let ncomp: usize = fmt.get_num_comp();
    let mut i: usize = 0;
    while i < ncomp
        invariant
            ncomp == fmt.components,
            fmt == vinfo.format,
            i <= ncomp,
            forall|j: int| 0 <= j < i ==> (#[trigger] fmt.chromaton_at(j)).is_some(),
        decreases ncomp - i,
    {
        if fmt.get_chromaton(i).is_none() {
            assert(!fmt.all_described()) by {
                assert(fmt.chromaton_at(i as int).is_none());
            }
            return Err(AllocatorError::FormatError);
        }
        i += 1;
    }
    let width: usize = match pad_dimension(vinfo.width, align) {
        Some(w) => w,
        None => return Err(AllocatorError::TooLargeDimensions),
    };
    let height: usize = match pad_dimension(vinfo.height, align) {
        Some(h) => h,
        None => return Err(AllocatorError::TooLargeDimensions),
    };
    let mut max_depth: u8 = 0;
    let mut all_packed: bool = true;
    let mut all_bytealigned: bool = true;
    let mut i: usize = 0;
    while i < ncomp
        invariant
            ncomp == fmt.components,
            fmt == vinfo.format,
            fmt.all_described(),
            i <= ncomp,
            max_depth == max_depth_upto(fmt, i as nat),
            all_packed == (forall|j: int| 0 <= j < i ==> (#[trigger] fmt.chr(j)).packed),
            all_bytealigned == (forall|j: int|
                0 <= j < i && (#[trigger] fmt.chr(j)).packed ==> (fmt.chr(j).shift + fmt.chr(j).depth) % 8 == 0),
        decreases ncomp - i,
    {
        assert(fmt.chromaton_at(i as int).is_some());
        let chr: NAChromaton = match fmt.get_chromaton(i) {
            Some(c) => c,
            None => return Err(AllocatorError::FormatError),
        };
        assert(chr == fmt.chr(i as int));
        if !chr.is_packed() {
            all_packed = false;
        } else if (chr.get_shift() as u32 + chr.get_depth() as u32) % 8 != 0 {
            all_bytealigned = false;
        }
        if chr.get_depth() > max_depth {
            max_depth = chr.get_depth();
        }
        i += 1;
    }
    let unfit_elem_size: bool = fmt.get_elem_size() != 2 && fmt.get_elem_size() != 4;
    if fmt.is_paletted() {
        if fmt.get_chromaton(0).is_none() {
            return Err(AllocatorError::FormatError);
        }
        alloc_paletted(vinfo, width, height)
    } else if !all_packed {
        alloc_planar(vinfo, width, height, max_depth)
    } else if all_bytealigned || unfit_elem_size {
        alloc_packed(vinfo, width, height)
    } else {
        alloc_native(vinfo, width, height)
    }
}

/// Sample storage of an audio buffer.
pub enum AudioKind {
    U8,
    I16,
    F32,
    Packed,
}

/// Layout of an audio buffer: storage kind, channel offsets, distance between
/// channel starts, distance between samples of one channel, and storage length
/// (all in elements).
pub struct AudioLayout {
    pub kind: AudioKind,
    pub offs: Seq<nat>,
    pub stride: nat,
    pub step: nat,
    pub size: nat,
}

/// Storage kind for whole-byte samples of sample format `f`, if one is supported.
pub open spec fn audio_kind(f: NASoniton) -> Option<AudioKind> {
    if f.float {
        if f.bits == 32 {
            Some(AudioKind::F32)
        } else {
            None
        }
    } else if f.bits == 8 && !f.signed {
        Some(AudioKind::U8)
    } else if f.bits == 16 && f.signed {
        Some(AudioKind::I16)
    } else {
        None
    }
}

/// Layout of an audio frame of `nsamples` samples per channel, or the error its
/// allocation gives.
pub open spec fn audio_layout(ainfo: NAAudioInfo, nsamples: nat) -> Result<AudioLayout, AllocatorError> {
    let f = ainfo.format;
    let ch = ainfo.channels as nat;
    let length = nsamples * ch;
    if length > usize::MAX {
        Err(AllocatorError::TooLargeDimensions)
    } else if f.planar || f.bits % 8 == 0 {
        match audio_kind(f) {
            None => Err(AllocatorError::TooLargeDimensions),
            Some(kind) => Ok(AudioLayout {
                kind,
                offs: if f.planar {
                    Seq::new(ch, |i: int| (i * nsamples) as nat)
                } else {
                    Seq::new(ch, |i: int| i as nat)
                },
                stride: if f.planar { nsamples } else { 1 },
                step: if f.planar { 1 } else { ch },
                size: length as nat,
            }),
        }
    } else if f.audio_size_of(length as nat) > usize::MAX {
        Err(AllocatorError::TooLargeDimensions)
    } else {
        Ok(AudioLayout { kind: AudioKind::Packed, offs: seq![], stride: 0, step: 0, size: f.audio_size_of(length as nat) })
    }
}

/// A fresh audio buffer of format `ainfo` and channel map `chmap`, holding
/// `nsamples` samples per channel, laid out as `lay` and zero-filled.
pub open spec fn audio_view_is<T>(
    a: AudioBufferView<T>,
    ainfo: NAAudioInfo,
    nsamples: nat,
    chmap: Seq<NAChannelType>,
    lay: AudioLayout,
    zero: T,
) -> bool {
    &&& a.info == ainfo
    &&& sizes_match(a.offs, lay.offs)
    &&& a.stride == lay.stride
    &&& a.step == lay.step
    &&& a.chmap == chmap
    &&& a.len == nsamples
    &&& a.data.len() == lay.size
    &&& forall|i: int| 0 <= i < a.data.len() ==> a.data[i] == zero
}

/// `b` is a fresh audio buffer as `audio_view_is` describes, of the kind `lay` names.
pub open spec fn audio_buffer_is(
    b: BufferView,
    ainfo: NAAudioInfo,
    nsamples: nat,
    chmap: Seq<NAChannelType>,
    lay: AudioLayout,
) -> bool {
    match lay.kind {
        AudioKind::U8 => b matches BufferView::AudioU8(a) && audio_view_is(a, ainfo, nsamples, chmap, lay, 0u8),
        AudioKind::I16 => b matches BufferView::AudioI16(a) && audio_view_is(a, ainfo, nsamples, chmap, lay, 0i16),
        AudioKind::F32 => b matches BufferView::AudioF32(a) && audio_view_is(a, ainfo, nsamples, chmap, lay, 0u32),
        AudioKind::Packed => b matches BufferView::AudioPacked(a) && audio_view_is(a, ainfo, nsamples, chmap, lay, 0u8),
    }
}

/// Constructs a new audio buffer for the requested format and length.
pub fn alloc_audio_buffer(ainfo: NAAudioInfo, nsamples: usize, chmap: NAChannelMap) -> (r: Result<NABufferType, AllocatorError>)
    ensures
        match audio_layout(ainfo, nsamples as nat) {
            Ok(lay) => r matches Ok(b) && audio_buffer_is(b@, ainfo, nsamples as nat, chmap@, lay),
            Err(e) => r == Err::<NABufferType, AllocatorError>(e),
        },
{
    let mut offs: Vec<usize> = Vec::new();
    let fmt: NASoniton = ainfo.format;
    let channels: usize = ainfo.channels as usize;
    let length: usize = match nsamples.checked_mul(channels) {
        Some(l) => l,
        None => return Err(AllocatorError::TooLargeDimensions),
    };
    if fmt.is_planar() || (fmt.get_bits() % 8) == 0 {
        let stride: usize;
        let step: usize;
        if fmt.is_planar() {
            stride = nsamples;
            step = 1;
            let mut i: usize = 0;
            while i < channels
                invariant
                    i <= channels,
                    length == nsamples * channels,
                    stride == nsamples,
                    offs@.len() == i,
                    forall|j: int| 0 <= j < i ==> offs@[j] == j * nsamples,
                decreases channels - i,
            {
                assert(i * nsamples <= length) by (nonlinear_arith)
                    requires
                        i < channels,
                        length == nsamples * channels,
                ;
                offs.push(i * stride);
                i += 1;
            }
        } else {
            stride = 1;
            step = channels;
            let mut i: usize = 0;
            while i < channels
                invariant
                    i <= channels,
                    offs@.len() == i,
                    forall|j: int| 0 <= j < i ==> offs@[j] == j,
                decreases channels - i,
            {
                offs.push(i);
                i += 1;
            }
        }
        proof {
            if let Ok(lay) = audio_layout(ainfo, nsamples as nat) {
                assert(sizes_match(offs@, lay.offs));
            }
        }
        if fmt.is_float() {
            if fmt.get_bits() == 32 {
                let data: Vec<u32> = vec![0u32; length];
                Ok(NABufferType::AudioF32(NAAudioBuffer::from_parts(ainfo, data, offs, stride, step, chmap, nsamples)))
            } else {
                Err(AllocatorError::TooLargeDimensions)
            }
        } else if fmt.get_bits() == 8 && !fmt.is_signed() {
            let data: Vec<u8> = vec![0u8; length];
            Ok(NABufferType::AudioU8(NAAudioBuffer::from_parts(ainfo, data, offs, stride, step, chmap, nsamples)))
        } else if fmt.get_bits() == 16 && fmt.is_signed() {
            let data: Vec<i16> = vec![0i16; length];
            Ok(NABufferType::AudioI16(NAAudioBuffer::from_parts(ainfo, data, offs, stride, step, chmap, nsamples)))
        } else {
            Err(AllocatorError::TooLargeDimensions)
        }
    } else {
        let size: usize = match fmt.get_audio_size(length) {
            Some(s) => s,
            None => return Err(AllocatorError::TooLargeDimensions),
        };
        let data: Vec<u8> = vec![0u8; size];
        proof {
            assert(sizes_match(offs@, seq![]));
        }
        Ok(NABufferType::AudioPacked(NAAudioBuffer::from_parts(ainfo, data, offs, 0, 0, chmap, nsamples)))
    }
}

/// Constructs a new buffer for generic data.
pub fn alloc_data_buffer(size: usize) -> (r: Result<NABufferType, AllocatorError>)
    ensures
        r matches Ok(b) && b@ matches BufferView::Data(d) && d.len() == size && forall|i: int|
            0 <= i < size ==> d[i] == 0u8,
{
    let data: Vec<u8> = vec![0u8; size];
    let buf: NABufferRef<Vec<u8>> = NABufferRef::new(data);
    Ok(NABufferType::Data(buf))
}

/// Creates a clone of current buffer, sharing its storage.
pub fn copy_buffer(buf: NABufferType) -> (r: NABufferType)
    ensures
        r@ == buf@,
{
    buf.clone()
}

/// `max_depth_upto` bounds the depths it ranges over and is one of them (or 0).
proof fn lemma_max_depth_upto(f: NAPixelFormaton, k: nat)
    ensures
        forall|i: int| 0 <= i < k ==> (#[trigger] f.chr(i)).depth <= max_depth_upto(f, k),
        max_depth_upto(f, k) == 0 || exists|i: int| 0 <= i < k && (#[trigger] f.chr(i)).depth == max_depth_upto(f, k),
    decreases k,
{
    if k > 0 {
        lemma_max_depth_upto(f, (k - 1) as nat);
        if max_depth_upto(f, (k - 1) as nat) != 0 && max_depth_upto(f, k) == max_depth_upto(f, (k - 1) as nat) {
            let i = choose|i: int| 0 <= i < k - 1 && (#[trigger] f.chr(i)).depth == max_depth_upto(f, (k - 1) as nat);
            assert(0 <= i < k && f.chr(i).depth == max_depth_upto(f, k));
        }
        if max_depth_upto(f, k) != max_depth_upto(f, (k - 1) as nat) {
            assert(f.chr(k - 1).depth == max_depth_upto(f, k));
        }
    }
}

/// For a non-paletted format with a component stored in a plane of its own, the
/// element width of the buffer follows the deepest component: 32 bits where some
/// component is deeper than 16 bits, 8 bits where none is deeper than 8 bits,
/// and 16 bits otherwise.
pub proof fn lemma_planar_element_width(vinfo: NAVideoInfo, align: nat)
    requires
        !vinfo.format.palette,
        has_unpacked(vinfo.format),
    ensures
        video_layout(vinfo, align) matches Ok(lay) ==> {
            let f = vinfo.format;
            &&& (exists|i: int| 0 <= i < f.components && (#[trigger] f.chr(i)).depth > 16) ==> lay.kind is Video32
            &&& (forall|i: int| 0 <= i < f.components ==> (#[trigger] f.chr(i)).depth <= 8) ==> lay.kind is Video8
            &&& ((exists|i: int| 0 <= i < f.components && (#[trigger] f.chr(i)).depth > 8)
                && (forall|i: int| 0 <= i < f.components ==> (#[trigger] f.chr(i)).depth <= 16)) ==> lay.kind is Video16
        },
{
    let f = vinfo.format;
    lemma_max_depth_upto(f, f.components as nat);
}

/// Sum of `a[i] * b[i]` over the first `k` positions.
pub open spec fn sum_of_products(a: Seq<nat>, b: Seq<nat>, k: nat) -> nat
    decreases k,
{
    if k == 0 {
        0
    } else {
        sum_of_products(a, b, (k - 1) as nat) + a[k - 1] * b[k - 1]
    }
}

proof fn lemma_plane_offset_is_sum(f: NAPixelFormaton, pw: nat, ph: nat, strides: Seq<nat>, heights: Seq<nat>, k: nat)
    requires
        k <= strides.len(),
        k <= heights.len(),
        forall|i: int| 0 <= i < k ==> strides[i] == (#[trigger] f.chr(i)).linesize_of(pw),
        forall|i: int| 0 <= i < k ==> heights[i] == (#[trigger] f.chr(i)).height_of(ph),
    ensures
        plane_offset(f, k, pw, ph) == sum_of_products(strides, heights, k),
    decreases k,
{
    if k > 0 {
        lemma_plane_offset_is_sum(f, pw, ph, strides, heights, (k - 1) as nat);
        assert(strides[k - 1] == f.chr(k - 1).linesize_of(pw));
        assert(heights[k - 1] == f.chr(k - 1).height_of(ph));
    }
}

/// For a non-paletted format with a component stored in a plane of its own, every
/// line holds its whole padded component (as elements, or as bits for a packed
/// component), and the storage is exactly the sum of stride times component height
/// over the components.
pub proof fn lemma_planar_layout(vinfo: NAVideoInfo, align: nat)
    requires
        !vinfo.format.palette,
        has_unpacked(vinfo.format),
    ensures
        video_layout(vinfo, align) matches Ok(lay) ==> {
            let f = vinfo.format;
            let n = f.components as nat;
            let pw = align_up(vinfo.width as nat, align);
            let ph = align_up(vinfo.height as nat, align);
            let heights = Seq::new(n, |i: int| f.chr(i).height_of(ph));
            &&& pw >= vinfo.width && ph >= vinfo.height
            &&& lay.strides.len() == n
            &&& forall|i: int| 0 <= i < n && !(#[trigger] f.chr(i)).packed ==> lay.strides[i] >= f.chr(i).width_of(pw)
            &&& forall|i: int| 0 <= i < n && (#[trigger] f.chr(i)).packed ==> 8 * lay.strides[i] >= f.chr(i).width_of(pw) * f.chr(i).depth
            &&& lay.len == sum_of_products(lay.strides, heights, n)
        },
{
    let f = vinfo.format;
    let n = f.components as nat;
    let pw = align_up(vinfo.width as nat, align);
    let ph = align_up(vinfo.height as nat, align);
    if let Ok(lay) = video_layout(vinfo, align) {
        lemma_align_up_covers(vinfo.width as nat, align);
        lemma_align_up_covers(vinfo.height as nat, align);
        let heights = Seq::new(n, |i: int| f.chr(i).height_of(ph));
        lemma_plane_offset_is_sum(f, pw, ph, lay.strides, heights, n);
        assert forall|i: int| 0 <= i < n && (#[trigger] f.chr(i)).packed implies 8 * lay.strides[i] >= f.chr(i).width_of(pw) * f.chr(i).depth by {
            let x = f.chr(i).width_of(pw) * f.chr(i).depth;
            assert(8 * ((x + 7) / 8) >= x);
        }
    }
}

/// Padding never shrinks a dimension.
proof fn lemma_align_up_covers(v: nat, a: nat)
    ensures
        align_up(v, a) >= v,
{
    lemma_pow2_pos(a);
    lemma_mod_decreases(v, pow2(a));
    vstd::arithmetic::div_mod::lemma_mod_pos_bound(v as int, pow2(a) as int);
}

/// Storage length, in elements, of the layout that a picture of `vinfo` padded to
/// `pw` by `ph` takes, in unbounded integers.
pub open spec fn exact_size(vinfo: NAVideoInfo, pw: nat, ph: nat) -> nat {
    let f = vinfo.format;
    if f.palette {
        (f.chr(0).linesize_of(pw) * ph + 256 * f.elem_size) as nat
    } else if has_unpacked(f) {
        plane_offset(f, f.components as nat, pw, ph)
    } else if all_bytealigned(f) || (f.elem_size != 2 && f.elem_size != 4) {
        ((pw * f.elem_size) * ph) as nat
    } else {
        (pw * ph) as nat
    }
}

/// For a format that describes its components (and, if paletted, has a first
/// one), a picture whose padded width or height or whose exact storage size does
/// not fit in `usize` is refused as too large, and an accepted picture gets
/// exactly that size: never a wrapped or truncated one.
pub proof fn lemma_oversize_refused(vinfo: NAVideoInfo, align: nat)
    requires
        vinfo.format.all_described(),
        vinfo.format.palette ==> vinfo.format.chromaton_at(0) is Some,
    ensures
        ({
            let pw = align_up(vinfo.width as nat, align);
            let ph = align_up(vinfo.height as nat, align);
            &&& (pw > usize::MAX || ph > usize::MAX || exact_size(vinfo, pw, ph) > usize::MAX)
                ==> video_layout(vinfo, align) == Err::<VideoLayout, AllocatorError>(AllocatorError::TooLargeDimensions)
            &&& video_layout(vinfo, align) matches Ok(lay) ==> lay.len == exact_size(vinfo, pw, ph) && lay.len <= usize::MAX
        }),
{
}

} // verus!
