//! Decoded buffers: video and audio geometry views over shared storage, and the
//! closed set of buffer kinds.
use vstd::prelude::*;
use crate::formats::{NAChannelMap, NAChannelType, ceil_shift};
use crate::info::{NAAudioInfo, NAVideoInfo};
use crate::refs::NABufferRef;

verus! {

/// Dimensions of component `idx` of a picture, `(0, 0)` where the format has no
/// such component.
pub open spec fn plane_size(info: NAVideoInfo, idx: int) -> (usize, usize) {
    match info.format.chromaton_at(idx) {
        Some(c) => (
            ceil_shift(info.width as nat, c.h_ss as nat) as usize,
            ceil_shift(info.height as nat, c.v_ss as nat) as usize,
        ),
        None => (0, 0),
    }
}

/// Returns the dimensions of component `idx` of a picture.
pub fn get_plane_size(info: &NAVideoInfo, idx: usize) -> (r: (usize, usize))
    ensures
        r == plane_size(*info, idx as int),
{
    match info.get_format().get_chromaton(idx) {
        None => (0, 0),
        Some(chromaton) => {
            let (hs, vs) = chromaton.get_subsampling();
            let w: usize = crate::formats::scale_down(info.get_width(), hs);
            let h: usize = crate::formats::scale_down(info.get_height(), vs);
            (w, h)
        },
    }
}

/// Entry `idx` of `s`, or 0 where there is none.
pub open spec fn entry_or_zero(s: Seq<usize>, idx: int) -> usize {
    if 0 <= idx < s.len() {
        s[idx]
    } else {
        0
    }
}

/// What a video buffer holds, as plain values.
pub struct VideoBufferView<T> {
    pub info: NAVideoInfo,
    pub data: Seq<T>,
    pub offs: Seq<usize>,
    pub strides: Seq<usize>,
}

/// Decoded video frame.
///
/// Frames are stored in native type (8/16/32-bit elements) inside a single buffer.
/// Components of a picture are stored one after another and start at their
/// component offsets.
#[derive(Debug)]
pub struct NAVideoBuffer<T> {
    info: NAVideoInfo,
    data: NABufferRef<Vec<T>>,
    offs: Vec<usize>,
    strides: Vec<usize>,
}

impl<T> View for NAVideoBuffer<T> {
    type V = VideoBufferView<T>;

    closed spec fn view(&self) -> VideoBufferView<T> {
        VideoBufferView {
            info: self.info,
            data: self.data.value()@,
            offs: self.offs@,
            strides: self.strides@,
        }
    }
}

/// Copies a list of sizes.
fn copy_sizes(v: &Vec<usize>) -> (r: Vec<usize>)
    ensures
        r@ == v@,
{
    let mut r: Vec<usize> = Vec::with_capacity(v.len());
    let mut i: usize = 0;
    while i < v.len()
        invariant
            i <= v@.len(),
            r@ == v@.subrange(0, i as int),
        decreases v@.len() - i,
    {
        r.push(v[i]);
        i += 1;
        assert(r@ =~= v@.subrange(0, i as int));
    }
    assert(r@ =~= v@);
    r
}

impl<T> Clone for NAVideoBuffer<T> {
    /// Makes another view of the same storage.
    fn clone(&self) -> (r: Self)
        ensures
            r@ == self@,
    {
        NAVideoBuffer {
            info: self.info,
            data: self.data.clone(),
            offs: copy_sizes(&self.offs),
            strides: copy_sizes(&self.strides),
        }
    }
}

impl<T> NAVideoBuffer<T> {
    /// Assembles a video buffer over new storage.
    pub(crate) fn from_parts(info: NAVideoInfo, data: Vec<T>, offs: Vec<usize>, strides: Vec<usize>) -> (r: Self)
        ensures
            r@ == (VideoBufferView { info, data: data@, offs: offs@, strides: strides@ }),
    {
        NAVideoBuffer { info, data: NABufferRef::new(data), offs, strides }
    }
}

/// A specialised type for reference-counted `NAVideoBuffer`.
pub type NAVideoBufferRef<T> = NABufferRef<NAVideoBuffer<T>>;

impl<T: Clone> NAVideoBuffer<T> {
    /// Returns the component offset (0 for all unavailable offsets).
    pub fn get_offset(&self, idx: usize) -> (r: usize)
        ensures
            r == entry_or_zero(self@.offs, idx as int),
    {
        if idx >= self.offs.len() {
            0
        } else {
            self.offs[idx]
        }
    }

    /// Returns picture info.
    pub fn get_info(&self) -> (r: NAVideoInfo)
        ensures
            r == self@.info,
    {
        self.info
    }

    /// Returns an immutable reference to the data.
    pub fn get_data(&self) -> (r: &Vec<T>)
        ensures
            r@ == self@.data,
    {
        self.data.as_ref()
    }

    /// Returns a mutable reference to the data where this buffer is its only
    /// holder, and `None` otherwise.
    pub fn get_data_mut(&mut self) -> (r: Option<&mut Vec<T>>)
        ensures
            match r {
                Some(m) => m@ == old(self)@.data && final(self)@ == (VideoBufferView {
                    data: final(m)@,
                    ..old(self)@
                }),
                None => final(self)@ == old(self)@,
            },
    {
        self.data.as_mut()
    }

    /// Returns the number of components in picture format.
    pub fn get_num_components(&self) -> (r: usize)
        ensures
            r == self@.offs.len(),
    {
        self.offs.len()
    }

    /// Creates a copy of current `NAVideoBuffer` with storage of its own.
    pub fn copy_buffer(&mut self) -> (r: Self)
        ensures
            final(self)@ == old(self)@,
            r@.info == old(self)@.info,
            r@.offs == old(self)@.offs,
            r@.strides == old(self)@.strides,
            r@.data.len() == old(self)@.data.len(),
            forall|i: int| 0 <= i < r@.data.len() ==> cloned(old(self)@.data[i], #[trigger] r@.data[i]),
    {
        let data: Vec<T> = self.data.as_ref().clone();
        let offs: Vec<usize> = copy_sizes(&self.offs);
        let strides: Vec<usize> = copy_sizes(&self.strides);
        NAVideoBuffer { info: self.info, data: NABufferRef::new(data), offs, strides }
    }

    /// Returns stride (distance between subsequent lines) for the requested component.
    pub fn get_stride(&self, idx: usize) -> (r: usize)
        ensures
            r == entry_or_zero(self@.strides, idx as int),
    {
        if idx >= self.strides.len() {
            return 0;
        }
        self.strides[idx]
    }

    /// Returns requested component dimensions.
    pub fn get_dimensions(&self, idx: usize) -> (r: (usize, usize))
        ensures
            r == plane_size(self@.info, idx as int),
    {
        get_plane_size(&self.info, idx)
    }

    /// Converts current instance into buffer reference.
    pub fn into_ref(self) -> (r: NABufferRef<Self>)
        ensures
            r.value()@ == self@,
    {
        NABufferRef::new(self)
    }
}

/// What an audio buffer holds, as plain values.
pub struct AudioBufferView<T> {
    pub info: NAAudioInfo,
    pub data: Seq<T>,
    pub offs: Seq<usize>,
    pub stride: usize,
    pub step: usize,
    pub chmap: Seq<NAChannelType>,
    pub len: usize,
}

/// Decoded audio frame.
///
/// Samples are stored in native type (8/16/32-bit elements) inside a single buffer.
/// With planar samples each channel is stored in a plane of its own, starting at
/// its channel offset.
#[derive(Debug)]
pub struct NAAudioBuffer<T> {
    info: NAAudioInfo,
    data: NABufferRef<Vec<T>>,
    offs: Vec<usize>,
    stride: usize,
    step: usize,
    chmap: NAChannelMap,
    len: usize,
}

impl<T> View for NAAudioBuffer<T> {
    type V = AudioBufferView<T>;

    closed spec fn view(&self) -> AudioBufferView<T> {
        AudioBufferView {
            info: self.info,
            data: self.data.value()@,
            offs: self.offs@,
            stride: self.stride,
            step: self.step,
            chmap: self.chmap@,
            len: self.len,
        }
    }
}

impl<T> Clone for NAAudioBuffer<T> {
    /// Makes another view of the same storage.
    fn clone(&self) -> (r: Self)
        ensures
            r@ == self@,
    {
        NAAudioBuffer {
            info: self.info,
            data: self.data.clone(),
            offs: copy_sizes(&self.offs),
            stride: self.stride,
            step: self.step,
            chmap: self.chmap.clone(),
            len: self.len,
        }
    }
}

impl<T> NAAudioBuffer<T> {
    /// Assembles an audio buffer over new storage.
    pub(crate) fn from_parts(
        info: NAAudioInfo,
        data: Vec<T>,
        offs: Vec<usize>,
        stride: usize,
        step: usize,
        chmap: NAChannelMap,
        len: usize,
    ) -> (r: Self)
        ensures
            r@ == (AudioBufferView { info, data: data@, offs: offs@, stride, step, chmap: chmap@, len }),
    {
        NAAudioBuffer { info, data: NABufferRef::new(data), offs, stride, step, chmap, len }
    }
}

impl<T: Clone> NAAudioBuffer<T> {
    /// Returns the start position of requested channel data.
    pub fn get_offset(&self, idx: usize) -> (r: usize)
        ensures
            r == entry_or_zero(self@.offs, idx as int),
    {
        if idx >= self.offs.len() {
            0
        } else {
            self.offs[idx]
        }
    }

    /// Returns the distance between the start of one channel and the next one.
    pub fn get_stride(&self) -> (r: usize)
        ensures
            r == self@.stride,
    {
        self.stride
    }

    /// Returns the distance between the samples in one channel.
    pub fn get_step(&self) -> (r: usize)
        ensures
            r == self@.step,
    {
        self.step
    }

    /// Returns audio format information.
    pub fn get_info(&self) -> (r: NAAudioInfo)
        ensures
            r == self@.info,
    {
        self.info
    }

    /// Returns channel map.
    pub fn get_chmap(&self) -> (r: &NAChannelMap)
        ensures
            r@ == self@.chmap,
    {
        &self.chmap
    }

    /// Returns an immutable reference to the data.
    pub fn get_data(&self) -> (r: &Vec<T>)
        ensures
            r@ == self@.data,
    {
        self.data.as_ref()
    }

    /// Returns a mutable reference to the data where this buffer is its only
    /// holder, and `None` otherwise.
    pub fn get_data_mut(&mut self) -> (r: Option<&mut Vec<T>>)
        ensures
            match r {
                Some(m) => m@ == old(self)@.data && final(self)@ == (AudioBufferView {
                    data: final(m)@,
                    ..old(self)@
                }),
                None => final(self)@ == old(self)@,
            },
    {
        self.data.as_mut()
    }

    /// Clones current `NAAudioBuffer` into a new one with storage of its own.
    pub fn copy_buffer(&mut self) -> (r: Self)
        ensures
            final(self)@ == old(self)@,
            r@.info == old(self)@.info,
            r@.offs == old(self)@.offs,
            r@.stride == old(self)@.stride,
            r@.step == old(self)@.step,
            r@.chmap == old(self)@.chmap,
            r@.len == old(self)@.len,
            r@.data.len() == old(self)@.data.len(),
            forall|i: int| 0 <= i < r@.data.len() ==> cloned(old(self)@.data[i], #[trigger] r@.data[i]),
    {
        let data: Vec<T> = self.data.as_ref().clone();
        let offs: Vec<usize> = copy_sizes(&self.offs);
        NAAudioBuffer {
            info: self.info,
            data: NABufferRef::new(data),
            offs,
            chmap: self.get_chmap().clone(),
            len: self.len,
            stride: self.stride,
            step: self.step,
        }
    }

    /// Return the length of frame in samples.
    pub fn get_length(&self) -> (r: usize)
        ensures
            r == self@.len,
    {
        self.len
    }
}

impl NAAudioBuffer<u8> {
    /// Constructs a new `NAAudioBuffer` instance over existing bytes, with no
    /// channel geometry.
    pub fn new_from_buf(info: NAAudioInfo, data: NABufferRef<Vec<u8>>, chmap: NAChannelMap) -> (r: Self)
        ensures
            r@ == (AudioBufferView {
                info,
                data: data.value()@,
                offs: Seq::<usize>::empty(),
                stride: 0,
                step: 0,
                chmap: chmap@,
                len: data.value()@.len() as usize,
            }),
    {
        let len: usize = data.as_ref().len();
        NAAudioBuffer { info, data, chmap, offs: Vec::new(), len, stride: 0, step: 0 }
    }
}

/// What a decoded buffer holds, by kind, as plain values.
pub enum BufferView {
    Video(VideoBufferView<u8>),
    Video16(VideoBufferView<u16>),
    Video32(VideoBufferView<u32>),
    VideoPacked(VideoBufferView<u8>),
    AudioU8(AudioBufferView<u8>),
    AudioI16(AudioBufferView<i16>),
    AudioI32(AudioBufferView<i32>),
    AudioF32(AudioBufferView<u32>),
    AudioPacked(AudioBufferView<u8>),
    Data(Seq<u8>),
    Empty,
}

/// A list of possible decoded frame types.
#[derive(Debug)]
pub enum NABufferType {
    /// 8-bit video buffer.
    Video(NAVideoBufferRef<u8>),
    /// 16-bit video buffer (i.e. every component or packed pixel fits into 16 bits).
    Video16(NAVideoBufferRef<u16>),
    /// 32-bit video buffer (i.e. every component or packed pixel fits into 32 bits).
    Video32(NAVideoBufferRef<u32>),
    /// Packed video buffer.
    VideoPacked(NAVideoBufferRef<u8>),
    /// Audio buffer with 8-bit unsigned integer audio.
    AudioU8(NAAudioBuffer<u8>),
    /// Audio buffer with 16-bit signed integer audio.
    AudioI16(NAAudioBuffer<i16>),
    /// Audio buffer with 32-bit signed integer audio.
    AudioI32(NAAudioBuffer<i32>),
    /// Audio buffer with 32-bit floating point audio, each sample held as its
    /// IEEE 754 binary32 bit pattern.
    AudioF32(NAAudioBuffer<u32>),
    /// Packed audio buffer.
    AudioPacked(NAAudioBuffer<u8>),
    /// Buffer with generic data (e.g. subtitles).
    Data(NABufferRef<Vec<u8>>),
    /// No data present.
    Empty,
}

impl View for NABufferType {
    type V = BufferView;

    open spec fn view(&self) -> BufferView {
        match self {
            NABufferType::Video(vb) => BufferView::Video(vb.value()@),
            NABufferType::Video16(vb) => BufferView::Video16(vb.value()@),
            NABufferType::Video32(vb) => BufferView::Video32(vb.value()@),
            NABufferType::VideoPacked(vb) => BufferView::VideoPacked(vb.value()@),
            NABufferType::AudioU8(ab) => BufferView::AudioU8(ab@),
            NABufferType::AudioI16(ab) => BufferView::AudioI16(ab@),
            NABufferType::AudioI32(ab) => BufferView::AudioI32(ab@),
            NABufferType::AudioF32(ab) => BufferView::AudioF32(ab@),
            NABufferType::AudioPacked(ab) => BufferView::AudioPacked(ab@),
            NABufferType::Data(d) => BufferView::Data(d.value()@),
            NABufferType::Empty => BufferView::Empty,
        }
    }
}

impl BufferView {
    /// Offset of component or channel `idx`; 0 where there is none.
    pub open spec fn offset_at(self, idx: int) -> usize {
        match self {
            BufferView::Video(v) => entry_or_zero(v.offs, idx),
            BufferView::Video16(v) => entry_or_zero(v.offs, idx),
            BufferView::Video32(v) => entry_or_zero(v.offs, idx),
            BufferView::VideoPacked(v) => entry_or_zero(v.offs, idx),
            BufferView::AudioU8(a) => entry_or_zero(a.offs, idx),
            BufferView::AudioI16(a) => entry_or_zero(a.offs, idx),
            BufferView::AudioI32(a) => entry_or_zero(a.offs, idx),
            BufferView::AudioF32(a) => entry_or_zero(a.offs, idx),
            BufferView::AudioPacked(a) => entry_or_zero(a.offs, idx),
            _ => 0,
        }
    }

    /// Picture information of a video buffer.
    pub open spec fn video_info(self) -> Option<NAVideoInfo> {
        match self {
            BufferView::Video(v) => Some(v.info),
            BufferView::Video16(v) => Some(v.info),
            BufferView::Video32(v) => Some(v.info),
            BufferView::VideoPacked(v) => Some(v.info),
            _ => None,
        }
    }

    /// Sample format information of an audio buffer.
    pub open spec fn audio_info(self) -> Option<NAAudioInfo> {
        match self {
            BufferView::AudioU8(a) => Some(a.info),
            BufferView::AudioI16(a) => Some(a.info),
            BufferView::AudioI32(a) => Some(a.info),
            BufferView::AudioF32(a) => Some(a.info),
            BufferView::AudioPacked(a) => Some(a.info),
            _ => None,
        }
    }

    /// Channel map of an audio buffer.
    pub open spec fn chmap(self) -> Option<Seq<NAChannelType>> {
        match self {
            BufferView::AudioU8(a) => Some(a.chmap),
            BufferView::AudioI16(a) => Some(a.chmap),
            BufferView::AudioI32(a) => Some(a.chmap),
            BufferView::AudioF32(a) => Some(a.chmap),
            BufferView::AudioPacked(a) => Some(a.chmap),
            _ => None,
        }
    }

    /// Length in samples, stride and step of an audio buffer; zeros otherwise.
    pub open spec fn audio_geometry(self) -> (usize, usize, usize) {
        match self {
            BufferView::AudioU8(a) => (a.len, a.stride, a.step),
            BufferView::AudioI16(a) => (a.len, a.stride, a.step),
            BufferView::AudioI32(a) => (a.len, a.stride, a.step),
            BufferView::AudioF32(a) => (a.len, a.stride, a.step),
            BufferView::AudioPacked(a) => (a.len, a.stride, a.step),
            _ => (0, 0, 0),
        }
    }
}

impl Clone for NABufferType {
    /// Makes another buffer of the same kind over the same storage.
    fn clone(&self) -> (r: Self)
        ensures
            r@ == self@,
    {
        match self {
            NABufferType::Video(vb) => NABufferType::Video(vb.clone()),
            NABufferType::Video16(vb) => NABufferType::Video16(vb.clone()),
            NABufferType::Video32(vb) => NABufferType::Video32(vb.clone()),
            NABufferType::VideoPacked(vb) => NABufferType::VideoPacked(vb.clone()),
            NABufferType::AudioU8(ab) => NABufferType::AudioU8(ab.clone()),
            NABufferType::AudioI16(ab) => NABufferType::AudioI16(ab.clone()),
            NABufferType::AudioI32(ab) => NABufferType::AudioI32(ab.clone()),
            NABufferType::AudioF32(ab) => NABufferType::AudioF32(ab.clone()),
            NABufferType::AudioPacked(ab) => NABufferType::AudioPacked(ab.clone()),
            NABufferType::Data(d) => NABufferType::Data(d.clone()),
            NABufferType::Empty => NABufferType::Empty,
        }
    }
}

impl NABufferType {
    /// Returns the offset to the requested component or channel.
    pub fn get_offset(&self, idx: usize) -> (r: usize)
        ensures
            r == self@.offset_at(idx as int),
    {
        match self {
            NABufferType::Video(vb) => vb.as_ref().get_offset(idx),
            NABufferType::Video16(vb) => vb.as_ref().get_offset(idx),
            NABufferType::Video32(vb) => vb.as_ref().get_offset(idx),
            NABufferType::VideoPacked(vb) => vb.as_ref().get_offset(idx),
            NABufferType::AudioU8(ab) => ab.get_offset(idx),
            NABufferType::AudioI16(ab) => ab.get_offset(idx),
            NABufferType::AudioI32(ab) => ab.get_offset(idx),
            NABufferType::AudioF32(ab) => ab.get_offset(idx),
            NABufferType::AudioPacked(ab) => ab.get_offset(idx),
            _ => 0,
        }
    }

    /// Returns information for video frames.
    pub fn get_video_info(&self) -> (r: Option<NAVideoInfo>)
        ensures
            r == self@.video_info(),
    {
        match self {
            NABufferType::Video(vb) => Some(vb.as_ref().get_info()),
            NABufferType::Video16(vb) => Some(vb.as_ref().get_info()),
            NABufferType::Video32(vb) => Some(vb.as_ref().get_info()),
            NABufferType::VideoPacked(vb) => Some(vb.as_ref().get_info()),
            _ => None,
        }
    }

    /// Returns reference to 8-bit (or packed) video buffer.
    pub fn get_vbuf(&self) -> (r: Option<NAVideoBufferRef<u8>>)
        ensures
            match self@ {
                BufferView::Video(v) => r matches Some(b) && b.value()@ == v,
                BufferView::VideoPacked(v) => r matches Some(b) && b.value()@ == v,
                _ => r is None,
            },
    {
        match self {
            NABufferType::Video(vb) => Some(vb.clone()),
            NABufferType::VideoPacked(vb) => Some(vb.clone()),
            _ => None,
        }
    }

    /// Returns reference to 16-bit video buffer.
    pub fn get_vbuf16(&self) -> (r: Option<NAVideoBufferRef<u16>>)
        ensures
            match self@ {
                BufferView::Video16(v) => r matches Some(b) && b.value()@ == v,
                _ => r is None,
            },
    {
        match self {
            NABufferType::Video16(vb) => Some(vb.clone()),
            _ => None,
        }
    }

    /// Returns reference to 32-bit video buffer.
    pub fn get_vbuf32(&self) -> (r: Option<NAVideoBufferRef<u32>>)
        ensures
            match self@ {
                BufferView::Video32(v) => r matches Some(b) && b.value()@ == v,
                _ => r is None,
            },
    {
        match self {
            NABufferType::Video32(vb) => Some(vb.clone()),
            _ => None,
        }
    }

    /// Returns information for audio frames.
    pub fn get_audio_info(&self) -> (r: Option<NAAudioInfo>)
        ensures
            r == self@.audio_info(),
    {
        match self {
            NABufferType::AudioU8(ab) => Some(ab.get_info()),
            NABufferType::AudioI16(ab) => Some(ab.get_info()),
            NABufferType::AudioI32(ab) => Some(ab.get_info()),
            NABufferType::AudioF32(ab) => Some(ab.get_info()),
            NABufferType::AudioPacked(ab) => Some(ab.get_info()),
            _ => None,
        }
    }

    /// Returns audio channel map.
    pub fn get_chmap(&self) -> (r: Option<&NAChannelMap>)
        ensures
            match self@.chmap() {
                Some(m) => r matches Some(c) && c@ == m,
                None => r is None,
            },
    {
        match self {
            NABufferType::AudioU8(ab) => Some(ab.get_chmap()),
            NABufferType::AudioI16(ab) => Some(ab.get_chmap()),
            NABufferType::AudioI32(ab) => Some(ab.get_chmap()),
            NABufferType::AudioF32(ab) => Some(ab.get_chmap()),
            NABufferType::AudioPacked(ab) => Some(ab.get_chmap()),
            _ => None,
        }
    }

    /// Returns audio frame duration in samples.
    pub fn get_audio_length(&self) -> (r: usize)
        ensures
            r == self@.audio_geometry().0,
    {
        match self {
            NABufferType::AudioU8(ab) => ab.get_length(),
            NABufferType::AudioI16(ab) => ab.get_length(),
            NABufferType::AudioI32(ab) => ab.get_length(),
            NABufferType::AudioF32(ab) => ab.get_length(),
            NABufferType::AudioPacked(ab) => ab.get_length(),
            _ => 0,
        }
    }

    /// Returns the distance between starts of two channels.
    pub fn get_audio_stride(&self) -> (r: usize)
        ensures
            r == self@.audio_geometry().1,
    {
        match self {
            NABufferType::AudioU8(ab) => ab.get_stride(),
            NABufferType::AudioI16(ab) => ab.get_stride(),
            NABufferType::AudioI32(ab) => ab.get_stride(),
            NABufferType::AudioF32(ab) => ab.get_stride(),
            NABufferType::AudioPacked(ab) => ab.get_stride(),
            _ => 0,
        }
    }

    /// Returns the distance between two samples in one channel.
    pub fn get_audio_step(&self) -> (r: usize)
        ensures
            r == self@.audio_geometry().2,
    {
        match self {
            NABufferType::AudioU8(ab) => ab.get_step(),
            NABufferType::AudioI16(ab) => ab.get_step(),
            NABufferType::AudioI32(ab) => ab.get_step(),
            NABufferType::AudioF32(ab) => ab.get_step(),
            NABufferType::AudioPacked(ab) => ab.get_step(),
            _ => 0,
        }
    }

    /// Returns reference to 8-bit (or packed) audio buffer.
    pub fn get_abuf_u8(&self) -> (r: Option<NAAudioBuffer<u8>>)
        ensures
            match self@ {
                BufferView::AudioU8(a) => r matches Some(b) && b@ == a,
                BufferView::AudioPacked(a) => r matches Some(b) && b@ == a,
                _ => r is None,
            },
    {
        match self {
            NABufferType::AudioU8(ab) => Some(ab.clone()),
            NABufferType::AudioPacked(ab) => Some(ab.clone()),
            _ => None,
        }
    }

    /// Returns reference to 16-bit audio buffer.
    pub fn get_abuf_i16(&self) -> (r: Option<NAAudioBuffer<i16>>)
        ensures
            match self@ {
                BufferView::AudioI16(a) => r matches Some(b) && b@ == a,
                _ => r is None,
            },
    {
        match self {
            NABufferType::AudioI16(ab) => Some(ab.clone()),
            _ => None,
        }
    }

    /// Returns reference to 32-bit integer audio buffer.
    pub fn get_abuf_i32(&self) -> (r: Option<NAAudioBuffer<i32>>)
        ensures
            match self@ {
                BufferView::AudioI32(a) => r matches Some(b) && b@ == a,
                _ => r is None,
            },
    {
        match self {
            NABufferType::AudioI32(ab) => Some(ab.clone()),
            _ => None,
        }
    }

    /// Returns reference to 32-bit floating point audio buffer, its samples held
    /// as bit patterns.
    pub fn get_abuf_f32(&self) -> (r: Option<NAAudioBuffer<u32>>)
        ensures
            match self@ {
                BufferView::AudioF32(a) => r matches Some(b) && b@ == a,
                _ => r is None,
            },
    {
        match self {
            NABufferType::AudioF32(ab) => Some(ab.clone()),
            _ => None,
        }
    }
}

/// Simplified decoded frame data.
pub struct NASimpleVideoFrame<'a, T> {
    /// Widths of each picture component.
    pub width: [usize; 4],
    /// Heights of each picture component.
    pub height: [usize; 4],
    /// Orientation (upside-down or downside-up) flag.
    pub flip: bool,
    /// Strides for each component.
    pub stride: [usize; 4],
    /// Start of each component.
    pub offset: [usize; 4],
    /// Number of components.
    pub components: usize,
    /// Picture pixel data.
    pub data: &'a mut [T],
}

impl<'a, T: Copy> NASimpleVideoFrame<'a, T> {
    /// Constructs a new instance of `NASimpleVideoFrame` from `NAVideoBuffer`.
    ///
    /// Gives `None` where the format has more than four components, or where the
    /// storage of the buffer has other holders.
    pub fn from_video_buf(vbuf: &'a mut NAVideoBuffer<T>) -> (r: Option<Self>)
        ensures
            old(vbuf)@.info.format.components > 4 ==> r is None,
            match r {
                Some(f) => {
                    &&& f.components == old(vbuf)@.info.format.components
                    &&& f.flip == old(vbuf)@.info.flipped
                    &&& f.data@ == old(vbuf)@.data
                    &&& forall|i: int| 0 <= i < 4 ==> {
                        &&& #[trigger] f.width@[i] == (if i < f.components { plane_size(old(vbuf)@.info, i).0 } else { 0 })
                        &&& f.height@[i] == (if i < f.components { plane_size(old(vbuf)@.info, i).1 } else { 0 })
                        &&& f.stride@[i] == (if i < f.components { entry_or_zero(old(vbuf)@.strides, i) } else { 0 })
                        &&& f.offset@[i] == (if i < f.components { entry_or_zero(old(vbuf)@.offs, i) } else { 0 })
                    }
                },
                None => final(vbuf)@ == old(vbuf)@,
            },
    {
        let vinfo: NAVideoInfo = vbuf.get_info();
        let components: usize = vinfo.format.components as usize;
        if components > 4 {
            return None;
        }
        let mut w: [usize; 4] = [0; 4];
        let mut h: [usize; 4] = [0; 4];
        let mut s: [usize; 4] = [0; 4];
        let mut o: [usize; 4] = [0; 4];
        let mut comp: usize = 0;
        while comp < components
            invariant
                comp <= components <= 4,
                components == vbuf@.info.format.components,
                forall|i: int| 0 <= i < 4 ==> #[trigger] w@[i] == (if i < comp { plane_size(vbuf@.info, i).0 } else { 0 }),
                forall|i: int| 0 <= i < 4 ==> #[trigger] h@[i] == (if i < comp { plane_size(vbuf@.info, i).1 } else { 0 }),
                forall|i: int| 0 <= i < 4 ==> #[trigger] s@[i] == (if i < comp { entry_or_zero(vbuf@.strides, i) } else { 0 }),
                forall|i: int| 0 <= i < 4 ==> #[trigger] o@[i] == (if i < comp { entry_or_zero(vbuf@.offs, i) } else { 0 }),
            decreases components - comp,
        {
            let (width, height) = vbuf.get_dimensions(comp);
            w[comp] = width;
            h[comp] = height;
            s[comp] = vbuf.get_stride(comp);
            o[comp] = vbuf.get_offset(comp);
            comp += 1;
        }
        let flip: bool = vinfo.flipped;
        match vbuf.data.as_mut() {
            Some(v) => Some(NASimpleVideoFrame {
                width: w,
                height: h,
                flip,
                stride: s,
                offset: o,
                components,
                data: v.as_mut_slice(),
            }),
            None => None,
        }
    }
}

} // verus!
