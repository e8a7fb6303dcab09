use nihav_core::allocator::{alloc_audio_buffer, alloc_data_buffer, alloc_video_buffer, copy_buffer, AllocatorError};
use nihav_core::buffer::NABufferType;
use nihav_core::formats::{NAChannelMap, NAChannelType, NAChromaton, NAPixelFormaton, NASoniton, snd_s16p_format, snd_f32p_format};
use nihav_core::info::{NAAudioInfo, NAVideoInfo};

fn plane(h_ss: u8, v_ss: u8, depth: u8) -> NAChromaton {
    NAChromaton { h_ss, v_ss, packed: false, depth, shift: 0, comp_offs: 0, next_elem: 1 }
}

fn packed(depth: u8, shift: u8, comp_offs: u8, next_elem: u8) -> NAChromaton {
    NAChromaton { h_ss: 0, v_ss: 0, packed: true, depth, shift, comp_offs, next_elem }
}

fn yuv420(depth: u8) -> NAPixelFormaton {
    NAPixelFormaton::new(
        3,
        [Some(plane(0, 0, depth)), Some(plane(1, 1, depth)), Some(plane(1, 1, depth)), None, None],
        1,
        false,
        false,
        false,
    )
}

fn rgb24() -> NAPixelFormaton {
    NAPixelFormaton::new(
        3,
        [Some(packed(8, 0, 0, 3)), Some(packed(8, 0, 1, 3)), Some(packed(8, 0, 2, 3)), None, None],
        3,
        false,
        false,
        false,
    )
}

fn rgb565() -> NAPixelFormaton {
    NAPixelFormaton::new(
        3,
        [Some(packed(5, 11, 0, 2)), Some(packed(6, 5, 0, 2)), Some(packed(5, 0, 0, 2)), None, None],
        2,
        false,
        false,
        false,
    )
}

fn pal8() -> NAPixelFormaton {
    NAPixelFormaton::new(3, [Some(packed(8, 0, 0, 3)), Some(packed(8, 0, 1, 3)), Some(packed(8, 0, 2, 3)), None, None], 3, false, false, true)
}

#[test]
fn yuv420_planar_layout() {
    let vinfo = NAVideoInfo::new(100, 50, false, yuv420(8));
    let buf = alloc_video_buffer(vinfo, 4).unwrap();
    // padded to 112x64; chroma 56x32
    let vb = buf.get_vbuf().unwrap();
    let v = vb.as_ref();
    assert_eq!(v.get_stride(0), 112);
    assert_eq!(v.get_stride(1), 56);
    assert_eq!(v.get_stride(2), 56);
    assert_eq!(v.get_stride(3), 0);
    assert_eq!(v.get_offset(0), 0);
    assert_eq!(v.get_offset(1), 112 * 64);
    assert_eq!(v.get_offset(2), 112 * 64 + 56 * 32);
    assert_eq!(v.get_offset(7), 0);
    assert_eq!(v.get_data().len(), 112 * 64 + 2 * 56 * 32);
    assert_eq!(v.get_num_components(), 3);
    assert_eq!(v.get_dimensions(0), (100, 50));
    assert_eq!(v.get_dimensions(1), (50, 25));
    assert_eq!(v.get_dimensions(5), (0, 0));
    assert!(v.get_data().iter().all(|&x| x == 0));
    assert_eq!(buf.get_video_info().unwrap().get_width(), 100);
}

#[test]
fn planar_strides_cover_width_for_every_alignment() {
    for align in 0u8..=6 {
        let vinfo = NAVideoInfo::new(37, 19, false, yuv420(8));
        let buf = alloc_video_buffer(vinfo, align).unwrap();
        let vb = buf.get_vbuf().unwrap();
        let v = vb.as_ref();
        let pw = (37 + (1usize << align) - 1) / (1 << align) * (1 << align);
        let ph = (19 + (1usize << align) - 1) / (1 << align) * (1 << align);
        assert!(v.get_stride(0) >= pw);
        assert!(v.get_stride(1) >= (pw + 1) / 2);
        let total = v.get_stride(0) * ph + v.get_stride(1) * ((ph + 1) / 2) + v.get_stride(2) * ((ph + 1) / 2);
        assert_eq!(v.get_data().len(), total);
    }
}

#[test]
fn element_width_follows_deepest_component() {
    let b8 = alloc_video_buffer(NAVideoInfo::new(16, 16, false, yuv420(8)), 0).unwrap();
    assert!(matches!(b8, NABufferType::Video(_)));
    let b10 = alloc_video_buffer(NAVideoInfo::new(16, 16, false, yuv420(10)), 0).unwrap();
    assert!(matches!(b10, NABufferType::Video16(_)));
    assert_eq!(b10.get_vbuf16().unwrap().as_ref().get_data().len(), 16 * 16 + 2 * 8 * 8);
    let b16 = alloc_video_buffer(NAVideoInfo::new(16, 16, false, yuv420(16)), 0).unwrap();
    assert!(matches!(b16, NABufferType::Video16(_)));
    let b24 = alloc_video_buffer(NAVideoInfo::new(16, 16, false, yuv420(24)), 0).unwrap();
    assert!(matches!(b24, NABufferType::Video32(_)));
    assert!(b24.get_vbuf().is_none());
    assert!(b24.get_vbuf32().is_some());
    // mixed depths: one deep component decides for all
    let mixed = NAPixelFormaton::new(2, [Some(plane(0, 0, 8)), Some(plane(0, 0, 20)), None, None, None], 1, false, false, false);
    let bm = alloc_video_buffer(NAVideoInfo::new(4, 4, false, mixed), 0).unwrap();
    assert!(matches!(bm, NABufferType::Video32(_)));
}

#[test]
fn packed_byte_aligned_layout() {
    let buf = alloc_video_buffer(NAVideoInfo::new(10, 3, false, rgb24()), 2).unwrap();
    assert!(matches!(buf, NABufferType::VideoPacked(_)));
    let vb = buf.get_vbuf().unwrap();
    assert_eq!(vb.as_ref().get_stride(0), 12 * 3);
    assert_eq!(vb.as_ref().get_data().len(), 12 * 3 * 4);
    assert_eq!(vb.as_ref().get_offset(0), 0);
    assert_eq!(vb.as_ref().get_num_components(), 0);
}

#[test]
fn packed_native_layout() {
    let buf = alloc_video_buffer(NAVideoInfo::new(10, 3, false, rgb565()), 0).unwrap();
    assert!(matches!(buf, NABufferType::Video16(_)));
    let vb = buf.get_vbuf16().unwrap();
    assert_eq!(vb.as_ref().get_stride(0), 10);
    assert_eq!(vb.as_ref().get_data().len(), 30);
}

#[test]
fn paletted_layout() {
    let buf = alloc_video_buffer(NAVideoInfo::new(8, 4, false, pal8()), 0).unwrap();
    assert!(matches!(buf, NABufferType::Video(_)));
    let vb = buf.get_vbuf().unwrap();
    assert_eq!(vb.as_ref().get_stride(0), 8);
    assert_eq!(vb.as_ref().get_offset(0), 0);
    assert_eq!(vb.as_ref().get_offset(1), 32);
    assert_eq!(vb.as_ref().get_data().len(), 32 + 256 * 3);
}

#[test]
fn missing_component_is_format_error() {
    let f = NAPixelFormaton::new(3, [Some(plane(0, 0, 8)), None, Some(plane(1, 1, 8)), None, None], 1, false, false, false);
    let r = alloc_video_buffer(NAVideoInfo::new(16, 16, false, f), 0);
    assert_eq!(r.err(), Some(AllocatorError::FormatError));
    let too_many = NAPixelFormaton::new(6, [Some(plane(0, 0, 8)); 5], 1, false, false, false);
    assert_eq!(alloc_video_buffer(NAVideoInfo::new(16, 16, false, too_many), 0).err(), Some(AllocatorError::FormatError));
    let empty_pal = NAPixelFormaton::new(0, [None; 5], 3, false, false, true);
    assert_eq!(alloc_video_buffer(NAVideoInfo::new(16, 16, false, empty_pal), 0).err(), Some(AllocatorError::FormatError));
}

#[test]
fn overflowing_picture_is_too_large() {
    let big = usize::MAX / 2;
    let r = alloc_video_buffer(NAVideoInfo::new(big, 4, false, rgb24()), 0);
    assert_eq!(r.err(), Some(AllocatorError::TooLargeDimensions));
    let r = alloc_video_buffer(NAVideoInfo::new(1 << 40, 1 << 30, false, yuv420(8)), 0);
    assert_eq!(r.err(), Some(AllocatorError::TooLargeDimensions));
    let r = alloc_video_buffer(NAVideoInfo::new(usize::MAX - 3, 1, false, yuv420(8)), 4);
    assert_eq!(r.err(), Some(AllocatorError::TooLargeDimensions));
    let r = alloc_video_buffer(NAVideoInfo::new(1 << 33, 1 << 31, false, rgb565()), 0);
    assert_eq!(r.err(), Some(AllocatorError::TooLargeDimensions));
    let r = alloc_video_buffer(NAVideoInfo::new(5, 5, false, rgb24()), 200);
    assert_eq!(r.err(), Some(AllocatorError::TooLargeDimensions));
    let r = alloc_video_buffer(NAVideoInfo::new(0, 0, false, rgb24()), 200).unwrap();
    assert_eq!(r.get_vbuf().unwrap().as_ref().get_data().len(), 0);
}

fn stereo() -> NAChannelMap {
    let mut m = NAChannelMap::new();
    m.add_channel(NAChannelType::L);
    m.add_channel(NAChannelType::R);
    m
}

#[test]
fn planar_s16_audio_layout() {
    let ainfo = NAAudioInfo::new(44100, 2, snd_s16p_format(), 100);
    let buf = alloc_audio_buffer(ainfo, 100, stereo()).unwrap();
    assert!(matches!(buf, NABufferType::AudioI16(_)));
    assert_eq!(buf.get_audio_length(), 100);
    assert_eq!(buf.get_offset(0), 0);
    assert_eq!(buf.get_offset(1), 100);
    assert_eq!(buf.get_offset(2), 0);
    assert_eq!(buf.get_audio_stride(), 100);
    assert_eq!(buf.get_audio_step(), 1);
    let ab = buf.get_abuf_i16().unwrap();
    assert_eq!(ab.get_data().len(), 200);
    assert_eq!(ab.get_chmap().num_channels(), 2);
    assert_eq!(buf.get_chmap().unwrap().get_channel(1), NAChannelType::R);
    assert_eq!(buf.get_audio_info().unwrap().get_sample_rate(), 44100);
}

#[test]
fn interleaved_s16_audio_layout() {
    let fmt = NASoniton::new(16, false, false, false, false, true);
    let ainfo = NAAudioInfo::new(22050, 2, fmt, 0);
    let buf = alloc_audio_buffer(ainfo, 100, stereo()).unwrap();
    assert!(matches!(buf, NABufferType::AudioI16(_)));
    assert_eq!(buf.get_audio_length(), 100);
    assert_eq!(buf.get_offset(0), 0);
    assert_eq!(buf.get_offset(1), 1);
    assert_eq!(buf.get_audio_stride(), 1);
    assert_eq!(buf.get_audio_step(), 2);
}

#[test]
fn audio_kinds_and_refusals() {
    let u8fmt = NASoniton::new(8, false, false, false, false, false);
    let b = alloc_audio_buffer(NAAudioInfo::new(8000, 1, u8fmt, 0), 10, NAChannelMap::new()).unwrap();
    assert!(matches!(b, NABufferType::AudioU8(_)));
    let f = alloc_audio_buffer(NAAudioInfo::new(8000, 1, snd_f32p_format(), 0), 10, NAChannelMap::new()).unwrap();
    assert!(matches!(f, NABufferType::AudioF32(_)));
    assert_eq!(f.get_abuf_f32().unwrap().get_data().len(), 10);
    let s32 = NASoniton::new(32, false, false, true, false, true);
    assert_eq!(alloc_audio_buffer(NAAudioInfo::new(8000, 1, s32, 0), 10, NAChannelMap::new()).err(), Some(AllocatorError::TooLargeDimensions));
    let f64fmt = NASoniton::new(64, false, false, true, true, true);
    assert_eq!(alloc_audio_buffer(NAAudioInfo::new(8000, 1, f64fmt, 0), 10, NAChannelMap::new()).err(), Some(AllocatorError::TooLargeDimensions));
    assert_eq!(alloc_audio_buffer(NAAudioInfo::new(8000, 4, snd_s16p_format(), 0), usize::MAX / 2, NAChannelMap::new()).err(), Some(AllocatorError::TooLargeDimensions));
}

#[test]
fn packed_sub_byte_audio() {
    let adpcm = NASoniton::new(4, false, true, false, false, true);
    let buf = alloc_audio_buffer(NAAudioInfo::new(8000, 2, adpcm, 0), 5, stereo()).unwrap();
    assert!(matches!(buf, NABufferType::AudioPacked(_)));
    assert_eq!(buf.get_abuf_u8().unwrap().get_data().len(), 5);
    assert_eq!(buf.get_audio_length(), 5);
    assert_eq!(buf.get_audio_stride(), 0);
    assert_eq!(buf.get_audio_step(), 0);
    assert_eq!(buf.get_offset(0), 0);
    let unpacked12 = NASoniton::new(12, false, false, false, false, true);
    let b12 = alloc_audio_buffer(NAAudioInfo::new(8000, 1, unpacked12, 0), 3, NAChannelMap::new()).unwrap();
    assert_eq!(b12.get_abuf_u8().unwrap().get_data().len(), 6);
}

#[test]
fn data_buffer_and_copy() {
    let d = alloc_data_buffer(7).unwrap();
    assert!(matches!(&d, NABufferType::Data(b) if b.as_ref().len() == 7));
    assert_eq!(d.get_offset(0), 0);
    assert!(d.get_video_info().is_none());
    assert!(d.get_audio_info().is_none());
    assert_eq!(d.get_audio_length(), 0);
    let v = alloc_video_buffer(NAVideoInfo::new(4, 4, false, yuv420(8)), 0).unwrap();
    let c = copy_buffer(v);
    assert_eq!(c.get_offset(1), 16);
    let e = NABufferType::Empty;
    assert!(e.get_vbuf().is_none());
    assert!(e.get_chmap().is_none());
}

#[test]
fn empty_audio_frame() {
    let buf = alloc_audio_buffer(NAAudioInfo::new(8000, 2, snd_s16p_format(), 0), 0, stereo()).unwrap();
    assert_eq!(buf.get_audio_length(), 0);
    assert_eq!(buf.get_offset(1), 0);
    assert_eq!(buf.get_abuf_i16().unwrap().get_data().len(), 0);
    let none = alloc_audio_buffer(NAAudioInfo::new(8000, 0, snd_s16p_format(), 0), 10, NAChannelMap::new()).unwrap();
    assert_eq!(none.get_abuf_i16().unwrap().get_data().len(), 0);
}

#[test]
fn paletted_needs_only_first_descriptor() {
    let f = NAPixelFormaton::new(0, [Some(packed(8, 0, 0, 3)), None, None, None, None], 3, false, false, true);
    let buf = alloc_video_buffer(NAVideoInfo::new(4, 2, false, f), 0).unwrap();
    let vb = buf.get_vbuf().unwrap();
    assert_eq!(vb.as_ref().get_offset(1), 8);
    assert_eq!(vb.as_ref().get_data().len(), 8 + 256 * 3);
}
