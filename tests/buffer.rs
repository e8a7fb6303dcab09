use nihav_core::allocator::{alloc_audio_buffer, alloc_video_buffer};
use nihav_core::buffer::{get_plane_size, NAAudioBuffer, NASimpleVideoFrame};
use nihav_core::formats::{bits_to_bytes, scale_down, snd_s16p_format, NAChannelMap, NAChannelType, NAChromaton, NAPixelFormaton, NASoniton};
use nihav_core::info::{NAAudioInfo, NAVideoInfo};
use nihav_core::refs::NABufferRef;

fn comp(h_ss: u8, v_ss: u8) -> NAChromaton {
    NAChromaton { h_ss, v_ss, packed: false, depth: 8, shift: 0, comp_offs: 0, next_elem: 1 }
}

fn yuv(n: u8) -> NAPixelFormaton {
    NAPixelFormaton::new(n, [Some(comp(0, 0)), Some(comp(1, 1)), Some(comp(1, 1)), Some(comp(0, 0)), Some(comp(0, 0))], 1, false, false, false)
}

#[test]
fn simple_frame_views_components() {
    let buf = alloc_video_buffer(NAVideoInfo::new(6, 4, true, yuv(3)), 0).unwrap();
    let mut vb = buf.get_vbuf().unwrap();
    drop(buf);
    let v = vb.as_mut().unwrap();
    let frm = NASimpleVideoFrame::from_video_buf(v).unwrap();
    assert_eq!(frm.components, 3);
    assert_eq!(frm.width, [6, 3, 3, 0]);
    assert_eq!(frm.height, [4, 2, 2, 0]);
    assert_eq!(frm.stride, [6, 3, 3, 0]);
    assert_eq!(frm.offset, [0, 24, 30, 0]);
    assert!(frm.flip);
    frm.data[0] = 5;
    assert_eq!(frm.data.len(), 36);
    assert_eq!(v.get_data()[0], 5);
}

#[test]
fn simple_frame_refuses_five_components_and_shared_storage() {
    let buf = alloc_video_buffer(NAVideoInfo::new(2, 2, false, yuv(5)), 0).unwrap();
    let mut vb = buf.get_vbuf().unwrap();
    drop(buf);
    assert!(NASimpleVideoFrame::from_video_buf(vb.as_mut().unwrap()).is_none());
    let buf = alloc_video_buffer(NAVideoInfo::new(2, 2, false, yuv(3)), 0).unwrap();
    let mut vb = buf.get_vbuf().unwrap();
    drop(buf);
    let v = vb.as_mut().unwrap();
    let other = v.clone();
    assert!(NASimpleVideoFrame::from_video_buf(v).is_none());
    drop(other);
    assert!(NASimpleVideoFrame::from_video_buf(v).is_some());
}

#[test]
fn copies_have_own_storage() {
    let buf = alloc_video_buffer(NAVideoInfo::new(2, 2, false, yuv(3)), 0).unwrap();
    let mut vb = buf.get_vbuf().unwrap();
    let v = vb.as_mut();
    assert!(v.is_none());
    drop(buf);
    let v = vb.as_mut().unwrap();
    let mut copy = v.copy_buffer();
    copy.get_data_mut().unwrap()[0] = 9;
    assert_eq!(v.get_data()[0], 0);
    assert_eq!(copy.get_offset(1), v.get_offset(1));
    let r = copy.into_ref();
    assert_eq!(r.as_ref().get_data()[0], 9);

    let mut m = NAChannelMap::new();
    m.add_channel(NAChannelType::C);
    let abuf = alloc_audio_buffer(NAAudioInfo::new(8000, 1, snd_s16p_format(), 0), 4, m).unwrap();
    let mut ab = abuf.get_abuf_i16().unwrap();
    assert!(ab.get_data_mut().is_none());
    let mut acopy = ab.copy_buffer();
    acopy.get_data_mut().unwrap()[3] = -1;
    assert_eq!(ab.get_data()[3], 0);
    assert_eq!(acopy.get_length(), 4);
    assert_eq!(acopy.get_chmap().get_channel(0), NAChannelType::C);
    assert_eq!(acopy.get_info().get_channels(), 1);
    assert_eq!(acopy.get_stride(), 4);
    assert_eq!(acopy.get_step(), 1);
}

#[test]
fn audio_buffer_over_bytes() {
    let data = NABufferRef::new(vec![1u8, 2, 3, 4, 5]);
    let fmt = NASoniton::new(4, false, true, false, false, true);
    let ab = NAAudioBuffer::new_from_buf(NAAudioInfo::new(8000, 2, fmt, 0), data, NAChannelMap::new());
    assert_eq!(ab.get_length(), 5);
    assert_eq!(ab.get_stride(), 0);
    assert_eq!(ab.get_offset(0), 0);
    assert_eq!(ab.get_data()[4], 5);
}

#[test]
fn shared_handle_counts_holders() {
    let mut a = NABufferRef::new(vec![0u8; 3]);
    assert_eq!(a.get_num_refs(), 1);
    let b = a.clone();
    assert_eq!(a.get_num_refs(), 2);
    assert!(a.as_mut().is_none());
    drop(b);
    a.as_mut().unwrap()[1] = 7;
    assert_eq!(a.as_ref()[1], 7);
}

#[test]
fn format_helpers() {
    assert_eq!(scale_down(7, 1), 4);
    assert_eq!(scale_down(8, 1), 4);
    assert_eq!(scale_down(0, 3), 0);
    assert_eq!(scale_down(1, 100), 1);
    assert_eq!(scale_down(usize::MAX, 64), 1);
    assert_eq!(bits_to_bytes(3, 4), Some(2));
    assert_eq!(bits_to_bytes(10, 12), Some(15));
    assert_eq!(bits_to_bytes(usize::MAX, 16), None);
    assert_eq!(bits_to_bytes(usize::MAX, 8), Some(usize::MAX));
    let packed = NAChromaton { h_ss: 1, v_ss: 0, packed: true, depth: 12, shift: 0, comp_offs: 0, next_elem: 2 };
    assert_eq!(packed.get_width(9), 5);
    assert_eq!(packed.get_linesize(9), Some(8));
    assert_eq!(packed.get_height(9), 9);
    assert_eq!(packed.get_subsampling(), (1, 0));
    let info = NAVideoInfo::new(9, 5, false, yuv(3));
    assert_eq!(get_plane_size(&info, 1), (5, 3));
    assert_eq!(get_plane_size(&info, 7), (0, 0));
    let f = NASoniton::new(24, false, false, true, false, true);
    assert_eq!(f.get_audio_size(10), Some(30));
    let mut m = NAChannelMap::new();
    m.add_channel(NAChannelType::L);
    m.add_channel(NAChannelType::R);
    assert_eq!(m.find_channel_id(NAChannelType::R), Some(1));
    assert_eq!(m.find_channel_id(NAChannelType::C), None);
}
