use nihav_core::allocator::alloc_data_buffer;
use nihav_core::formats::{snd_s16p_format, NAChromaton, NAPixelFormaton};
use nihav_core::info::{NAAudioInfo, NACodecInfo, NACodecTypeInfo, NAVideoInfo};
use nihav_core::stream::{FrameType, NAFrame, NAPacket, NAStream, StreamType};
use nihav_core::timestamp::NATimeInfo;
use std::sync::Arc;

fn gray() -> NAPixelFormaton {
    let c = NAChromaton { h_ss: 0, v_ss: 0, packed: false, depth: 8, shift: 0, comp_offs: 0, next_elem: 1 };
    NAPixelFormaton::new(1, [Some(c), None, None, None, None], 1, false, false, false)
}

#[test]
fn stream_reduces_timebase() {
    let info = NACodecInfo::new("pcm", NACodecTypeInfo::Audio(NAAudioInfo::new(44100, 2, snd_s16p_format(), 0)), None);
    let mut s = NAStream::new(StreamType::Audio, 3, info, 2, 88200);
    assert_eq!(s.get_timebase(), (1, 44100));
    assert_eq!(s.get_id(), 3);
    assert_eq!(s.get_media_type(), StreamType::Audio);
    assert_eq!(s.get_num(), 0);
    s.set_num(5);
    assert_eq!(s.get_num(), 5);
    s.set_timebase(10, 250);
    assert_eq!(s.get_timebase(), (1, 25));
    s.set_timebase(0, 250);
    assert_eq!(s.get_timebase(), (0, 250));
    assert_eq!(s.get_info().get_name(), "pcm");
    assert!(s.get_info().is_audio());
    let sref = s.into_ref();
    assert_eq!(sref.get_num(), 5);
}

#[test]
fn codec_info_accessors() {
    let v = NACodecTypeInfo::Video(NAVideoInfo::new(320, 240, true, gray()));
    let ci = NACodecInfo::new("vid", v, Some(vec![1, 2, 3]));
    assert!(ci.is_video());
    assert!(!ci.is_audio());
    assert_eq!(ci.get_extradata().unwrap().len(), 3);
    assert_eq!(ci.get_properties().get_video_info().unwrap().get_height(), 240);
    assert!(ci.get_properties().get_audio_info().is_none());
    assert!(ci.get_properties().is_video());
    let a = NACodecTypeInfo::Audio(NAAudioInfo::new(8000, 1, snd_s16p_format(), 160));
    let replaced = ci.replace_info(a);
    assert_eq!(replaced.get_name(), "vid");
    assert!(replaced.is_audio());
    assert_eq!(replaced.get_extradata().unwrap()[2], 3);
    assert_eq!(replaced.get_properties().get_audio_info().unwrap().get_block_len(), 160);
    let d = NACodecInfo::new_dummy();
    assert_eq!(d.get_name(), "none");
    assert!(d.get_extradata().is_none());
    assert!(!d.is_video() && !d.is_audio());
    let shared = NACodecInfo::new_ref("x", NACodecTypeInfo::Empty, Some(Arc::new(vec![9u8])));
    assert_eq!(shared.get_extradata().unwrap()[0], 9);
    assert_eq!(NACodecInfo::default().get_name(), "none");
}

#[test]
fn video_info_setters() {
    let mut vi = NAVideoInfo::new(10, 20, false, gray());
    vi.set_width(30);
    vi.set_height(40);
    assert_eq!(vi.get_width(), 30);
    assert_eq!(vi.get_height(), 40);
    assert!(!vi.is_flipped());
    assert_eq!(vi.get_format().get_num_comp(), 1);
}

#[test]
fn packet_and_frame_metadata() {
    let s = NAStream::new(StreamType::Video, 1, NACodecInfo::default(), 1, 25).into_ref();
    let pkt = NAPacket::new(s, NATimeInfo::new(Some(10), Some(9), Some(1), 1, 25), true, vec![7, 8, 9]);
    assert_eq!(pkt.get_pts(), Some(10));
    assert_eq!(pkt.get_dts(), Some(9));
    assert_eq!(pkt.get_duration(), Some(1));
    assert!(pkt.is_keyframe());
    assert_eq!(pkt.get_buffer().as_ref(), &vec![7u8, 8, 9]);
    assert_eq!(pkt.get_stream().get_id(), 1);
    assert_eq!(pkt.get_time_information().tb_den, 25);
    let mut frm = NAFrame::new_from_pkt(&pkt, NACodecInfo::new_dummy(), alloc_data_buffer(4).unwrap());
    assert_eq!(frm.get_frame_type(), FrameType::Other);
    assert!(frm.is_keyframe());
    assert_eq!(frm.get_pts(), Some(10));
    frm.set_pts(Some(11));
    frm.set_dts(None);
    frm.set_duration(Some(2));
    frm.set_id(42);
    frm.set_keyframe(false);
    frm.set_frame_type(FrameType::B);
    assert_eq!(frm.get_pts(), Some(11));
    assert_eq!(frm.get_dts(), None);
    assert_eq!(frm.get_duration(), Some(2));
    assert_eq!(frm.get_id(), 42);
    assert!(!frm.is_keyframe());
    assert_eq!(frm.get_frame_type().as_str(), "B");
    assert_eq!(frm.get_time_information().get_pts(), Some(11));
    assert_eq!(frm.get_info().get_name(), "none");
    assert_eq!(frm.get_buffer().get_offset(0), 0);
    let r = frm.into_ref();
    assert_eq!(r.get_id(), 42);
}

#[test]
fn type_names() {
    assert_eq!(FrameType::I.as_str(), "I");
    assert_eq!(FrameType::Skip.as_str(), "skip");
    assert_eq!(FrameType::Other.as_str(), "x");
    assert_eq!(StreamType::Subtitles.as_str(), "Subtitles");
    assert_eq!(StreamType::Empty.as_str(), "-");
}
