use nihav_core::bmv3::{decode_block, BMV3AudioDecoder, DecoderError};
use nihav_core::buffer::NABufferType;
use nihav_core::formats::snd_s16p_format;
use nihav_core::info::{NAAudioInfo, NACodecInfo, NACodecTypeInfo};
use nihav_core::stream::{FrameType, NAPacket, NAStream, StreamType};
use nihav_core::timestamp::NATimeInfo;

const PACKET: [u8; 83] = [
    0, 165, 77, 202, 24, 37, 48, 187, 29, 109, 19, 44, 222, 214, 35, 123, 46, 217, 30, 63, 114, 31,
    203, 25, 113, 23, 68, 148, 214, 73, 60, 157, 92, 52, 96, 190, 49, 32, 30, 105, 254, 58, 92, 218,
    160, 238, 232, 185, 153, 127, 92, 124, 41, 153, 253, 175, 229, 147, 37, 60, 214, 84, 175, 77,
    250, 215, 20, 39, 160, 174, 179, 254, 233, 35, 47, 138, 242, 33, 31, 158, 228, 145, 197,
];

const LEFT: [i16; 64] = [
    -1664, 0, 640, 1408, 2176, 3456, 4992, 5120, 5760, 6656, 8320, 7680, 8192, 7552, 9216, 8064,
    6144, 7680, 8704, 8448, 7168, 8576, 6912, 6272, 7168, 5888, 4992, 4480, 2560, 2432, 2432, 384,
    768, 1056, 768, 480, 816, 1488, 1776, 2400, 2064, 1632, 1776, 1728, 2208, 2736, 2544, 2496,
    3072, 2736, 2400, 3024, 3744, 4176, 4752, 4128, 3600, 2880, 2688, 3216, 2928, 2352, 2160, 1920,
];

const RIGHT: [i16; 64] = [
    -112, -176, -184, -216, -152, -208, -328, -328, -400, -488, -584, -680, -560, -544, -472, -544,
    -512, -536, -600, -592, -688, -592, -488, -504, -448, -568, -568, -576, -680, -608, -720, -712,
    -720, -776, -724, -704, -680, -716, -684, -680, -652, -604, -616, -560, -584, -524, -532, -488,
    -516, -504, -520, -568, -528, -500, -528, -524, -552, -536, -544, -604, -556, -616, -652, -608,
];

fn audio_stream() -> NAStream {
    let info = NACodecInfo::new("bmv3", NACodecTypeInfo::Audio(NAAudioInfo::new(22050, 2, snd_s16p_format(), 0)), None);
    NAStream::new(StreamType::Audio, 0, info, 1, 22050)
}

#[test]
fn test_bmv_audio() {
    let stream = audio_stream().into_ref();
    let mut dec = BMV3AudioDecoder::new();
    dec.init(stream.get_info()).unwrap();
    let pkt = NAPacket::new(stream, NATimeInfo::new(Some(0), None, None, 1, 22050), true, PACKET.to_vec());
    let frm = dec.decode(&pkt).unwrap();
    assert_eq!(frm.get_duration(), Some(64));
    assert!(!frm.is_keyframe());
    assert_eq!(frm.get_frame_type(), FrameType::Other);
    assert_eq!(frm.get_info().get_name(), "bmv3");
    let buf = frm.get_buffer();
    assert!(matches!(buf, NABufferType::AudioI16(_)));
    let ab = buf.get_abuf_i16().unwrap();
    assert_eq!(ab.get_length(), 64);
    assert_eq!(ab.get_offset(1), 64);
    assert_eq!(ab.get_info().get_block_len(), 32);
    assert_eq!(ab.get_chmap().num_channels(), 2);
    let data = ab.get_data();
    assert_eq!(&data[0..64], &LEFT[..]);
    assert_eq!(&data[64..128], &RIGHT[..]);
}

#[test]
fn predictors_carry_over_packets() {
    let stream = audio_stream().into_ref();
    let mut dec = BMV3AudioDecoder::new();
    dec.init(stream.get_info()).unwrap();
    let first = NAPacket::new(stream.clone(), NATimeInfo::new(None, None, None, 1, 22050), false, PACKET[..42].to_vec());
    let f1 = dec.decode(&first).unwrap();
    let a1 = f1.get_buffer().get_abuf_i16().unwrap();
    assert_eq!(a1.get_length(), 32);
    assert_eq!(&a1.get_data()[0..32], &LEFT[0..32]);
    assert_eq!(&a1.get_data()[32..64], &RIGHT[0..32]);
    // the second chunk on its own: header 1 says the mode byte comes first
    let mut rest = vec![1u8];
    rest.extend_from_slice(&PACKET[42..]);
    let second = NAPacket::new(stream, NATimeInfo::new(None, None, None, 1, 22050), false, rest);
    let f2 = dec.decode(&second).unwrap();
    let a2 = f2.get_buffer().get_abuf_i16().unwrap();
    assert_eq!(&a2.get_data()[0..32], &LEFT[32..64]);
    assert_eq!(&a2.get_data()[32..64], &RIGHT[32..64]);
}

#[test]
fn decoder_refusals() {
    let mut dec = BMV3AudioDecoder::new();
    let video = NACodecInfo::new("v", NACodecTypeInfo::Empty, None).into_ref();
    assert_eq!(dec.init(video), Err(DecoderError::InvalidData));
    let vstream = NAStream::new(StreamType::Video, 0, NACodecInfo::default(), 1, 25).into_ref();
    let pkt = NAPacket::new(vstream, NATimeInfo::new(None, None, None, 1, 25), false, PACKET.to_vec());
    assert_eq!(dec.decode(&pkt).err(), Some(DecoderError::InvalidData));
    let stream = audio_stream().into_ref();
    let short = NAPacket::new(stream, NATimeInfo::new(None, None, None, 1, 22050), false, vec![0]);
    assert_eq!(dec.decode(&short).err(), Some(DecoderError::InvalidData));
}

#[test]
fn decode_block_values() {
    let mut dst = [7i16; 34];
    let zeros = [0u8; 20];
    let last = decode_block(0, &zeros, &mut dst, 100);
    assert_eq!(last, 100);
    assert!(dst[..32].iter().all(|&x| x == 100));
    assert_eq!(dst[32], 7);
    let mut one = [0u8; 20];
    one[0] = 1;
    let last = decode_block(0, &one, &mut dst, 0);
    assert_eq!(dst[0], 0);
    assert_eq!(dst[2], 0x400);
    assert_eq!(last, 0x400);
    let mut top = [0u8; 20];
    top[1] = 0x80;
    let last = decode_block(15, &top, &mut dst, i16::MAX);
    // word 0 has its top bit set: the two trailing codes are 16 and 0
    assert_eq!(dst[29], i16::MAX);
    assert_eq!(dst[30], i16::MAX.wrapping_add(-0x10));
    assert_eq!(last, i16::MAX - 0x10);
    let wrap = decode_block(0, &one, &mut dst, i16::MAX);
    assert_eq!(wrap, i16::MAX.wrapping_add(0x400));
}
