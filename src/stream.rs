//! Streams, packets and decoded frames: provenance and timing of compressed and
//! decoded units.
use vstd::prelude::*;
use std::sync::Arc;
use crate::buffer::{BufferView, NABufferType};
use crate::info::{CodecInfoView, NACodecInfo, NACodecInfoRef};
use crate::refs::NABufferRef;
use crate::timestamp::{reduce_timebase, reduced_timebase, NATimeInfo};

verus! {

/// A list of accepted option values.
#[derive(Debug, Clone)]
pub enum NAValue {
    /// Empty value.
    Empty,
    /// Integer value.
    Int(i32),
    /// Long integer value.
    Long(i64),
    /// String value.
    String(String),
    /// Binary data value.
    Data(Arc<Vec<u8>>),
}

/// A list of recognized frame types.
#[derive(Debug, Clone, Copy, PartialEq, Eq, Structural)]
pub enum FrameType {
    /// Intra frame type.
    I,
    /// Inter frame type.
    P,
    /// Bidirectionally predicted frame.
    B,
    /// Skip frame.
    ///
    /// When such frame is encountered then last frame should be used again if it is needed.
    Skip,
    /// Some other frame type.
    Other,
}

impl FrameType {
    /// Short printable name of the frame type.
    pub fn as_str(&self) -> (r: &'static str)
        ensures
            r@ == (match *self {
                FrameType::I => "I"@,
                FrameType::P => "P"@,
                FrameType::B => "B"@,
                FrameType::Skip => "skip"@,
                FrameType::Other => "x"@,
            }),
    {
        match *self {
            FrameType::I => "I",
            FrameType::P => "P",
            FrameType::B => "B",
            FrameType::Skip => "skip",
            FrameType::Other => "x",
        }
    }
}

/// A list of possible stream types.
#[derive(Debug, Clone, Copy, PartialEq, Eq, Structural)]
pub enum StreamType {
    /// Video stream.
    Video,
    /// Audio stream.
    Audio,
    /// Subtitles.
    Subtitles,
    /// Any data stream (or might be an unrecognized audio/video stream).
    Data,
    /// Nonexistent stream.
    Empty,
}

impl StreamType {
    /// Printable name of the stream type.
    pub fn as_str(&self) -> (r: &'static str)
        ensures
            r@ == (match *self {
                StreamType::Video => "Video"@,
                StreamType::Audio => "Audio"@,
                StreamType::Subtitles => "Subtitles"@,
                StreamType::Data => "Data"@,
                StreamType::Empty => "-"@,
            }),
    {
        match *self {
            StreamType::Video => "Video",
            StreamType::Audio => "Audio",
            StreamType::Subtitles => "Subtitles",
            StreamType::Data => "Data",
            StreamType::Empty => "-",
        }
    }
}

/// What a stream description holds, as plain values.
pub struct StreamView {
    pub media_type: StreamType,
    pub id: u32,
    pub num: usize,
    pub info: CodecInfoView,
    pub tb_num: u32,
    pub tb_den: u32,
}

/// Stream data.
#[derive(Clone, Debug)]
pub struct NAStream {
    media_type: StreamType,
    /// Stream ID.
    pub id: u32,
    num: usize,
    info: NACodecInfoRef,
    /// Timebase numerator.
    pub tb_num: u32,
    /// Timebase denominator.
    pub tb_den: u32,
}

/// A specialised reference-counted `NAStream` type.
pub type NAStreamRef = Arc<NAStream>;

impl View for NAStream {
    type V = StreamView;

    closed spec fn view(&self) -> StreamView {
        StreamView {
            media_type: self.media_type,
            id: self.id,
            num: self.num,
            info: self.info@,
            tb_num: self.tb_num,
            tb_den: self.tb_den,
        }
    }
}

impl NAStream {
    /// Constructs a new `NAStream` instance, with its timebase in lowest terms.
    pub fn new(mt: StreamType, id: u32, info: NACodecInfo, tb_num: u32, tb_den: u32) -> (r: Self)
        ensures
            r@.media_type == mt,
            r@.id == id,
            r@.num == 0,
            r@.info == info@,
            (r@.tb_num as nat, r@.tb_den as nat) == reduced_timebase(tb_num as nat, tb_den as nat),
    {
        let (n, d) = reduce_timebase(tb_num, tb_den);
        NAStream { media_type: mt, id, num: 0, info: info.into_ref(), tb_num: n, tb_den: d }
    }

    /// Returns stream id.
    pub fn get_id(&self) -> (r: u32)
        ensures
            r == self@.id,
    {
        self.id
    }

    /// Returns stream type.
    pub fn get_media_type(&self) -> (r: StreamType)
        ensures
            r == self@.media_type,
    {
        self.media_type
    }

    /// Returns stream number assigned by demuxer.
    pub fn get_num(&self) -> (r: usize)
        ensures
            r == self@.num,
    {
        self.num
    }

    /// Sets stream number.
    pub fn set_num(&mut self, num: usize)
        ensures
            final(self)@ == (StreamView { num, ..old(self)@ }),
    {
        self.num = num;
    }

    /// Returns codec information.
    pub fn get_info(&self) -> (r: NACodecInfoRef)
        ensures
            r@ == self@.info,
    {
        self.info.clone()
    }

    /// Returns stream timebase.
    pub fn get_timebase(&self) -> (r: (u32, u32))
        ensures
            r == (self@.tb_num, self@.tb_den),
    {
        (self.tb_num, self.tb_den)
    }

    /// Sets new stream timebase, in lowest terms.
    pub fn set_timebase(&mut self, tb_num: u32, tb_den: u32)
        ensures
            final(self)@.media_type == old(self)@.media_type,
            final(self)@.id == old(self)@.id,
            final(self)@.num == old(self)@.num,
            final(self)@.info == old(self)@.info,
            (final(self)@.tb_num as nat, final(self)@.tb_den as nat) == reduced_timebase(tb_num as nat, tb_den as nat),
    {
        let (n, d) = reduce_timebase(tb_num, tb_den);
        self.tb_num = n;
        self.tb_den = d;
    }

    /// Converts current instance into a reference-counted one.
    pub fn into_ref(self) -> (r: NAStreamRef)
        ensures
            r@ == self@,
    {
        Arc::new(self)
    }
}

/// Packet with compressed data.
#[derive(Debug)]
pub struct NAPacket {
    stream: NAStreamRef,
    /// Packet timestamp.
    pub ts: NATimeInfo,
    buffer: NABufferRef<Vec<u8>>,
    /// Keyframe flag.
    pub keyframe: bool,
}

/// What a packet holds, as plain values.
pub struct PacketView {
    pub stream: StreamView,
    pub ts: NATimeInfo,
    pub data: Seq<u8>,
    pub keyframe: bool,
}

impl View for NAPacket {
    type V = PacketView;

    closed spec fn view(&self) -> PacketView {
        PacketView { stream: self.stream@, ts: self.ts, data: self.buffer.value()@, keyframe: self.keyframe }
    }
}

impl NAPacket {
    /// Constructs a new `NAPacket` instance.
    pub fn new(str: NAStreamRef, ts: NATimeInfo, kf: bool, vec: Vec<u8>) -> (r: Self)
        ensures
            r@.stream == str@,
            r@.ts == ts,
            r@.keyframe == kf,
            r@.data == vec@,
    {
        NAPacket { stream: str, ts, keyframe: kf, buffer: NABufferRef::new(vec) }
    }

    /// Returns information about the stream packet belongs to.
    pub fn get_stream(&self) -> (r: NAStreamRef)
        ensures
            r@ == self@.stream,
    {
        self.stream.clone()
    }

    /// Returns packet timestamp.
    pub fn get_time_information(&self) -> (r: NATimeInfo)
        ensures
            r == self@.ts,
    {
        self.ts
    }

    /// Returns packet presentation timestamp.
    pub fn get_pts(&self) -> (r: Option<u64>)
        ensures
            r == self@.ts.pts,
    {
        self.ts.get_pts()
    }

    /// Returns packet decoding timestamp.
    pub fn get_dts(&self) -> (r: Option<u64>)
        ensures
            r == self@.ts.dts,
    {
        self.ts.get_dts()
    }

    /// Returns packet duration.
    pub fn get_duration(&self) -> (r: Option<u64>)
        ensures
            r == self@.ts.duration,
    {
        self.ts.get_duration()
    }

    /// Reports whether this is a keyframe packet.
    pub fn is_keyframe(&self) -> (r: bool)
        ensures
            r == self@.keyframe,
    {
        self.keyframe
    }

    /// Returns a reference to packet data.
    pub fn get_buffer(&self) -> (r: NABufferRef<Vec<u8>>)
        ensures
            r.value()@ == self@.data,
    {
        self.buffer.clone()
    }
}

/// Decoded frame information.
#[derive(Clone, Debug)]
pub struct NAFrame {
    /// Frame timestamp.
    pub ts: NATimeInfo,
    /// Frame ID.
    pub id: i64,
    buffer: NABufferType,
    info: NACodecInfoRef,
    /// Frame type.
    pub frame_type: FrameType,
    /// Keyframe flag.
    pub key: bool,
}

/// A specialised type for reference-counted `NAFrame`.
pub type NAFrameRef = Arc<NAFrame>;

/// What a decoded frame holds, as plain values.
pub struct FrameView {
    pub ts: NATimeInfo,
    pub id: i64,
    pub buffer: BufferView,
    pub info: CodecInfoView,
    pub frame_type: FrameType,
    pub key: bool,
}

impl View for NAFrame {
    type V = FrameView;

    closed spec fn view(&self) -> FrameView {
        FrameView {
            ts: self.ts,
            id: self.id,
            buffer: self.buffer@,
            info: self.info@,
            frame_type: self.frame_type,
            key: self.key,
        }
    }
}

impl NAFrame {
    /// Constructs a new `NAFrame` instance.
    pub fn new(ts: NATimeInfo, ftype: FrameType, keyframe: bool, info: NACodecInfoRef, buffer: NABufferType) -> (r: Self)
        ensures
            r@.ts == ts,
            r@.id == 0,
            r@.frame_type == ftype,
            r@.key == keyframe,
            r@.info == info@,
            r@.buffer == buffer@,
    {
        NAFrame { ts, id: 0, buffer, info, frame_type: ftype, key: keyframe }
    }

    /// Returns frame format information.
    pub fn get_info(&self) -> (r: NACodecInfoRef)
        ensures
            r@ == self@.info,
    {
        self.info.clone()
    }

    /// Returns frame type.
    pub fn get_frame_type(&self) -> (r: FrameType)
        ensures
            r == self@.frame_type,
    {
        self.frame_type
    }

    /// Reports whether the frame is a keyframe.
    pub fn is_keyframe(&self) -> (r: bool)
        ensures
            r == self@.key,
    {
        self.key
    }

    /// Sets new frame type.
    pub fn set_frame_type(&mut self, ftype: FrameType)
        ensures
            final(self)@ == (FrameView { frame_type: ftype, ..old(self)@ }),
    {
        self.frame_type = ftype;
    }

    /// Sets keyframe flag.
    pub fn set_keyframe(&mut self, key: bool)
        ensures
            final(self)@ == (FrameView { key, ..old(self)@ }),
    {
        self.key = key;
    }

    /// Returns frame timestamp.
    pub fn get_time_information(&self) -> (r: NATimeInfo)
        ensures
            r == self@.ts,
    {
        self.ts
    }

    /// Returns frame presentation time.
    pub fn get_pts(&self) -> (r: Option<u64>)
        ensures
            r == self@.ts.pts,
    {
        self.ts.get_pts()
    }

    /// Returns frame decoding time.
    pub fn get_dts(&self) -> (r: Option<u64>)
        ensures
            r == self@.ts.dts,
    {
        self.ts.get_dts()
    }

    /// Returns picture ID.
    pub fn get_id(&self) -> (r: i64)
        ensures
            r == self@.id,
    {
        self.id
    }

    /// Returns frame display duration.
    pub fn get_duration(&self) -> (r: Option<u64>)
        ensures
            r == self@.ts.duration,
    {
        self.ts.get_duration()
    }

    /// Sets new presentation timestamp.
    pub fn set_pts(&mut self, pts: Option<u64>)
        ensures
            final(self)@ == (FrameView { ts: NATimeInfo { pts, ..old(self)@.ts }, ..old(self)@ }),
    {
        self.ts.set_pts(pts);
    }

    /// Sets new decoding timestamp.
    pub fn set_dts(&mut self, dts: Option<u64>)
        ensures
            final(self)@ == (FrameView { ts: NATimeInfo { dts, ..old(self)@.ts }, ..old(self)@ }),
    {
        self.ts.set_dts(dts);
    }

    /// Sets new picture ID.
    pub fn set_id(&mut self, id: i64)
        ensures
            final(self)@ == (FrameView { id, ..old(self)@ }),
    {
        self.id = id;
    }

    /// Sets new duration.
    pub fn set_duration(&mut self, dur: Option<u64>)
        ensures
            final(self)@ == (FrameView { ts: NATimeInfo { duration: dur, ..old(self)@.ts }, ..old(self)@ }),
    {
        self.ts.set_duration(dur);
    }

    /// Returns a reference to the frame data.
    pub fn get_buffer(&self) -> (r: NABufferType)
        ensures
            r@ == self@.buffer,
    {
        self.buffer.clone()
    }

    /// Converts current instance into a reference-counted one.
    pub fn into_ref(self) -> (r: NAFrameRef)
        ensures
            r@ == self@,
    {
        Arc::new(self)
    }

    /// Creates new frame with metadata from `NAPacket`.
    pub fn new_from_pkt(pkt: &NAPacket, info: NACodecInfoRef, buf: NABufferType) -> (r: NAFrame)
        ensures
            r@.ts == pkt@.ts,
            r@.id == 0,
            r@.frame_type == FrameType::Other,
            r@.key == pkt@.keyframe,
            r@.info == info@,
            r@.buffer == buf@,
    {
        NAFrame::new(pkt.ts, FrameType::Other, pkt.keyframe, info, buf)
    }
}

} // verus!
