//! Stream format information: audio and video parameters and codec descriptions.
use vstd::prelude::*;
use std::sync::Arc;
use crate::formats::{NASoniton, NAPixelFormaton};

verus! {

/// Audio stream information.
#[derive(Clone, Copy, Debug, PartialEq, Eq, Structural)]
pub struct NAAudioInfo {
    /// Sample rate.
    pub sample_rate: u32,
    /// Number of channels.
    pub channels: u8,
    /// Audio sample format.
    pub format: NASoniton,
    /// Length of one audio block in samples.
    pub block_len: usize,
}

impl NAAudioInfo {
    /// Constructs a new `NAAudioInfo` instance.
    pub fn new(sr: u32, ch: u8, fmt: NASoniton, bl: usize) -> (r: Self)
        ensures
            r == (NAAudioInfo { sample_rate: sr, channels: ch, format: fmt, block_len: bl }),
    {
        NAAudioInfo { sample_rate: sr, channels: ch, format: fmt, block_len: bl }
    }

    /// Returns audio sample rate.
    pub fn get_sample_rate(&self) -> (r: u32)
        ensures
            r == self.sample_rate,
    {
        self.sample_rate
    }

    /// Returns the number of channels.
    pub fn get_channels(&self) -> (r: u8)
        ensures
            r == self.channels,
    {
        self.channels
    }

    /// Returns sample format.
    pub fn get_format(&self) -> (r: NASoniton)
        ensures
            r == self.format,
    {
        self.format
    }

    /// Returns one audio block duration in samples.
    pub fn get_block_len(&self) -> (r: usize)
        ensures
            r == self.block_len,
    {
        self.block_len
    }
}

/// Video stream information.
#[derive(Clone, Copy, Debug)]
pub struct NAVideoInfo {
    /// Picture width.
    pub width: usize,
    /// Picture height.
    pub height: usize,
    /// Picture is stored downside up.
    pub flipped: bool,
    /// Picture pixel format.
    pub format: NAPixelFormaton,
}

impl NAVideoInfo {
    /// Constructs a new `NAVideoInfo` instance.
    pub fn new(w: usize, h: usize, flip: bool, fmt: NAPixelFormaton) -> (r: Self)
        ensures
            r == (NAVideoInfo { width: w, height: h, flipped: flip, format: fmt }),
    {
        NAVideoInfo { width: w, height: h, flipped: flip, format: fmt }
    }

    /// Returns picture width.
    pub fn get_width(&self) -> (r: usize)
        ensures
            r == self.width,
    {
        self.width
    }

    /// Returns picture height.
    pub fn get_height(&self) -> (r: usize)
        ensures
            r == self.height,
    {
        self.height
    }

    /// Returns picture orientation.
    pub fn is_flipped(&self) -> (r: bool)
        ensures
            r == self.flipped,
    {
        self.flipped
    }

    /// Returns picture pixel format.
    pub fn get_format(&self) -> (r: NAPixelFormaton)
        ensures
            r == self.format,
    {
        self.format
    }

    /// Sets new picture width.
    pub fn set_width(&mut self, w: usize)
        ensures
            *final(self) == (NAVideoInfo { width: w, ..*old(self) }),
    {
        self.width = w;
    }

    /// Sets new picture height.
    pub fn set_height(&mut self, h: usize)
        ensures
            *final(self) == (NAVideoInfo { height: h, ..*old(self) }),
    {
        self.height = h;
    }
}

/// A list of possible stream information types.
#[derive(Clone, Copy, Debug)]
pub enum NACodecTypeInfo {
    /// No codec present.
    Empty,
    /// Audio codec information.
    Audio(NAAudioInfo),
    /// Video codec information.
    Video(NAVideoInfo),
}

impl NACodecTypeInfo {
    /// Returns video stream information.
    pub fn get_video_info(&self) -> (r: Option<NAVideoInfo>)
        ensures
            r == (match *self {
                NACodecTypeInfo::Video(v) => Some(v),
                _ => None,
            }),
    {
        match *self {
            NACodecTypeInfo::Video(vinfo) => Some(vinfo),
            _ => None,
        }
    }

    /// Returns audio stream information.
    pub fn get_audio_info(&self) -> (r: Option<NAAudioInfo>)
        ensures
            r == (match *self {
                NACodecTypeInfo::Audio(a) => Some(a),
                _ => None,
            }),
    {
        match *self {
            NACodecTypeInfo::Audio(ainfo) => Some(ainfo),
            _ => None,
        }
    }

    /// Reports whether the current stream is video stream.
    pub fn is_video(&self) -> (r: bool)
        ensures
            r == self is Video,
    {
        match *self {
            NACodecTypeInfo::Video(_) => true,
            _ => false,
        }
    }

    /// Reports whether the current stream is audio stream.
    pub fn is_audio(&self) -> (r: bool)
        ensures
            r == self is Audio,
    {
        match *self {
            NACodecTypeInfo::Audio(_) => true,
            _ => false,
        }
    }
}

/// What a codec description holds, as plain values.
pub struct CodecInfoView {
    pub name: Seq<char>,
    pub properties: NACodecTypeInfo,
    pub extradata: Option<Seq<u8>>,
}

/// Information about codec contained in a stream.
#[derive(Clone, Debug)]
pub struct NACodecInfo {
    name: &'static str,
    properties: NACodecTypeInfo,
    extradata: Option<Arc<Vec<u8>>>,
}

/// A specialised type for reference-counted `NACodecInfo`.
pub type NACodecInfoRef = Arc<NACodecInfo>;

/// Plain view of optional shared extra data.
pub open spec fn extradata_view(e: Option<Arc<Vec<u8>>>) -> Option<Seq<u8>> {
    match e {
        Some(v) => Some(v@),
        None => None,
    }
}

impl View for NACodecInfo {
    type V = CodecInfoView;

    closed spec fn view(&self) -> CodecInfoView {
        CodecInfoView {
            name: self.name@,
            properties: self.properties,
            extradata: extradata_view(self.extradata),
        }
    }
}

impl NACodecInfo {
    /// Constructs a new instance of `NACodecInfo`.
    pub fn new(name: &'static str, p: NACodecTypeInfo, edata: Option<Vec<u8>>) -> (r: Self)
        ensures
            r@.name == name@,
            r@.properties == p,
            r@.extradata == (match edata {
                Some(v) => Some(v@),
                None => None::<Seq<u8>>,
            }),
    {
        let extradata = match edata {
            None => None,
            Some(vec) => Some(Arc::new(vec)),
        };
        NACodecInfo { name, properties: p, extradata }
    }

    /// Constructs a new instance of `NACodecInfo` sharing existing extra data.
    pub fn new_ref(name: &'static str, p: NACodecTypeInfo, edata: Option<Arc<Vec<u8>>>) -> (r: Self)
        ensures
            r@.name == name@,
            r@.properties == p,
            r@.extradata == extradata_view(edata),
    {
        NACodecInfo { name, properties: p, extradata: edata }
    }

    /// Converts current instance into a reference-counted one.
    pub fn into_ref(self) -> (r: NACodecInfoRef)
        ensures
            r@ == self@,
    {
        Arc::new(self)
    }

    /// Returns codec information.
    pub fn get_properties(&self) -> (r: NACodecTypeInfo)
        ensures
            r == self@.properties,
    {
        self.properties
    }

    /// Returns additional initialisation data required by the codec.
    pub fn get_extradata(&self) -> (r: Option<Arc<Vec<u8>>>)
        ensures
            extradata_view(r) == self@.extradata,
    {
        match &self.extradata {
            Some(vec) => Some(vec.clone()),
            None => None,
        }
    }

    /// Returns codec name.
    pub fn get_name(&self) -> (r: &'static str)
        ensures
            r@ == self@.name,
    {
        self.name
    }

    /// Reports whether it is a video codec.
    pub fn is_video(&self) -> (r: bool)
        ensures
            r == self@.properties is Video,
    {
        if let NACodecTypeInfo::Video(_) = self.properties {
            return true;
        }
        false
    }

    /// Reports whether it is an audio codec.
    pub fn is_audio(&self) -> (r: bool)
        ensures
            r == self@.properties is Audio,
    {
        if let NACodecTypeInfo::Audio(_) = self.properties {
            return true;
        }
        false
    }

    /// Constructs a new empty reference-counted instance of `NACodecInfo`.
    pub fn new_dummy() -> (r: Arc<Self>)
        ensures
            r@.name == "none"@,
            r@.properties is Empty,
            r@.extradata is None,
    {
        Arc::new(NACodecInfo::default())
    }

    /// Makes a codec description with other properties, sharing name and extra data.
    pub fn replace_info(&self, p: NACodecTypeInfo) -> (r: Arc<Self>)
        ensures
            r@.name == self@.name,
            r@.properties == p,
            r@.extradata == self@.extradata,
    {
        let extradata = match &self.extradata {
            Some(vec) => Some(vec.clone()),
            None => None,
        };
        Arc::new(NACodecInfo { name: self.name, properties: p, extradata })
    }
}

impl Default for NACodecInfo {
    /// The empty codec description: named "none", with no properties or extra data.
    fn default() -> (r: Self)
        ensures
            r@.name == "none"@,
            r@.properties is Empty,
            r@.extradata is None,
    {
        NACodecInfo { name: "none", properties: NACodecTypeInfo::Empty, extradata: None }
    }
}

} // verus!
