//! Audio decoding of the BMV3 game video format: blocks of ADPCM-coded 16-bit
//! samples, two channels per packet chunk.
use vstd::prelude::*;
use vstd::arithmetic::power2::{pow2, lemma2_to64, lemma_pow2_unfold, lemma_pow2_strictly_increases};
use crate::allocator::alloc_audio_buffer;
use crate::buffer::{entry_or_zero, BufferView, NAAudioBuffer, NABufferType};
use crate::formats::{s16_planar, snd_s16p_format, NAChannelMap, NAChannelType};
use crate::info::{NAAudioInfo, NACodecInfoRef, NACodecTypeInfo};
use crate::refs::NABufferRef;
use crate::stream::{FrameType, NAFrame, NAFrameRef, NAPacket};
use crate::timestamp::NATimeInfo;

verus! {

/// Step tables: for each of 16 modes, the 32 predictor deltas a 5-bit code selects.
pub const BMV_AUDIO_STEPS: [[i16; 32]; 16] = [
    [
         0x0000,  0x0400,  0x0800,  0x0C00,  0x1000,  0x1400,  0x1800,  0x1C00,
         0x2000,  0x2400,  0x2800,  0x2C00,  0x3000,  0x3400,  0x3800,  0x3C00,
        -0x4000, -0x3C00, -0x3800, -0x3400, -0x3000, -0x2C00, -0x2800, -0x2400,
        -0x2000, -0x1C00, -0x1800, -0x1400, -0x1000, -0x0C00, -0x0800, -0x0400
    ], [
         0x0000,  0x0200,  0x0400,  0x0600,  0x0800,  0x0A00,  0x0C00,  0x0E00,
         0x1000,  0x1200,  0x1400,  0x1600,  0x1800,  0x1A00,  0x1C00,  0x1E00,
        -0x2000, -0x1E00, -0x1C00, -0x1A00, -0x1800, -0x1600, -0x1400, -0x1200,
        -0x1000, -0x0E00, -0x0C00, -0x0A00, -0x0800, -0x0600, -0x0400, -0x0200
    ], [
         0x0000,  0x0100,  0x0200,  0x0300,  0x0400,  0x0500,  0x0600,  0x0700,
         0x0800,  0x0900,  0x0A00,  0x0B00,  0x0C00,  0x0D00,  0x0E00,  0x0F00,
        -0x1000, -0x0F00, -0x0E00, -0x0D00, -0x0C00, -0x0B00, -0x0A00, -0x0900,
        -0x0800, -0x0700, -0x0600, -0x0500, -0x0400, -0x0300, -0x0200, -0x0100
    ], [
         0x000,  0x080,  0x100,  0x180,  0x200,  0x280,  0x300,  0x380,
         0x400,  0x480,  0x500,  0x580,  0x600,  0x680,  0x700,  0x780,
        -0x800, -0x780, -0x700, -0x680, -0x600, -0x580, -0x500, -0x480,
        -0x400, -0x380, -0x300, -0x280, -0x200, -0x180, -0x100, -0x080
    ], [
         0x000,  0x048,  0x090,  0x0D8,  0x120,  0x168,  0x1B0,  0x1F8,
         0x240,  0x288,  0x2D0,  0x318,  0x360,  0x3A8,  0x3F0,  0x438,
        -0x480, -0x438, -0x3F0, -0x3A8, -0x360, -0x318, -0x2D0, -0x288,
        -0x240, -0x1F8, -0x1B0, -0x168, -0x120, -0x0D8, -0x090, -0x048
    ], [
         0x000,  0x030,  0x060,  0x090,  0x0C0,  0x0F0,  0x120,  0x150,
         0x180,  0x1B0,  0x1E0,  0x210,  0x240,  0x270,  0x2A0,  0x2D0,
        -0x300, -0x2D0, -0x2A0, -0x270, -0x240, -0x210, -0x1E0, -0x1B0,
        -0x180, -0x150, -0x120, -0x0F0, -0x0C0, -0x090, -0x060, -0x030
    ], [
         0x000,  0x020,  0x040,  0x060,  0x080,  0x0A0,  0x0C0,  0x0E0,
         0x100,  0x120,  0x140,  0x160,  0x180,  0x1A0,  0x1C0,  0x1E0,
        -0x200, -0x1E0, -0x1C0, -0x1A0, -0x180, -0x160, -0x140, -0x120,
        -0x100, -0x0E0, -0x0C0, -0x0A0, -0x080, -0x060, -0x040, -0x020
    ], [
         0x000,  0x016,  0x02C,  0x042,  0x058,  0x06E,  0x084,  0x09A,
         0x0B0,  0x0C6,  0x0DC,  0x0F2,  0x108,  0x11E,  0x134,  0x14A,
        -0x160, -0x14A, -0x134, -0x11E, -0x108, -0x0F2, -0x0DC, -0x0C6,
        -0x0B0, -0x09A, -0x084, -0x06E, -0x058, -0x042, -0x02C, -0x016
    ], [
         0x000,  0x010,  0x020,  0x030,  0x040,  0x050,  0x060,  0x070,
         0x080,  0x090,  0x0A0,  0x0B0,  0x0C0,  0x0D0,  0x0E0,  0x0F0,
        -0x100, -0x0F0, -0x0E0, -0x0D0, -0x0C0, -0x0B0, -0x0A0, -0x090,
        -0x080, -0x070, -0x060, -0x050, -0x040, -0x030, -0x020, -0x010
    ], [
         0x00,  0x0B,  0x16,  0x21,  0x2C,  0x37,  0x42,  0x4D,
         0x58,  0x63,  0x6E,  0x79,  0x84,  0x8F,  0x9A,  0xA5,
        -0xB0, -0xA5, -0x9A, -0x8F, -0x84, -0x79, -0x6E, -0x63,
        -0x58, -0x4D, -0x42, -0x37, -0x2C, -0x21, -0x16, -0x0B
    ], [
         0x00,  0x08,  0x10,  0x18,  0x20,  0x28,  0x30,  0x38,
         0x40,  0x48,  0x50,  0x58,  0x60,  0x68,  0x70,  0x78,
        -0x80, -0x78, -0x70, -0x68, -0x60, -0x58, -0x50, -0x48,
        -0x40, -0x38, -0x30, -0x28, -0x20, -0x18, -0x10, -0x08
    ], [
         0x00,  0x06,  0x0C,  0x12,  0x18,  0x1E,  0x24,  0x2A,
         0x30,  0x36,  0x3C,  0x42,  0x48,  0x4E,  0x54,  0x5A,
        -0x60, -0x5A, -0x54, -0x4E, -0x48, -0x42, -0x3C, -0x36,
        -0x30, -0x2A, -0x24, -0x1E, -0x18, -0x12, -0x0C, -0x06
    ], [
         0x00,  0x04,  0x08,  0x0C,  0x10,  0x14,  0x18,  0x1C,
         0x20,  0x24,  0x28,  0x2C,  0x30,  0x34,  0x38,  0x3C,
        -0x40, -0x3C, -0x38, -0x34, -0x30, -0x2C, -0x28, -0x24,
        -0x20, -0x1C, -0x18, -0x14, -0x10, -0x0C, -0x08, -0x04
    ], [
         0x00,  0x02,  0x05,  0x08,  0x0B,  0x0D,  0x10,  0x13,
         0x16,  0x18,  0x1B,  0x1E,  0x21,  0x23,  0x26,  0x29,
        -0x2C, -0x2A, -0x27, -0x24, -0x21, -0x1F, -0x1C, -0x19,
        -0x16, -0x14, -0x11, -0x0E, -0x0B, -0x09, -0x06, -0x03
    ], [
         0x00,  0x01,  0x03,  0x05,  0x07,  0x08,  0x0A,  0x0C,
         0x0E,  0x0F,  0x11,  0x13,  0x15,  0x16,  0x18,  0x1A,
        -0x1C, -0x1B, -0x19, -0x17, -0x15, -0x14, -0x12, -0x10,
        -0x0E, -0x0D, -0x0B, -0x09, -0x07, -0x06, -0x04, -0x02
    ], [
         0x00,  0x01,  0x02,  0x03,  0x04,  0x05,  0x06,  0x07,
         0x08,  0x09,  0x0A,  0x0B,  0x0C,  0x0D,  0x0E,  0x0F,
        -0x10, -0x0F, -0x0E, -0x0D, -0x0C, -0x0B, -0x0A, -0x09,
        -0x08, -0x07, -0x06, -0x05, -0x04, -0x03, -0x02, -0x01
    ]
];

/// Delta of `mode` selected by 5-bit code `idx`.
pub open spec fn audio_step(mode: int, idx: int) -> i16 {
    BMV_AUDIO_STEPS@[mode]@[idx]
}

/// Little-endian 16-bit word `i` of a block.
pub open spec fn block_word(src: Seq<u8>, i: int) -> int {
    src[2 * i] + 256 * src[2 * i + 1]
}

/// Top bits of the first `n` words of a block, the first word's bit highest.
pub open spec fn top_bits(src: Seq<u8>, n: int) -> int
    decreases n,
{
    if n <= 0 {
        0
    } else {
        2 * top_bits(src, n - 1) + block_word(src, n - 1) / 32768
    }
}

/// Code of sample `k` of a block: three 5-bit fields of each of the ten words,
/// then two 5-bit fields of the words' top bits.
pub open spec fn sample_code(src: Seq<u8>, k: int) -> int {
    if k < 30 {
        let w = block_word(src, k / 3);
        if k % 3 == 0 {
            w / 1024 % 32
        } else if k % 3 == 1 {
            w / 32 % 32
        } else {
            w % 32
        }
    } else if k == 30 {
        top_bits(src, 10) / 32 % 32
    } else {
        top_bits(src, 10) % 32
    }
}

/// Sample `k` of a block decoded in `mode` from predictor `pred`: the predictor
/// plus the deltas of codes `0..=k`, wrapping in 16 bits.
pub open spec fn block_sample(mode: int, src: Seq<u8>, pred: i16, k: int) -> i16
    decreases k,
{
    let prev = if k <= 0 {
        pred
    } else {
        block_sample(mode, src, pred, k - 1)
    };
    prev.wrapping_add(audio_step(mode, sample_code(src, k)))
}

/// Decodes one block of 20 bytes into 32 samples and returns the last sample,
/// the predictor for the next block.
pub fn decode_block(mode: u8, src: &[u8], dst: &mut [i16], pred: i16) -> (r: i16)
    requires
        mode < 16,
        src@.len() >= 20,
        old(dst)@.len() >= 32,
    ensures
        final(dst)@.len() == old(dst)@.len(),
        forall|k: int| 0 <= k < 32 ==> #[trigger] final(dst)@[k] == block_sample(mode as int, src@, pred, k),
        forall|k: int| 32 <= k < old(dst)@.len() ==> #[trigger] final(dst)@[k] == old(dst)@[k],
        r == block_sample(mode as int, src@, pred, 31),
{
    let steps: &[i16; 32] = &BMV_AUDIO_STEPS[mode as usize];
    assert(steps@ == BMV_AUDIO_STEPS@[mode as int]@);
    let ghost m: int = mode as int;
    let ghost start = dst@;
    let mut p: i16 = pred;
    let mut val2: u32 = 0;
    let mut i: usize = 0;
    proof {
        lemma2_to64();
    }
    while i < 10
        invariant
            i <= 10,
            m == mode,
            m < 16,
            steps@ == BMV_AUDIO_STEPS@[m]@,
            src@.len() >= 20,
            dst@.len() == start.len(),
            start.len() >= 32,
            val2 == top_bits(src@, i as int),
            val2 < pow2(i as nat),
            i == 0 ==> p == pred,
            i > 0 ==> p == block_sample(m, src@, pred, 3 * i - 1),
            forall|k: int| 0 <= k < 3 * i ==> #[trigger] dst@[k] == block_sample(m, src@, pred, k),
            forall|k: int| 3 * i <= k < start.len() ==> #[trigger] dst@[k] == start[k],
        decreases 10 - i,
    {
        let val: u32 = src[i * 2] as u32 + (src[i * 2 + 1] as u32) * 256;
        assert(val == block_word(src@, i as int));
        let c0: u32 = (val >> 10) & 0x1F;
        let c1: u32 = (val >> 5) & 0x1F;
        let c2: u32 = val & 0x1F;
        assert(c0 == val / 1024 % 32 && c1 == val / 32 % 32 && c2 == val % 32) by (bit_vector)
            requires
                c0 == (val >> 10) & 0x1F,
                c1 == (val >> 5) & 0x1F,
                c2 == val & 0x1F,
        ;
        assert(sample_code(src@, 3 * i as int) == c0);
        assert(sample_code(src@, 3 * i + 1) == c1);
        assert(sample_code(src@, 3 * i + 2) == c2);
        let ghost k0: int = 3 * i as int;
        p = p.wrapping_add(steps[c0 as usize]);
        assert(p == block_sample(m, src@, pred, k0));
        dst[i * 3] = p;
        p = p.wrapping_add(steps[c1 as usize]);
        assert(p == block_sample(m, src@, pred, k0 + 1));
        dst[i * 3 + 1] = p;
        p = p.wrapping_add(steps[c2 as usize]);
        assert(p == block_sample(m, src@, pred, k0 + 2));
        dst[i * 3 + 2] = p;
        assert forall|k: int| 0 <= k < k0 + 3 implies #[trigger] dst@[k] == block_sample(m, src@, pred, k) by {
            if k >= k0 {
                assert(dst@[k] == block_sample(m, src@, pred, k));
            }
        }
        proof {
            lemma2_to64();
            if i < 9 {
                lemma_pow2_strictly_increases(i as nat, 9);
            }
            lemma_pow2_unfold((i + 1) as nat);
        }
        let top: u32 = val >> 15;
        assert(val2 < 512);
        assert(val < 65536);
        assert((val2 << 1) | top == val2 * 2 + val / 32768) by (bit_vector)
            requires
                val2 < 512,
                val < 65536,
                top == val >> 15,
        ;
        val2 = (val2 << 1) | top;
        i += 1;
    }
    let c30: u32 = (val2 >> 5) & 0x1F;
    let c31: u32 = val2 & 0x1F;
    assert(c30 == val2 / 32 % 32 && c31 == val2 % 32) by (bit_vector)
        requires
            c30 == (val2 >> 5) & 0x1F,
            c31 == val2 & 0x1F,
    ;
    assert(sample_code(src@, 30) == c30 && sample_code(src@, 31) == c31);
    p = p.wrapping_add(steps[c30 as usize]);
    assert(p == block_sample(m, src@, pred, 30));
    dst[30] = p;
    p = p.wrapping_add(steps[c31 as usize]);
    assert(p == block_sample(m, src@, pred, 31));
    dst[31] = p;
    assert forall|k: int| 0 <= k < 32 implies #[trigger] dst@[k] == block_sample(m, src@, pred, k) by {
        if k >= 30 {
            assert(dst@[k] == block_sample(m, src@, pred, k));
        }
    }
    p
}

/// Chunk `n` of a packet: 41 bytes after the one-byte header.
pub open spec fn chunk(data: Seq<u8>, n: int) -> Seq<u8> {
    data.subrange(1 + 41 * n, 1 + 41 * n + 41)
}

/// Chunk `n` carries its mode byte last rather than first; the header tells the
/// first chunk's order, and the order alternates from chunk to chunk.
pub open spec fn mode_trails(data: Seq<u8>, n: int) -> bool {
    (data[0] == 0) == (n % 2 == 0)
}

/// Decoding mode of channel `ch` in chunk `n`: high nibble of the mode byte for
/// the first channel, low nibble for the second.
pub open spec fn chunk_mode(data: Seq<u8>, n: int, ch: int) -> int {
    let m: int = if mode_trails(data, n) {
        chunk(data, n)[40] as int
    } else {
        chunk(data, n)[0] as int
    };
    if ch == 0 {
        m / 16
    } else {
        m % 16
    }
}

/// The 20-byte block of channel `ch` in chunk `n`.
pub open spec fn chunk_block(data: Seq<u8>, n: int, ch: int) -> Seq<u8> {
    let start = (if mode_trails(data, n) { 0int } else { 1int }) + 20 * ch;
    chunk(data, n).subrange(start, start + 20)
}

/// Predictor of channel `ch` before chunk `n`, starting from `pred_l`.
pub open spec fn chan_pred(data: Seq<u8>, pred_l: i16, ch: int, n: int) -> i16
    decreases n,
{
    if n <= 0 {
        pred_l
    } else {
        block_sample(chunk_mode(data, n - 1, ch), chunk_block(data, n - 1, ch), chan_pred(data, pred_l, ch, n - 1), 31)
    }
}

/// Sample `k` of chunk `n` of channel `ch`.
pub open spec fn chan_sample(data: Seq<u8>, pred_l: i16, ch: int, n: int, k: int) -> i16 {
    block_sample(chunk_mode(data, n, ch), chunk_block(data, n, ch), chan_pred(data, pred_l, ch, n), k)
}

/// Errors of a decoder.
#[derive(Debug, Clone, Copy, PartialEq, Eq, Structural)]
pub enum DecoderError {
    /// The input is not valid for this decoder.
    InvalidData,
    /// The output buffer could not be allocated.
    AllocError,
    /// The decoder reached a state it should not have.
    Bug,
}

/// BMV3 audio decoder: two channels of signed 16-bit samples, one predictor each.
pub struct BMV3AudioDecoder {
    ainfo: NAAudioInfo,
    chmap: NAChannelMap,
    pred: [i16; 2],
    nframes: usize,
}

impl BMV3AudioDecoder {
    /// Output format of the decoder.
    pub closed spec fn audio_info(&self) -> NAAudioInfo {
        self.ainfo
    }

    /// Output channel map of the decoder.
    pub closed spec fn channel_map(&self) -> Seq<NAChannelType> {
        self.chmap@
    }

    /// Predictors of the two channels.
    pub closed spec fn predictors(&self) -> (i16, i16) {
        (self.pred[0], self.pred[1])
    }

    /// Constructs a decoder before initialisation: mono, no sample rate, zero
    /// predictors.
    pub fn new() -> (r: Self)
        ensures
            r.audio_info() == (NAAudioInfo { sample_rate: 0, channels: 1, format: s16_planar(), block_len: 0 }),
            r.channel_map().len() == 0,
            r.predictors() == (0i16, 0i16),
    {
        Self {
            ainfo: NAAudioInfo::new(0, 1, snd_s16p_format(), 0),
            chmap: NAChannelMap::new(),
            pred: [0; 2],
            nframes: 0,
        }
    }

    /// Takes sample rate and channel count from the stream's codec information,
    /// which must describe audio.
    pub fn init(&mut self, info: NACodecInfoRef) -> (r: Result<(), DecoderError>)
        ensures
            match info@.properties {
                NACodecTypeInfo::Audio(a) => {
                    &&& r is Ok
                    &&& final(self).audio_info() == (NAAudioInfo {
                        sample_rate: a.sample_rate,
                        channels: a.channels,
                        format: s16_planar(),
                        block_len: 32,
                    })
                    &&& final(self).channel_map() == seq![NAChannelType::L, NAChannelType::R]
                    &&& final(self).predictors() == old(self).predictors()
                },
                _ => r == Err::<(), DecoderError>(DecoderError::InvalidData) && *final(self) == *old(self),
            },
    {
        if let NACodecTypeInfo::Audio(ainfo) = info.get_properties() {
            self.ainfo = NAAudioInfo::new(ainfo.get_sample_rate(), ainfo.get_channels(), snd_s16p_format(), 32);
            let mut chmap: NAChannelMap = NAChannelMap::new();
            chmap.add_channel(NAChannelType::L);
            chmap.add_channel(NAChannelType::R);
            assert(chmap@ =~= seq![NAChannelType::L, NAChannelType::R]);
            self.chmap = chmap;
            Ok(())
        } else {
            Err(DecoderError::InvalidData)
        }
    }
}

impl BMV3AudioDecoder {
    /// Decodes a packet: a header byte, then chunks of 41 bytes, each holding a
    /// block of 32 samples for each of the two channels.
    ///
    /// The frame holds `len / 41 * 32` samples per channel, `len` counting the
    /// header; the second channel starts at the buffer's second channel offset.
    pub fn decode(&mut self, pkt: &NAPacket) -> (r: Result<NAFrameRef, DecoderError>)
        ensures
            !(pkt@.stream.info.properties is Audio) ==> r == Err::<NAFrameRef, DecoderError>(DecoderError::InvalidData),
            pkt@.data.len() <= 1 ==> r is Err,
            r is Err ==> final(self).predictors() == old(self).predictors(),
            final(self).audio_info() == old(self).audio_info(),
            final(self).channel_map() == old(self).channel_map(),
            r matches Ok(f) ==> {
                let data = pkt@.data;
                let samples = data.len() / 41 * 32;
                let nblocks = (data.len() - 1) / 41;
                let p = old(self).predictors();
                &&& pkt@.stream.info.properties is Audio
                &&& f@.ts == (NATimeInfo { duration: Some(samples as u64), ..pkt@.ts })
                &&& f@.key == false
                &&& f@.frame_type == FrameType::Other
                &&& f@.info == pkt@.stream.info
                &&& final(self).predictors() == (chan_pred(data, p.0, 0, nblocks), chan_pred(data, p.1, 1, nblocks))
                &&& f@.buffer matches BufferView::AudioI16(a) && {
                    let off1 = entry_or_zero(a.offs, 1);
                    &&& a.info == old(self).audio_info()
                    &&& a.len == samples
                    &&& (off1 == 0 || off1 >= samples) ==> forall|n: int, k: int| 0 <= n < nblocks && 0 <= k < 32
                        ==> #[trigger] a.data[off1 + n * 32 + k] == chan_sample(data, p.1, 1, n, k)
                    &&& off1 >= samples ==> forall|n: int, k: int| 0 <= n < nblocks && 0 <= k < 32
                        ==> #[trigger] a.data[n * 32 + k] == chan_sample(data, p.0, 0, n, k)
                }
            },
    {
        let info: NACodecInfoRef = pkt.get_stream().get_info();
        if !info.is_audio() {
            return Err(DecoderError::InvalidData);
        }
        let pktbuf: NABufferRef<Vec<u8>> = pkt.get_buffer();
        let src: &[u8] = pktbuf.as_ref().as_slice();
        if src.len() <= 1 {
            return Err(DecoderError::InvalidData);
        }
        let ghost data: Seq<u8> = src@;
        let samples: usize = (src.len() / 41) * 32;
        let nblocks: usize = (src.len() - 1) / 41;
        let abuf: NABufferType = match alloc_audio_buffer(self.ainfo, samples, self.chmap.clone()) {
            Ok(b) => b,
            Err(_) => return Err(DecoderError::AllocError),
        };
        let mut adata: NAAudioBuffer<i16> = match abuf {
            NABufferType::AudioI16(ab) => ab,
            _ => return Err(DecoderError::Bug),
        };
        let off1: usize = adata.get_offset(1);
        let ghost pred_l: i16 = self.pred[0];
        let ghost pred_r: i16 = self.pred[1];
        let ghost before = adata@;
        match adata.get_data_mut() {
            Some(dst) => {
                if dst.len() < samples || dst.len() - samples < off1 {
                    return Err(DecoderError::Bug);
                }
                assert(nblocks * 32 <= samples) by (nonlinear_arith)
                    requires
                        nblocks == (data.len() - 1) / 41,
                        samples == data.len() / 41 * 32,
                        data.len() > 1,
                ;
                let mut blk: Vec<i16> = vec![0i16; 32];
                let mut first: bool = src[0] == 0;
                let mut n: usize = 0;
                while n < nblocks
                    invariant
                        n <= nblocks,
                        nblocks == (data.len() - 1) / 41,
                        nblocks * 32 <= samples,
                        samples <= dst.len(),
                        off1 <= dst.len() - samples,
                        src@ == data,
                        src@.len() == src.len(),
                        data.len() > 1,
                        blk@.len() == 32,
                        first == mode_trails(data, n as int),
                        self.pred[0] == chan_pred(data, pred_l, 0, n as int),
                        self.pred[1] == chan_pred(data, pred_r, 1, n as int),
                        self.ainfo == old(self).ainfo,
                        self.chmap == old(self).chmap,
                        (off1 == 0 || off1 >= samples) ==> forall|m: int, k: int| 0 <= m < n && 0 <= k < 32
                            ==> #[trigger] dst@[off1 + m * 32 + k] == chan_sample(data, pred_r, 1, m, k),
                        off1 >= samples ==> forall|m: int, k: int| 0 <= m < n && 0 <= k < 32
                            ==> #[trigger] dst@[m * 32 + k] == chan_sample(data, pred_l, 0, m, k),
                    decreases nblocks - n,
                {
                    assert(1 + 41 * n + 41 <= src.len()) by (nonlinear_arith)
                        requires
                            n < nblocks,
                            nblocks == (data.len() - 1) / 41,
                            data.len() == src.len(),
                    ;
                    assert(n * 32 + 32 <= samples) by (nonlinear_arith)
                        requires
                            n < nblocks,
                            nblocks * 32 <= samples,
                    ;
                    let base: usize = 1 + n * 41;
                    let chunk_bytes: &[u8] = &src[base..base + 41];
                    assert(chunk_bytes@ == chunk(data, n as int));
                    let mode: u8;
                    let s0: usize;
                    if first {
                        mode = chunk_bytes[40];
                        s0 = 0;
                    } else {
                        mode = chunk_bytes[0];
                        s0 = 1;
                    }
                    let aoff0: usize = n * 32;
                    let ghost before_block = dst@;
                    let b0: &[u8] = &chunk_bytes[s0..s0 + 20];
                    assert(b0@ == chunk_block(data, n as int, 0));
                    assert(mode >> 4 < 16) by (bit_vector);
                    let pr0: i16 = decode_block(mode >> 4, b0, blk.as_mut_slice(), self.pred[0]);
                    assert(mode >> 4 == mode / 16) by (bit_vector);
                    assert(chunk_mode(data, n as int, 0) == mode / 16);
                    self.pred[0] = pr0;
                    put_block(dst, aoff0, &blk);
                    let ghost mid = dst@;
                    let b1: &[u8] = &chunk_bytes[s0 + 20..s0 + 40];
                    assert(b1@ == chunk_block(data, n as int, 1));
                    assert(mode & 0xF == mode % 16) by (bit_vector);
                    assert(chunk_mode(data, n as int, 1) == mode % 16);
                    let pr1: i16 = decode_block(mode & 0xF, b1, blk.as_mut_slice(), self.pred[1]);
                    self.pred[1] = pr1;
                    put_block(dst, off1 + aoff0, &blk);
                    proof {
                        if off1 == 0 || off1 >= samples {
                            assert forall|m: int, k: int| 0 <= m < n + 1 && 0 <= k < 32
                                implies #[trigger] dst@[off1 + m * 32 + k] == chan_sample(data, pred_r, 1, m, k) by {
                                if m < n {
                                    assert(m * 32 + k < n * 32) by (nonlinear_arith)
                                        requires
                                            m < n,
                                            k < 32,
                                    ;
                                    assert(dst@[off1 + m * 32 + k] == mid[off1 + m * 32 + k]);
                                    assert(mid[off1 + m * 32 + k] == before_block[off1 + m * 32 + k]);
                                } else {
                                    assert(off1 + m * 32 + k == off1 + aoff0 + k);
                                }
                            }
                        }
                        if off1 >= samples {
                            assert forall|m: int, k: int| 0 <= m < n + 1 && 0 <= k < 32
                                implies #[trigger] dst@[m * 32 + k] == chan_sample(data, pred_l, 0, m, k) by {
                                assert(m * 32 + k < samples) by (nonlinear_arith)
                                    requires
                                        m < n + 1,
                                        k < 32,
                                        n * 32 + 32 <= samples,
                                ;
                                if m < n {
                                    assert(m * 32 + k < n * 32) by (nonlinear_arith)
                                        requires
                                            m < n,
                                            k < 32,
                                    ;
                                    assert(dst@[m * 32 + k] == mid[m * 32 + k]);
                                    assert(mid[m * 32 + k] == before_block[m * 32 + k]);
                                } else {
                                    assert(dst@[m * 32 + k] == mid[aoff0 + k]);
                                }
                            }
                        }
                    }
                    first = !first;
                    n += 1;
                }
            },
            None => return Err(DecoderError::Bug),
        }
        self.nframes = self.nframes.wrapping_add(1);
        let mut frm: NAFrame = NAFrame::new_from_pkt(pkt, info, NABufferType::AudioI16(adata));
        frm.set_duration(Some(samples as u64));
        frm.set_keyframe(false);
        Ok(frm.into_ref())
    }
}

/// Copies a decoded block into `dst` at position `at`.
fn put_block(dst: &mut Vec<i16>, at: usize, blk: &Vec<i16>)
    requires
        at + 32 <= old(dst)@.len(),
        blk@.len() >= 32,
    ensures
        final(dst)@.len() == old(dst)@.len(),
        forall|k: int| 0 <= k < 32 ==> #[trigger] final(dst)@[at + k] == blk@[k],
        forall|j: int| 0 <= j < old(dst)@.len() && !(at <= j < at + 32) ==> #[trigger] final(dst)@[j] == old(dst)@[j],
{
    let mut k: usize = 0;
    while k < 32
        invariant
            k <= 32,
            at + 32 <= dst.len(),
            dst@.len() == old(dst)@.len(),
            blk@.len() >= 32,
            forall|i: int| 0 <= i < k ==> #[trigger] dst@[at + i] == blk@[i],
            forall|j: int| 0 <= j < dst@.len() && !(at <= j < at + k) ==> #[trigger] dst@[j] == old(dst)@[j],
        decreases 32 - k,
    {
        dst.set(at + k, blk[k]);
        k += 1;
    }
}

} // verus!
