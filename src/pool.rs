//! Video frame pool: reuse of buffers that no consumer holds any more.
use vstd::prelude::*;
use crate::allocator::{
    alloc_video_buffer, video_layout, video_view_is, AllocatorError, VideoLayout,
};
use crate::buffer::{NABufferType, NAVideoBufferRef, VideoBufferView};
use crate::info::NAVideoInfo;

verus! {

/// What a pool holds, as plain values.
pub struct PoolView<T> {
    pub bufs: Seq<VideoBufferView<T>>,
    pub max_len: usize,
    pub add_len: usize,
}

impl<T> PoolView<T> {
    /// Number of buffers the pool is filled up to.
    pub open spec fn target(self) -> nat {
        if self.max_len + self.add_len > usize::MAX {
            usize::MAX as nat
        } else {
            (self.max_len + self.add_len) as nat
        }
    }

    /// `self` holds the buffers of `old` and then fresh buffers of picture
    /// `vinfo` laid out as `lay`, up to the target size.
    pub open spec fn filled_from(self, old: PoolView<T>, vinfo: NAVideoInfo, lay: VideoLayout, zero: T) -> bool {
        &&& self.max_len == old.max_len
        &&& self.add_len == old.add_len
        &&& self.bufs.len() == old.target()
        &&& self.bufs.subrange(0, old.bufs.len() as int) == old.bufs
        &&& forall|i: int|
            old.bufs.len() <= i < self.bufs.len() ==> video_view_is(#[trigger] self.bufs[i], vinfo, lay, zero)
    }
}

/// Position of the first count of exactly 1 at or after `k`.
pub open spec fn first_unshared_from(counts: Seq<usize>, k: int) -> Option<usize>
    decreases counts.len() - k,
{
    if k < 0 || k >= counts.len() {
        None
    } else if counts[k] == 1 {
        Some(k as usize)
    } else {
        first_unshared_from(counts, k + 1)
    }
}

/// Position of the first count of exactly 1: the first buffer that only the
/// pool holds.
pub open spec fn first_unshared_index(counts: Seq<usize>) -> Option<usize> {
    first_unshared_from(counts, 0)
}

/// Picks the first buffer with holder count 1, given the holder counts of the
/// pooled buffers in pool order.
pub fn first_unshared(counts: &Vec<usize>) -> (r: Option<usize>)
    ensures
        match r {
            Some(i) => i < counts@.len() && counts@[i as int] == 1 && forall|j: int| 0 <= j < i ==> counts@[j] != 1,
            None => forall|j: int| 0 <= j < counts@.len() ==> counts@[j] != 1,
        },
        r == first_unshared_index(counts@),
{
    let mut i: usize = 0;
    while i < counts.len()
        invariant
            i <= counts@.len(),
            forall|j: int| 0 <= j < i ==> counts@[j] != 1,
            first_unshared_index(counts@) == first_unshared_from(counts@, i as int),
        decreases counts@.len() - i,
    {
        if counts[i] == 1 {
            return Some(i);
        }
        i += 1;
    }
    None
}

/// Video frame pool.
///
/// This structure allows a codec to reuse old frames instead of allocating and
/// de-allocating frames every time. Caller can also reserve some frames for its
/// own purposes e.g. display queue.
pub struct NAVideoBufferPool<T> {
    pool: Vec<NAVideoBufferRef<T>>,
    max_len: usize,
    add_len: usize,
}

impl<T> View for NAVideoBufferPool<T> {
    type V = PoolView<T>;

    closed spec fn view(&self) -> PoolView<T> {
        PoolView {
            bufs: self.pool@.map_values(|b: NAVideoBufferRef<T>| b.value()@),
            max_len: self.max_len,
            add_len: self.add_len,
        }
    }
}

impl<T: Copy> NAVideoBufferPool<T> {
    /// Constructs a new `NAVideoBufferPool` instance.
    pub fn new(max_len: usize) -> (r: Self)
        ensures
            r@.bufs.len() == 0,
            r@.max_len == max_len,
            r@.add_len == 0,
    {
        let r: Self = Self { pool: Vec::with_capacity(max_len), max_len, add_len: 0 };
        assert(r@.bufs =~= Seq::<VideoBufferView<T>>::empty());
        r
    }

    /// Sets the number of buffers reserved for the user.
    pub fn set_dec_bufs(&mut self, add_len: usize)
        ensures
            final(self)@ == (PoolView { add_len, ..old(self)@ }),
    {
        self.add_len = add_len;
    }

    /// Holder counts of the pooled buffers, in pool order, and the position
    /// `first_unshared` picks among them.
    fn free_index(&self) -> (r: (Option<usize>, Ghost<Seq<usize>>))
        ensures
            r.1@.len() == self@.bufs.len(),
            forall|j: int| 0 <= j < r.1@.len() ==> r.1@[j] >= 1,
            r.0 == first_unshared_index(r.1@),
            r.0 matches Some(i) ==> i < self@.bufs.len(),
    {
        let mut counts: Vec<usize> = Vec::with_capacity(self.pool.len());
        let mut i: usize = 0;
        while i < self.pool.len()
            invariant
                i <= self.pool@.len(),
                counts@.len() == i,
                forall|j: int| 0 <= j < i ==> counts@[j] >= 1,
            decreases self.pool@.len() - i,
        {
            counts.push(self.pool[i].get_num_refs());
            i += 1;
        }
        proof {
            assert(self@.bufs.len() == self.pool@.len());
        }
        (first_unshared(&counts), Ghost(counts@))
    }

    /// Returns the first buffer of the pool that no one else holds, if any.
    ///
    /// Which one that is depends on the holder counts seen at the call: the
    /// result is the buffer at the position `first_unshared` gives for them.
    pub fn get_free(&mut self) -> (r: Option<NAVideoBufferRef<T>>)
        ensures
            final(self)@ == old(self)@,
            exists|counts: Seq<usize>| {
                &&& counts.len() == old(self)@.bufs.len()
                &&& forall|j: int| 0 <= j < counts.len() ==> counts[j] >= 1
                &&& match first_unshared_index(counts) {
                    Some(i) => r matches Some(b) && b.value()@ == old(self)@.bufs[i as int],
                    None => r is None,
                }
            },
    {
        let (found, Ghost(counts)) = self.free_index();
        let r: Option<NAVideoBufferRef<T>> = match found {
            Some(i) => {
                let b: NAVideoBufferRef<T> = self.pool[i].clone();
                assert(b.value()@ == self@.bufs[i as int]);
                Some(b)
            },
            None => None,
        };
        assert(counts.len() == old(self)@.bufs.len());
        r
    }

    /// Clones provided frame data into a free pool frame.
    ///
    /// The frame is the one `get_free` would give. Gives `None` where no pooled
    /// buffer is free, or where the storage of the free one is shared with a copy
    /// of it.
    pub fn get_copy(&mut self, rbuf: &NAVideoBufferRef<T>) -> (r: Option<NAVideoBufferRef<T>>)
        ensures
            final(self)@.max_len == old(self)@.max_len,
            final(self)@.add_len == old(self)@.add_len,
            final(self)@.bufs.len() == old(self)@.bufs.len(),
            exists|counts: Seq<usize>| {
                &&& counts.len() == old(self)@.bufs.len()
                &&& forall|j: int| 0 <= j < counts.len() ==> counts[j] >= 1
                &&& match first_unshared_index(counts) {
                    Some(i) => match r {
                        Some(b) => {
                            &&& b.value()@ == final(self)@.bufs[i as int]
                            &&& b.value()@ == (VideoBufferView { data: rbuf.value()@.data, ..old(self)@.bufs[i as int] })
                            &&& forall|j: int| 0 <= j < old(self)@.bufs.len() && j != i ==> final(self)@.bufs[j] == old(self)@.bufs[j]
                        },
                        None => final(self)@ == old(self)@,
                    },
                    None => r is None && final(self)@ == old(self)@,
                }
            },
    {
        let (found, Ghost(counts)) = self.free_index();
        let idx: usize = match found {
            Some(i) => i,
            None => {
                assert(counts.len() == old(self)@.bufs.len());
                return None;
            },
        };
        let ghost before = self@;
        let src: &Vec<T> = rbuf.as_ref().get_data();
        let copied: bool = match self.pool[idx].as_mut() {
            Some(vb) => match vb.get_data_mut() {
                Some(dst) => {
                    dst.truncate(0);
                    let mut i: usize = 0;
                    while i < src.len()
                        invariant
                            i <= src@.len(),
                            dst@ == src@.subrange(0, i as int),
                        decreases src@.len() - i,
                    {
                        dst.push(src[i]);
                        i += 1;
                        assert(dst@ =~= src@.subrange(0, i as int));
                    }
                    assert(dst@ =~= src@);
                    true
                },
                None => false,
            },
            None => false,
        };
        proof {
            assert(self@.bufs.len() == before.bufs.len());
            assert(counts.len() == old(self)@.bufs.len());
            if !copied {
                assert(self@.bufs =~= before.bufs);
            }
        }
        if copied {
            let b: NAVideoBufferRef<T> = self.pool[idx].clone();
            assert(b.value()@ == self@.bufs[idx as int]);
            Some(b)
        } else {
            None
        }
    }

    /// Clears the pool from all frames.
    pub fn reset(&mut self)
        ensures
            final(self)@.bufs.len() == 0,
            final(self)@.max_len == old(self)@.max_len,
            final(self)@.add_len == old(self)@.add_len,
    {
        self.pool.truncate(0);
    }
}

impl NAVideoBufferPool<u8> {
    /// Fills the pool up to its target size with buffers from [`alloc_video_buffer`],
    /// which must give an 8-bit or packed buffer.
    pub fn prealloc_video(&mut self, vinfo: NAVideoInfo, align: u8) -> (r: Result<(), AllocatorError>)
        ensures
            old(self)@.bufs.len() >= old(self)@.target() ==> r is Ok && final(self)@ == old(self)@,
            old(self)@.bufs.len() < old(self)@.target() ==> match video_layout(vinfo, align as nat) {
                Err(e) => r == Err::<(), AllocatorError>(e) && final(self)@ == old(self)@,
                Ok(lay) => if (lay.kind is Video8 || lay.kind is Packed) {
                    r is Ok && final(self)@.filled_from(old(self)@, vinfo, lay, 0u8)
                } else {
                    r == Err::<(), AllocatorError>(AllocatorError::FormatError) && final(self)@ == old(self)@
                },
            },
    {
        let target: usize = self.max_len.saturating_add(self.add_len);
        if self.pool.len() >= target {
            return Ok(());
        }
        let nbufs: usize = target - self.pool.len();
        let ghost start = self@;
        let mut k: usize = 0;
        while k < nbufs
            invariant
                start == old(self)@,
                k <= nbufs,
                nbufs == start.target() - start.bufs.len(),
                start.bufs.len() < start.target(),
                self@.max_len == start.max_len,
                self@.add_len == start.add_len,
                self@.bufs.len() == start.bufs.len() + k,
                self@.bufs.subrange(0, start.bufs.len() as int) == start.bufs,
                k > 0 ==> (video_layout(vinfo, align as nat) matches Ok(lay) && ((lay.kind is Video8 || lay.kind is Packed)) && forall|i: int|
                    start.bufs.len() <= i < self@.bufs.len() ==> video_view_is(#[trigger] self@.bufs[i], vinfo, lay, 0u8)),
            decreases nbufs - k,
        {
            let vbuf: NABufferType = match alloc_video_buffer(vinfo, align) {
                Ok(b) => b,
                Err(e) => {
                    proof {
                        assert(self@.bufs =~= start.bufs);
                    }
                    return Err(e);
                },
            };
            let ghost prev = self@;
            match vbuf {
                NABufferType::Video(buf) => self.pool.push(buf),
                NABufferType::VideoPacked(buf) => self.pool.push(buf),
                _ => {
                    proof {
                        assert(self@.bufs =~= start.bufs);
                    }
                    return Err(AllocatorError::FormatError);
                },
            }
            proof {
                assert(self@.bufs =~= prev.bufs.push(self@.bufs.last()));
                assert(self@.bufs.subrange(0, start.bufs.len() as int) =~= start.bufs);
            }
            k += 1;
        }
        Ok(())
    }
}

impl NAVideoBufferPool<u16> {
    /// Fills the pool up to its target size with buffers from [`alloc_video_buffer`],
    /// which must give a 16-bit buffer.
    pub fn prealloc_video(&mut self, vinfo: NAVideoInfo, align: u8) -> (r: Result<(), AllocatorError>)
        ensures
            old(self)@.bufs.len() >= old(self)@.target() ==> r is Ok && final(self)@ == old(self)@,
            old(self)@.bufs.len() < old(self)@.target() ==> match video_layout(vinfo, align as nat) {
                Err(e) => r == Err::<(), AllocatorError>(e) && final(self)@ == old(self)@,
                Ok(lay) => if lay.kind is Video16 {
                    r is Ok && final(self)@.filled_from(old(self)@, vinfo, lay, 0u16)
                } else {
                    r == Err::<(), AllocatorError>(AllocatorError::FormatError) && final(self)@ == old(self)@
                },
            },
    {
        let target: usize = self.max_len.saturating_add(self.add_len);
        if self.pool.len() >= target {
            return Ok(());
        }
        let nbufs: usize = target - self.pool.len();
        let ghost start = self@;
        let mut k: usize = 0;
        while k < nbufs
            invariant
                start == old(self)@,
                k <= nbufs,
                nbufs == start.target() - start.bufs.len(),
                start.bufs.len() < start.target(),
                self@.max_len == start.max_len,
                self@.add_len == start.add_len,
                self@.bufs.len() == start.bufs.len() + k,
                self@.bufs.subrange(0, start.bufs.len() as int) == start.bufs,
                k > 0 ==> (video_layout(vinfo, align as nat) matches Ok(lay) && (lay.kind is Video16) && forall|i: int|
                    start.bufs.len() <= i < self@.bufs.len() ==> video_view_is(#[trigger] self@.bufs[i], vinfo, lay, 0u16)),
            decreases nbufs - k,
        {
            let vbuf: NABufferType = match alloc_video_buffer(vinfo, align) {
                Ok(b) => b,
                Err(e) => {
                    proof {
                        assert(self@.bufs =~= start.bufs);
                    }
                    return Err(e);
                },
            };
            let ghost prev = self@;
            match vbuf {
                NABufferType::Video16(buf) => self.pool.push(buf),
                _ => {
                    proof {
                        assert(self@.bufs =~= start.bufs);
                    }
                    return Err(AllocatorError::FormatError);
                },
            }
            proof {
                assert(self@.bufs =~= prev.bufs.push(self@.bufs.last()));
                assert(self@.bufs.subrange(0, start.bufs.len() as int) =~= start.bufs);
            }
            k += 1;
        }
        Ok(())
    }
}

impl NAVideoBufferPool<u32> {
    /// Fills the pool up to its target size with buffers from [`alloc_video_buffer`],
    /// which must give a 32-bit buffer.
    pub fn prealloc_video(&mut self, vinfo: NAVideoInfo, align: u8) -> (r: Result<(), AllocatorError>)
        ensures
            old(self)@.bufs.len() >= old(self)@.target() ==> r is Ok && final(self)@ == old(self)@,
            old(self)@.bufs.len() < old(self)@.target() ==> match video_layout(vinfo, align as nat) {
                Err(e) => r == Err::<(), AllocatorError>(e) && final(self)@ == old(self)@,
                Ok(lay) => if lay.kind is Video32 {
                    r is Ok && final(self)@.filled_from(old(self)@, vinfo, lay, 0u32)
                } else {
                    r == Err::<(), AllocatorError>(AllocatorError::FormatError) && final(self)@ == old(self)@
                },
            },
    {
        let target: usize = self.max_len.saturating_add(self.add_len);
        if self.pool.len() >= target {
            return Ok(());
        }
        let nbufs: usize = target - self.pool.len();
        let ghost start = self@;
        let mut k: usize = 0;
        while k < nbufs
            invariant
                start == old(self)@,
                k <= nbufs,
                nbufs == start.target() - start.bufs.len(),
                start.bufs.len() < start.target(),
                self@.max_len == start.max_len,
                self@.add_len == start.add_len,
                self@.bufs.len() == start.bufs.len() + k,
                self@.bufs.subrange(0, start.bufs.len() as int) == start.bufs,
                k > 0 ==> (video_layout(vinfo, align as nat) matches Ok(lay) && (lay.kind is Video32) && forall|i: int|
                    start.bufs.len() <= i < self@.bufs.len() ==> video_view_is(#[trigger] self@.bufs[i], vinfo, lay, 0u32)),
            decreases nbufs - k,
        {
            let vbuf: NABufferType = match alloc_video_buffer(vinfo, align) {
                Ok(b) => b,
                Err(e) => {
                    proof {
                        assert(self@.bufs =~= start.bufs);
                    }
                    return Err(e);
                },
            };
            let ghost prev = self@;
            match vbuf {
                NABufferType::Video32(buf) => self.pool.push(buf),
                _ => {
                    proof {
                        assert(self@.bufs =~= start.bufs);
                    }
                    return Err(AllocatorError::FormatError);
                },
            }
            proof {
                assert(self@.bufs =~= prev.bufs.push(self@.bufs.last()));
                assert(self@.bufs.subrange(0, start.bufs.len() as int) =~= start.bufs);
            }
            k += 1;
        }
        Ok(())
    }
}

} // verus!
