use nihav_core::allocator::{alloc_video_buffer, AllocatorError};
use nihav_core::formats::{NAChromaton, NAPixelFormaton};
use nihav_core::info::NAVideoInfo;
use nihav_core::pool::{first_unshared, NAVideoBufferPool};

fn gray(depth: u8) -> NAPixelFormaton {
    let c = NAChromaton { h_ss: 0, v_ss: 0, packed: false, depth, shift: 0, comp_offs: 0, next_elem: 1 };
    NAPixelFormaton::new(1, [Some(c), None, None, None, None], 1, false, false, false)
}

#[test]
fn pool_runs_dry_and_recovers() {
    let mut pool: NAVideoBufferPool<u8> = NAVideoBufferPool::new(2);
    pool.prealloc_video(NAVideoInfo::new(8, 8, false, gray(8)), 0).unwrap();
    let first = pool.get_free();
    assert!(first.is_some());
    let second = pool.get_free();
    assert!(second.is_some());
    assert!(pool.get_free().is_none());
    drop(first);
    let again = pool.get_free();
    assert!(again.is_some());
    assert_eq!(again.unwrap().as_ref().get_data().len(), 64);
}

#[test]
fn get_free_skips_held_buffers() {
    let mut pool: NAVideoBufferPool<u8> = NAVideoBufferPool::new(3);
    pool.prealloc_video(NAVideoInfo::new(4, 4, false, gray(8)), 0).unwrap();
    let a = pool.get_free().unwrap();
    let b = pool.get_free().unwrap();
    let c = pool.get_free().unwrap();
    assert!(pool.get_free().is_none());
    drop(b);
    assert!(pool.get_free().is_some());
    drop(a);
    drop(c);
}

#[test]
fn prealloc_fills_to_target_and_reserve() {
    let mut pool: NAVideoBufferPool<u16> = NAVideoBufferPool::new(1);
    pool.set_dec_bufs(2);
    pool.prealloc_video(NAVideoInfo::new(4, 2, false, gray(10)), 0).unwrap();
    let mut held = Vec::new();
    while let Some(b) = pool.get_free() {
        held.push(b);
    }
    assert_eq!(held.len(), 3);
    assert_eq!(held[0].as_ref().get_data().len(), 8);
    // already full: nothing more is allocated
    pool.prealloc_video(NAVideoInfo::new(4, 2, false, gray(10)), 0).unwrap();
    assert!(pool.get_free().is_none());
    pool.reset();
    assert!(pool.get_free().is_none());
}

#[test]
fn prealloc_refuses_other_element_width() {
    let mut pool: NAVideoBufferPool<u8> = NAVideoBufferPool::new(2);
    let r = pool.prealloc_video(NAVideoInfo::new(4, 4, false, gray(12)), 0);
    assert_eq!(r, Err(AllocatorError::FormatError));
    assert!(pool.get_free().is_none());
    let mut pool32: NAVideoBufferPool<u32> = NAVideoBufferPool::new(1);
    assert_eq!(pool32.prealloc_video(NAVideoInfo::new(4, 4, false, gray(8)), 0), Err(AllocatorError::FormatError));
    assert!(pool32.prealloc_video(NAVideoInfo::new(4, 4, false, gray(24)), 0).is_ok());
    assert!(pool32.get_free().is_some());
    let r = pool.prealloc_video(NAVideoInfo::new(usize::MAX, 4, false, gray(8)), 1);
    assert_eq!(r, Err(AllocatorError::TooLargeDimensions));
}

#[test]
fn get_copy_overwrites_storage() {
    let vinfo = NAVideoInfo::new(2, 2, false, gray(8));
    let mut pool: NAVideoBufferPool<u8> = NAVideoBufferPool::new(1);
    pool.prealloc_video(vinfo, 0).unwrap();
    let src = alloc_video_buffer(vinfo, 0).unwrap();
    let mut sref = src.get_vbuf().unwrap();
    drop(src);
    {
        let data = sref.as_mut().unwrap().get_data_mut().unwrap();
        data[0] = 1;
        data[1] = 2;
        data[2] = 3;
        data[3] = 4;
    }
    let copy = pool.get_copy(&sref).unwrap();
    assert_eq!(copy.as_ref().get_data(), &vec![1u8, 2, 3, 4]);
    assert!(pool.get_copy(&sref).is_none());
}

#[test]
fn get_copy_takes_reference_size() {
    let mut pool: NAVideoBufferPool<u8> = NAVideoBufferPool::new(1);
    pool.prealloc_video(NAVideoInfo::new(2, 2, false, gray(8)), 0).unwrap();
    let src = alloc_video_buffer(NAVideoInfo::new(3, 1, false, gray(8)), 0).unwrap();
    let sref = src.get_vbuf().unwrap();
    let copy = pool.get_copy(&sref).unwrap();
    assert_eq!(copy.as_ref().get_data().len(), 3);
    assert_eq!(copy.as_ref().get_info().get_width(), 2);
    assert_eq!(copy.as_ref().get_stride(0), 2);
}

#[test]
fn first_unshared_picks_first_count_of_one() {

    assert_eq!(first_unshared(&vec![2, 3, 1, 1]), Some(2));
    assert_eq!(first_unshared(&vec![1]), Some(0));
    assert_eq!(first_unshared(&vec![2, 2]), None);
    assert_eq!(first_unshared(&vec![]), None);
}
