use orbiscreen::frame_pool::{FramePool, MAX_POOLED_BUFFERS_PER_SIZE};

#[test]
fn acquire_returns_buffer_with_requested_len() {
    let mut pool = FramePool::new();
    let buffer = pool.acquire(4096);
    assert_eq!(buffer.len(), 4096);
    assert!(buffer.as_slice().iter().all(|b| *b == 0));
}

#[test]
fn released_buffer_is_reused() {
    let mut pool = FramePool::new();
    let buffer = pool.acquire(1024);
    let ptr = buffer.as_slice().as_ptr();
    pool.release(buffer);
    let recycled = pool.acquire(1024);
    assert_eq!(recycled.as_slice().as_ptr(), ptr);
}

#[test]
fn different_sizes_do_not_share_buckets() {
    let mut pool = FramePool::new();
    let small = pool.acquire(512);
    let small_ptr = small.as_slice().as_ptr();
    pool.release(small);
    let large = pool.acquire(1024);
    assert_ne!(large.as_slice().as_ptr(), small_ptr);
    assert_eq!(large.len(), 1024);
}

#[test]
fn wrap_adopts_external_vec_and_returns_it_to_pool() {
    let mut pool = FramePool::new();
    let mut owned = vec![9u8; 128];
    let ptr = owned.as_ptr();
    owned[0] = 42;
    let buffer = pool.wrap(owned);
    assert_eq!(buffer.as_slice().as_ptr(), ptr);
    assert_eq!(buffer.get(0), 42);
    pool.release(buffer);
    let recycled = pool.acquire(128);
    assert_eq!(recycled.as_slice().as_ptr(), ptr);
    assert_eq!(recycled.len(), 128);
}

#[test]
fn buffer_supports_mutable_access() {
    let mut pool = FramePool::new();
    let mut buffer = pool.acquire(8);
    buffer.copy_from_slice(&[1, 2, 3, 4, 5, 6, 7, 8]);
    assert_eq!(buffer.as_slice(), &[1, 2, 3, 4, 5, 6, 7, 8][..]);
    buffer.set(0, 9);
    assert_eq!(buffer.get(0), 9);
}

#[test]
fn empty_buffers_are_not_pooled() {
    let mut pool = FramePool::new();
    let buffer = pool.wrap(Vec::new());
    pool.release(buffer);
    assert_eq!(pool.bucket_count(), 0);
}

#[test]
fn reused_buffer_keeps_its_contents() {
    let mut pool = FramePool::new();
    let mut buffer = pool.acquire(4);
    buffer.copy_from_slice(&[7, 7, 7, 7]);
    pool.release(buffer);
    assert_eq!(pool.spare_count(4), 1);
    let again = pool.acquire(4);
    assert_eq!(again.into_vec(), vec![7, 7, 7, 7]);
    assert_eq!(pool.spare_count(4), 0);
}

#[test]
fn bucket_holds_at_most_the_limit() {
    let mut pool = FramePool::new();
    for _ in 0..MAX_POOLED_BUFFERS_PER_SIZE + 2 {
        let b = pool.wrap(vec![0u8; 16]);
        pool.release(b);
    }
    assert_eq!(pool.spare_count(16), MAX_POOLED_BUFFERS_PER_SIZE);
    assert_eq!(pool.bucket_count(), 1);
}

#[test]
fn acquiring_an_empty_buffer_makes_no_bucket() {
    let mut pool = FramePool::new();
    let empty = pool.acquire(0);
    assert_eq!(empty.len(), 0);
    pool.release(empty);
    assert_eq!(pool.bucket_count(), 0);
    assert_eq!(pool.spare_count(0), 0);
}

#[test]
fn a_full_bucket_drops_what_is_given_back() {
    let mut pool = FramePool::new();
    for i in 0..MAX_POOLED_BUFFERS_PER_SIZE {
        let b = pool.wrap(vec![i as u8; 8]);
        pool.release(b);
    }
    let extra = pool.wrap(vec![9u8; 8]);
    pool.release(extra);
    assert_eq!(pool.spare_count(8), MAX_POOLED_BUFFERS_PER_SIZE);
    let last = pool.acquire(8);
    assert_eq!(last.into_vec(), vec![(MAX_POOLED_BUFFERS_PER_SIZE - 1) as u8; 8]);
}
