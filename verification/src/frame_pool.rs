//! A pool of frame buffers, bucketed by size, so that a capture loop reuses
//! the buffers it hands out instead of allocating one per frame.
use std::collections::HashMap;

use vstd::prelude::*;

verus! {

broadcast use vstd::std_specs::hash::group_hash_axioms;

/// At most this many spare buffers are kept for one size.
pub const MAX_POOLED_BUFFERS_PER_SIZE: usize = 4;

/// The spare buffers of a pool: for each size, the buffers kept for it, the
/// one handed out next last.
pub type Buckets = Map<usize, Seq<Seq<u8>>>;

/// A pool in which every spare buffer has its bucket's size, no bucket
/// holds more than the limit, and there is no bucket for empty buffers.
pub open spec fn buckets_wf(b: Buckets) -> bool {
    &&& !b.contains_key(0usize)
    &&& forall|n: usize| #[trigger]
        b.contains_key(n) ==> b[n].len() <= MAX_POOLED_BUFFERS_PER_SIZE && forall|i: int|
            0 <= i < b[n].len() ==> #[trigger] b[n][i].len() == n
}

/// The bucket for size `n`; an absent bucket is empty.
pub open spec fn bucket(b: Buckets, n: usize) -> Seq<Seq<u8>> {
    if b.contains_key(n) {
        b[n]
    } else {
        seq![]
    }
}

/// What `acquire(len)` hands out: the last spare buffer of that size, else a
/// new zeroed one.
pub open spec fn acquired(b: Buckets, len: usize) -> Seq<u8> {
    if bucket(b, len).len() > 0 {
        bucket(b, len).last()
    } else {
        Seq::new(len as nat, |i: int| 0u8)
    }
}

/// The pool after `acquire(len)`.
pub open spec fn after_acquire(b: Buckets, len: usize) -> Buckets {
    if bucket(b, len).len() > 0 {
        b.insert(len, b[len].drop_last())
    } else {
        b
    }
}

/// The pool after a buffer holding `data` is given back: an empty buffer is
/// dropped, and so is one whose bucket is full.
pub open spec fn after_release(b: Buckets, data: Seq<u8>) -> Buckets {
    if data.len() == 0 {
        b
    } else {
        let n = data.len() as usize;
        let bk = bucket(b, n);
        b.insert(
            n,
            if bk.len() < MAX_POOLED_BUFFERS_PER_SIZE {
                bk.push(data)
            } else {
                bk
            },
        )
    }
}

#[derive(Debug)]
pub struct FramePool {
    buffers: HashMap<usize, Vec<Vec<u8>>>,
}

/// A buffer handed out by a pool; `FramePool::release` gives it back.
pub struct PooledFrameBuffer {
    data: Vec<u8>,
}

impl View for PooledFrameBuffer {
    type V = Seq<u8>;

    closed spec fn view(&self) -> Seq<u8> {
        self.data@
    }
}

impl PooledFrameBuffer {
    pub fn len(&self) -> (r: usize)
        ensures
            r == self@.len(),
    {
        self.data.len()
    }

    pub fn as_slice(&self) -> (r: &[u8])
        ensures
            r@ == self@,
    {
        self.data.as_slice()
    }

    /// The byte at `i`.
    pub fn get(&self, i: usize) -> (r: u8)
        requires
            i < self@.len(),
        ensures
            r == self@[i as int],
    {
        self.data[i]
    }

    /// Sets the byte at `i`.
    pub fn set(&mut self, i: usize, v: u8)
        requires
            i < old(self)@.len(),
        ensures
            final(self)@ == old(self)@.update(i as int, v),
    {
        self.data.set(i, v);
    }

    /// Overwrites the whole buffer with `src`, which has its length.
    pub fn copy_from_slice(&mut self, src: &[u8])
        requires
            src@.len() == old(self)@.len(),
        ensures
            final(self)@ == src@,
    {
        let mut i: usize = 0;
        while i < src.len()
            invariant
                i <= src@.len(),
                self.data@.len() == src@.len(),
                forall|j: int| 0 <= j < i ==> self.data@[j] == src@[j],
            decreases src@.len() - i,
        {
            self.data.set(i, src[i]);
            i += 1;
        }
        assert(self.data@ =~= src@);
    }

    /// The bytes, taken out of the pool's reach.
    pub fn into_vec(self) -> (r: Vec<u8>)
        ensures
            r@ == self@,
    {
        self.data
    }
}

impl FramePool {
    /// The spare buffers, per size.
    pub closed spec fn buckets(&self) -> Buckets {
        Map::new(
            |n: usize| self.buffers@.contains_key(n),
            |n: usize| self.buffers@[n]@.map_values(|v: Vec<u8>| v@),
        )
    }

    /// Every spare buffer has its bucket's size and no bucket is over the
    /// limit.
    pub open spec fn wf(&self) -> bool {
        buckets_wf(self.buckets())
    }

    pub fn new() -> (r: Self)
        ensures
            r.buckets() == Map::<usize, Seq<Seq<u8>>>::empty(),
            r.wf(),
    {
        let r = FramePool { buffers: HashMap::new() };
        assert(r.buckets() =~= Map::<usize, Seq<Seq<u8>>>::empty());
        r
    }

    /// A buffer of `len` bytes: a spare one of that size if there is one,
    /// else a new zeroed one.
    pub fn acquire(&mut self, len: usize) -> (r: PooledFrameBuffer)
        requires
            old(self).wf(),
        ensures
            r@ == acquired(old(self).buckets(), len),
            r@.len() == len,
            final(self).buckets() == after_acquire(old(self).buckets(), len),
            final(self).wf(),
    {
        let ghost b0 = self.buckets();
        let taken = self.buffers.remove(&len);
        match taken {
            Some(mut bk) => {
                let popped = bk.pop();
                let ghost rest = bk@;
                self.buffers.insert(len, bk);
                proof {
                    assert(self.buckets() =~= after_acquire(b0, len)) by {
                        if b0[len].len() > 0 {
                            assert(rest.map_values(|v: Vec<u8>| v@) =~= b0[len].drop_last());
                        } else {
                            assert(rest.map_values(|v: Vec<u8>| v@) =~= b0[len]);
                        }
                    }
                    assert(buckets_wf(self.buckets())) by {
                        assert forall|n: usize| #[trigger]
                            self.buckets().contains_key(n) implies self.buckets()[n].len()
                            <= MAX_POOLED_BUFFERS_PER_SIZE && forall|i: int|
                            0 <= i < self.buckets()[n].len() ==> #[trigger] self.buckets()[n][i].len()
                                == n by {
                            if n == len && b0[len].len() > 0 {
                                assert forall|i: int| 0 <= i < self.buckets()[n].len() implies #[trigger] self.buckets()[n][i].len() == n by {
                                    assert(self.buckets()[n][i] == b0[len][i]);
                                }
                            }
                        }
                    }
                }
                match popped {
                    Some(data) => {
                        proof {
                            assert(data@ == b0[len].last());
                        }
                        PooledFrameBuffer { data }
                    },
                    None => PooledFrameBuffer { data: vec_zeroed(len) },
                }
            },
            None => {
                proof {
                    assert(self.buckets() =~= b0);
                }
                PooledFrameBuffer { data: vec_zeroed(len) }
            },
        }
    }

    /// Hands out `data` as a buffer of this pool.
    pub fn wrap(&self, data: Vec<u8>) -> (r: PooledFrameBuffer)
        ensures
            r@ == data@,
    {
        PooledFrameBuffer { data }
    }

    /// Gives a buffer back: it is kept for its size unless it is empty or the
    /// bucket for its size is full.
    pub fn release(&mut self, buffer: PooledFrameBuffer)
        requires
            old(self).wf(),
        ensures
            final(self).buckets() == after_release(old(self).buckets(), buffer@),
            final(self).wf(),
    {
        let ghost b0 = self.buckets();
        let data = buffer.data;
        let len = data.len();
        if len == 0 {
            return;
        }
        let mut bk = match self.buffers.remove(&len) {
            Some(v) => v,
            None => Vec::new(),
        };
        let ghost old_bk = bk@;
        assert(old_bk.map_values(|v: Vec<u8>| v@) =~= bucket(b0, len));
        if bk.len() < MAX_POOLED_BUFFERS_PER_SIZE {
            bk.push(data);
            assert(bk@.map_values(|v: Vec<u8>| v@) =~= bucket(b0, len).push(data@));
        }
        self.buffers.insert(len, bk);
        proof {
            assert(self.buckets() =~= after_release(b0, data@));
            assert(buckets_wf(self.buckets())) by {
                assert forall|n: usize| #[trigger] self.buckets().contains_key(n) implies self.buckets()[n].len()
                    <= MAX_POOLED_BUFFERS_PER_SIZE && forall|i: int|
                    0 <= i < self.buckets()[n].len() ==> #[trigger] self.buckets()[n][i].len()
                        == n by {
                    if n == len {
                        assert forall|i: int| 0 <= i < self.buckets()[n].len() implies #[trigger] self.buckets()[n][i].len() == n by {
                            if i < bucket(b0, len).len() {
                                assert(self.buckets()[n][i] == bucket(b0, len)[i]);
                            }
                        }
                    }
                }
            }
        }
    }

    /// How many spare buffers of `len` bytes the pool holds.
    pub fn spare_count(&self, len: usize) -> (r: usize)
        ensures
            r == bucket(self.buckets(), len).len(),
    {
        match self.buffers.get(&len) {
            Some(bk) => {
                assert(bk@.map_values(|v: Vec<u8>| v@).len() == bk@.len());
                bk.len()
            },
            None => 0,
        }
    }

    /// How many sizes the pool has a bucket for.
    pub fn bucket_count(&self) -> (r: usize)
        ensures
            r == self.buckets().dom().len(),
    {
        assert(self.buckets().dom() =~= self.buffers@.dom());
        self.buffers.len()
    }
}

/// `len` zero bytes.
fn vec_zeroed(len: usize) -> (r: Vec<u8>)
    ensures
        r@ == Seq::new(len as nat, |i: int| 0u8),
{
    let mut v: Vec<u8> = Vec::new();
    let mut i: usize = 0;
    while i < len
        invariant
            i <= len,
            v@ == Seq::new(i as nat, |k: int| 0u8),
        decreases len - i,
    {
        v.push(0u8);
        assert(v@ =~= Seq::new((i + 1) as nat, |k: int| 0u8));
        i += 1;
    }
    v
}

/// A buffer given back to a pool whose bucket for its size has room is the
/// buffer that the next `acquire` of that size hands out, and the pool is
/// then as before but for an empty bucket for that size.
pub proof fn law_released_buffer_is_reused(b: Buckets, data: Seq<u8>)
    requires
        buckets_wf(b),
        0 < data.len() <= usize::MAX,
        bucket(b, data.len() as usize).len() < MAX_POOLED_BUFFERS_PER_SIZE,
    ensures
        acquired(after_release(b, data), data.len() as usize) == data,
        after_acquire(after_release(b, data), data.len() as usize) == b.insert(
            data.len() as usize,
            bucket(b, data.len() as usize),
        ),
{
    let n = data.len() as usize;
    let bk = bucket(b, n);
    assert(bk.push(data).drop_last() =~= bk);
    assert(after_release(b, data).insert(n, bk) =~= b.insert(n, bk));
}

/// A buffer given back is never handed out for another size.
pub proof fn law_sizes_do_not_share_buckets(b: Buckets, data: Seq<u8>, len: usize)
    requires
        data.len() <= usize::MAX,
        len != data.len(),
    ensures
        acquired(after_release(b, data), len) == acquired(b, len),
        after_acquire(after_release(b, data), len) == after_release(after_acquire(b, len), data),
{
    let r = after_release(b, data);
    assert(bucket(r, len) == bucket(b, len));
    if data.len() > 0 {
        let n = data.len() as usize;
        assert(bucket(after_acquire(b, len), n) == bucket(b, n));
        if bucket(b, len).len() > 0 {
            assert(after_acquire(r, len) =~= after_release(after_acquire(b, len), data));
        }
    }
}

/// Every buffer that `acquire` hands out has the length asked for, and the
/// pool keeps its shape through `acquire` and `release`.
pub proof fn law_pool_stays_well_formed(b: Buckets, data: Seq<u8>, len: usize)
    requires
        buckets_wf(b),
        data.len() <= usize::MAX,
    ensures
        acquired(b, len).len() == len,
        buckets_wf(after_acquire(b, len)),
        buckets_wf(after_release(b, data)),
{
    let a = after_acquire(b, len);
    assert forall|n: usize| #[trigger] a.contains_key(n) implies a[n].len()
        <= MAX_POOLED_BUFFERS_PER_SIZE && forall|i: int| 0 <= i < a[n].len() ==> #[trigger] a[n][i].len() == n by {
        if n == len && bucket(b, len).len() > 0 {
            assert forall|i: int| 0 <= i < a[n].len() implies #[trigger] a[n][i].len() == n by {
                assert(a[n][i] == b[len][i]);
            }
        }
    }
    let r = after_release(b, data);
    if data.len() > 0 {
        let m = data.len() as usize;
        assert forall|n: usize| #[trigger] r.contains_key(n) implies r[n].len()
            <= MAX_POOLED_BUFFERS_PER_SIZE && forall|i: int| 0 <= i < r[n].len() ==> #[trigger] r[n][i].len() == n by {
            if n == m {
                assert forall|i: int| 0 <= i < r[n].len() implies #[trigger] r[n][i].len() == n by {
                    if i < bucket(b, m).len() {
                        assert(r[n][i] == bucket(b, m)[i]);
                    }
                }
            }
        }
    }
}

/// A pool reached from `new` by `acquire` and `release` never holds a bucket
/// for empty buffers: neither call makes one.
pub proof fn law_no_bucket_for_empty_buffers(b: Buckets, data: Seq<u8>, len: usize)
    requires
        buckets_wf(b),
        data.len() <= usize::MAX,
    ensures
        !after_acquire(b, len).contains_key(0usize),
        !after_release(b, data).contains_key(0usize),
{
}

/// A buffer given back when the bucket for its size is full is dropped: the
/// pool is unchanged.
pub proof fn law_full_bucket_drops_released_buffer(b: Buckets, data: Seq<u8>)
    requires
        buckets_wf(b),
        0 < data.len() <= usize::MAX,
        bucket(b, data.len() as usize).len() == MAX_POOLED_BUFFERS_PER_SIZE,
    ensures
        after_release(b, data) == b,
{
    assert(after_release(b, data) =~= b);
}

} // verus!
