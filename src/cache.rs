//! The host's record of the last buffer the guest allocator handed out,
//! reused while a request fits in it.
use vstd::prelude::*;

verus! {

/// Address and size of the guest buffer granted last.
pub struct ManagedMemory {
    ptr: u64,
    len: u32,
}

/// The cached size after successful requests of `sizes`, starting from none: a request
/// larger than the cache is allocated and becomes the cache.
pub open spec fn cached_len_after(sizes: Seq<u32>) -> nat
    decreases sizes.len(),
{
    if sizes.len() == 0 {
        0
    } else {
        let prev = cached_len_after(sizes.drop_last());
        if sizes.last() > prev {
            sizes.last() as nat
        } else {
            prev
        }
    }
}

/// The largest of `sizes`, or zero where there are none.
pub open spec fn max_of(sizes: Seq<u32>) -> nat
    decreases sizes.len(),
{
    if sizes.len() == 0 {
        0
    } else {
        let m = max_of(sizes.drop_last());
        if sizes.last() > m {
            sizes.last() as nat
        } else {
            m
        }
    }
}

impl ManagedMemory {
    /// Address of the cached buffer.
    pub closed spec fn cached_ptr(&self) -> u64 {
        self.ptr
    }

    /// Size of the cached buffer; zero before the first allocation.
    pub closed spec fn cached_len(&self) -> u32 {
        self.len
    }

    /// Whether a request for `size` bytes has to go to the guest allocator.
    pub open spec fn needs_alloc(&self, size: u32) -> bool {
        size > self.cached_len()
    }

    /// A cache that holds no buffer yet.
    pub fn new() -> (r: ManagedMemory)
        ensures
            r.cached_ptr() == 0,
            r.cached_len() == 0,
    {
        ManagedMemory { ptr: 0, len: 0 }
    }

    /// The cached buffer's address and size.
    pub fn cached(&self) -> (r: (u64, u32))
        ensures
            r == (self.cached_ptr(), self.cached_len()),
    {
        (self.ptr, self.len)
    }

    /// An address of at least `size` writable bytes in the guest. Where the
    /// cached buffer is large enough its address comes back and `allocator` is
    /// not called. Otherwise `allocator` is asked for `size` bytes; the address
    /// it gives becomes the cache, with `size`, and an error leaves the cache
    /// as it was.
    pub fn ensure_capacity<F, E>(&mut self, size: u32, allocator: F) -> (r: Result<u64, E>)
        where
            F: FnOnce(u32) -> Result<u64, E>,
        requires
            size > old(self).cached_len() ==> allocator.requires((size,)),
        ensures
            !old(self).needs_alloc(size) ==> r == Ok::<u64, E>(old(self).cached_ptr())
                && *final(self) == *old(self),
            old(self).needs_alloc(size) ==> allocator.ensures((size,), r),
            old(self).needs_alloc(size) ==> match r {
                Ok(p) => final(self).cached_ptr() == p && final(self).cached_len() == size,
                Err(_) => *final(self) == *old(self),
            },
    {
        if self.len >= size {
            return Ok(self.ptr);
        }
        let res = allocator(size);
        match res {
            Ok(p) => {
                self.ptr = p;
                self.len = size;
                Ok(p)
            },
            Err(e) => Err(e),
        }
    }
}

/// Where every allocation succeeds, the cache grows to the largest size asked
/// for so far, so a request goes to the guest allocator exactly when it
/// exceeds every earlier request.
pub proof fn lemma_alloc_only_when_larger(sizes: Seq<u32>, i: int)
    requires
        0 <= i < sizes.len(),
    ensures
        cached_len_after(sizes) == max_of(sizes),
        (sizes[i] > cached_len_after(sizes.subrange(0, i))) <==> (sizes[i] > max_of(
            sizes.subrange(0, i),
        )),
    decreases sizes.len(),
{
    lemma_cache_is_max(sizes);
    lemma_cache_is_max(sizes.subrange(0, i));
}

proof fn lemma_cache_is_max(sizes: Seq<u32>)
    ensures
        cached_len_after(sizes) == max_of(sizes),
    decreases sizes.len(),
{
    if sizes.len() > 0 {
        lemma_cache_is_max(sizes.drop_last());
    }
}

} // verus!
