//! The host side of one guest instance: the actor store, the pending return
//! cell, the in-flight call flag, and the placing of call arguments.
use vstd::prelude::*;
use crate::cache::ManagedMemory;
use crate::convert::from_i32;
use crate::convert::from_i64;
use crate::convert::u32_bits;
use crate::convert::u64_bits;
use crate::frame::encode_frame;
use crate::frame::frame_of;
use crate::memory::read_region;
use crate::memory::region_fits;

verus! {

/// Why a host-side step of a call did not go through.
#[derive(Debug, Clone, Copy, PartialEq, Eq, Structural)]
pub enum CallError {
    /// A call is already in flight, or its return value was not drained.
    Busy,
    /// No call is in flight.
    NoCall,
    /// The guest function itself failed.
    CallFailed,
    /// The guest function returned without handing back a return value.
    MissingReturn,
    /// A pointer and length from the guest leave its memory.
    OutOfBounds,
}

/// The region of `len` bytes at `ptr`, both as they cross the call boundary,
/// lies inside a memory of `size` bytes.
pub open spec fn boundary_region_fits(ptr: i64, len: i32, size: nat) -> bool {
    region_fits(u64_bits(ptr) as u64, u32_bits(len) as u64, size)
}

/// The bytes of that region.
pub open spec fn boundary_region(memory: Seq<u8>, ptr: i64, len: i32) -> Seq<u8> {
    memory.subrange(u64_bits(ptr), u64_bits(ptr) + u32_bits(len))
}

/// Host state for one guest instance.
pub struct Runtime {
    store: Vec<Vec<u8>>,
    return_value: Option<Vec<u8>>,
    in_call: bool,
}

impl Runtime {
    /// The recorded actor blobs, in the order they were recorded.
    pub closed spec fn blobs(&self) -> Seq<Seq<u8>> {
        self.store@.map_values(|b: Vec<u8>| b@)
    }

    /// The pending return cell.
    pub closed spec fn pending(&self) -> Option<Seq<u8>> {
        match self.return_value {
            Some(v) => Some(v@),
            None => None,
        }
    }

    /// Whether a call has begun and not yet finished.
    pub closed spec fn in_call(&self) -> bool {
        self.in_call
    }

    /// Whether a new call would interleave with an earlier one.
    pub open spec fn busy(&self) -> bool {
        self.in_call() || self.pending() is Some
    }

    /// An empty store, no pending return, no call in flight.
    pub fn new() -> (r: Runtime)
        ensures
            r.blobs() == Seq::<Seq<u8>>::empty(),
            r.pending() is None,
            !r.in_call(),
    {
        let r = Runtime { store: Vec::new(), return_value: None, in_call: false };
        assert(r.blobs() =~= Seq::<Seq<u8>>::empty());
        r
    }

    /// A copy of the bytes that a guest names by a boundary pointer and length,
    /// or `None` where they leave `memory`.
    pub fn read_slice(&self, memory: &[u8], ptr: i64, len: i32) -> (r: Option<Vec<u8>>)
        ensures
            r is Some <==> boundary_region_fits(ptr, len, memory@.len()),
            r matches Some(v) ==> v@ == boundary_region(memory@, ptr, len),
    {
        let p: u64 = from_i64(ptr);
        let n: u32 = from_i32(len);
        read_region(memory, p, n as u64)
    }

    /// Appends to the store a copy of the bytes the guest names; nothing
    /// changes where they leave `memory`.
    pub fn record_actor(&mut self, memory: &[u8], ptr: i64, len: i32) -> (r: Result<(), CallError>)
        ensures
            r is Ok <==> boundary_region_fits(ptr, len, memory@.len()),
            r is Ok ==> final(self).blobs() == old(self).blobs().push(
                boundary_region(memory@, ptr, len),
            ),
            r is Err ==> r == Err::<(), CallError>(CallError::OutOfBounds),
            r is Err ==> final(self).blobs() == old(self).blobs(),
            final(self).pending() == old(self).pending(),
            final(self).in_call() == old(self).in_call(),
    {
        match self.read_slice(memory, ptr, len) {
            None => Err(CallError::OutOfBounds),
            Some(bytes) => {
                let ghost b = bytes@;
                self.store.push(bytes);
                assert(self.blobs() =~= old(self).blobs().push(b));
                Ok(())
            },
        }
    }

    /// Puts a copy of the bytes the guest names into the pending return cell;
    /// `Ok(true)` tells that an undrained value was overwritten. Nothing
    /// changes where the bytes leave `memory`.
    pub fn set_return(&mut self, memory: &[u8], ptr: i64, len: i32) -> (r: Result<bool, CallError>)
        ensures
            r is Ok <==> boundary_region_fits(ptr, len, memory@.len()),
            r matches Ok(replaced) ==> replaced == old(self).pending() is Some,
            r is Ok ==> final(self).pending() == Some(boundary_region(memory@, ptr, len)),
            r is Err ==> r == Err::<bool, CallError>(CallError::OutOfBounds),
            r is Err ==> final(self).pending() == old(self).pending(),
            final(self).blobs() == old(self).blobs(),
            final(self).in_call() == old(self).in_call(),
    {
        match self.read_slice(memory, ptr, len) {
            None => Err(CallError::OutOfBounds),
            Some(bytes) => {
                let replaced = self.return_value.is_some();
                self.return_value = Some(bytes);
                Ok(replaced)
            },
        }
    }

    /// Marks a call as in flight; refused while another is, or while a
    /// return value waits to be drained.
    pub fn begin_call(&mut self) -> (r: Result<(), CallError>)
        ensures
            old(self).busy() ==> r == Err::<(), CallError>(CallError::Busy) && *final(self)
                == *old(self),
            !old(self).busy() ==> r is Ok && final(self).in_call() && final(self).pending()
                is None && final(self).blobs() == old(self).blobs(),
    {
        if self.in_call || self.return_value.is_some() {
            return Err(CallError::Busy);
        }
        self.in_call = true;
        Ok(())
    }

    /// Ends the call in flight, given whether the guest function itself
    /// succeeded, and drains the pending return cell. The return bytes come
    /// back only where the call succeeded and the guest handed them over.
    pub fn finish_call(&mut self, call_ok: bool) -> (r: Result<Vec<u8>, CallError>)
        ensures
            !final(self).in_call(),
            final(self).pending() is None,
            final(self).blobs() == old(self).blobs(),
            !old(self).in_call() ==> r == Err::<Vec<u8>, CallError>(CallError::NoCall),
            old(self).in_call() && !call_ok ==> r == Err::<Vec<u8>, CallError>(
                CallError::CallFailed,
            ),
            old(self).in_call() && call_ok && old(self).pending() is None ==> r == Err::<
                Vec<u8>,
                CallError,
            >(CallError::MissingReturn),
            old(self).in_call() && call_ok && old(self).pending() is Some ==> (r matches Ok(v)
                && Some(v@) == old(self).pending()),
    {
        let was_in_call = self.in_call;
        self.in_call = false;
        let pending = self.return_value.take();
        if !was_in_call {
            return Err(CallError::NoCall);
        }
        if !call_ok {
            return Err(CallError::CallFailed);
        }
        match pending {
            None => Err(CallError::MissingReturn),
            Some(v) => Ok(v),
        }
    }

    /// Takes the pending return value out of its cell, leaving it empty.
    pub fn pop_return(&mut self) -> (r: Option<Vec<u8>>)
        ensures
            r matches Some(v) ==> old(self).pending() == Some(v@),
            r is None ==> old(self).pending() is None,
            final(self).pending() is None,
            final(self).blobs() == old(self).blobs(),
            final(self).in_call() == old(self).in_call(),
    {
        self.return_value.take()
    }

    /// Number of recorded actor blobs.
    pub fn actor_count(&self) -> (r: usize)
        ensures
            r == self.blobs().len(),
    {
        self.store.len()
    }

    /// The actor blob recorded `i`-th.
    pub fn actor(&self, i: usize) -> (r: Option<&Vec<u8>>)
        ensures
            i < self.blobs().len() ==> (r matches Some(b) && b@ == self.blobs()[i as int]),
            i >= self.blobs().len() ==> r is None,
    {
        if i < self.store.len() {
            Some(&self.store[i])
        } else {
            None
        }
    }
}

/// The store after `blobs` are recorded one after another onto `start`.
pub open spec fn store_after(start: Seq<Seq<u8>>, blobs: Seq<Seq<u8>>) -> Seq<Seq<u8>>
    decreases blobs.len(),
{
    if blobs.len() == 0 {
        start
    } else {
        store_after(start, blobs.drop_last()).push(blobs.last())
    }
}

/// The store only grows: after `k` recordings onto an empty store it holds
/// exactly those `k` blobs, in the order they were recorded.
pub proof fn lemma_store_append_only(blobs: Seq<Seq<u8>>)
    ensures
        store_after(Seq::empty(), blobs) == blobs,
        store_after(Seq::empty(), blobs).len() == blobs.len(),
    decreases blobs.len(),
{
    if blobs.len() > 0 {
        lemma_store_append_only(blobs.drop_last());
        assert(blobs.drop_last().push(blobs.last()) =~= blobs);
    }
}

/// Once a call has begun, a second one is refused until the first is
/// finished and its return value drained.
pub proof fn lemma_second_call_detected(rt: Runtime)
    requires
        rt.in_call() || rt.pending() is Some,
    ensures
        rt.busy(),
{
}

/// Where the host writes a call's arguments: the guest address, the payload
/// length, and the frame to write there.
pub struct Placement {
    pub ptr: u64,
    pub len: u32,
    pub frame: Vec<u8>,
}

/// Why the arguments of a call could not be placed.
#[derive(Debug, Clone, Copy, PartialEq, Eq)]
pub enum PlaceError<E> {
    /// The frame would not fit in a 32-bit size.
    TooLarge,
    /// The guest allocator failed.
    Alloc(E),
}

/// Frames `payload` and gets a guest buffer that holds the frame, from the
/// cache or else from `allocator`.
pub fn place_args<F, E>(mm: &mut ManagedMemory, payload: &[u8], allocator: F) -> (r: Result<
    Placement,
    PlaceError<E>,
>) where F: FnOnce(u32) -> Result<u64, E>
    requires
        payload@.len() + 8 <= u32::MAX ==> (old(mm).needs_alloc((payload@.len() + 8) as u32)
            ==> allocator.requires(((payload@.len() + 8) as u32,))),
    ensures
        payload@.len() + 8 > u32::MAX ==> (r matches Err(PlaceError::TooLarge))
            && *final(mm) == *old(mm),
        payload@.len() + 8 <= u32::MAX ==> ({
            let size = (payload@.len() + 8) as u32;
            &&& r matches Ok(p) ==> p.len == payload@.len() && p.frame@ == frame_of(payload@)
            &&& !old(mm).needs_alloc(size) ==> (r matches Ok(p) && p.ptr == old(mm).cached_ptr())
                && *final(mm) == *old(mm)
            &&& old(mm).needs_alloc(size) ==> match r {
                Ok(p) => allocator.ensures((size,), Ok::<u64, E>(p.ptr)) && final(mm).cached_ptr()
                    == p.ptr && final(mm).cached_len() == size,
                Err(PlaceError::Alloc(e)) => allocator.ensures((size,), Err::<u64, E>(e))
                    && *final(mm) == *old(mm),
                Err(PlaceError::TooLarge) => false,
            }
        }),
{
    if payload.len() > 0xffff_fff7 {
        return Err(PlaceError::TooLarge);
    }
    let len: u32 = payload.len() as u32;
    let size: u32 = len + 8;
    match mm.ensure_capacity(size, allocator) {
        Ok(ptr) => {
            let frame = encode_frame(payload);
            Ok(Placement { ptr, len, frame })
        },
        Err(e) => Err(PlaceError::Alloc(e)),
    }
}

} // verus!
