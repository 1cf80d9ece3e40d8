//! Access to a guest's linear memory, always checked against its size, and
//! the guest's single scratch buffer that the host asks to be sized.
use vstd::prelude::*;
use crate::convert::from_i32;
use crate::convert::u32_bits;

verus! {

/// Whether `len` bytes from `ptr` lie inside a memory of `size` bytes.
pub open spec fn region_fits(ptr: u64, len: u64, size: nat) -> bool {
    ptr + len <= size
}

/// The start and end offsets of `len` bytes from `ptr` in a memory of
/// `size` bytes, or `None` where they do not all lie inside it.
pub fn checked_region(ptr: u64, len: u64, size: usize) -> (r: Option<(usize, usize)>)
    ensures
        r is Some <==> region_fits(ptr, len, size as nat),
        r matches Some((a, b)) ==> a == ptr && b == ptr + len,
{
    if ptr > size as u64 || len > size as u64 - ptr {
        None
    } else {
        Some((ptr as usize, (ptr + len) as usize))
    }
}

/// A copy of the `len` bytes at `ptr` in `memory`, or `None` where they do
/// not all lie inside it.
pub fn read_region(memory: &[u8], ptr: u64, len: u64) -> (r: Option<Vec<u8>>)
    ensures
        r is Some <==> region_fits(ptr, len, memory@.len()),
        r matches Some(v) ==> v@ == memory@.subrange(ptr as int, ptr + len),
{
    match checked_region(ptr, len, memory.len()) {
        None => None,
        Some((start, end)) => {
            let mut out: Vec<u8> = Vec::new();
            let mut i: usize = start;
            while i < end
                invariant
                    start <= i <= end <= memory@.len(),
                    out@ =~= memory@.subrange(start as int, i as int),
                decreases end - i,
            {
                out.push(memory[i]);
                i = i + 1;
                assert(out@ =~= memory@.subrange(start as int, i as int));
            }
            Some(out)
        },
    }
}

/// The guest's one scratch buffer, handed to the host before each call.
pub struct ScratchBuffer {
    bytes: Vec<u8>,
}

impl ScratchBuffer {
    /// The buffer's contents.
    pub closed spec fn view(&self) -> Seq<u8> {
        self.bytes@
    }

    /// An empty buffer.
    pub fn new() -> (r: ScratchBuffer)
        ensures
            r@.len() == 0,
    {
        ScratchBuffer { bytes: Vec::new() }
    }

    /// Discards the contents and makes the buffer `size` zero bytes long;
    /// `size` is the signed length from the call boundary, read bit for bit.
    pub fn alloc_buffer(&mut self, size: i32)
        ensures
            final(self)@ == Seq::new(u32_bits(size) as nat, |i: int| 0u8),
    {
        let n: u32 = from_i32(size);
        self.bytes.clear();
        let mut i: u32 = 0;
        while i < n
            invariant
                i <= n,
                n as int == u32_bits(size),
                self.bytes@ =~= Seq::new(i as nat, |k: int| 0u8),
            decreases n - i,
        {
            self.bytes.push(0u8);
            i = i + 1;
        }
    }

    /// The buffer's contents.
    pub fn as_slice(&self) -> (r: &[u8])
        ensures
            r@ == self@,
    {
        self.bytes.as_slice()
    }
}

} // verus!
