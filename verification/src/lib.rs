//! Zero-copy ownership of a heap-allocated byte buffer.
//!
//! `RawResource::refine` consumes a non-empty `Vec<u8>` and freezes it into a
//! move-only resource that exposes a read-only view of the bytes. No byte is
//! copied: the vector itself — its pointer, length and capacity — moves into
//! the resource, and when the resource's lifetime ends the vector's own
//! teardown returns the allocation to the allocator exactly once, with the
//! original capacity.

use vstd::prelude::*;

verus! {

/// The one way construction can fail: the input held no bytes.
#[derive(Debug, Clone, Copy, PartialEq, Eq, Structural)]
pub enum BufferError {
    /// `refine` was given an empty buffer; a resource must own at least one byte.
    EmptyBuffer,
}

/// A move-only resource owning a contiguous, non-empty byte allocation.
///
/// The buffer is stored as the consumed vector itself, so the allocation's
/// capacity travels with it and its release — once, on drop, with that
/// capacity — is the vector's own. The start address of the allocation is
/// recorded at construction and never changes while the resource lives.
///
/// The type deliberately implements neither `Clone` nor `Copy`: duplicating
/// it would create two owners of one allocation.
pub struct RawResource {
    data: Vec<u8>,
    addr: usize,
    cap: usize,
}

impl View for RawResource {
    type V = Seq<u8>;

    closed spec fn view(&self) -> Seq<u8> {
        self.data@
    }
}

/// Relies on `Vec::as_ptr`: returns the address of the first byte of the
/// vector's allocation, which std documents as never null. Beyond being
/// non-null the address is whatever the allocator handed out, so nothing
/// more is assumed of its value.
#[verifier::external_body]
fn vec_address(v: &Vec<u8>) -> (r: usize)
    ensures
        r != 0,
{
    v.as_ptr() as usize
}

/// Relies on `Vec::capacity`: the number of bytes the allocation can hold,
/// which std documents as never less than the vector's length.
#[verifier::external_body]
fn vec_capacity(v: &Vec<u8>) -> (c: usize)
    ensures
        c >= v@.len(),
{
    v.capacity()
}

impl RawResource {
    /// The resource owns at least one byte, its allocation's recorded
    /// capacity covers every valid byte, and its recorded start address is
    /// non-null.
    #[verifier::type_invariant]
    spec fn wf(self) -> bool {
        self@.len() > 0 && self.cap >= self@.len() && self.addr != 0
    }

    /// The start address of the owned allocation, as recorded at construction.
    pub closed spec fn addr_spec(&self) -> usize {
        self.addr
    }

    /// The allocation's capacity in bytes, as recorded at construction.
    pub closed spec fn cap_spec(&self) -> usize {
        self.cap
    }

    /// Freezes a byte vector into an owned resource without copying a byte.
    ///
    /// Succeeds exactly when `data` is non-empty; the resource then views to
    /// precisely the bytes of `data`. An empty input is rejected with
    /// [`BufferError::EmptyBuffer`] and no resource comes to exist.
    pub fn refine(data: Vec<u8>) -> (r: Result<RawResource, BufferError>)
        ensures
            r is Ok <==> data@.len() > 0,
            r matches Ok(res) ==> res@ == data@ && res.cap_spec() >= res@.len()
                && res.addr_spec() != 0,
            r matches Err(e) ==> e == BufferError::EmptyBuffer && data@.len() == 0,
    {
        if data.is_empty() {
            return Err(BufferError::EmptyBuffer);
        }
        let addr = vec_address(&data);
        let cap = vec_capacity(&data);
        Ok(RawResource { data, addr, cap })
    }

    /// The start address of the buffer: non-null, and stable for the
    /// resource's whole life, moves included. It is valid for reads only
    /// while the resource is alive; callers must not retain it past the
    /// resource's destruction.
    pub fn as_ptr(&self) -> (p: usize)
        ensures
            p == self.addr_spec(),
            p != 0,
    {
        proof {
            use_type_invariant(self);
        }
        self.addr
    }

    /// The number of valid bytes; positive for every resource.
    pub fn len(&self) -> (n: usize)
        ensures
            n == self@.len(),
            n > 0,
    {
        proof {
            use_type_invariant(self);
        }
        self.data.len()
    }

    /// Whether the resource holds no bytes — `false` for every resource,
    /// since construction rejects empty input.
    pub fn is_empty(&self) -> (b: bool)
        ensures
            b == (self@.len() == 0),
            !b,
    {
        proof {
            use_type_invariant(self);
        }
        self.data.is_empty()
    }

    /// A read-only view over exactly the resource's bytes. The slice borrows
    /// the resource and so cannot outlive it.
    pub fn as_slice(&self) -> (s: &[u8])
        ensures
            s@ == self@,
            s@.len() > 0,
    {
        proof {
            use_type_invariant(self);
        }
        self.data.as_slice()
    }
}

} // verus!
