//! Fixed-capacity frame geometry buffers.
//!
//! Each presentation-image slot owns one vertex buffer and one index buffer,
//! host-visible rings that are rewritten from offset zero every frame.  The
//! capacity is fixed at construction and is a hard ceiling: a frame whose
//! geometry does not fit is rejected with a fatal error instead of writing
//! past the region.  Appends go through a bounds-checked write cursor; an
//! exact fit is allowed, only strict overflow fails.
use vstd::prelude::*;

use crate::errors::BackendError;

verus! {

/// A bounds-checked write cursor over a fixed-capacity byte region.
pub struct ByteBuffer {
    data: Vec<u8>,
    capacity: usize,
}

impl ByteBuffer {
    /// The bytes written this frame never exceed the capacity.
    pub open spec fn wf(self) -> bool {
        self.contents().len() <= self.spec_capacity()
    }

    /// The bytes written since the last reset, in order.
    pub closed spec fn contents(self) -> Seq<u8> {
        self.data@
    }

    /// The fixed byte capacity of the region.
    pub closed spec fn spec_capacity(self) -> int {
        self.capacity as int
    }

    /// An empty buffer with the given fixed capacity.
    pub fn new(capacity: usize) -> (r: Self)
        ensures
            r.wf(),
            r.contents() == Seq::<u8>::empty(),
            r.spec_capacity() == capacity,
    {
        ByteBuffer { data: Vec::new(), capacity }
    }

    /// Forget this frame's bytes; the next frame overwrites from offset zero.
    pub fn reset(&mut self)
        ensures
            final(self).wf(),
            final(self).contents() == Seq::<u8>::empty(),
            final(self).spec_capacity() == old(self).spec_capacity(),
    {
        self.data.clear();
    }

    /// Number of bytes written this frame.
    pub fn len(&self) -> (r: usize)
        ensures
            r == self.contents().len(),
    {
        self.data.len()
    }

    /// The fixed byte capacity.
    pub fn capacity(&self) -> (r: usize)
        ensures
            r == self.spec_capacity(),
    {
        self.capacity
    }

    /// The bytes written this frame, for the host to copy into the mapped
    /// GPU region.
    pub fn written(&self) -> (r: &Vec<u8>)
        ensures
            r@ == self.contents(),
    {
        &self.data
    }

    /// Append `bytes` at the write cursor.  Succeeds exactly when the result
    /// still fits the capacity; on overflow the buffer is left unchanged.
    pub fn append(&mut self, bytes: &Vec<u8>) -> (r: Result<(), BackendError>)
        requires
            old(self).wf(),
        ensures
            final(self).wf(),
            final(self).spec_capacity() == old(self).spec_capacity(),
            r is Ok <==> old(self).contents().len() + bytes@.len() <= old(self).spec_capacity(),
            r is Ok ==> final(self).contents() == old(self).contents() + bytes@,
            r is Err ==> *final(self) == *old(self) && r == Err::<(), BackendError>(
                BackendError::GeometryOverflow,
            ),
    {
        if bytes.len() <= self.capacity - self.data.len() {
            self.data.extend_from_slice(bytes.as_slice());
            proof {
                assert(self.data@ =~= old(self).data@ + bytes@);
            }
            Ok(())
        } else {
            Err(BackendError::GeometryOverflow)
        }
    }
}

/// A bounds-checked write cursor over a fixed-capacity region of 32-bit
/// indices; the capacity is counted in bytes, four per index.
pub struct IndexBuffer {
    data: Vec<u32>,
    capacity: usize,
}

impl IndexBuffer {
    /// The bytes written this frame never exceed the capacity.
    pub open spec fn wf(self) -> bool {
        4 * self.contents().len() <= self.spec_capacity()
    }

    /// The indices written since the last reset, in order.
    pub closed spec fn contents(self) -> Seq<u32> {
        self.data@
    }

    /// The fixed byte capacity of the region.
    pub closed spec fn spec_capacity(self) -> int {
        self.capacity as int
    }

    /// An empty buffer with the given fixed byte capacity.
    pub fn new(capacity: usize) -> (r: Self)
        ensures
            r.wf(),
            r.contents() == Seq::<u32>::empty(),
            r.spec_capacity() == capacity,
    {
        IndexBuffer { data: Vec::new(), capacity }
    }

    /// Forget this frame's indices; the next frame overwrites from offset
    /// zero.
    pub fn reset(&mut self)
        ensures
            final(self).wf(),
            final(self).contents() == Seq::<u32>::empty(),
            final(self).spec_capacity() == old(self).spec_capacity(),
    {
        self.data.clear();
    }

    /// Number of indices written this frame.
    pub fn len(&self) -> (r: usize)
        ensures
            r == self.contents().len(),
    {
        self.data.len()
    }

    /// The fixed byte capacity.
    pub fn capacity(&self) -> (r: usize)
        ensures
            r == self.spec_capacity(),
    {
        self.capacity
    }

    /// The indices written this frame, for the host to copy into the mapped
    /// GPU region.
    pub fn written(&self) -> (r: &Vec<u32>)
        ensures
            r@ == self.contents(),
    {
        &self.data
    }

    /// Append `indices` at the write cursor.  Succeeds exactly when the
    /// result still fits the byte capacity; on overflow the buffer is left
    /// unchanged.
    pub fn append(&mut self, indices: &Vec<u32>) -> (r: Result<(), BackendError>)
        requires
            old(self).wf(),
        ensures
            final(self).wf(),
            final(self).spec_capacity() == old(self).spec_capacity(),
            r is Ok <==> 4 * (old(self).contents().len() + indices@.len()) <= old(
                self,
            ).spec_capacity(),
            r is Ok ==> final(self).contents() == old(self).contents() + indices@,
            r is Err ==> *final(self) == *old(self) && r == Err::<(), BackendError>(
                BackendError::GeometryOverflow,
            ),
    {
        let room: usize = (self.capacity - 4 * self.data.len()) / 4;
        if indices.len() <= room {
            self.data.extend_from_slice(indices.as_slice());
            proof {
                assert(self.data@ =~= old(self).data@ + indices@);
            }
            Ok(())
        } else {
            Err(BackendError::GeometryOverflow)
        }
    }
}

} // verus!
