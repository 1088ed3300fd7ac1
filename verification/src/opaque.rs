//! The storage of one engine-owned value, as the host sees it.

use vstd::prelude::*;

verus! {

/// Number of bytes that the runtime reserves for one node path.
pub const OPAQUE_SIZE: usize = 8;

/// A fixed-size region of bytes whose layout belongs to the runtime.
///
/// The host carries these bytes around and hands them back to the runtime; it never
/// reads a meaning into them.
#[derive(Clone, Copy)]
pub struct Opaque {
    storage: [u8; OPAQUE_SIZE],
}

impl Opaque {
    /// The bytes of the region, in order.
    pub closed spec fn bytes(&self) -> Seq<u8> {
        self.storage@
    }

    /// A region always has [`OPAQUE_SIZE`] bytes.
    pub proof fn bytes_len(&self)
        ensures
            self.bytes().len() == OPAQUE_SIZE,
    {
    }

    /// Two regions with the same bytes are the same value.
    pub proof fn same_bytes(a: Opaque, b: Opaque)
        requires
            a.bytes() == b.bytes(),
        ensures
            a == b,
    {
        assert forall|i: int| 0 <= i < OPAQUE_SIZE implies a.storage[i] == b.storage[i] by {
            assert(a.storage@[i] == b.storage@[i]);
        }
        assert(a.storage =~= b.storage);
    }

    /// Wraps the bytes as they came from the runtime.
    pub fn from_bytes(storage: [u8; OPAQUE_SIZE]) -> (o: Self)
        ensures
            o.bytes() == storage@,
    {
        Opaque { storage }
    }

    /// Hands the bytes back, unchanged.
    pub fn to_bytes(&self) -> (storage: [u8; OPAQUE_SIZE])
        ensures
            storage@ == self.bytes(),
    {
        self.storage
    }
}

} // verus!
