//! The buffer that the codec writes to.

use vstd::prelude::*;

verus! {

/// Allocates `capacity` bytes, all of them zero, for the codec to write to.
pub fn zeroed(capacity: usize) -> (storage: Vec<u8>)
    ensures
        storage@ == Seq::new(capacity as nat, |i: int| 0u8),
{
    let storage: Vec<u8> = vec![0u8; capacity];
    assert(storage@ =~= Seq::new(capacity as nat, |i: int| 0u8));
    storage
}

/// An owned run of bytes of which only a prefix counts.
///
/// The storage is what was allocated for the codec to write to, its length
/// the capacity. The used length says how many bytes, from the start, the
/// codec has written. It never exceeds the capacity.
pub struct ByteBuffer {
    storage: Vec<u8>,
    used: usize,
}

impl View for ByteBuffer {
    type V = Seq<u8>;

    /// The bytes that count: the storage up to the used length.
    open spec fn view(&self) -> Seq<u8> {
        self.storage().take(self.spec_used() as int)
    }
}

impl ByteBuffer {
    #[verifier::type_invariant]
    spec fn used_within_capacity(self) -> bool {
        self.used <= self.storage@.len()
    }

    /// All the bytes that were allocated, used or not.
    pub closed spec fn storage(self) -> Seq<u8> {
        self.storage@
    }

    /// How many bytes count.
    pub closed spec fn spec_used(self) -> nat {
        self.used as nat
    }

    /// How many bytes were allocated.
    pub open spec fn spec_capacity(self) -> nat {
        self.storage().len()
    }

    /// Takes over `storage` as a buffer whose first `used` bytes count.
    pub fn new(storage: Vec<u8>, used: usize) -> (buffer: ByteBuffer)
        requires
            used <= storage@.len(),
        ensures
            buffer.storage() == storage@,
            buffer.spec_used() == used,
    {
        ByteBuffer { storage, used }
    }

    /// How many bytes were allocated.
    pub fn capacity(&self) -> (capacity: usize)
        ensures
            capacity == self.spec_capacity(),
    {
        self.storage.len()
    }

    /// How many bytes count. They are never more than were allocated.
    pub fn used(&self) -> (used: usize)
        ensures
            used == self.spec_used(),
            used <= self.spec_capacity(),
    {
        proof {
            use_type_invariant(self);
        }
        self.used
    }

    /// Gives up the buffer for the bytes that count, dropping the rest.
    pub fn into_used(self) -> (bytes: Vec<u8>)
        ensures
            bytes@ == self@,
            bytes@.len() == self.spec_used(),
            self.spec_used() <= self.spec_capacity(),
    {
        proof {
            use_type_invariant(&self);
        }
        let mut bytes = self.storage;
        bytes.truncate(self.used);
        bytes
    }
}

} // verus!
