use vstd::prelude::*;
use vstd::std_specs::cmp::PartialEqSpec;
use std::sync::Arc;

verus! {

/// A reference-counted immutable byte buffer.
///
/// The bytes are fixed at construction and never change afterwards. Cloning
/// shares the backing allocation instead of copying it, so handles are cheap
/// to duplicate and safe to read from many threads at once. Equality is by
/// content: two buffers are equal exactly when they hold the same bytes,
/// whichever allocation backs each of them.
pub struct OsIpcSharedMemory {
    data: Arc<Vec<u8>>,
}

impl View for OsIpcSharedMemory {
    type V = Seq<u8>;

    closed spec fn view(&self) -> Seq<u8> {
        self.data@
    }
}

/// Relies on std::sync::Arc::clone: the clone points at the same
/// allocation, so it holds the same value.
#[verifier::external_body]
fn share(data: &Arc<Vec<u8>>) -> (r: Arc<Vec<u8>>)
    ensures
        r == *data,
{
    Arc::clone(data)
}

impl Clone for OsIpcSharedMemory {
    /// A sharing clone: the new handle reads exactly the same bytes.
    fn clone(&self) -> (r: Self)
        ensures
            r@ == self@,
    {
        OsIpcSharedMemory { data: share(&self.data) }
    }
}

impl PartialEq for OsIpcSharedMemory {
    fn eq(&self, other: &OsIpcSharedMemory) -> (r: bool) {
        let a: &Vec<u8> = &*self.data;
        let b: &Vec<u8> = &*other.data;
        if a.len() != b.len() {
            return false;
        }
        let n = a.len();
        let mut i: usize = 0;
        while i < n
            invariant
                a@ == self@,
                b@ == other@,
                n == a@.len(),
                n == b@.len(),
                i <= n,
                forall|k: int| 0 <= k < i ==> a@[k] == b@[k],
            decreases n - i,
        {
            if a[i] != b[i] {
                assert(self@[i as int] != other@[i as int]);
                return false;
            }
            i += 1;
        }
        proof {
            assert(self@ =~= other@);
        }
        true
    }
}

impl vstd::std_specs::cmp::PartialEqSpecImpl for OsIpcSharedMemory {
    open spec fn obeys_eq_spec() -> bool {
        true
    }

    open spec fn eq_spec(&self, other: &OsIpcSharedMemory) -> bool {
        self@ == other@
    }
}

/// Law: buffer equality is decided by content alone. Two buffers compare
/// equal exactly when they hold the same bytes, so independently built
/// copies of one source, and a clone beside its original, always compare
/// equal, whichever allocation backs each handle.
pub proof fn lemma_equality_is_by_content(a: OsIpcSharedMemory, b: OsIpcSharedMemory)
    ensures
        a.eq_spec(&b) <==> a@ == b@,
{
}

impl OsIpcSharedMemory {
    /// A buffer of `length` bytes, every one equal to `byte`.
    pub fn from_byte(byte: u8, length: usize) -> (r: OsIpcSharedMemory)
        ensures
            r@.len() == length,
            forall|k: int| 0 <= k < length ==> r@[k] == byte,
    {
        let mut v: Vec<u8> = Vec::new();
        let mut i: usize = 0;
        while i < length
            invariant
                i <= length,
                v@.len() == i,
                forall|k: int| 0 <= k < i ==> v@[k] == byte,
            decreases length - i,
        {
            v.push(byte);
            i += 1;
        }
        OsIpcSharedMemory { data: Arc::new(v) }
    }

    /// A buffer holding a copy of `bytes`.
    pub fn from_bytes(bytes: &[u8]) -> (r: OsIpcSharedMemory)
        ensures
            r@ == bytes@,
    {
        let v = vstd::slice::slice_to_vec(bytes);
        OsIpcSharedMemory { data: Arc::new(v) }
    }

    /// The full byte range of the buffer.
    pub fn bytes(&self) -> (r: &[u8])
        ensures
            r@ == self@,
    {
        let v: &Vec<u8> = &self.data;
        v.as_slice()
    }
}

} // verus!
