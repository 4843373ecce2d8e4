use crate::errors::Error;
use core::marker::PhantomData;
use vstd::prelude::*;
use vstd::std_specs::cmp::PartialEqSpec;

verus! {

/// Width of a digest in bytes.
pub const HASH_BYTES: usize = 32;

/// The 32-byte BLAKE2b digest of `data`, as libsodium's generic hash computes it.
pub uninterp spec fn blake2b_of(data: Seq<u8>) -> Seq<u8>;

/// Relies on sodiumoxide's `generichash::hash` with a 32-byte output and no
/// key: it hands back exactly 32 bytes, a function of `data`. With a length
/// in range and no key, libsodium's BLAKE2b reports success on every input.
#[verifier::external_body]
fn generic_hash(data: &[u8]) -> (r: Result<Vec<u8>, ()>)
    ensures
        r is Ok,
        r matches Ok(d) ==> d@ == blake2b_of(data@) && d@.len() == HASH_BYTES,
{
    sodiumoxide::crypto::generichash::hash(data, Some(HASH_BYTES), None).map(
        |d| d.as_ref().to_vec(),
    )
}

/// An untyped digest. Equality and order are those of its bytes.
#[derive(Clone, Copy, Debug, PartialOrd, Ord, Hash)]
pub struct Hash {
    bytes: [u8; 32],
}

impl View for Hash {
    type V = Seq<u8>;

    closed spec fn view(&self) -> Seq<u8> {
        self.bytes@
    }
}

impl Hash {
    /// Reads a digest from a slice; `None` unless it is exactly `HASH_BYTES` long.
    pub fn from_slice(bs: &[u8]) -> (r: Option<Hash>)
        ensures
            r is Some <==> bs@.len() == HASH_BYTES,
            r matches Some(h) ==> h@ == bs@,
    {
        if bs.len() != HASH_BYTES {
            return None;
        }
        let mut a: [u8; 32] = [0u8; 32];
        let mut i: usize = 0;
        while i < HASH_BYTES
            invariant
                i <= HASH_BYTES,
                bs@.len() == HASH_BYTES,
                forall|j: int| 0 <= j < i ==> a@[j] == bs@[j],
            decreases HASH_BYTES - i,
        {
            a[i] = bs[i];
            i = i + 1;
        }
        assert(a@ =~= bs@);
        Some(Hash { bytes: a })
    }

    /// The digest's bytes.
    pub fn to_bytes(&self) -> (r: [u8; 32])
        ensures
            r@ == self@,
    {
        self.bytes
    }

    /// Builds a digest from its bytes.
    pub fn from_bytes(bytes: [u8; 32]) -> (r: Hash)
        ensures
            r@ == bytes@,
    {
        Hash { bytes }
    }

    /// Hashes raw bytes.
    pub fn calculate(data: &[u8]) -> (r: Result<Hash, Error>)
        ensures
            r is Ok,
            r matches Ok(h) ==> h@ == blake2b_of(data@),
    {
        let digest = match generic_hash(data) {
            Ok(d) => d,
            Err(_) => return Err(Error::HashingError),
        };
        match Hash::from_slice(digest.as_slice()) {
            Some(h) => Ok(h),
            None => Err(Error::HashingError),
        }
    }
}

impl PartialEq for Hash {
    fn eq(&self, other: &Hash) -> (r: bool) {
        let mut i: usize = 0;
        while i < HASH_BYTES
            invariant
                i <= HASH_BYTES,
                forall|j: int| 0 <= j < i ==> self@[j] == other@[j],
            decreases HASH_BYTES - i,
        {
            if self.bytes[i] != other.bytes[i] {
                return false;
            }
            i = i + 1;
        }
        assert(self@ =~= other@);
        true
    }
}

impl vstd::std_specs::cmp::PartialEqSpecImpl for Hash {
    open spec fn obeys_eq_spec() -> bool {
        true
    }

    open spec fn eq_spec(&self, other: &Hash) -> bool {
        self@ == other@
    }
}

impl Eq for Hash {
}

/// A digest tagged with the type of the value whose canonical encoding it
/// addresses. The tag holds no data and plays no part in comparisons.
#[derive(Debug)]
pub struct HashOf<T> {
    tag: PhantomData<T>,
    hash: Hash,
}

impl<T> View for HashOf<T> {
    type V = Seq<u8>;

    closed spec fn view(&self) -> Seq<u8> {
        self.hash@
    }
}

impl<T> HashOf<T> {
    /// Addresses a value by the digest of its canonical encoding `encoded`.
    pub fn hash_ser(encoded: &[u8]) -> (r: Result<HashOf<T>, Error>)
        ensures
            r is Ok,
            r matches Ok(h) ==> h@ == blake2b_of(encoded@),
    {
        match Hash::calculate(encoded) {
            Ok(hash) => Ok(HashOf { tag: PhantomData, hash }),
            Err(e) => Err(e),
        }
    }

    /// The untyped digest.
    pub fn hash(&self) -> (r: Hash)
        ensures
            r@ == self@,
    {
        self.hash
    }

    /// Tags an untyped digest. Nothing checks that it addresses a `T`.
    pub fn from_hash(hash: Hash) -> (r: HashOf<T>)
        ensures
            r@ == hash@,
    {
        HashOf { tag: PhantomData, hash }
    }

    /// A second handle on the same digest.
    pub fn duplicate(&self) -> (r: HashOf<T>)
        ensures
            r@ == self@,
    {
        HashOf { tag: PhantomData, hash: self.hash }
    }

    /// Whether `encoded` is what this digest addresses: the check to make on
    /// bytes of untrusted origin.
    pub fn matches_encoding(&self, encoded: &[u8]) -> (r: Result<bool, Error>)
        ensures
            r is Ok,
            r matches Ok(b) ==> b == (self@ == blake2b_of(encoded@)),
    {
        match Hash::calculate(encoded) {
            Ok(h) => Ok(h == self.hash),
            Err(e) => Err(e),
        }
    }
}

/// Hashing is deterministic: two successful `hash_ser` calls on the same
/// encoding give equal digests, so `==` holds between their results.
pub proof fn lemma_hash_ser_deterministic<T>(encoded: Seq<u8>, first: HashOf<T>, second: HashOf<T>)
    requires
        first@ == blake2b_of(encoded),
        second@ == blake2b_of(encoded),
    ensures
        first@ == second@,
        first.eq_spec(&second),
{
}

impl<T> Clone for HashOf<T> {
    fn clone(&self) -> (r: HashOf<T>)
        ensures
            r@ == self@,
    {
        HashOf { tag: PhantomData, hash: self.hash }
    }
}

impl<T> PartialEq for HashOf<T> {
    fn eq(&self, other: &HashOf<T>) -> (r: bool) {
        self.hash == other.hash
    }
}

impl<T> vstd::std_specs::cmp::PartialEqSpecImpl for HashOf<T> {
    open spec fn obeys_eq_spec() -> bool {
        true
    }

    open spec fn eq_spec(&self, other: &HashOf<T>) -> bool {
        self@ == other@
    }
}

impl<T> Eq for HashOf<T> {
}

} // verus!
