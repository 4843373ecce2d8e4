use crate::errors::Error;
use crate::hash::{blake2b_of, HashOf};
use dashmap::DashMap;
use vstd::prelude::*;

verus! {

#[verifier::external_type_specification]
#[verifier::external_body]
#[verifier::reject_recursive_types(K)]
#[verifier::reject_recursive_types(V)]
#[verifier::reject_recursive_types(S)]
pub struct ExDashMap<K, V, S>(DashMap<K, V, S>);

/// A concurrent map from digest bytes to the encoding stored under them.
pub type DigestMap = DashMap<[u8; 32], Vec<u8>>;

/// What a concurrent map from digests to encodings holds.
pub uninterp spec fn dash_entries(m: DigestMap) -> Map<Seq<u8>, Seq<u8>>;

/// Relies on `DashMap::new`: a map with no entries.
#[verifier::external_body]
fn dash_new() -> (r: DigestMap)
    ensures
        forall|k: Seq<u8>| !dash_entries(r).contains_key(k),
{
    DashMap::new()
}

/// Relies on `DashMap::get`: the value stored under `k`, if any.
#[verifier::external_body]
fn dash_get(m: &DigestMap, k: &[u8; 32]) -> (r: Option<Vec<u8>>)
    ensures
        r is Some <==> dash_entries(*m).contains_key(k@),
        r matches Some(v) ==> v@ == dash_entries(*m)[k@],
{
    m.get(k).map(|e| e.value().clone())
}

/// Relies on `DashMap::insert`: `k` maps to `v` afterwards, the other entries
/// stay as they were.
#[verifier::external_body]
fn dash_insert(m: &mut DigestMap, k: [u8; 32], v: Vec<u8>)
    ensures
        dash_entries(*final(m)) == dash_entries(*old(m)).insert(k@, v@),
{
    m.insert(k, v);
}

/// Read access to a store of canonical encodings keyed by their digests.
pub trait HashLookup {
    /// The entries: digest to encoding.
    spec fn entries(&self) -> Map<Seq<u8>, Seq<u8>>;

    /// The encoding stored under `of`. A missing entry is `HashNotFound`; a
    /// failing backend may report `IO` for one that is present.
    fn lookup<T>(&self, of: &HashOf<T>) -> (r: Result<Vec<u8>, Error>)
        ensures
            r matches Ok(b) ==> self.entries().contains_key(of@) && b@ == self.entries()[of@],
            (r matches Err(Error::HashNotFound)) <==> !self.entries().contains_key(of@),
    ;
}

/// Write access: a store only ever grows, one entry per distinct encoding.
pub trait HashPut: HashLookup {
    /// Stores `encoded` under its digest. On failure nothing changes.
    fn add(&mut self, encoded: Vec<u8>) -> (r: Result<(), Error>)
        ensures
            r is Ok ==> final(self).entries() == old(self).entries().insert(
                blake2b_of(encoded@),
                encoded@,
            ),
            r is Err ==> final(self).entries() == old(self).entries(),
    ;
}

/// Every entry is stored under the digest of its own bytes.
pub open spec fn content_addressed(entries: Map<Seq<u8>, Seq<u8>>) -> bool {
    forall|k: Seq<u8>| #[trigger] entries.contains_key(k) ==> blake2b_of(entries[k]) == k
}

/// Adding keeps a store content-addressed, so that whatever a lookup then
/// returns hashes to the digest it was looked up by.
pub proof fn lemma_add_keeps_content_addressed(
    before: Map<Seq<u8>, Seq<u8>>,
    after: Map<Seq<u8>, Seq<u8>>,
    encoded: Seq<u8>,
)
    requires
        content_addressed(before),
        after == before.insert(blake2b_of(encoded), encoded) || after == before,
    ensures
        content_addressed(after),
{
}

/// Accepts `bytes` as what `of` addresses only if they hash to it; bytes
/// that do not are reported as a corrupt backend.
pub fn accept_addressed<T>(of: &HashOf<T>, bytes: Vec<u8>) -> (r: Result<Vec<u8>, Error>)
    ensures
        (r is Ok) <==> blake2b_of(bytes@) == of@,
        r matches Ok(b) ==> b@ == bytes@,
        r is Err ==> (r matches Err(Error::IO(_))),
{
    match of.matches_encoding(bytes.as_slice()) {
        Ok(true) => Ok(bytes),
        _ => Err(Error::IO("stored bytes do not hash to their digest".to_owned())),
    }
}

/// Looks `of` up in a store whose contents are not trusted, and hands the
/// bytes to `accept_addressed`.
pub fn lookup_verified<S: HashLookup, T>(store: &S, of: &HashOf<T>) -> (r: Result<Vec<u8>, Error>)
    ensures
        r matches Ok(b) ==> store.entries().contains_key(of@) && b@ == store.entries()[of@]
            && blake2b_of(b@) == of@,
        !store.entries().contains_key(of@) ==> (r matches Err(Error::HashNotFound)),
{
    match store.lookup(of) {
        Ok(b) => accept_addressed(of, b),
        Err(e) => Err(e),
    }
}

/// Content addressing makes adding idempotent: a second `add` of the same
/// encoding leaves the entries as the first left them, and the encoding is
/// then stored, unchanged, under its own digest.
pub proof fn lemma_add_idempotent<S: HashPut>(before: S, once: S, twice: S, encoded: Seq<u8>)
    requires
        once.entries() == before.entries().insert(blake2b_of(encoded), encoded),
        twice.entries() == once.entries().insert(blake2b_of(encoded), encoded),
    ensures
        twice.entries() == once.entries(),
        once.entries().contains_key(blake2b_of(encoded)),
        once.entries()[blake2b_of(encoded)] == encoded,
{
    assert(twice.entries() =~= once.entries());
}

/// Adds of encodings with distinct digests commute: in either order they
/// leave the same entries.
pub proof fn lemma_adds_commute(entries: Map<Seq<u8>, Seq<u8>>, a: Seq<u8>, b: Seq<u8>)
    requires
        blake2b_of(a) != blake2b_of(b) || a == b,
    ensures
        entries.insert(blake2b_of(a), a).insert(blake2b_of(b), b) == entries.insert(
            blake2b_of(b),
            b,
        ).insert(blake2b_of(a), a),
{
    assert(entries.insert(blake2b_of(a), a).insert(blake2b_of(b), b) =~= entries.insert(
        blake2b_of(b),
        b,
    ).insert(blake2b_of(a), a));
}

/// The in-memory store: a sharded concurrent map from digest to encoding.
pub struct MemStore {
    map: DigestMap,
}

impl View for MemStore {
    type V = Map<Seq<u8>, Seq<u8>>;

    closed spec fn view(&self) -> Map<Seq<u8>, Seq<u8>> {
        dash_entries(self.map)
    }
}

impl MemStore {
    pub fn new() -> (r: MemStore)
        ensures
            r@ == Map::<Seq<u8>, Seq<u8>>::empty(),
            content_addressed(r@),
    {
        let r = MemStore { map: dash_new() };
        assert(r@ =~= Map::<Seq<u8>, Seq<u8>>::empty());
        r
    }

    /// Whether an entry is stored under `hash`.
    pub fn contains(&self, hash: &crate::hash::Hash) -> (r: bool)
        ensures
            r == self@.contains_key(hash@),
    {
        dash_get(&self.map, &hash.to_bytes()).is_some()
    }
}

impl HashLookup for MemStore {
    open spec fn entries(&self) -> Map<Seq<u8>, Seq<u8>> {
        self@
    }

    fn lookup<T>(&self, of: &HashOf<T>) -> (r: Result<Vec<u8>, Error>)
        ensures
            r is Ok <==> self@.contains_key(of@),
    {
        match dash_get(&self.map, &of.hash().to_bytes()) {
            Some(b) => Ok(b),
            None => Err(Error::HashNotFound),
        }
    }
}

impl HashPut for MemStore {
    fn add(&mut self, encoded: Vec<u8>) -> (r: Result<(), Error>)
        ensures
            r is Ok,
    {
        let hash = match crate::hash::Hash::calculate(encoded.as_slice()) {
            Ok(h) => h,
            Err(e) => return Err(e),
        };
        dash_insert(&mut self.map, hash.to_bytes(), encoded);
        Ok(())
    }
}

} // verus!
