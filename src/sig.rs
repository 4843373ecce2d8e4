use crate::hash::HashOf;
use core::marker::PhantomData;
use vstd::prelude::*;

verus! {

/// Stamped into every signature; bump it whenever the signed encoding changes.
pub const PROTOCOL_VERSION: &'static str = "NO";

/// An Ed25519 public key.
#[derive(Clone, Copy, Debug, PartialEq, Eq, Hash)]
pub struct PublicKey {
    pub bytes: [u8; 32],
}

/// An Ed25519 secret key in libsodium's layout (seed, then public key).
#[derive(Clone)]
pub struct SecretKey {
    pub bytes: [u8; 64],
}

/// A detached Ed25519 signature.
#[derive(Clone, Copy, Debug, PartialEq, Eq, Hash)]
pub struct Signature {
    pub bytes: [u8; 64],
}

impl View for PublicKey {
    type V = Seq<u8>;

    open spec fn view(&self) -> Seq<u8> {
        self.bytes@
    }
}

impl View for SecretKey {
    type V = Seq<u8>;

    open spec fn view(&self) -> Seq<u8> {
        self.bytes@
    }
}

impl View for Signature {
    type V = Seq<u8>;

    open spec fn view(&self) -> Seq<u8> {
        self.bytes@
    }
}

/// The detached Ed25519 signature of `msg` under the secret key `sk`.
pub uninterp spec fn ed25519_signature_of(msg: Seq<u8>, sk: Seq<u8>) -> Seq<u8>;

/// Whether `sig` is a valid Ed25519 signature of `msg` under the public key `pk`.
pub uninterp spec fn ed25519_verifies(sig: Seq<u8>, msg: Seq<u8>, pk: Seq<u8>) -> bool;

/// Relies on sodiumoxide's `sign::sign_detached`: Ed25519 signing, a function
/// of the message and the secret key.
#[verifier::external_body]
fn sign_detached(msg: &[u8], sk: &SecretKey) -> (r: Signature)
    ensures
        r@ == ed25519_signature_of(msg@, sk@),
{
    let key = sodiumoxide::crypto::sign::SecretKey(sk.bytes);
    Signature { bytes: sodiumoxide::crypto::sign::sign_detached(msg, &key).to_bytes() }
}

/// Relies on sodiumoxide's `sign::verify_detached`, after its `Signature::from_bytes`
/// (which refuses malformed signatures): the verdict on `sig`, `msg` and `pk`.
#[verifier::external_body]
fn verify_detached(sig: &Signature, msg: &[u8], pk: &PublicKey) -> (r: bool)
    ensures
        r == ed25519_verifies(sig@, msg@, pk@),
{
    let key = sodiumoxide::crypto::sign::PublicKey(pk.bytes);
    match sodiumoxide::crypto::sign::Signature::from_bytes(&sig.bytes) {
        Ok(s) => sodiumoxide::crypto::sign::verify_detached(&s, msg, &key),
        Err(_) => false,
    }
}

/// A detached signature over the canonical encoding of a `T`, with the
/// signer's public key and the protocol version it was made under.
#[derive(Debug, PartialEq, Eq)]
pub struct SigOf<T> {
    tag: PhantomData<T>,
    protocol: String,
    key: PublicKey,
    sig: Signature,
}

impl<T> View for SigOf<T> {
    /// The protocol tag, the public key and the signature bytes.
    type V = (Seq<char>, Seq<u8>, Seq<u8>);

    closed spec fn view(&self) -> (Seq<char>, Seq<u8>, Seq<u8>) {
        (self.protocol@, self.key@, self.sig@)
    }
}

impl<T> SigOf<T> {
    /// Signs the canonical encoding `encoded` of a `T` with `sk`, recording
    /// `pk` as the signer and the current protocol version.
    pub fn sign_ser(sk: &SecretKey, pk: PublicKey, encoded: &[u8]) -> (r: SigOf<T>)
        ensures
            r@ == (PROTOCOL_VERSION@, pk@, ed25519_signature_of(encoded@, sk@)),
    {
        let sig = sign_detached(encoded, sk);
        SigOf { tag: PhantomData, protocol: PROTOCOL_VERSION.to_owned(), key: pk, sig }
    }

    /// Whether the stored signature verifies against `encoded` under the stored
    /// key. A mismatch of any kind is `false`, never an error.
    pub fn check_ser(&self, encoded: &[u8]) -> (r: bool)
        ensures
            r == ed25519_verifies(self@.2, encoded@, self@.1),
    {
        verify_detached(&self.sig, encoded, &self.key)
    }

    /// Reassembles a signature received from elsewhere. Nothing is checked
    /// here: `check_ser` is the check.
    pub fn from_parts(protocol: String, key: PublicKey, sig: Signature) -> (r: SigOf<T>)
        ensures
            r@ == (protocol@, key@, sig@),
    {
        SigOf { tag: PhantomData, protocol, key, sig }
    }

    pub fn protocol(&self) -> (r: &String)
        ensures
            r@ == self@.0,
    {
        &self.protocol
    }

    pub fn key(&self) -> (r: PublicKey)
        ensures
            r@ == self@.1,
    {
        self.key
    }

    pub fn signature(&self) -> (r: Signature)
        ensures
            r@ == self@.2,
    {
        self.sig
    }
}

impl<T> Clone for SigOf<T> {
    fn clone(&self) -> (r: SigOf<T>)
        ensures
            r@ == self@,
    {
        SigOf { tag: PhantomData, protocol: self.protocol.clone(), key: self.key, sig: self.sig }
    }
}

/// A body together with the digest of the list of signatures over it, which
/// is stored apart so that the body's holder stays small.
#[derive(Clone, Debug, PartialEq, Eq)]
pub struct MultiSigned<T> {
    body: T,
    sigs: HashOf<Vec<SigOf<T>>>,
}

impl<T> MultiSigned<T> {
    pub closed spec fn spec_body(&self) -> T {
        self.body
    }

    pub closed spec fn spec_sigs(&self) -> Seq<u8> {
        self.sigs@
    }

    pub fn new(body: T, sigs: HashOf<Vec<SigOf<T>>>) -> (r: MultiSigned<T>)
        ensures
            r.spec_body() == body,
            r.spec_sigs() == sigs@,
    {
        MultiSigned { body, sigs }
    }

    pub fn body(&self) -> (r: &T)
        ensures
            *r == self.spec_body(),
    {
        &self.body
    }

    pub fn sigs(&self) -> (r: &HashOf<Vec<SigOf<T>>>)
        ensures
            r@ == self.spec_sigs(),
    {
        &self.sigs
    }
}

} // verus!
