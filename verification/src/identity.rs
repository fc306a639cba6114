use vstd::prelude::*;
use crate::digest::{blake3_of, blake3_digest, DIGEST_LEN};
use crate::util::bytes_eq;
use vstd::string::StringSliceAdditionalSpecFns;
use vstd::utf8::{encode_utf8, encode_utf8_decode_utf8};

verus! {

/// Key material of the reserved demo identity `"alice"`: thirty-two bytes of 1.
pub open spec fn reserved_alice_key() -> Seq<u8> {
    Seq::new(32, |i: int| 1u8)
}

/// Key material of the reserved demo identity `"bob"`: thirty-two bytes of 2.
pub open spec fn reserved_bob_key() -> Seq<u8> {
    Seq::new(32, |i: int| 2u8)
}

/// The key material that `resolve` derives for a name: a fixed constant for
/// each reserved demo name, and otherwise the digest of the name's bytes.
pub open spec fn resolve_spec(name: Seq<char>) -> Seq<u8> {
    if name == "alice"@ {
        reserved_alice_key()
    } else if name == "bob"@ {
        reserved_bob_key()
    } else {
        blake3_of(encode_utf8(name))
    }
}

/// The public identifier derived from thirty-two bytes of secret key
/// material: the peer's address on the network. The value is determined by
/// the key bytes alone; nothing further is assumed of it.
pub uninterp spec fn public_of(key: Seq<u8>) -> Seq<u8>;

/// Relies on `iroh::SecretKey::public` (with `SecretKey::from_bytes` and
/// `PublicKey::as_bytes` converting at either end): ed25519 public-key
/// derivation, a pure function of the secret key bytes, 32 bytes long.
#[verifier::external_body]
pub(crate) fn public_id_of(key: &[u8]) -> (r: Vec<u8>)
    requires
        key@.len() == DIGEST_LEN,
    ensures
        r@ == public_of(key@),
        r@.len() == DIGEST_LEN,
{
    let raw: [u8; 32] = key.try_into().unwrap();
    iroh::SecretKey::from_bytes(&raw).public().as_bytes().to_vec()
}

/// A peer's long-term identity: thirty-two bytes of secret key material.
/// Immutable after creation. The derived public identifier lives on the
/// node that runs under it.
pub struct PeerIdentity {
    key: Vec<u8>,
}

impl View for PeerIdentity {
    type V = Seq<u8>;

    closed spec fn view(&self) -> Seq<u8> {
        self.key@
    }
}

impl PeerIdentity {
    /// The identity holds exactly one key's worth of material.
    pub open spec fn wf(&self) -> bool {
        self@.len() == DIGEST_LEN
    }

    /// The raw key material.
    pub fn key_bytes(&self) -> (r: &[u8])
        ensures
            r@ == self@,
    {
        self.key.as_slice()
    }

    /// A second handle to the same identity.
    pub fn duplicate(&self) -> (r: PeerIdentity)
        ensures
            r@ == self@,
    {
        let mut key: Vec<u8> = Vec::new();
        crate::util::append_bytes(&mut key, self.key.as_slice());
        PeerIdentity { key }
    }
}

/// Builds a key whose thirty-two bytes all hold `b`.
pub(crate) fn constant_key(b: u8) -> (r: Vec<u8>)
    ensures
        r@ == Seq::new(32, |i: int| b),
{
    let mut v: Vec<u8> = Vec::new();
    let mut i: usize = 0;
    while i < 32
        invariant
            i <= 32,
            v@ == Seq::new(i as nat, |j: int| b),
        decreases 32 - i,
    {
        v.push(b);
        proof {
            assert(Seq::new((i + 1) as nat, |j: int| b) =~= Seq::new(i as nat, |j: int| b).push(
                b,
            ));
        }
        i = i + 1;
    }
    v
}

/// Compares two strings by their characters.
fn str_eq(a: &str, b: &str) -> (r: bool)
    ensures
        r == (a@ == b@),
{
    let r = bytes_eq(a.as_bytes(), b.as_bytes());
    proof {
        if a.spec_bytes() == b.spec_bytes() {
            encode_utf8_decode_utf8(a@);
            encode_utf8_decode_utf8(b@);
        }
    }
    r
}

/// Derives the identity for a human-readable name. Total over all names:
/// each reserved demo name yields its fixed constant keypair, and any other
/// name yields key material digested from the name's bytes, so the same name
/// always yields the same identity. Performs no I/O.
pub fn resolve(name: &str) -> (id: PeerIdentity)
    ensures
        id@ == resolve_spec(name@),
        id.wf(),
{
    if str_eq(name, "alice") {
        PeerIdentity { key: constant_key(1) }
    } else if str_eq(name, "bob") {
        PeerIdentity { key: constant_key(2) }
    } else {
        PeerIdentity { key: blake3_digest(name.as_bytes()) }
    }
}

/// Adopts externally supplied raw key bytes as a peer identity.
pub fn resolve_override(raw: &[u8]) -> (id: PeerIdentity)
    requires
        raw@.len() == DIGEST_LEN,
    ensures
        id@ == raw@,
        id.wf(),
{
    let mut key: Vec<u8> = Vec::new();
    crate::util::append_bytes(&mut key, raw);
    PeerIdentity { key }
}

/// Resolution is deterministic: the key material is a pure function of the
/// name, so two calls of `resolve` on equal names yield identical keypairs.
pub proof fn law_resolve_deterministic(n1: Seq<char>, n2: Seq<char>)
    requires
        n1 == n2,
    ensures
        resolve_spec(n1) == resolve_spec(n2),
{
}

/// The reserved demo names always yield their fixed well-known keypairs,
/// and those two keypairs differ.
pub proof fn law_reserved_names()
    ensures
        resolve_spec("alice"@) == reserved_alice_key(),
        resolve_spec("bob"@) == reserved_bob_key(),
        resolve_spec("alice"@) != resolve_spec("bob"@),
{
    reveal_strlit("alice");
    reveal_strlit("bob");
    assert("alice"@.len() == 5);
    assert("bob"@.len() == 3);
    assert("bob"@ != "alice"@);
    assert(reserved_alice_key()[0] == 1u8);
    assert(reserved_bob_key()[0] == 2u8);
}

} // verus!
