//! Session identity layer: ML-DSA-87 signatures binding a handshake
//! transcript to a long-term identity, keyed by peer IPv6 address.
//!
//! The identity blob on disk is `[private key ‖ public key]`; each peer
//! certificate is `[16-byte IPv6 address ‖ public key]`. Addresses are
//! carried as `u128` values in network (big-endian) byte order.

use fips204::traits::{SerDes, Signer, Verifier};
use std::collections::HashMap;
use vstd::prelude::*;

verus! {

broadcast use vstd::std_specs::hash::group_hash_axioms;

/// Length in bytes of an ML-DSA-87 private key.
pub const SK_LEN: usize = 4896;

/// Length in bytes of an ML-DSA-87 public key.
pub const PK_LEN: usize = 2592;

/// Length in bytes of an ML-DSA-87 signature.
pub const SIG_LEN: usize = 4627;

/// Length in bytes of an IPv6 address.
pub const ADDR_LEN: usize = 16;

/// Errors of the identity layer.
#[derive(Clone, Copy, Debug, PartialEq, Eq, Structural)]
pub enum AuthError {
    /// A key blob or record did not have the length the scheme requires.
    BadLength,
    /// Key material did not deserialize as a valid key.
    InvalidKey,
    /// The underlying scheme reported a failure (for example its RNG).
    SignFailure,
}

/// The domain-separation context every transport signature is bound to
/// (the bytes of `"qsh"`).
pub open spec fn spec_domain_context() -> Seq<u8> {
    seq![113u8, 115u8, 104u8]
}

/// Returns the domain-separation context as an owned buffer.
pub fn domain_context() -> (r: Vec<u8>)
    ensures
        r@ == spec_domain_context(),
{
    let mut r: Vec<u8> = Vec::new();
    r.push(113);
    r.push(115);
    r.push(104);
    proof {
        assert(r@ =~= spec_domain_context());
    }
    r
}

/// The verdict of ML-DSA-87 verification for a serialized public key,
/// message, signature and context: a deterministic function of exactly
/// these inputs.
pub uninterp spec fn fips204_verdict(pk: Seq<u8>, msg: Seq<u8>, sig: Seq<u8>, ctx: Seq<u8>) -> bool;

/// Whether a serialized ML-DSA-87 public key deserializes as a valid key:
/// a deterministic function of the bytes.
pub uninterp spec fn fips204_pk_wellformed(pk: Seq<u8>) -> bool;

/// Relies on `fips204::ml_dsa_87::try_keygen_with_rng` and
/// `SerDes::into_bytes`: generates an ML-DSA-87 key pair from the given RNG
/// and serializes it as (`SK_LEN` private bytes, `PK_LEN` public bytes).
#[verifier::external_body]
fn fips_keygen(rng: &mut rand_chacha::ChaCha20Rng) -> (r: Result<(Vec<u8>, Vec<u8>), AuthError>)
    ensures
        r matches Ok(kp) ==> kp.0@.len() == SK_LEN && kp.1@.len() == PK_LEN,
{
    match fips204::ml_dsa_87::try_keygen_with_rng(rng) {
        Ok((pk, sk)) => Ok((sk.into_bytes().to_vec(), pk.into_bytes().to_vec())),
        Err(_) => Err(AuthError::SignFailure),
    }
}

/// Relies on `fips204::ml_dsa_87::PrivateKey::try_from_bytes` and
/// `Signer::try_sign_with_rng`: a hedged signature of `SIG_LEN` bytes under
/// the given context (which the scheme caps at 255 bytes).
#[verifier::external_body]
fn fips_sign(sk: &Vec<u8>, rng: &mut rand_chacha::ChaCha20Rng, msg: &[u8], ctx: &[u8]) -> (r:
    Result<Vec<u8>, AuthError>)
    requires
        sk@.len() == SK_LEN,
        ctx@.len() <= 255,
    ensures
        r matches Ok(sig) ==> sig@.len() == SIG_LEN,
{
    let arr: [u8; fips204::ml_dsa_87::SK_LEN] = sk.as_slice().try_into().unwrap();
    let key = match fips204::ml_dsa_87::PrivateKey::try_from_bytes(arr) {
        Ok(k) => k,
        Err(_) => return Err(AuthError::InvalidKey),
    };
    match key.try_sign_with_rng(rng, msg, ctx) {
        Ok(sig) => Ok(sig.to_vec()),
        Err(_) => Err(AuthError::SignFailure),
    }
}

/// Relies on `fips204::ml_dsa_87::PublicKey::try_from_bytes` and
/// `Verifier::verify`: the deterministic verification verdict for the
/// serialized inputs; a signature of the wrong length or a public key that
/// does not deserialize never verifies.
#[verifier::external_body]
fn fips_verify(pk: &Vec<u8>, msg: &[u8], sig: &[u8], ctx: &[u8]) -> (r: bool)
    requires
        pk@.len() == PK_LEN,
    ensures
        r == fips204_verdict(pk@, msg@, sig@, ctx@),
{
    let arr: [u8; fips204::ml_dsa_87::PK_LEN] = pk.as_slice().try_into().unwrap();
    let key = match fips204::ml_dsa_87::PublicKey::try_from_bytes(arr) {
        Ok(k) => k,
        Err(_) => return false,
    };
    let sig_arr: [u8; fips204::ml_dsa_87::SIG_LEN] = match sig.try_into() {
        Ok(s) => s,
        Err(_) => return false,
    };
    key.verify(msg, &sig_arr, ctx)
}

/// Relies on `fips204::ml_dsa_87::PublicKey::try_from_bytes`: whether the
/// bytes deserialize as a valid public key.
#[verifier::external_body]
fn fips_pk_decodes(pk: &Vec<u8>) -> (r: bool)
    requires
        pk@.len() == PK_LEN,
    ensures
        r == fips204_pk_wellformed(pk@),
{
    let arr: [u8; fips204::ml_dsa_87::PK_LEN] = pk.as_slice().try_into().unwrap();
    fips204::ml_dsa_87::PublicKey::try_from_bytes(arr).is_ok()
}

/// The 16 network-order (big-endian) bytes of an IPv6 address.
pub open spec fn spec_addr_to_be_bytes(x: u128) -> Seq<u8> {
    seq![
        ((x >> 120) & 0xff) as u8,
        ((x >> 112) & 0xff) as u8,
        ((x >> 104) & 0xff) as u8,
        ((x >> 96) & 0xff) as u8,
        ((x >> 88) & 0xff) as u8,
        ((x >> 80) & 0xff) as u8,
        ((x >> 72) & 0xff) as u8,
        ((x >> 64) & 0xff) as u8,
        ((x >> 56) & 0xff) as u8,
        ((x >> 48) & 0xff) as u8,
        ((x >> 40) & 0xff) as u8,
        ((x >> 32) & 0xff) as u8,
        ((x >> 24) & 0xff) as u8,
        ((x >> 16) & 0xff) as u8,
        ((x >> 8) & 0xff) as u8,
        (x & 0xff) as u8,
    ]
}

/// The IPv6 address whose network-order bytes are `s`.
pub open spec fn spec_addr_from_be_bytes(s: Seq<u8>) -> u128
    recommends
        s.len() == ADDR_LEN,
{
    ((s[0] as u128) << 120) | ((s[1] as u128) << 112) | ((s[2] as u128) << 104) | ((s[3] as u128)
        << 96) | ((s[4] as u128) << 88) | ((s[5] as u128) << 80) | ((s[6] as u128) << 72) | ((
    s[7] as u128) << 64) | ((s[8] as u128) << 56) | ((s[9] as u128) << 48) | ((s[10] as u128) << 40)
        | ((s[11] as u128) << 32) | ((s[12] as u128) << 24) | ((s[13] as u128) << 16) | ((
    s[14] as u128) << 8) | (s[15] as u128)
}

/// Encoding an address and decoding the bytes again is the identity.
pub proof fn lemma_addr_be_bytes_round_trip(x: u128)
    ensures
        spec_addr_from_be_bytes(spec_addr_to_be_bytes(x)) == x,
{
    let s = spec_addr_to_be_bytes(x);
    assert(x == ((((x >> 120) & 0xff) as u8 as u128) << 120) | ((((x >> 112) & 0xff) as u8 as u128)
        << 112) | ((((x >> 104) & 0xff) as u8 as u128) << 104) | ((((x >> 96) & 0xff) as u8 as u128)
        << 96) | ((((x >> 88) & 0xff) as u8 as u128) << 88) | ((((x >> 80) & 0xff) as u8 as u128)
        << 80) | ((((x >> 72) & 0xff) as u8 as u128) << 72) | ((((x >> 64) & 0xff) as u8 as u128)
        << 64) | ((((x >> 56) & 0xff) as u8 as u128) << 56) | ((((x >> 48) & 0xff) as u8 as u128)
        << 48) | ((((x >> 40) & 0xff) as u8 as u128) << 40) | ((((x >> 32) & 0xff) as u8 as u128)
        << 32) | ((((x >> 24) & 0xff) as u8 as u128) << 24) | ((((x >> 16) & 0xff) as u8 as u128)
        << 16) | ((((x >> 8) & 0xff) as u8 as u128) << 8) | ((x & 0xff) as u8 as u128))
        by (bit_vector);
}

/// Renders an IPv6 address as its 16 network-order bytes.
pub fn addr_to_be_bytes(x: u128) -> (r: Vec<u8>)
    ensures
        r@ == spec_addr_to_be_bytes(x),
        r@.len() == ADDR_LEN,
{
    proof {
        assert(((x >> 120) & 0xff) < 256 && ((x >> 112) & 0xff) < 256 && ((x >> 104) & 0xff) < 256
            && ((x >> 96) & 0xff) < 256 && ((x >> 88) & 0xff) < 256 && ((x >> 80) & 0xff) < 256 && (
        (x >> 72) & 0xff) < 256 && ((x >> 64) & 0xff) < 256 && ((x >> 56) & 0xff) < 256 && ((x
            >> 48) & 0xff) < 256 && ((x >> 40) & 0xff) < 256 && ((x >> 32) & 0xff) < 256 && ((x
            >> 24) & 0xff) < 256 && ((x >> 16) & 0xff) < 256 && ((x >> 8) & 0xff) < 256 && (x
            & 0xff) < 256) by (bit_vector);
    }
    let mut r: Vec<u8> = Vec::new();
    r.push(((x >> 120) & 0xff) as u8);
    r.push(((x >> 112) & 0xff) as u8);
    r.push(((x >> 104) & 0xff) as u8);
    r.push(((x >> 96) & 0xff) as u8);
    r.push(((x >> 88) & 0xff) as u8);
    r.push(((x >> 80) & 0xff) as u8);
    r.push(((x >> 72) & 0xff) as u8);
    r.push(((x >> 64) & 0xff) as u8);
    r.push(((x >> 56) & 0xff) as u8);
    r.push(((x >> 48) & 0xff) as u8);
    r.push(((x >> 40) & 0xff) as u8);
    r.push(((x >> 32) & 0xff) as u8);
    r.push(((x >> 24) & 0xff) as u8);
    r.push(((x >> 16) & 0xff) as u8);
    r.push(((x >> 8) & 0xff) as u8);
    r.push((x & 0xff) as u8);
    proof {
        assert(r@ =~= spec_addr_to_be_bytes(x));
    }
    r
}

/// Reads an IPv6 address from its 16 network-order bytes.
pub fn addr_from_be_bytes(b: &[u8]) -> (r: u128)
    requires
        b@.len() == ADDR_LEN,
    ensures
        r == spec_addr_from_be_bytes(b@),
{
    ((b[0] as u128) << 120) | ((b[1] as u128) << 112) | ((b[2] as u128) << 104) | ((b[3] as u128)
        << 96) | ((b[4] as u128) << 88) | ((b[5] as u128) << 80) | ((b[6] as u128) << 72) | ((
    b[7] as u128) << 64) | ((b[8] as u128) << 56) | ((b[9] as u128) << 48) | ((b[10] as u128) << 40)
        | ((b[11] as u128) << 32) | ((b[12] as u128) << 24) | ((b[13] as u128) << 16) | ((
    b[14] as u128) << 8) | (b[15] as u128)
}

/// Parses one peer certificate `[16-byte IPv6 ‖ public key]` into the
/// address and the serialized public key.
pub fn parse_peer_record(rec: &[u8]) -> (r: Result<(u128, Vec<u8>), AuthError>)
    ensures
        r is Ok <==> rec@.len() == ADDR_LEN + PK_LEN,
        r matches Ok(p) ==> p.0 == spec_addr_from_be_bytes(rec@.subrange(0, ADDR_LEN as int))
            && p.1@ == rec@.subrange(ADDR_LEN as int, rec@.len() as int),
        r matches Err(e) ==> e == AuthError::BadLength,
{
    if rec.len() != ADDR_LEN + PK_LEN {
        return Err(AuthError::BadLength);
    }
    let addr_bytes = vstd::slice::slice_subrange(rec, 0, ADDR_LEN);
    let addr = addr_from_be_bytes(addr_bytes);
    let key = crate::bytes::copy_bytes(vstd::slice::slice_subrange(rec, ADDR_LEN, rec.len()));
    Ok((addr, key))
}

/// Builds one peer certificate `[16-byte IPv6 ‖ public key]`, validating the
/// key as the scheme requires. This is the content the key-management tool
/// writes for a trusted peer.
pub fn encode_peer_record(host: u128, pubkey: &Vec<u8>) -> (r: Result<Vec<u8>, AuthError>)
    ensures
        r matches Ok(rec) ==> rec@ == spec_addr_to_be_bytes(host) + pubkey@ && pubkey@.len()
            == PK_LEN && fips204_pk_wellformed(pubkey@),
        pubkey@.len() != PK_LEN ==> r == Err::<Vec<u8>, AuthError>(AuthError::BadLength),
{
    if pubkey.len() != PK_LEN {
        return Err(AuthError::BadLength);
    }
    if !fips_pk_decodes(pubkey) {
        return Err(AuthError::InvalidKey);
    }
    let mut rec = addr_to_be_bytes(host);
    crate::bytes::extend_bytes(&mut rec, pubkey.as_slice());
    Ok(rec)
}

/// A certificate built by `encode_peer_record` parses back to exactly the
/// address and key it was built from.
pub proof fn lemma_peer_record_round_trip(host: u128, pubkey: Seq<u8>)
    requires
        pubkey.len() == PK_LEN,
    ensures
        spec_addr_from_be_bytes(
            (spec_addr_to_be_bytes(host) + pubkey).subrange(0, ADDR_LEN as int),
        ) == host,
        (spec_addr_to_be_bytes(host) + pubkey).subrange(
            ADDR_LEN as int,
            (ADDR_LEN + PK_LEN) as int,
        ) == pubkey,
{
    let rec = spec_addr_to_be_bytes(host) + pubkey;
    assert(rec.subrange(0, ADDR_LEN as int) =~= spec_addr_to_be_bytes(host));
    assert(rec.subrange(ADDR_LEN as int, (ADDR_LEN + PK_LEN) as int) =~= pubkey);
    lemma_addr_be_bytes_round_trip(host);
}

/// Checks that a byte string is a valid serialized ML-DSA-87 public key.
pub fn validate_public_key(pubkey: &Vec<u8>) -> (r: bool)
    ensures
        r == (pubkey@.len() == PK_LEN && fips204_pk_wellformed(pubkey@)),
{
    if pubkey.len() != PK_LEN {
        return false;
    }
    fips_pk_decodes(pubkey)
}

/// Generates a fresh ML-DSA-87 identity and serializes it in the on-disk
/// layout `[private key ‖ public key]`.
pub fn generate_identity() -> (r: Result<Vec<u8>, AuthError>)
    ensures
        r matches Ok(blob) ==> blob@.len() == SK_LEN + PK_LEN,
{
    let mut rng = crate::kex::fresh_rng();
    let (sk, pk) = match fips_keygen(&mut rng) {
        Ok(kp) => kp,
        Err(e) => {
            return Err(e);
        },
    };
    let mut blob = sk;
    crate::bytes::extend_bytes(&mut blob, pk.as_slice());
    Ok(blob)
}

/// Extracts the public half of a serialized identity blob, as the key
/// export tool does.
pub fn public_part_of_identity(identity: &Vec<u8>) -> (r: Result<Vec<u8>, AuthError>)
    ensures
        r is Ok <==> identity@.len() == SK_LEN + PK_LEN,
        r matches Ok(pk) ==> pk@ == identity@.subrange(
            SK_LEN as int,
            (SK_LEN + PK_LEN) as int,
        ),
{
    if identity.len() != SK_LEN + PK_LEN {
        return Err(AuthError::BadLength);
    }
    Ok(crate::bytes::copy_bytes(vstd::slice::slice_subrange(
        identity.as_slice(),
        SK_LEN,
        SK_LEN + PK_LEN,
    )))
}

/// The session identity: the local long-term key pair, a CSPRNG for hedged
/// signing, and the read-only table of trusted peer public keys by IPv6
/// address.
pub struct Fips204Authenticator {
    private_key: Vec<u8>,
    public_key: Vec<u8>,
    rng: rand_chacha::ChaCha20Rng,
    remote_public_keys: HashMap<u128, Vec<u8>>,
}

impl Fips204Authenticator {
    /// Length invariants of the stored key material.
    pub closed spec fn wf(&self) -> bool {
        &&& self.private_key@.len() == SK_LEN
        &&& self.public_key@.len() == PK_LEN
        &&& forall|a: u128| #[trigger]
            self.remote_public_keys@.contains_key(a) ==> self.remote_public_keys@[a]@.len()
                == PK_LEN
    }

    /// The table of trusted peers: IPv6 address to serialized public key.
    pub closed spec fn peers(&self) -> Map<u128, Vec<u8>> {
        self.remote_public_keys@
    }

    /// The serialized local private key.
    pub closed spec fn private_view(&self) -> Seq<u8> {
        self.private_key@
    }

    /// The serialized local public key.
    pub closed spec fn public_view(&self) -> Seq<u8> {
        self.public_key@
    }

    /// Loads the local identity from its on-disk layout
    /// `[private key ‖ public key]`, with an empty peer table.
    pub fn new(identity: Vec<u8>) -> (r: Result<Self, AuthError>)
        ensures
            r is Ok <==> identity@.len() == SK_LEN + PK_LEN,
            r matches Ok(a) ==> a.wf() && a.peers() == Map::<u128, Vec<u8>>::empty()
                && a.private_view() == identity@.subrange(0, SK_LEN as int) && a.public_view()
                == identity@.subrange(SK_LEN as int, (SK_LEN + PK_LEN) as int),
            r matches Err(e) ==> e == AuthError::BadLength,
    {
        if identity.len() != SK_LEN + PK_LEN {
            return Err(AuthError::BadLength);
        }
        let private_key = crate::bytes::copy_bytes(vstd::slice::slice_subrange(
            identity.as_slice(),
            0,
            SK_LEN,
        ));
        let public_key = crate::bytes::copy_bytes(vstd::slice::slice_subrange(
            identity.as_slice(),
            SK_LEN,
            SK_LEN + PK_LEN,
        ));
        Ok(
            Fips204Authenticator {
                private_key,
                public_key,
                rng: crate::kex::fresh_rng(),
                remote_public_keys: HashMap::new(),
            },
        )
    }

    /// Adds one trusted peer to the table. Rejects exactly the keys that do
    /// not have `PK_LEN` bytes.
    pub fn add_peer(&mut self, host: u128, pubkey: Vec<u8>) -> (r: Result<(), AuthError>)
        requires
            old(self).wf(),
        ensures
            final(self).wf(),
            r is Ok <==> pubkey@.len() == PK_LEN,
            r is Ok ==> final(self).peers() == old(self).peers().insert(host, pubkey),
            r matches Err(e) ==> e == AuthError::BadLength && *final(self) == *old(self),
            final(self).private_view() == old(self).private_view(),
            final(self).public_view() == old(self).public_view(),
    {
        if pubkey.len() != PK_LEN {
            return Err(AuthError::BadLength);
        }
        self.remote_public_keys.insert(host, pubkey);
        Ok(())
    }

    /// Signs `data` with the local private key under the fixed
    /// domain-separation context. A successful signature has `SIG_LEN`
    /// bytes.
    pub fn sign(&mut self, data: &[u8]) -> (r: Result<Vec<u8>, AuthError>)
        requires
            old(self).wf(),
        ensures
            final(self).wf(),
            r matches Ok(sig) ==> sig@.len() == SIG_LEN,
            final(self).peers() == old(self).peers(),
            final(self).private_view() == old(self).private_view(),
            final(self).public_view() == old(self).public_view(),
    {
        let ctx = domain_context();
        fips_sign(&self.private_key, &mut self.rng, data, ctx.as_slice())
    }

    /// Verifies a peer signature over `data`: true exactly when the peer is
    /// in the table and the signature verifies under its key and the fixed
    /// domain-separation context. An unknown peer never verifies.
    pub fn verify(&self, data: &[u8], host: u128, signature: &[u8]) -> (r: bool)
        requires
            self.wf(),
        ensures
            r == (self.peers().contains_key(host) && fips204_verdict(
                self.peers()[host]@,
                data@,
                signature@,
                spec_domain_context(),
            )),
    {
        let key = match self.remote_public_keys.get(&host) {
            Some(k) => k,
            None => {
                return false;
            },
        };
        let ctx = domain_context();
        fips_verify(key, data, signature, ctx.as_slice())
    }

    /// The number of trusted peers.
    pub fn peer_count(&self) -> (r: usize)
        ensures
            r == self.peers().len(),
    {
        self.remote_public_keys.len()
    }
}

/// Types of session authentication the transport can be configured with.
pub enum Implementation {
    Fips204,
}

/// Settings for the session layer.
pub struct SessionConfiguration {
    /// The configured identity scheme.
    pub key: Implementation,
    /// The configured cipher.
    pub crypto: crate::crypto::Implementation,
    /// The configured key exchange.
    pub kex: crate::kex::Implementation,
}

impl SessionConfiguration {
    /// Builds a configuration from explicit choices.
    pub fn new(
        key: Implementation,
        crypto: crate::crypto::Implementation,
        kex: crate::kex::Implementation,
    ) -> Self {
        SessionConfiguration { key, crypto, kex }
    }
}

impl Default for SessionConfiguration {
    /// The default session configuration: every method at its default.
    fn default() -> Self {
        SessionConfiguration {
            key: default_allowed_key(),
            crypto: default_allowed_crypto(),
            kex: default_allowed_kex(),
        }
    }
}

fn default_allowed_crypto() -> crate::crypto::Implementation {
    crate::crypto::Implementation::AesGcm
}

fn default_allowed_kex() -> crate::kex::Implementation {
    crate::kex::Implementation::Kyberlib
}

fn default_allowed_key() -> Implementation {
    Implementation::Fips204
}

} // verus!
