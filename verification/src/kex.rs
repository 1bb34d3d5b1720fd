//! Key-exchange module: an authenticated ML-KEM-768 key exchange yielding a
//! 32-byte shared secret per direction.

use rand_chacha::rand_core::SeedableRng;
use vstd::prelude::*;

verus! {

/// Length in bytes of an ephemeral ML-KEM-768 public key.
pub const PK_LEN: usize = 1184;

/// Length in bytes of an ephemeral ML-KEM-768 secret key.
pub const SK_LEN: usize = 2400;

/// Length in bytes of the initiator's first key-exchange message.
pub const CI_LEN: usize = 2272;

/// Length in bytes of the responder's reply message.
pub const SI_LEN: usize = 2176;

/// Length in bytes of the derived shared secret.
pub const SHARED_SECRET_LEN: usize = 32;

/// Length in bytes of the ephemeral session-internal key material kept
/// between the initiation and confirmation steps.
pub const TEMP_KEY_LEN: usize = 32;

/// Errors of the key-exchange layer.
#[derive(Clone, Copy, Debug, PartialEq, Eq, Structural)]
pub enum KexError {
    /// An input buffer did not have the length the scheme requires.
    BadLength,
    /// A step needing the peer's ephemeral public key ran before it was set.
    MissingPeerKey,
    /// The underlying scheme reported a failure (for example its RNG).
    Failure,
}

#[verifier::external_type_specification]
#[verifier::external_body]
pub struct ExChaCha20Rng(rand_chacha::ChaCha20Rng);

/// Relies on `rand_chacha::ChaCha20Rng::from_entropy` (`SeedableRng`): a
/// cryptographically secure RNG freshly seeded from the operating system.
#[verifier::external_body]
pub(crate) fn fresh_rng() -> rand_chacha::ChaCha20Rng {
    rand_chacha::ChaCha20Rng::from_entropy()
}

/// Relies on `kyberlib::keypair`: generates a fresh ML-KEM-768 key pair from
/// the given RNG; the public key has `PK_LEN` bytes and the secret key
/// `SK_LEN` bytes (`KYBER_PUBLIC_KEY_BYTES` / `KYBER_SECRET_KEY_BYTES`).
#[verifier::external_body]
fn kyber_keypair(rng: &mut rand_chacha::ChaCha20Rng) -> (r: Result<(Vec<u8>, Vec<u8>), KexError>)
    ensures
        r matches Ok(kp) ==> kp.0@.len() == PK_LEN && kp.1@.len() == SK_LEN,
{
    match kyberlib::keypair(rng) {
        Ok(kp) => Ok((kp.public.to_vec(), kp.secret.to_vec())),
        Err(_) => Err(KexError::Failure),
    }
}

/// Relies on `kyberlib::Ake::client_init`: starts a mutually authenticated
/// key exchange against the peer's public key. On success the message to
/// send has `CI_LEN` bytes (`AKE_INIT_BYTES`), and the ephemeral state the
/// confirmation step later needs is the pair (`temp_key`, `eska`) of
/// `TEMP_KEY_LEN` and `SK_LEN` bytes.
#[verifier::external_body]
fn kyber_client_init(remote_pk: &Vec<u8>, rng: &mut rand_chacha::ChaCha20Rng) -> (r: Result<
    (Vec<u8>, Vec<u8>, Vec<u8>),
    KexError,
>)
    requires
        remote_pk@.len() == PK_LEN,
    ensures
        r matches Ok(t) ==> t.0@.len() == CI_LEN && t.1@.len() == TEMP_KEY_LEN && t.2@.len()
            == SK_LEN,
{
    let pk: kyberlib::PublicKey =
        remote_pk.as_slice().try_into().map_err(|_| KexError::BadLength)?;
    let mut ake = kyberlib::Ake::new();
    match ake.client_init(&pk, rng) {
        Ok(send_a) => Ok((send_a.to_vec(), ake.temp_key.to_vec(), ake.eska.to_vec())),
        Err(_) => Err(KexError::Failure),
    }
}

/// Relies on `kyberlib::Ake::server_receive`: consumes the initiator's
/// message and produces the responder's reply of `SI_LEN` bytes
/// (`AKE_RESPONSE_BYTES`) together with the 32-byte shared secret.
#[verifier::external_body]
fn kyber_server_receive(
    client_init: &Vec<u8>,
    remote_pk: &Vec<u8>,
    local_sk: &Vec<u8>,
    rng: &mut rand_chacha::ChaCha20Rng,
) -> (r: Result<(Vec<u8>, Vec<u8>), KexError>)
    requires
        client_init@.len() == CI_LEN,
        remote_pk@.len() == PK_LEN,
        local_sk@.len() == SK_LEN,
    ensures
        r matches Ok(t) ==> t.0@.len() == SI_LEN && t.1@.len() == SHARED_SECRET_LEN,
{
    let send_a: kyberlib::AkeSendInit = client_init.as_slice().try_into().unwrap();
    let pk: kyberlib::PublicKey = remote_pk.as_slice().try_into().unwrap();
    let sk: kyberlib::SecretKey = local_sk.as_slice().try_into().unwrap();
    let mut ake = kyberlib::Ake::new();
    match ake.server_receive(send_a, &pk, &sk, rng) {
        Ok(send_b) => Ok((send_b.to_vec(), ake.shared_secret.to_vec())),
        Err(_) => Err(KexError::Failure),
    }
}

/// Relies on `kyberlib::Ake::client_confirm`: consumes the responder's reply
/// using the ephemeral state from the initiation step, yielding the 32-byte
/// shared secret.
#[verifier::external_body]
fn kyber_client_confirm(
    server_resp: &Vec<u8>,
    temp_key: &Vec<u8>,
    eska: &Vec<u8>,
    local_sk: &Vec<u8>,
) -> (r: Result<Vec<u8>, KexError>)
    requires
        server_resp@.len() == SI_LEN,
        temp_key@.len() == TEMP_KEY_LEN,
        eska@.len() == SK_LEN,
        local_sk@.len() == SK_LEN,
    ensures
        r matches Ok(s) ==> s@.len() == SHARED_SECRET_LEN,
{
    let send_b: kyberlib::AkeSendResponse = server_resp.as_slice().try_into().unwrap();
    let sk: kyberlib::SecretKey = local_sk.as_slice().try_into().unwrap();
    let mut ake = kyberlib::Ake::new();
    ake.temp_key = temp_key.as_slice().try_into().unwrap();
    ake.eska = eska.as_slice().try_into().unwrap();
    match ake.client_confirm(send_b, &sk) {
        Ok(()) => Ok(ake.shared_secret.to_vec()),
        Err(_) => Err(KexError::Failure),
    }
}

/// One ephemeral per-direction key-agreement context over ML-KEM-768.
///
/// Each connection uses two independent contexts, one per direction, so that
/// the two record-layer keys are independent and both nonce counters may
/// start at zero.
pub struct KyberlibKeyExchanger {
    random: rand_chacha::ChaCha20Rng,
    local_public: Vec<u8>,
    local_secret: Vec<u8>,
    remote_public: Option<Vec<u8>>,
    ephemeral: Option<(Vec<u8>, Vec<u8>)>,
    secret: Option<Vec<u8>>,
}

impl KyberlibKeyExchanger {
    /// Length invariants of the stored key material.
    pub closed spec fn wf(&self) -> bool {
        &&& self.local_public@.len() == PK_LEN
        &&& self.local_secret@.len() == SK_LEN
        &&& (self.remote_public matches Some(pk) ==> pk@.len() == PK_LEN)
        &&& (self.ephemeral matches Some(e) ==> e.0@.len() == TEMP_KEY_LEN && e.1@.len() == SK_LEN)
        &&& (self.secret matches Some(s) ==> s@.len() == SHARED_SECRET_LEN)
    }

    /// The ephemeral public key of this context.
    pub closed spec fn local_public_view(&self) -> Seq<u8> {
        self.local_public@
    }

    /// Whether the peer's ephemeral public key has been set.
    pub closed spec fn has_remote(&self) -> bool {
        self.remote_public is Some
    }

    /// The peer's ephemeral public key, once set.
    pub closed spec fn remote_key(&self) -> Seq<u8> {
        self.remote_public->0@
    }

    /// Whether the initiation step has run on this context.
    pub closed spec fn initiated(&self) -> bool {
        self.ephemeral is Some
    }

    /// Whether the shared secret has been derived.
    pub closed spec fn has_secret(&self) -> bool {
        self.secret is Some
    }

    /// The derived shared secret, once available.
    pub closed spec fn secret_bytes(&self) -> Seq<u8> {
        self.secret->0@
    }

    /// Generates a fresh ephemeral key pair using a CSPRNG seeded from the
    /// operating system.
    pub fn new() -> (r: Result<Self, KexError>)
        ensures
            r matches Ok(k) ==> k.wf() && !k.has_remote() && !k.initiated() && !k.has_secret(),
    {
        let mut random = fresh_rng();
        let (public, secret) = match kyber_keypair(&mut random) {
            Ok(kp) => kp,
            Err(e) => {
                return Err(e);
            },
        };
        Ok(
            KyberlibKeyExchanger {
                random,
                local_public: public,
                local_secret: secret,
                remote_public: None,
                ephemeral: None,
                secret: None,
            },
        )
    }

    /// Exports the local ephemeral public key, to be sent to the peer.
    pub fn get_local_pubkey(&self) -> (r: Vec<u8>)
        requires
            self.wf(),
        ensures
            r@ == self.local_public_view(),
            r@.len() == PK_LEN,
    {
        self.local_public.clone()
    }

    /// Returns the length of an initiator message.
    pub fn get_client_init_length(&self) -> (r: usize)
        ensures
            r == CI_LEN,
    {
        CI_LEN
    }

    /// Returns the length of a responder message.
    pub fn get_server_init_length(&self) -> (r: usize)
        ensures
            r == SI_LEN,
    {
        SI_LEN
    }

    /// Returns the length of an ephemeral public key.
    pub fn get_public_key_length(&self) -> (r: usize)
        ensures
            r == PK_LEN,
    {
        PK_LEN
    }

    /// Stores the peer's ephemeral public key; callable at most once.
    /// Rejects exactly the inputs that do not have `PK_LEN` bytes.
    pub fn set_remote_pubkey(&mut self, pubkey: &[u8]) -> (r: Result<(), KexError>)
        requires
            old(self).wf(),
            !old(self).has_remote(),
        ensures
            final(self).wf(),
            r is Ok <==> pubkey@.len() == PK_LEN,
            r matches Err(e) ==> e == KexError::BadLength && *final(self) == *old(self),
            r is Ok ==> final(self).has_remote() && final(self).remote_key() == pubkey@,
            final(self).local_public_view() == old(self).local_public_view(),
            final(self).initiated() == old(self).initiated(),
            final(self).has_secret() == old(self).has_secret(),
    {
        if pubkey.len() != PK_LEN {
            return Err(KexError::BadLength);
        }
        self.remote_public = Some(crate::bytes::copy_bytes(pubkey));
        Ok(())
    }

    /// Produces the initiator's first key-exchange message; requires the
    /// peer's public key to be present, else fails with `MissingPeerKey`.
    pub fn client_init(&mut self) -> (r: Result<Vec<u8>, KexError>)
        requires
            old(self).wf(),
        ensures
            final(self).wf(),
            !old(self).has_remote() ==> r == Err::<Vec<u8>, KexError>(KexError::MissingPeerKey)
                && *final(self) == *old(self),
            r matches Ok(msg) ==> old(self).has_remote() && msg@.len() == CI_LEN
                && final(self).initiated(),
            final(self).local_public_view() == old(self).local_public_view(),
            final(self).has_remote() == old(self).has_remote(),
            final(self).has_secret() == old(self).has_secret(),
    {
        let remote = match &self.remote_public {
            Some(pk) => pk,
            None => {
                return Err(KexError::MissingPeerKey);
            },
        };
        match kyber_client_init(remote, &mut self.random) {
            Ok((msg, temp_key, eska)) => {
                self.ephemeral = Some((temp_key, eska));
                Ok(msg)
            },
            Err(e) => Err(e),
        }
    }

    /// Consumes the peer's initiator message and produces the responder's
    /// reply; on success the shared secret becomes available.
    pub fn server_init(&mut self, client_init: &[u8]) -> (r: Result<Vec<u8>, KexError>)
        requires
            old(self).wf(),
        ensures
            final(self).wf(),
            !old(self).has_remote() ==> r == Err::<Vec<u8>, KexError>(KexError::MissingPeerKey)
                && *final(self) == *old(self),
            old(self).has_remote() && client_init@.len() != CI_LEN ==> r == Err::<
                Vec<u8>,
                KexError,
            >(KexError::BadLength) && *final(self) == *old(self),
            r matches Ok(msg) ==> old(self).has_remote() && client_init@.len() == CI_LEN
                && msg@.len() == SI_LEN && final(self).has_secret(),
            final(self).local_public_view() == old(self).local_public_view(),
            final(self).has_remote() == old(self).has_remote(),
    {
        let remote = match &self.remote_public {
            Some(pk) => pk,
            None => {
                return Err(KexError::MissingPeerKey);
            },
        };
        if client_init.len() != CI_LEN {
            return Err(KexError::BadLength);
        }
        let owned_init = crate::bytes::copy_bytes(client_init);
        match kyber_server_receive(&owned_init, remote, &self.local_secret, &mut self.random) {
            Ok((msg, shared)) => {
                self.secret = Some(shared);
                Ok(msg)
            },
            Err(e) => Err(e),
        }
    }

    /// Consumes the responder's reply after a `client_init`; on success the
    /// shared secret becomes available. Rejects exactly the inputs that do
    /// not have `SI_LEN` bytes.
    pub fn client_confirm(&mut self, server_init: &[u8]) -> (r: Result<(), KexError>)
        requires
            old(self).wf(),
            old(self).initiated(),
        ensures
            final(self).wf(),
            server_init@.len() != SI_LEN ==> r == Err::<(), KexError>(KexError::BadLength)
                && *final(self) == *old(self),
            r is Ok ==> server_init@.len() == SI_LEN && final(self).has_secret(),
            final(self).local_public_view() == old(self).local_public_view(),
            final(self).has_remote() == old(self).has_remote(),
    {
        if server_init.len() != SI_LEN {
            return Err(KexError::BadLength);
        }
        let (temp_key, eska) = match &self.ephemeral {
            Some(e) => e,
            None => {
                return Err(KexError::Failure);
            },
        };
        let owned_resp = crate::bytes::copy_bytes(server_init);
        match kyber_client_confirm(&owned_resp, temp_key, eska, &self.local_secret) {
            Ok(shared) => {
                self.secret = Some(shared);
                Ok(())
            },
            Err(e) => Err(e),
        }
    }

    /// The whole point: the 32-byte shared secret. Available only after
    /// `server_init` or `client_confirm` has succeeded.
    pub fn shared_secret(&self) -> (r: &Vec<u8>)
        requires
            self.wf(),
            self.has_secret(),
        ensures
            r@ == self.secret_bytes(),
            r@.len() == SHARED_SECRET_LEN,
    {
        match &self.secret {
            Some(s) => s,
            None => unreached(),
        }
    }
}

/// Types of key exchange the transport can be configured with.
pub enum Implementation {
    Kyberlib,
}

impl Implementation {
    /// Generates a key exchanger for the configured scheme.
    pub fn generate(&self) -> (r: Result<KyberlibKeyExchanger, KexError>)
        ensures
            r matches Ok(k) ==> k.wf() && !k.has_remote() && !k.initiated() && !k.has_secret(),
    {
        match self {
            Implementation::Kyberlib => KyberlibKeyExchanger::new(),
        }
    }
}

} // verus!
