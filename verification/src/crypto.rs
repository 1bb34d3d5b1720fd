//! Symmetric encryption module: AES-256-GCM with a monotonic 96-bit
//! little-endian nonce counter per direction.

use aes_gcm::{AeadInOut, KeyInit};
use vstd::prelude::*;

verus! {

/// Length in bytes of an AES-256-GCM key.
pub const KEY_LEN: usize = 32;

/// Length in bytes of an AES-GCM nonce.
pub const NONCE_LEN: usize = 12;

/// Length in bytes of the authentication tag appended to each ciphertext.
pub const TAG_LEN: usize = 16;

/// First counter value that no longer fits the 96-bit nonce field (2^96).
pub const NONCE_LIMIT: u128 = 0x1_0000_0000_0000_0000_0000_0000;

/// Largest plaintext AES-GCM accepts (`aes_gcm::P_MAX`, 2^36 - 32 bytes).
pub const MAX_PLAINTEXT_LEN: u64 = 68719476704;

/// Largest associated data AES-GCM accepts (`aes_gcm::A_MAX`, 2^61 - 1 bytes).
pub const MAX_ASSOCIATED_DATA_LEN: u64 = 2305843009213693951;

/// Errors of the symmetric encryption layer. Each is fatal for the
/// connection it occurs on.
#[derive(Clone, Copy, Debug, PartialEq, Eq, Structural)]
pub enum CryptoError {
    /// The cipher rejected the operation; on decryption this means the
    /// authentication tag did not verify.
    CipherFailure,
    /// The 96-bit nonce counter would overflow.
    NonceOverflow,
}

/// The 12-byte little-endian rendering of a nonce counter.
pub open spec fn spec_nonce_le_bytes(x: u128) -> Seq<u8> {
    seq![
        (x & 0xff) as u8,
        ((x >> 8) & 0xff) as u8,
        ((x >> 16) & 0xff) as u8,
        ((x >> 24) & 0xff) as u8,
        ((x >> 32) & 0xff) as u8,
        ((x >> 40) & 0xff) as u8,
        ((x >> 48) & 0xff) as u8,
        ((x >> 56) & 0xff) as u8,
        ((x >> 64) & 0xff) as u8,
        ((x >> 72) & 0xff) as u8,
        ((x >> 80) & 0xff) as u8,
        ((x >> 88) & 0xff) as u8,
    ]
}

/// Renders a nonce counter as its 12 little-endian bytes.
pub fn nonce_le_bytes(x: u128) -> (r: Vec<u8>)
    ensures
        r@ == spec_nonce_le_bytes(x),
        r@.len() == NONCE_LEN,
{
    proof {
        assert((x & 0xff) < 256 && ((x >> 8) & 0xff) < 256 && ((x >> 16) & 0xff) < 256 && ((x >> 24)
            & 0xff) < 256 && ((x >> 32) & 0xff) < 256 && ((x >> 40) & 0xff) < 256 && ((x >> 48)
            & 0xff) < 256 && ((x >> 56) & 0xff) < 256 && ((x >> 64) & 0xff) < 256 && ((x >> 72)
            & 0xff) < 256 && ((x >> 80) & 0xff) < 256 && ((x >> 88) & 0xff) < 256) by (bit_vector);
    }
    let mut r: Vec<u8> = Vec::new();
    r.push((x & 0xff) as u8);
    r.push(((x >> 8) & 0xff) as u8);
    r.push(((x >> 16) & 0xff) as u8);
    r.push(((x >> 24) & 0xff) as u8);
    r.push(((x >> 32) & 0xff) as u8);
    r.push(((x >> 40) & 0xff) as u8);
    r.push(((x >> 48) & 0xff) as u8);
    r.push(((x >> 56) & 0xff) as u8);
    r.push(((x >> 64) & 0xff) as u8);
    r.push(((x >> 72) & 0xff) as u8);
    r.push(((x >> 80) & 0xff) as u8);
    r.push(((x >> 88) & 0xff) as u8);
    proof {
        assert(r@ =~= spec_nonce_le_bytes(x));
    }
    r
}

/// Distinct counter values below the 96-bit limit render as distinct nonces:
/// no two records on one direction can ever share a nonce.
pub proof fn lemma_nonce_bytes_injective(a: u128, b: u128)
    requires
        a < NONCE_LIMIT,
        b < NONCE_LIMIT,
        a != b,
    ensures
        spec_nonce_le_bytes(a) != spec_nonce_le_bytes(b),
{
    if spec_nonce_le_bytes(a) == spec_nonce_le_bytes(b) {
        let sa = spec_nonce_le_bytes(a);
        let sb = spec_nonce_le_bytes(b);
        assert((a & 0xff) < 256 && ((a >> 8) & 0xff) < 256 && ((a >> 16) & 0xff) < 256 && ((a >> 24)
            & 0xff) < 256 && ((a >> 32) & 0xff) < 256 && ((a >> 40) & 0xff) < 256 && ((a >> 48)
            & 0xff) < 256 && ((a >> 56) & 0xff) < 256 && ((a >> 64) & 0xff) < 256 && ((a >> 72)
            & 0xff) < 256 && ((a >> 80) & 0xff) < 256 && ((a >> 88) & 0xff) < 256) by (bit_vector);
        assert((b & 0xff) < 256 && ((b >> 8) & 0xff) < 256 && ((b >> 16) & 0xff) < 256 && ((b >> 24)
            & 0xff) < 256 && ((b >> 32) & 0xff) < 256 && ((b >> 40) & 0xff) < 256 && ((b >> 48)
            & 0xff) < 256 && ((b >> 56) & 0xff) < 256 && ((b >> 64) & 0xff) < 256 && ((b >> 72)
            & 0xff) < 256 && ((b >> 80) & 0xff) < 256 && ((b >> 88) & 0xff) < 256) by (bit_vector);
        assert(sa[0] == sb[0] && sa[1] == sb[1] && sa[2] == sb[2] && sa[3] == sb[3] && sa[4]
            == sb[4] && sa[5] == sb[5] && sa[6] == sb[6] && sa[7] == sb[7] && sa[8] == sb[8]
            && sa[9] == sb[9] && sa[10] == sb[10] && sa[11] == sb[11]);
        assert((a & 0xff) == (b & 0xff) && ((a >> 8) & 0xff) == ((b >> 8) & 0xff) && ((a >> 16)
            & 0xff) == ((b >> 16) & 0xff) && ((a >> 24) & 0xff) == ((b >> 24) & 0xff) && ((a >> 32)
            & 0xff) == ((b >> 32) & 0xff) && ((a >> 40) & 0xff) == ((b >> 40) & 0xff) && ((a >> 48)
            & 0xff) == ((b >> 48) & 0xff) && ((a >> 56) & 0xff) == ((b >> 56) & 0xff) && ((a >> 64)
            & 0xff) == ((b >> 64) & 0xff) && ((a >> 72) & 0xff) == ((b >> 72) & 0xff) && ((a >> 80)
            & 0xff) == ((b >> 80) & 0xff) && ((a >> 88) & 0xff) == ((b >> 88) & 0xff));
        assert(((a & 0xff) == (b & 0xff) && ((a >> 8) & 0xff) == ((b >> 8) & 0xff) && ((a >> 16)
            & 0xff) == ((b >> 16) & 0xff) && ((a >> 24) & 0xff) == ((b >> 24) & 0xff) && ((a >> 32)
            & 0xff) == ((b >> 32) & 0xff) && ((a >> 40) & 0xff) == ((b >> 40) & 0xff) && ((a >> 48)
            & 0xff) == ((b >> 48) & 0xff) && ((a >> 56) & 0xff) == ((b >> 56) & 0xff) && ((a >> 64)
            & 0xff) == ((b >> 64) & 0xff) && ((a >> 72) & 0xff) == ((b >> 72) & 0xff) && ((a >> 80)
            & 0xff) == ((b >> 80) & 0xff) && ((a >> 88) & 0xff) == ((b >> 88) & 0xff) && a
            < 0x1_0000_0000_0000_0000_0000_0000 && b < 0x1_0000_0000_0000_0000_0000_0000) ==> a
            == b) by (bit_vector);
    }
}

/// What AES-256-GCM produces for a key, nonce, associated data and plaintext:
/// the ciphertext with its 16-byte tag appended.
pub uninterp spec fn aes256gcm_seal(key: Seq<u8>, nonce: Seq<u8>, ad: Seq<u8>, plain: Seq<u8>) -> Seq<u8>;

/// What AES-256-GCM decryption yields for a key, nonce, associated data and
/// tagged ciphertext: the plaintext when the tag verifies, nothing otherwise.
pub uninterp spec fn aes256gcm_open(key: Seq<u8>, nonce: Seq<u8>, ad: Seq<u8>, cipher: Seq<u8>) -> Option<Seq<u8>>;

/// Relies on `aes_gcm::Aes256Gcm`: `KeyInit::new_from_slice` with a 32-byte
/// key and `AeadInOut::encrypt_in_place`, which for plaintexts up to `P_MAX`
/// appends the 16-byte tag and succeeds, and whose output decrypts back to
/// the plaintext under the same key, nonce and associated data.
#[verifier::external_body]
fn aes256gcm_seal_in_place(key: &Vec<u8>, nonce: &Vec<u8>, ad: &[u8], data: &mut Vec<u8>) -> (r:
    Result<(), CryptoError>)
    requires
        key@.len() == KEY_LEN,
        nonce@.len() == NONCE_LEN,
        old(data)@.len() <= MAX_PLAINTEXT_LEN,
        ad@.len() <= MAX_ASSOCIATED_DATA_LEN,
    ensures
        r is Ok,
        final(data)@ == aes256gcm_seal(key@, nonce@, ad@, old(data)@),
        final(data)@.len() == old(data)@.len() + TAG_LEN,
        aes256gcm_open(key@, nonce@, ad@, final(data)@) == Some(old(data)@),
{
    let cipher = aes_gcm::Aes256Gcm::new_from_slice(key.as_slice()).expect("key length");
    let nonce_arr: aes_gcm::Nonce<aes_gcm::aead::consts::U12> =
        aes_gcm::Nonce::try_from(nonce.as_slice()).expect("nonce length");
    cipher.encrypt_in_place(&nonce_arr, ad, data).map_err(|_| CryptoError::CipherFailure)
}

/// Relies on `aes_gcm::Aes256Gcm`: `KeyInit::new_from_slice` with a 32-byte
/// key and `AeadInOut::decrypt_in_place`, which strips and checks the
/// 16-byte tag, truncates the buffer to the plaintext on success, rejects
/// buffers shorter than the tag, and leaves the buffer unchanged on failure.
#[verifier::external_body]
fn aes256gcm_open_in_place(key: &Vec<u8>, nonce: &Vec<u8>, ad: &[u8], data: &mut Vec<u8>) -> (r:
    Result<(), CryptoError>)
    requires
        key@.len() == KEY_LEN,
        nonce@.len() == NONCE_LEN,
    ensures
        r is Ok <==> aes256gcm_open(key@, nonce@, ad@, old(data)@) is Some,
        r is Ok ==> Some(final(data)@) == aes256gcm_open(key@, nonce@, ad@, old(data)@),
        r is Err ==> final(data)@ == old(data)@,
        r matches Err(e) ==> e == CryptoError::CipherFailure,
        old(data)@.len() < TAG_LEN ==> r is Err,
{
    let cipher = aes_gcm::Aes256Gcm::new_from_slice(key.as_slice()).expect("key length");
    let nonce_arr: aes_gcm::Nonce<aes_gcm::aead::consts::U12> =
        aes_gcm::Nonce::try_from(nonce.as_slice()).expect("nonce length");
    cipher.decrypt_in_place(&nonce_arr, ad, data).map_err(|_| CryptoError::CipherFailure)
}

/// The outbound half of a connection's symmetric state: cipher key plus the
/// outbound nonce counter.
pub struct AesGcmEncryptor {
    key: Vec<u8>,
    nonce: u128,
}

/// The inbound half of a connection's symmetric state: cipher key plus the
/// inbound nonce counter.
pub struct AesGcmDecryptor {
    key: Vec<u8>,
    nonce: u128,
}

impl AesGcmEncryptor {
    /// The key has cipher length and the counter still fits the nonce field.
    pub closed spec fn wf(&self) -> bool {
        self.key@.len() == KEY_LEN && self.nonce < NONCE_LIMIT
    }

    /// The AES-256 key of this direction.
    pub closed spec fn key_view(&self) -> Seq<u8> {
        self.key@
    }

    /// The counter the next record will be sealed with.
    pub closed spec fn counter(&self) -> u128 {
        self.nonce
    }

    /// Builds the outbound state from a completed key exchange; the counter
    /// starts at zero.
    pub fn new(key_exchange: crate::kex::KyberlibKeyExchanger) -> (r: Self)
        requires
            key_exchange.wf(),
            key_exchange.has_secret(),
        ensures
            r.wf(),
            r.key_view() == key_exchange.secret_bytes(),
            r.counter() == 0,
    {
        AesGcmEncryptor { key: key_exchange.shared_secret().clone(), nonce: 0 }
    }

    /// Builds the state from a raw key and an explicit counter value.
    pub fn with_counter(key: Vec<u8>, counter: u128) -> (r: Self)
        requires
            key@.len() == KEY_LEN,
            counter < NONCE_LIMIT,
        ensures
            r.wf(),
            r.key_view() == key@,
            r.counter() == counter,
    {
        AesGcmEncryptor { key, nonce: counter }
    }

    /// Encrypts `data` in place, appending the authentication tag, and
    /// advances the outbound counter by exactly one. When the counter has
    /// reached the last 96-bit value the call fails with `NonceOverflow`,
    /// leaves the buffer untouched and advances nothing.
    pub fn encrypt(&mut self, data: &mut Vec<u8>, adata: &[u8]) -> (r: Result<(), CryptoError>)
        requires
            old(self).wf(),
            old(data)@.len() <= MAX_PLAINTEXT_LEN,
            adata@.len() <= MAX_ASSOCIATED_DATA_LEN,
        ensures
            final(self).wf(),
            final(self).key_view() == old(self).key_view(),
            old(self).counter() < NONCE_LIMIT - 1 ==> {
                &&& r is Ok
                &&& final(self).counter() == old(self).counter() + 1
                &&& final(data)@ == aes256gcm_seal(
                    old(self).key_view(),
                    spec_nonce_le_bytes(old(self).counter()),
                    adata@,
                    old(data)@,
                )
                &&& final(data)@.len() == old(data)@.len() + TAG_LEN
                &&& aes256gcm_open(
                    old(self).key_view(),
                    spec_nonce_le_bytes(old(self).counter()),
                    adata@,
                    final(data)@,
                ) == Some(old(data)@)
            },
            old(self).counter() == NONCE_LIMIT - 1 ==> r == Err::<(), CryptoError>(
                CryptoError::NonceOverflow,
            ),
            r is Err ==> final(data)@ == old(data)@ && *final(self) == *old(self),
    {
        if self.nonce == NONCE_LIMIT - 1 {
            return Err(CryptoError::NonceOverflow);
        }
        let nonce = nonce_le_bytes(self.nonce);
        match aes256gcm_seal_in_place(&self.key, &nonce, adata, data) {
            Ok(()) => {
                self.nonce = self.nonce + 1;
                Ok(())
            },
            Err(_) => unreached(),
        }
    }
}

impl AesGcmDecryptor {
    /// The key has cipher length and the counter still fits the nonce field.
    pub closed spec fn wf(&self) -> bool {
        self.key@.len() == KEY_LEN && self.nonce < NONCE_LIMIT
    }

    /// The AES-256 key of this direction.
    pub closed spec fn key_view(&self) -> Seq<u8> {
        self.key@
    }

    /// The counter the next record is expected to be sealed with.
    pub closed spec fn counter(&self) -> u128 {
        self.nonce
    }

    /// Builds the inbound state from a completed key exchange; the counter
    /// starts at zero.
    pub fn new(key_exchange: crate::kex::KyberlibKeyExchanger) -> (r: Self)
        requires
            key_exchange.wf(),
            key_exchange.has_secret(),
        ensures
            r.wf(),
            r.key_view() == key_exchange.secret_bytes(),
            r.counter() == 0,
    {
        AesGcmDecryptor { key: key_exchange.shared_secret().clone(), nonce: 0 }
    }

    /// Builds the state from a raw key and an explicit counter value.
    pub fn with_counter(key: Vec<u8>, counter: u128) -> (r: Self)
        requires
            key@.len() == KEY_LEN,
            counter < NONCE_LIMIT,
        ensures
            r.wf(),
            r.key_view() == key@,
            r.counter() == counter,
    {
        AesGcmDecryptor { key, nonce: counter }
    }

    /// Verifies and strips the authentication tag in place, advancing the
    /// inbound counter by exactly one on success. A failed decryption never
    /// advances the counter and leaves the buffer unchanged. When the
    /// counter has reached the last 96-bit value the call fails with
    /// `NonceOverflow`.
    pub fn decrypt(&mut self, data: &mut Vec<u8>, adata: &[u8]) -> (r: Result<(), CryptoError>)
        requires
            old(self).wf(),
        ensures
            final(self).wf(),
            final(self).key_view() == old(self).key_view(),
            old(self).counter() == NONCE_LIMIT - 1 ==> r == Err::<(), CryptoError>(
                CryptoError::NonceOverflow,
            ),
            r is Err ==> final(data)@ == old(data)@ && *final(self) == *old(self),
            old(self).counter() < NONCE_LIMIT - 1 ==> {
                &&& (r is Ok <==> aes256gcm_open(
                    old(self).key_view(),
                    spec_nonce_le_bytes(old(self).counter()),
                    adata@,
                    old(data)@,
                ) is Some)
                &&& (r is Ok ==> Some(final(data)@) == aes256gcm_open(
                    old(self).key_view(),
                    spec_nonce_le_bytes(old(self).counter()),
                    adata@,
                    old(data)@,
                ) && final(self).counter() == old(self).counter() + 1)
                &&& (r is Err ==> r == Err::<(), CryptoError>(CryptoError::CipherFailure)
                    && final(data)@ == old(data)@ && *final(self) == *old(self))
            },
    {
        if self.nonce == NONCE_LIMIT - 1 {
            return Err(CryptoError::NonceOverflow);
        }
        let nonce = nonce_le_bytes(self.nonce);
        match aes256gcm_open_in_place(&self.key, &nonce, adata, data) {
            Ok(()) => {
                self.nonce = self.nonce + 1;
                Ok(())
            },
            Err(e) => Err(e),
        }
    }
}

/// Types of symmetric encryption the transport can be configured with.
pub enum Implementation {
    AesGcm,
}

impl Implementation {
    /// Builds the (outbound, inbound) cipher pair from the two completed
    /// per-direction key exchanges.
    pub fn generate(
        &self,
        i: crate::kex::KyberlibKeyExchanger,
        o: crate::kex::KyberlibKeyExchanger,
    ) -> (r: (AesGcmEncryptor, AesGcmDecryptor))
        requires
            i.wf(),
            i.has_secret(),
            o.wf(),
            o.has_secret(),
        ensures
            r.0.wf() && r.0.key_view() == o.secret_bytes() && r.0.counter() == 0,
            r.1.wf() && r.1.key_view() == i.secret_bytes() && r.1.counter() == 0,
    {
        match self {
            Implementation::AesGcm => (AesGcmEncryptor::new(o), AesGcmDecryptor::new(i)),
        }
    }
}

/// Round-trip law for the AEAD: decrypting what encryption produced, under a
/// matched key, matched counters and the same associated data, returns the
/// original plaintext.
pub fn aead_round_trip(key: Vec<u8>, counter: u128, p: Vec<u8>, ad: Vec<u8>) -> (r: Vec<u8>)
    requires
        key@.len() == KEY_LEN,
        counter < NONCE_LIMIT - 1,
        p@.len() <= MAX_PLAINTEXT_LEN,
        ad@.len() <= MAX_ASSOCIATED_DATA_LEN,
    ensures
        r@ == p@,
{
    let mut enc = AesGcmEncryptor::with_counter(key.clone(), counter);
    let mut dec = AesGcmDecryptor::with_counter(key, counter);
    let mut buf = p.clone();
    match enc.encrypt(&mut buf, ad.as_slice()) {
        Ok(()) => (),
        Err(_) => unreached(),
    }
    match dec.decrypt(&mut buf, ad.as_slice()) {
        Ok(()) => (),
        Err(_) => unreached(),
    }
    buf
}

} // verus!
