//! Combined per-connection symmetric state: both cipher directions in one
//! value, for callers that hold a connection's crypto as a single object.

use vstd::prelude::*;

use crate::crypto::{
    aes256gcm_open, aes256gcm_seal, spec_nonce_le_bytes, AesGcmDecryptor, AesGcmEncryptor,
    CryptoError, MAX_ASSOCIATED_DATA_LEN, MAX_PLAINTEXT_LEN, NONCE_LIMIT, TAG_LEN,
};
use crate::kex::KyberlibKeyExchanger;

verus! {

/// Both directions of a connection's symmetric state: an inbound cipher with
/// its nonce counter and an outbound cipher with its own.
pub struct AesGcmCrypto {
    outbound: AesGcmEncryptor,
    inbound: AesGcmDecryptor,
}

impl AesGcmCrypto {
    /// Both halves are well formed.
    pub closed spec fn wf(&self) -> bool {
        self.outbound.wf() && self.inbound.wf()
    }

    /// The outbound half.
    pub closed spec fn outbound_view(&self) -> AesGcmEncryptor {
        self.outbound
    }

    /// The inbound half.
    pub closed spec fn inbound_view(&self) -> AesGcmDecryptor {
        self.inbound
    }

    /// Builds both directions from the two completed key exchanges: the
    /// inbound cipher from the inbound context, the outbound cipher from the
    /// outbound context, both counters zero.
    pub fn new(key_exchange_i: KyberlibKeyExchanger, key_exchange_o: KyberlibKeyExchanger) -> (r:
        Self)
        requires
            key_exchange_i.wf(),
            key_exchange_i.has_secret(),
            key_exchange_o.wf(),
            key_exchange_o.has_secret(),
        ensures
            r.wf(),
            r.inbound_view().key_view() == key_exchange_i.secret_bytes(),
            r.inbound_view().counter() == 0,
            r.outbound_view().key_view() == key_exchange_o.secret_bytes(),
            r.outbound_view().counter() == 0,
    {
        AesGcmCrypto {
            outbound: AesGcmEncryptor::new(key_exchange_o),
            inbound: AesGcmDecryptor::new(key_exchange_i),
        }
    }

    /// Encrypts `data` in place under the outbound counter; see
    /// [`AesGcmEncryptor::encrypt`].
    pub fn encrypt(&mut self, data: &mut Vec<u8>, adata: &[u8]) -> (r: Result<(), CryptoError>)
        requires
            old(self).wf(),
            old(data)@.len() <= MAX_PLAINTEXT_LEN,
            adata@.len() <= MAX_ASSOCIATED_DATA_LEN,
        ensures
            final(self).wf(),
            final(self).inbound_view() == old(self).inbound_view(),
            final(self).outbound_view().key_view() == old(self).outbound_view().key_view(),
            old(self).outbound_view().counter() < NONCE_LIMIT - 1 ==> {
                &&& r is Ok
                &&& final(self).outbound_view().counter() == old(self).outbound_view().counter()
                    + 1
                &&& final(data)@ == aes256gcm_seal(
                    old(self).outbound_view().key_view(),
                    spec_nonce_le_bytes(old(self).outbound_view().counter()),
                    adata@,
                    old(data)@,
                )
                &&& final(data)@.len() == old(data)@.len() + TAG_LEN
                &&& aes256gcm_open(
                    old(self).outbound_view().key_view(),
                    spec_nonce_le_bytes(old(self).outbound_view().counter()),
                    adata@,
                    final(data)@,
                ) == Some(old(data)@)
            },
            old(self).outbound_view().counter() == NONCE_LIMIT - 1 ==> r == Err::<(), CryptoError>(
                CryptoError::NonceOverflow,
            ),
            r is Err ==> final(data)@ == old(data)@ && *final(self) == *old(self),
    {
        self.outbound.encrypt(data, adata)
    }

    /// Verifies and strips the tag in place under the inbound counter; see
    /// [`AesGcmDecryptor::decrypt`].
    pub fn decrypt(&mut self, data: &mut Vec<u8>, adata: &[u8]) -> (r: Result<(), CryptoError>)
        requires
            old(self).wf(),
        ensures
            final(self).wf(),
            final(self).outbound_view() == old(self).outbound_view(),
            final(self).inbound_view().key_view() == old(self).inbound_view().key_view(),
            old(self).inbound_view().counter() == NONCE_LIMIT - 1 ==> r == Err::<(), CryptoError>(
                CryptoError::NonceOverflow,
            ),
            r is Err ==> final(data)@ == old(data)@ && *final(self) == *old(self),
            old(self).inbound_view().counter() < NONCE_LIMIT - 1 ==> {
                &&& (r is Ok <==> aes256gcm_open(
                    old(self).inbound_view().key_view(),
                    spec_nonce_le_bytes(old(self).inbound_view().counter()),
                    adata@,
                    old(data)@,
                ) is Some)
                &&& (r is Ok ==> Some(final(data)@) == aes256gcm_open(
                    old(self).inbound_view().key_view(),
                    spec_nonce_le_bytes(old(self).inbound_view().counter()),
                    adata@,
                    old(data)@,
                ) && final(self).inbound_view().counter() == old(self).inbound_view().counter()
                    + 1)
                &&& (r is Err ==> r == Err::<(), CryptoError>(CryptoError::CipherFailure))
            },
    {
        self.inbound.decrypt(data, adata)
    }
}

} // verus!
