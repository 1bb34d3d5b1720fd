//! Record layer: length-prefixed AEAD records on a reliable ordered byte
//! stream. One send state and one receive state per connection, each owning
//! one cipher direction. Associated data is empty on this transport.

use vstd::prelude::*;

use crate::crypto::{
    aes256gcm_open, aes256gcm_seal, spec_nonce_le_bytes, AesGcmDecryptor, AesGcmEncryptor,
    CryptoError, KEY_LEN, NONCE_LIMIT, TAG_LEN,
};

verus! {

/// Sanity cap on a record's payload: 16 MiB. A longer wire length is treated
/// as a framing error and tears the connection down.
pub const MAX_PAYLOAD_LEN: u64 = 16777216;

/// Length in bytes of the little-endian length prefix of each record.
pub const LEN_PREFIX_LEN: usize = 8;

/// Errors of the record layer; every one of them is fatal for its
/// connection.
#[derive(Clone, Copy, Debug, PartialEq, Eq, Structural)]
pub enum TransportError {
    /// A framing error: the record or payload is over the sanity cap.
    OversizeRecord,
    /// The AEAD failed; on receive this means the record did not
    /// authenticate.
    CipherFailure,
    /// A 96-bit nonce counter would overflow.
    NonceOverflow,
    /// The connection was already torn down or closed.
    ConnectionClosed,
}

/// The length-prefixed framing of a ciphertext: `u64` little-endian byte
/// count, then the ciphertext itself.
pub open spec fn spec_frame(ct: Seq<u8>) -> Seq<u8> {
    vstd::bytes::spec_u64_to_le_bytes(ct.len() as u64) + ct
}

/// The complete wire record a payload produces under a key and counter.
pub open spec fn spec_sealed_record(key: Seq<u8>, counter: u128, payload: Seq<u8>) -> Seq<u8> {
    spec_frame(aes256gcm_seal(key, spec_nonce_le_bytes(counter), Seq::empty(), payload))
}

/// The send half of a connection: the outbound cipher state plus whether the
/// outbound side is still open.
pub struct RecordSender {
    enc: AesGcmEncryptor,
    open: bool,
}

impl RecordSender {
    /// The cipher state is well formed.
    pub closed spec fn wf(&self) -> bool {
        self.enc.wf()
    }

    /// Whether the outbound side is still open.
    pub closed spec fn is_open(&self) -> bool {
        self.open
    }

    /// The outbound AES-256 key.
    pub closed spec fn key_view(&self) -> Seq<u8> {
        self.enc.key_view()
    }

    /// The counter the next record will be sealed with.
    pub closed spec fn counter(&self) -> u128 {
        self.enc.counter()
    }

    /// Builds the send half from the outbound cipher state.
    pub fn new(enc: AesGcmEncryptor) -> (r: Self)
        requires
            enc.wf(),
        ensures
            r.wf(),
            r.is_open(),
            r.key_view() == enc.key_view(),
            r.counter() == enc.counter(),
    {
        RecordSender { enc, open: true }
    }

    /// Seals one payload into a complete wire record: encrypt in place under
    /// the outbound counter, then prefix the ciphertext with its `u64`
    /// little-endian length. On any failure no record is produced, the
    /// counter does not advance, and the outbound side closes.
    pub fn on_payload(&mut self, payload: Vec<u8>) -> (r: Result<Vec<u8>, TransportError>)
        requires
            old(self).wf(),
            old(self).is_open(),
        ensures
            final(self).wf(),
            final(self).key_view() == old(self).key_view(),
            payload@.len() <= MAX_PAYLOAD_LEN && old(self).counter() < NONCE_LIMIT - 1 ==> {
                &&& r matches Ok(frame) && frame@ == spec_sealed_record(
                    old(self).key_view(),
                    old(self).counter(),
                    payload@,
                ) && frame@.len() == LEN_PREFIX_LEN + payload@.len() + TAG_LEN
                &&& final(self).counter() == old(self).counter() + 1
                &&& final(self).is_open()
                &&& aes256gcm_open(
                    old(self).key_view(),
                    spec_nonce_le_bytes(old(self).counter()),
                    Seq::empty(),
                    aes256gcm_seal(
                        old(self).key_view(),
                        spec_nonce_le_bytes(old(self).counter()),
                        Seq::empty(),
                        payload@,
                    ),
                ) == Some(payload@)
            },
            payload@.len() > MAX_PAYLOAD_LEN ==> r == Err::<Vec<u8>, TransportError>(
                TransportError::OversizeRecord,
            ),
            payload@.len() <= MAX_PAYLOAD_LEN && old(self).counter() == NONCE_LIMIT - 1 ==> r
                == Err::<Vec<u8>, TransportError>(TransportError::NonceOverflow),
            r is Err ==> !final(self).is_open() && final(self).counter() == old(self).counter(),
    {
        if payload.len() as u64 > MAX_PAYLOAD_LEN {
            self.open = false;
            return Err(TransportError::OversizeRecord);
        }
        let empty_ad: Vec<u8> = Vec::new();
        let mut buf = payload;
        match self.enc.encrypt(&mut buf, empty_ad.as_slice()) {
            Ok(()) => {
                let mut frame = vstd::bytes::u64_to_le_bytes(buf.len() as u64);
                crate::bytes::extend_bytes(&mut frame, buf.as_slice());
                Ok(frame)
            },
            Err(CryptoError::NonceOverflow) => {
                self.open = false;
                Err(TransportError::NonceOverflow)
            },
            Err(CryptoError::CipherFailure) => {
                self.open = false;
                Err(TransportError::CipherFailure)
            },
        }
    }

    /// Closes the outbound side (graceful half-close) and reports whether it
    /// was still open. Shutting down an already-closed sender changes
    /// nothing.
    pub fn shutdown(&mut self) -> (was_open: bool)
        ensures
            !final(self).is_open(),
            was_open == old(self).is_open(),
            final(self).key_view() == old(self).key_view(),
            final(self).counter() == old(self).counter(),
            final(self).wf() == old(self).wf(),
            !old(self).is_open() ==> *final(self) == *old(self),
    {
        let was_open = self.open;
        self.open = false;
        was_open
    }
}

/// Idempotence law: a shutdown after the outbound side is already closed is
/// a no-op — it reports nothing was open and leaves the sender unchanged.
pub fn shutdown_after_closed(s: &mut RecordSender) -> (r: bool)
    requires
        !old(s).is_open(),
    ensures
        r == false,
        *final(s) == *old(s),
{
    s.shutdown()
}

/// The receive half of a connection: the inbound cipher state plus whether
/// the connection has been torn down.
pub struct RecordReceiver {
    dec: AesGcmDecryptor,
    failed: bool,
}

impl RecordReceiver {
    /// The cipher state is well formed.
    pub closed spec fn wf(&self) -> bool {
        self.dec.wf()
    }

    /// Whether the inbound side has been torn down.
    pub closed spec fn has_failed(&self) -> bool {
        self.failed
    }

    /// The inbound AES-256 key.
    pub closed spec fn key_view(&self) -> Seq<u8> {
        self.dec.key_view()
    }

    /// The counter the next record is expected to be sealed with.
    pub closed spec fn counter(&self) -> u128 {
        self.dec.counter()
    }

    /// Builds the receive half from the inbound cipher state.
    pub fn new(dec: AesGcmDecryptor) -> (r: Self)
        requires
            dec.wf(),
        ensures
            r.wf(),
            !r.has_failed(),
            r.key_view() == dec.key_view(),
            r.counter() == dec.counter(),
    {
        RecordReceiver { dec, failed: false }
    }

    /// Validates a decoded wire length before the body is read: a length
    /// over the sanity cap is a framing error and tears the connection
    /// down. On success returns the byte count to read.
    pub fn check_length(&mut self, len: u64) -> (r: Result<usize, TransportError>)
        requires
            old(self).wf(),
        ensures
            final(self).wf(),
            final(self).key_view() == old(self).key_view(),
            final(self).counter() == old(self).counter(),
            old(self).has_failed() ==> r == Err::<usize, TransportError>(
                TransportError::ConnectionClosed,
            ) && *final(self) == *old(self),
            !old(self).has_failed() && len > MAX_PAYLOAD_LEN + TAG_LEN ==> r == Err::<
                usize,
                TransportError,
            >(TransportError::OversizeRecord) && final(self).has_failed(),
            !old(self).has_failed() && len <= MAX_PAYLOAD_LEN + TAG_LEN ==> r == Ok::<
                usize,
                TransportError,
            >(len as usize) && *final(self) == *old(self),
    {
        if self.failed {
            return Err(TransportError::ConnectionClosed);
        }
        if len > MAX_PAYLOAD_LEN + (TAG_LEN as u64) {
            self.failed = true;
            return Err(TransportError::OversizeRecord);
        }
        Ok(len as usize)
    }

    /// Opens one received ciphertext: verify and strip the tag under the
    /// inbound counter, advancing it by exactly one on success. Any failure
    /// tears the connection down, and a torn-down receiver never delivers a
    /// plaintext again — neither for this record nor for any later one.
    pub fn on_record(&mut self, record: Vec<u8>) -> (r: Result<Vec<u8>, TransportError>)
        requires
            old(self).wf(),
        ensures
            final(self).wf(),
            final(self).key_view() == old(self).key_view(),
            old(self).has_failed() ==> r == Err::<Vec<u8>, TransportError>(
                TransportError::ConnectionClosed,
            ) && *final(self) == *old(self),
            !old(self).has_failed() && old(self).counter() == NONCE_LIMIT - 1 ==> r == Err::<
                Vec<u8>,
                TransportError,
            >(TransportError::NonceOverflow) && final(self).has_failed() && final(self).counter()
                == old(self).counter(),
            !old(self).has_failed() && old(self).counter() < NONCE_LIMIT - 1 ==> {
                let opened = aes256gcm_open(
                    old(self).key_view(),
                    spec_nonce_le_bytes(old(self).counter()),
                    Seq::empty(),
                    record@,
                );
                &&& (opened matches Some(p) ==> r matches Ok(out) && out@ == p
                    && final(self).counter() == old(self).counter() + 1
                    && !final(self).has_failed())
                &&& (opened is None ==> r == Err::<Vec<u8>, TransportError>(
                    TransportError::CipherFailure,
                ) && final(self).has_failed() && final(self).counter() == old(self).counter())
            },
            r is Err ==> final(self).has_failed(),
            old(self).has_failed() ==> final(self).has_failed(),
    {
        if self.failed {
            return Err(TransportError::ConnectionClosed);
        }
        let empty_ad: Vec<u8> = Vec::new();
        let mut buf = record;
        match self.dec.decrypt(&mut buf, empty_ad.as_slice()) {
            Ok(()) => Ok(buf),
            Err(CryptoError::NonceOverflow) => {
                self.failed = true;
                Err(TransportError::NonceOverflow)
            },
            Err(CryptoError::CipherFailure) => {
                self.failed = true;
                Err(TransportError::CipherFailure)
            },
        }
    }
}

/// Decodes the 8-byte little-endian length prefix of a record.
pub fn decode_record_length(prefix: &[u8]) -> (r: u64)
    requires
        prefix@.len() == LEN_PREFIX_LEN,
    ensures
        r == vstd::bytes::spec_u64_from_le_bytes(prefix@),
{
    vstd::bytes::u64_from_le_bytes(prefix)
}

/// Transport round-trip law: a payload of at most 16 MiB sealed by one
/// endpoint's send half is delivered byte-for-byte by the peer's receive
/// half, when the two halves hold the matched key and matched counters.
pub fn record_round_trip(key: Vec<u8>, counter: u128, payload: Vec<u8>) -> (r: Vec<u8>)
    requires
        key@.len() == KEY_LEN,
        counter < NONCE_LIMIT - 1,
        payload@.len() <= MAX_PAYLOAD_LEN,
    ensures
        r@ == payload@,
{
    let ghost k = key@;
    let mut sender = RecordSender::new(AesGcmEncryptor::with_counter(key.clone(), counter));
    let mut receiver = RecordReceiver::new(AesGcmDecryptor::with_counter(key, counter));
    let frame = match sender.on_payload(payload.clone()) {
        Ok(frame) => frame,
        Err(_) => unreached(),
    };
    let ghost ct_spec = aes256gcm_seal(k, spec_nonce_le_bytes(counter), Seq::empty(), payload@);
    proof {
        vstd::bytes::lemma_auto_spec_u64_to_from_le_bytes();
        assert(frame@ == vstd::bytes::spec_u64_to_le_bytes(ct_spec.len() as u64) + ct_spec);
        assert(ct_spec.len() == payload@.len() + TAG_LEN);
    }
    let prefix = vstd::slice::slice_subrange(frame.as_slice(), 0, LEN_PREFIX_LEN);
    proof {
        assert(prefix@ =~= vstd::bytes::spec_u64_to_le_bytes(ct_spec.len() as u64));
    }
    let wire_len = decode_record_length(prefix);
    proof {
        assert(wire_len == ct_spec.len());
    }
    let body_len = match receiver.check_length(wire_len) {
        Ok(n) => n,
        Err(_) => unreached(),
    };
    let body = vstd::slice::slice_subrange(frame.as_slice(), LEN_PREFIX_LEN, frame.len());
    proof {
        assert(body@ =~= ct_spec);
    }
    let ct = crate::bytes::copy_bytes(body);
    match receiver.on_record(ct) {
        Ok(out) => out,
        Err(_) => unreached(),
    }
}

/// Ordering law: two payloads sealed one after the other on one direction
/// are delivered in exactly that order by the peer's receive half — the
/// counters advance in lockstep, so no record can be skipped or swapped.
pub fn records_in_order(key: Vec<u8>, counter: u128, first: Vec<u8>, second: Vec<u8>) -> (r: (
    Vec<u8>,
    Vec<u8>,
))
    requires
        key@.len() == KEY_LEN,
        counter < NONCE_LIMIT - 2,
        first@.len() <= MAX_PAYLOAD_LEN,
        second@.len() <= MAX_PAYLOAD_LEN,
    ensures
        r.0@ == first@,
        r.1@ == second@,
{
    let mut sender = RecordSender::new(AesGcmEncryptor::with_counter(key.clone(), counter));
    let mut receiver = RecordReceiver::new(AesGcmDecryptor::with_counter(key, counter));
    let frame_1 = match sender.on_payload(first.clone()) {
        Ok(frame) => frame,
        Err(_) => unreached(),
    };
    let frame_2 = match sender.on_payload(second.clone()) {
        Ok(frame) => frame,
        Err(_) => unreached(),
    };
    let body_1 = crate::bytes::copy_bytes(
        vstd::slice::slice_subrange(frame_1.as_slice(), LEN_PREFIX_LEN, frame_1.len()),
    );
    let body_2 = crate::bytes::copy_bytes(
        vstd::slice::slice_subrange(frame_2.as_slice(), LEN_PREFIX_LEN, frame_2.len()),
    );
    proof {
        vstd::bytes::lemma_auto_spec_u64_to_from_le_bytes();
        assert(body_1@ =~= aes256gcm_seal(
            sender.key_view(),
            spec_nonce_le_bytes(counter),
            Seq::empty(),
            first@,
        ));
        assert(body_2@ =~= aes256gcm_seal(
            sender.key_view(),
            spec_nonce_le_bytes((counter + 1) as u128),
            Seq::empty(),
            second@,
        ));
    }
    let out_1 = match receiver.on_record(body_1) {
        Ok(out) => out,
        Err(_) => unreached(),
    };
    let out_2 = match receiver.on_record(body_2) {
        Ok(out) => out,
        Err(_) => unreached(),
    };
    (out_1, out_2)
}

} // verus!
