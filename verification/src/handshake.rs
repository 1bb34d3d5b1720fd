//! Handshake: orchestrates two independent key exchanges and the identity
//! signatures over one reliable byte stream, yielding the two record-layer
//! cipher states and a verified peer identity.
//!
//! Both sides run the same steps. Each endpoint sends its inbound context's
//! public key first, then its outbound context's; the first key received
//! fills the outbound context's remote slot and the second the inbound
//! context's. This crossing is what makes the two exchanges independent.
//!
//! Every byte sent and received up to key completion is recorded; the
//! identity step signs `sent ‖ received` and checks the peer's signature
//! over `received ‖ sent`, which is the same string seen from the peer's
//! side. Any failure is fatal: the stream is dropped.

use vstd::prelude::*;

use crate::crypto::{AesGcmDecryptor, AesGcmEncryptor};
use crate::kex::{KexError, KyberlibKeyExchanger, CI_LEN, PK_LEN, SI_LEN};
use crate::session::{AuthError, Fips204Authenticator};

verus! {

/// Errors that end a handshake; each drops the connection.
#[derive(Clone, Copy, Debug, PartialEq, Eq, Structural)]
pub enum HandshakeError {
    /// A peer message did not have the length the protocol requires.
    BadLength,
    /// A key-exchange step failed.
    Kex(KexError),
    /// Producing the local identity signature failed.
    Auth(AuthError),
    /// The peer is unknown or its transcript signature did not verify.
    AuthenticationFailure,
}

/// The steps of the handshake, in wire order.
#[derive(Clone, Copy, Debug, PartialEq, Eq, Structural)]
pub enum HandshakePhase {
    /// Send both local ephemeral public keys.
    SendPublicKeys,
    /// Read both peer ephemeral public keys.
    ReceivePublicKeys,
    /// Send the outbound context's initiation message.
    SendOffer,
    /// Read the peer's initiation message and send the reply.
    RespondOffer,
    /// Read the peer's reply and complete the outbound context.
    Complete,
    /// Sign the local transcript.
    SignTranscript,
    /// Verify the peer's transcript signature.
    VerifyPeer,
    /// Both session keys derived and the peer verified.
    Ready,
    /// The handshake failed; the stream must be dropped.
    Failed,
}

/// One endpoint's handshake state: the two per-direction key exchanges and
/// the transcript of every handshake byte sent and received.
pub struct Handshake {
    i_kex: KyberlibKeyExchanger,
    o_kex: KyberlibKeyExchanger,
    sent: Vec<u8>,
    received: Vec<u8>,
    phase: HandshakePhase,
}

impl Handshake {
    /// The inbound key-exchange context.
    pub closed spec fn i_kex(&self) -> KyberlibKeyExchanger {
        self.i_kex
    }

    /// The outbound key-exchange context.
    pub closed spec fn o_kex(&self) -> KyberlibKeyExchanger {
        self.o_kex
    }

    /// Every handshake byte this endpoint has sent, in order.
    pub closed spec fn sent_view(&self) -> Seq<u8> {
        self.sent@
    }

    /// Every handshake byte this endpoint has received, in order.
    pub closed spec fn received_view(&self) -> Seq<u8> {
        self.received@
    }

    /// The current step.
    pub closed spec fn phase(&self) -> HandshakePhase {
        self.phase
    }

    /// The state invariant: what each step may rely on of the two contexts.
    pub closed spec fn wf(&self) -> bool {
        &&& self.i_kex.wf()
        &&& self.o_kex.wf()
        &&& self.phase == HandshakePhase::SendPublicKeys ==> !self.i_kex.has_remote()
            && !self.o_kex.has_remote()
        &&& self.phase == HandshakePhase::ReceivePublicKeys ==> !self.i_kex.has_remote()
            && !self.o_kex.has_remote()
        &&& self.phase == HandshakePhase::SendOffer ==> self.i_kex.has_remote()
            && self.o_kex.has_remote()
        &&& self.phase == HandshakePhase::RespondOffer ==> self.i_kex.has_remote()
            && self.o_kex.has_remote() && self.o_kex.initiated()
        &&& self.phase == HandshakePhase::Complete ==> self.o_kex.has_remote()
            && self.o_kex.initiated() && self.i_kex.has_secret()
        &&& self.phase == HandshakePhase::SignTranscript ==> self.i_kex.has_secret()
            && self.o_kex.has_secret()
        &&& self.phase == HandshakePhase::VerifyPeer ==> self.i_kex.has_secret()
            && self.o_kex.has_secret()
        &&& self.phase == HandshakePhase::Ready ==> self.i_kex.has_secret()
            && self.o_kex.has_secret()
    }

    /// Reports the current step.
    pub fn current_phase(&self) -> (r: HandshakePhase)
        ensures
            r == self.phase(),
    {
        self.phase
    }

    /// Starts a handshake from two fresh per-direction contexts.
    pub fn new(i_kex: KyberlibKeyExchanger, o_kex: KyberlibKeyExchanger) -> (r: Self)
        requires
            i_kex.wf(),
            !i_kex.has_remote(),
            !i_kex.has_secret(),
            o_kex.wf(),
            !o_kex.has_remote(),
            !o_kex.has_secret(),
        ensures
            r.wf(),
            r.phase() == HandshakePhase::SendPublicKeys,
            r.sent_view() == Seq::<u8>::empty(),
            r.received_view() == Seq::<u8>::empty(),
            r.i_kex() == i_kex,
            r.o_kex() == o_kex,
    {
        Handshake {
            i_kex,
            o_kex,
            sent: Vec::new(),
            received: Vec::new(),
            phase: HandshakePhase::SendPublicKeys,
        }
    }

    /// Produces the first flight: the inbound context's public key followed
    /// by the outbound context's.
    pub fn send_public_keys(&mut self) -> (r: Vec<u8>)
        requires
            old(self).wf(),
            old(self).phase() == HandshakePhase::SendPublicKeys,
        ensures
            final(self).wf(),
            final(self).phase() == HandshakePhase::ReceivePublicKeys,
            r@ == old(self).i_kex().local_public_view() + old(self).o_kex().local_public_view(),
            r@.len() == 2 * PK_LEN,
            final(self).sent_view() == old(self).sent_view() + r@,
            final(self).received_view() == old(self).received_view(),
            final(self).i_kex() == old(self).i_kex(),
            final(self).o_kex() == old(self).o_kex(),
    {
        let mut flight = self.i_kex.get_local_pubkey();
        let o_pk = self.o_kex.get_local_pubkey();
        crate::bytes::extend_bytes(&mut flight, o_pk.as_slice());
        crate::bytes::extend_bytes(&mut self.sent, flight.as_slice());
        self.phase = HandshakePhase::ReceivePublicKeys;
        flight
    }

    /// Consumes the peer's first flight: the first key received fills the
    /// outbound context's remote slot, the second the inbound context's.
    /// Rejects exactly the keys that do not have `PK_LEN` bytes.
    pub fn receive_public_keys(&mut self, first: &[u8], second: &[u8]) -> (r: Result<
        (),
        HandshakeError,
    >)
        requires
            old(self).wf(),
            old(self).phase() == HandshakePhase::ReceivePublicKeys,
        ensures
            final(self).wf(),
            r is Ok <==> first@.len() == PK_LEN && second@.len() == PK_LEN,
            r matches Err(e) ==> e == HandshakeError::BadLength && final(self).phase()
                == HandshakePhase::Failed,
            r is Ok ==> {
                &&& final(self).phase() == HandshakePhase::SendOffer
                &&& final(self).o_kex().has_remote() && final(self).o_kex().remote_key() == first@
                &&& final(self).i_kex().has_remote() && final(self).i_kex().remote_key() == second@
                &&& final(self).received_view() == old(self).received_view() + first@ + second@
                &&& final(self).sent_view() == old(self).sent_view()
            },
    {
        if first.len() != PK_LEN || second.len() != PK_LEN {
            self.phase = HandshakePhase::Failed;
            return Err(HandshakeError::BadLength);
        }
        match self.o_kex.set_remote_pubkey(first) {
            Ok(()) => (),
            Err(_) => {
                proof {
                    assert(false);
                }
            },
        }
        match self.i_kex.set_remote_pubkey(second) {
            Ok(()) => (),
            Err(_) => {
                proof {
                    assert(false);
                }
            },
        }
        crate::bytes::extend_bytes(&mut self.received, first);
        crate::bytes::extend_bytes(&mut self.received, second);
        self.phase = HandshakePhase::SendOffer;
        Ok(())
    }

    /// Produces the outbound context's initiation message.
    pub fn send_offer(&mut self) -> (r: Result<Vec<u8>, HandshakeError>)
        requires
            old(self).wf(),
            old(self).phase() == HandshakePhase::SendOffer,
        ensures
            final(self).wf(),
            r matches Ok(msg) ==> {
                &&& final(self).phase() == HandshakePhase::RespondOffer
                &&& msg@.len() == CI_LEN
                &&& final(self).sent_view() == old(self).sent_view() + msg@
                &&& final(self).received_view() == old(self).received_view()
            },
            r is Err ==> final(self).phase() == HandshakePhase::Failed,
    {
        match self.o_kex.client_init() {
            Ok(msg) => {
                crate::bytes::extend_bytes(&mut self.sent, msg.as_slice());
                self.phase = HandshakePhase::RespondOffer;
                Ok(msg)
            },
            Err(e) => {
                self.phase = HandshakePhase::Failed;
                Err(HandshakeError::Kex(e))
            },
        }
    }

    /// Consumes the peer's initiation message and produces the inbound
    /// context's reply; afterwards the inbound session key exists. Rejects
    /// exactly the messages that do not have `CI_LEN` bytes.
    pub fn respond_offer(&mut self, peer_offer: &[u8]) -> (r: Result<Vec<u8>, HandshakeError>)
        requires
            old(self).wf(),
            old(self).phase() == HandshakePhase::RespondOffer,
        ensures
            final(self).wf(),
            peer_offer@.len() != CI_LEN ==> r == Err::<Vec<u8>, HandshakeError>(
                HandshakeError::BadLength,
            ),
            r matches Ok(reply) ==> {
                &&& final(self).phase() == HandshakePhase::Complete
                &&& reply@.len() == SI_LEN
                &&& final(self).i_kex().has_secret()
                &&& final(self).received_view() == old(self).received_view() + peer_offer@
                &&& final(self).sent_view() == old(self).sent_view() + reply@
            },
            r is Err ==> final(self).phase() == HandshakePhase::Failed,
    {
        if peer_offer.len() != CI_LEN {
            self.phase = HandshakePhase::Failed;
            return Err(HandshakeError::BadLength);
        }
        match self.i_kex.server_init(peer_offer) {
            Ok(reply) => {
                crate::bytes::extend_bytes(&mut self.received, peer_offer);
                crate::bytes::extend_bytes(&mut self.sent, reply.as_slice());
                self.phase = HandshakePhase::Complete;
                Ok(reply)
            },
            Err(e) => {
                self.phase = HandshakePhase::Failed;
                Err(HandshakeError::Kex(e))
            },
        }
    }

    /// Consumes the peer's reply, completing the outbound context;
    /// afterwards both session keys exist. Rejects exactly the messages
    /// that do not have `SI_LEN` bytes.
    pub fn complete(&mut self, peer_reply: &[u8]) -> (r: Result<(), HandshakeError>)
        requires
            old(self).wf(),
            old(self).phase() == HandshakePhase::Complete,
        ensures
            final(self).wf(),
            peer_reply@.len() != SI_LEN ==> r == Err::<(), HandshakeError>(
                HandshakeError::BadLength,
            ),
            r is Ok ==> {
                &&& final(self).phase() == HandshakePhase::SignTranscript
                &&& final(self).i_kex().has_secret() && final(self).o_kex().has_secret()
                &&& final(self).received_view() == old(self).received_view() + peer_reply@
                &&& final(self).sent_view() == old(self).sent_view()
            },
            r is Err ==> final(self).phase() == HandshakePhase::Failed,
    {
        if peer_reply.len() != SI_LEN {
            self.phase = HandshakePhase::Failed;
            return Err(HandshakeError::BadLength);
        }
        match self.o_kex.client_confirm(peer_reply) {
            Ok(()) => {
                crate::bytes::extend_bytes(&mut self.received, peer_reply);
                self.phase = HandshakePhase::SignTranscript;
                Ok(())
            },
            Err(e) => {
                self.phase = HandshakePhase::Failed;
                Err(HandshakeError::Kex(e))
            },
        }
    }

    /// Signs the local transcript `sent ‖ received`, binding the session to
    /// the local long-term identity.
    pub fn sign_transcript(&mut self, auth: &mut Fips204Authenticator) -> (r: Result<
        Vec<u8>,
        HandshakeError,
    >)
        requires
            old(self).wf(),
            old(self).phase() == HandshakePhase::SignTranscript,
            old(auth).wf(),
        ensures
            final(self).wf(),
            final(auth).wf(),
            final(auth).peers() == old(auth).peers(),
            r matches Ok(sig) ==> sig@.len() == crate::session::SIG_LEN && final(self).phase()
                == HandshakePhase::VerifyPeer,
            r is Err ==> final(self).phase() == HandshakePhase::Failed,
            final(self).sent_view() == old(self).sent_view(),
            final(self).received_view() == old(self).received_view(),
            final(self).i_kex() == old(self).i_kex(),
            final(self).o_kex() == old(self).o_kex(),
    {
        let mut transcript = crate::bytes::copy_bytes(self.sent.as_slice());
        crate::bytes::extend_bytes(&mut transcript, self.received.as_slice());
        match auth.sign(transcript.as_slice()) {
            Ok(sig) => {
                self.phase = HandshakePhase::VerifyPeer;
                Ok(sig)
            },
            Err(e) => {
                self.phase = HandshakePhase::Failed;
                Err(HandshakeError::Auth(e))
            },
        }
    }

    /// Verifies the peer's signature over the transcript as the peer saw it,
    /// `received ‖ sent`. Succeeds exactly when the peer address is in the
    /// identity table and the signature verifies; an unknown peer or a bad
    /// signature is an authentication failure and ends the handshake.
    pub fn verify_peer(&mut self, auth: &Fips204Authenticator, host: u128, signature: &[u8]) -> (r:
        Result<(), HandshakeError>)
        requires
            old(self).wf(),
            old(self).phase() == HandshakePhase::VerifyPeer,
            auth.wf(),
        ensures
            final(self).wf(),
            r is Ok <==> auth.peers().contains_key(host) && crate::session::fips204_verdict(
                auth.peers()[host]@,
                old(self).received_view() + old(self).sent_view(),
                signature@,
                crate::session::spec_domain_context(),
            ),
            r is Ok ==> final(self).phase() == HandshakePhase::Ready,
            r matches Err(e) ==> e == HandshakeError::AuthenticationFailure && final(self).phase()
                == HandshakePhase::Failed,
            final(self).i_kex() == old(self).i_kex(),
            final(self).o_kex() == old(self).o_kex(),
    {
        let mut peer_transcript = crate::bytes::copy_bytes(self.received.as_slice());
        crate::bytes::extend_bytes(&mut peer_transcript, self.sent.as_slice());
        if auth.verify(peer_transcript.as_slice(), host, signature) {
            self.phase = HandshakePhase::Ready;
            Ok(())
        } else {
            self.phase = HandshakePhase::Failed;
            Err(HandshakeError::AuthenticationFailure)
        }
    }

    /// Yields the record-layer cipher pair of a ready handshake: the
    /// outbound state keyed by the outbound context's secret and the
    /// inbound state keyed by the inbound context's, both counters zero.
    pub fn session_keys(self, crypto: &crate::crypto::Implementation) -> (r: (
        AesGcmEncryptor,
        AesGcmDecryptor,
    ))
        requires
            self.wf(),
            self.phase() == HandshakePhase::Ready,
        ensures
            r.0.wf() && r.0.key_view() == self.o_kex().secret_bytes() && r.0.counter() == 0,
            r.1.wf() && r.1.key_view() == self.i_kex().secret_bytes() && r.1.counter() == 0,
    {
        crypto.generate(self.i_kex, self.o_kex)
    }
}

} // verus!
