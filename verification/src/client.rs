//! The call-signaling and handshake state machine. The caller sends a
//! one-byte ring request and classifies the one-byte response; both peers
//! then run the ephemeral key exchange, and the initiator generates and
//! transmits the two direction nonces that the responder consumes in
//! cross-wired order. The machine is driven step by step: it decides, and
//! hands every byte to send — or takes every byte received — as a plain
//! value, so the blocking transport stays with the caller. Failure at any
//! step tears the attempt down; a session handle is only ever observable
//! fully initialized.

use vstd::prelude::*;
use vstd::pervasive::unreached;
use crate::cipher::{NONCE_SIZE, generate_nonce};
use crate::errors::{Error, ErrorKind};
use crate::key_exchange::{EphemeralKeyPair, PUBLIC_KEY_SIZE, SHARED_SECRET_SIZE,
    dh_shared_secret, ecdh_shared_secret, generate_ephemeral_key_pair, sec1_point_valid};
use crate::session::{Role, Session};

verus! {

/// The control port both peers listen on for signaling and handshake.
pub const PRIMARY_SOCKET_PORT: u16 = 4741;

/// The media port that carries the encrypted call after the handshake.
pub const SECONDARY_SOCKET_PORT: u16 = 4742;

/// The one-byte ring request; its value carries no information beyond
/// presence.
pub const RING_REQUEST: u8 = 0;

/// Ring response: the callee is free and takes the call.
pub const CONNECTION_REQUEST_RESPONSE_OK: u8 = 0;

/// Ring response: the callee is on another call.
pub const CONNECTION_REQUEST_RESPONSE_BUSY: u8 = 1;

/// Where the handshake stands. Each transition consumes or produces exactly
/// one wire message; `Failed` is terminal for the attempt.
#[derive(Clone, Copy, PartialEq, Eq, Structural, Debug)]
pub enum HandshakeState {
    Idle,
    AwaitingRingResponse,
    RoleAssigned,
    AwaitingPeerKey,
    SecretReady,
    Established,
    Failed,
}

/// One peer's view of a call attempt: the handshake stage and whatever
/// material that stage needs. Key material lives exactly as long as its
/// stage: the ephemeral key pair is dropped (and wiped) once the shared
/// secret exists, the shared secret once the ciphers are seeded.
pub struct VoiceChatClient {
    state: HandshakeState,
    role: Option<Role>,
    key_pair: Option<EphemeralKeyPair>,
    shared_secret: Option<Vec<u8>>,
    session: Option<Session>,
}

impl VoiceChatClient {
    /// The handshake stage this client is in.
    pub closed spec fn state_spec(&self) -> HandshakeState {
        self.state
    }

    /// The role the signaling step assigned, once it has.
    pub closed spec fn role_spec(&self) -> Option<Role> {
        self.role
    }

    /// The ephemeral key pair held while waiting for the peer's key.
    pub closed spec fn key_pair_spec(&self) -> Option<EphemeralKeyPair> {
        self.key_pair
    }

    /// The derived shared secret held between key exchange and cipher setup.
    pub closed spec fn shared_secret_spec(&self) -> Option<Vec<u8>> {
        self.shared_secret
    }

    /// The encoded local public key, while one is held.
    pub closed spec fn local_public_view(&self) -> Seq<u8> {
        match self.key_pair {
            Some(kp) => kp.public_view(),
            None => Seq::empty(),
        }
    }

    /// The shared-secret bytes, while they are held.
    pub closed spec fn shared_secret_view(&self) -> Seq<u8> {
        match self.shared_secret {
            Some(s) => s@,
            None => Seq::empty(),
        }
    }

    /// The established session, once there is one.
    pub closed spec fn session_view(&self) -> Session {
        match self.session {
            Some(s) => s,
            None => vstd::pervasive::arbitrary(),
        }
    }

    /// Invariant: each stage holds exactly the material it needs, correctly
    /// sized, and nothing of a torn-down or not-yet-reached stage.
    pub closed spec fn inv(&self) -> bool {
        match self.state {
            HandshakeState::Idle | HandshakeState::AwaitingRingResponse | HandshakeState::Failed => {
                &&& self.role is None
                &&& self.key_pair is None
                &&& self.shared_secret is None
                &&& self.session is None
            },
            HandshakeState::RoleAssigned => {
                &&& self.role is Some
                &&& self.key_pair is None
                &&& self.shared_secret is None
                &&& self.session is None
            },
            HandshakeState::AwaitingPeerKey => {
                &&& self.role is Some
                &&& (self.key_pair matches Some(kp) && kp.public_view().len() == PUBLIC_KEY_SIZE)
                &&& self.shared_secret is None
                &&& self.session is None
            },
            HandshakeState::SecretReady => {
                &&& self.role is Some
                &&& self.key_pair is None
                &&& (self.shared_secret matches Some(s) && s@.len() == SHARED_SECRET_SIZE)
                &&& self.session is None
            },
            HandshakeState::Established => {
                &&& self.role is Some
                &&& self.key_pair is None
                &&& self.shared_secret is None
                &&& (self.session matches Some(sess) && sess.wf() && Some(sess.role_spec())
                    == self.role)
            },
        }
    }

    /// A fresh client with no call in progress.
    pub fn new() -> (r: VoiceChatClient)
        ensures
            r.inv(),
            r.state_spec() is Idle,
    {
        VoiceChatClient {
            state: HandshakeState::Idle,
            role: None,
            key_pair: None,
            shared_secret: None,
            session: None,
        }
    }

    /// The role the signaling step assigned, if it has.
    pub fn role(&self) -> (r: Option<Role>)
        ensures
            r == self.role_spec(),
    {
        self.role
    }

    /// Tear the attempt down: drop all key material and mark the attempt
    /// failed.
    fn fail(&mut self)
        ensures
            final(self).inv(),
            final(self).state_spec() is Failed,
            final(self).key_pair_spec() is None,
            final(self).shared_secret_spec() is None,
    {
        self.state = HandshakeState::Failed;
        self.role = None;
        self.key_pair = None;
        self.shared_secret = None;
        self.session = None;
    }

    /// Place a call: the returned byte is the ring request to send to the
    /// callee's control port, after which the caller waits for the one-byte
    /// response.
    pub fn call(&mut self) -> (r: u8)
        requires
            old(self).inv(),
            old(self).state_spec() is Idle,
        ensures
            final(self).inv(),
            final(self).state_spec() is AwaitingRingResponse,
            r == RING_REQUEST,
    {
        self.state = HandshakeState::AwaitingRingResponse;
        RING_REQUEST
    }

    /// Answer an inbound ring request: the returned byte is the response to
    /// send. A free callee takes the call and becomes the responder; a busy
    /// one refuses it and stays as it was.
    pub fn handle_ring_request(&mut self, busy: bool) -> (r: u8)
        requires
            old(self).inv(),
            old(self).state_spec() is Idle,
        ensures
            final(self).inv(),
            busy ==> (r == CONNECTION_REQUEST_RESPONSE_BUSY && *final(self) == *old(self)),
            !busy ==> (r == CONNECTION_REQUEST_RESPONSE_OK && final(self).state_spec()
                is RoleAssigned && final(self).role_spec() == Some(Role::Responder)),
    {
        if busy {
            CONNECTION_REQUEST_RESPONSE_BUSY
        } else {
            self.state = HandshakeState::RoleAssigned;
            self.role = Some(Role::Responder);
            CONNECTION_REQUEST_RESPONSE_OK
        }
    }

    /// Classify the one-byte ring response. `OK` makes this peer the
    /// initiator; `BUSY` is the peer's refusal; anything else is a protocol
    /// violation. Either failure ends the attempt before any key material
    /// exists, so nothing further is sent.
    pub fn handle_ring_response(&mut self, response: u8) -> (r: Result<(), Error>)
        requires
            old(self).inv(),
            old(self).state_spec() is AwaitingRingResponse,
        ensures
            final(self).inv(),
            response == CONNECTION_REQUEST_RESPONSE_OK ==> (r is Ok && final(self).state_spec()
                is RoleAssigned && final(self).role_spec() == Some(Role::Initiator)),
            response == CONNECTION_REQUEST_RESPONSE_BUSY ==> (r matches Err(e) && e.kind
                == ErrorKind::UserIsBusy && e.inner is NoCause && final(self).state_spec()
                is Failed),
            (response != CONNECTION_REQUEST_RESPONSE_OK && response
                != CONNECTION_REQUEST_RESPONSE_BUSY) ==> (r matches Err(e) && e.kind
                == ErrorKind::InvalidConnectionRequestResponse && e.inner is NoCause && final(self).state_spec() is Failed),
            final(self).key_pair_spec() is None,
            final(self).shared_secret_spec() is None,
    {
        if response == CONNECTION_REQUEST_RESPONSE_BUSY {
            self.fail();
            Err(ErrorKind::UserIsBusy.into_empty_error())
        } else if response == CONNECTION_REQUEST_RESPONSE_OK {
            self.state = HandshakeState::RoleAssigned;
            self.role = Some(Role::Initiator);
            Ok(())
        } else {
            self.fail();
            Err(ErrorKind::InvalidConnectionRequestResponse.into_empty_error())
        }
    }

    /// Generate the ephemeral key pair for this attempt: the returned bytes
    /// are the local public key to send, a valid uncompressed point encoding.
    pub fn begin_key_exchange(&mut self) -> (r: Vec<u8>)
        requires
            old(self).inv(),
            old(self).state_spec() is RoleAssigned,
        ensures
            final(self).inv(),
            final(self).state_spec() is AwaitingPeerKey,
            final(self).role_spec() == old(self).role_spec(),
            r@.len() == PUBLIC_KEY_SIZE,
            sec1_point_valid(r@),
            final(self).local_public_view() == r@,
    {
        let kp = generate_ephemeral_key_pair();
        let public = kp.public_bytes().clone();
        self.key_pair = Some(kp);
        self.state = HandshakeState::AwaitingPeerKey;
        public
    }

    /// Take the peer's public key exactly as received. A buffer of the wrong
    /// length fails the receive without touching the key; bytes that are no
    /// valid curve point fail the Diffie-Hellman step; valid bytes yield the
    /// shared secret — the same bytes the peer derives with the encodings in
    /// the opposite order — and the local key pair is dropped and wiped.
    pub fn handle_peer_public_key(&mut self, bytes: &Vec<u8>) -> (r: Result<(), Error>)
        requires
            old(self).inv(),
            old(self).state_spec() is AwaitingPeerKey,
        ensures
            final(self).inv(),
            bytes@.len() != PUBLIC_KEY_SIZE ==> (r matches Err(e) && e.kind
                == ErrorKind::FailedToReceivePublicKey && final(self).state_spec() is Failed),
            bytes@.len() == PUBLIC_KEY_SIZE && !sec1_point_valid(bytes@) ==> (r matches Err(e)
                && e.kind == ErrorKind::FailedToPerformDiffieHellman && final(self).state_spec()
                is Failed),
            bytes@.len() == PUBLIC_KEY_SIZE && sec1_point_valid(bytes@) ==> (r is Ok && final(self).state_spec() is SecretReady && final(self).role_spec() == old(self).role_spec()
                && final(self).shared_secret_view() == dh_shared_secret(
                old(self).local_public_view(),
                bytes@,
            ) && final(self).shared_secret_view() == dh_shared_secret(
                bytes@,
                old(self).local_public_view(),
            )),
            final(self).state_spec() is Failed ==> (final(self).key_pair_spec() is None && final(self).shared_secret_spec() is None),
    {
        if bytes.len() != PUBLIC_KEY_SIZE {
            self.fail();
            return Err(ErrorKind::FailedToReceivePublicKey.into_empty_error());
        }
        let derived = match &self.key_pair {
            Some(kp) => ecdh_shared_secret(kp, bytes),
            None => unreached(),
        };
        match derived {
            Some(secret) => {
                self.key_pair = None;
                self.shared_secret = Some(secret);
                self.state = HandshakeState::SecretReady;
                Ok(())
            },
            None => {
                self.fail();
                Err(ErrorKind::FailedToPerformDiffieHellman.into_empty_error())
            },
        }
    }

    /// Initiator only: generate the two fresh direction nonces, seed both
    /// ciphers from the shared secret, and return the nonces in wire order —
    /// send-nonce first, then receive-nonce — for transmission to the
    /// responder. The shared secret is dropped once the ciphers hold it.
    pub fn initiator_session_setup(&mut self) -> (wire: (Vec<u8>, Vec<u8>))
        requires
            old(self).inv(),
            old(self).state_spec() is SecretReady,
            old(self).role_spec() == Some(Role::Initiator),
        ensures
            final(self).inv(),
            final(self).state_spec() is Established,
            final(self).role_spec() == old(self).role_spec(),
            wire.0@.len() == NONCE_SIZE,
            wire.1@.len() == NONCE_SIZE,
            final(self).session_view().wf(),
            final(self).session_view().role_spec() == Role::Initiator,
            final(self).session_view().send_cipher_spec().key_view() == old(self).shared_secret_view(),
            final(self).session_view().send_cipher_spec().nonce_view() == wire.0@,
            final(self).session_view().send_cipher_spec().stream_pos() == 0,
            final(self).session_view().recv_cipher_spec().key_view() == old(self).shared_secret_view(),
            final(self).session_view().recv_cipher_spec().nonce_view() == wire.1@,
            final(self).session_view().recv_cipher_spec().stream_pos() == 0,
    {
        let send_nonce = generate_nonce();
        let recv_nonce = generate_nonce();
        let sess = match &self.shared_secret {
            Some(key) => Session::new(Role::Initiator, key, &send_nonce, &recv_nonce),
            None => unreached(),
        };
        self.shared_secret = None;
        self.session = Some(sess);
        self.state = HandshakeState::Established;
        (send_nonce, recv_nonce)
    }

    /// Responder only: consume the two nonce buffers in the order they came
    /// off the wire. The first received value seeds the receive cipher — it
    /// is the initiator's send-nonce — and the second the send cipher; this
    /// cross-wiring is what lets each side decrypt the other. A buffer of
    /// the wrong length is a fatal nonce-receive failure.
    pub fn responder_session_setup(&mut self, first: &Vec<u8>, second: &Vec<u8>) -> (r: Result<
        (),
        Error,
    >)
        requires
            old(self).inv(),
            old(self).state_spec() is SecretReady,
            old(self).role_spec() == Some(Role::Responder),
        ensures
            final(self).inv(),
            (first@.len() != NONCE_SIZE || second@.len() != NONCE_SIZE) ==> (r matches Err(e)
                && e.kind == ErrorKind::FailedToReceiveNonce && final(self).state_spec()
                is Failed),
            (first@.len() == NONCE_SIZE && second@.len() == NONCE_SIZE) ==> (r is Ok && final(self).state_spec() is Established && final(self).role_spec() == old(self).role_spec()
                && final(self).session_view().wf() && final(self).session_view().role_spec()
                == Role::Responder && final(self).session_view().recv_cipher_spec().key_view()
                == old(self).shared_secret_view() && final(self).session_view().recv_cipher_spec().nonce_view() == first@ && final(self).session_view().recv_cipher_spec().stream_pos() == 0 && final(self).session_view().send_cipher_spec().key_view() == old(self).shared_secret_view()
                && final(self).session_view().send_cipher_spec().nonce_view() == second@ && final(self).session_view().send_cipher_spec().stream_pos() == 0),
    {
        if first.len() != NONCE_SIZE || second.len() != NONCE_SIZE {
            self.fail();
            return Err(ErrorKind::FailedToReceiveNonce.into_empty_error());
        }
        let sess = match &self.shared_secret {
            Some(key) => Session::new(Role::Responder, key, second, first),
            None => unreached(),
        };
        self.shared_secret = None;
        self.session = Some(sess);
        self.state = HandshakeState::Established;
        Ok(())
    }

    /// Hand the finished session to the media layer and return this client
    /// to idle, ready for the next call. Before the handshake has finished
    /// there is nothing to hand out and nothing changes.
    pub fn take_session(&mut self) -> (r: Option<Session>)
        requires
            old(self).inv(),
        ensures
            final(self).inv(),
            old(self).state_spec() is Established ==> (r matches Some(s) && s
                == old(self).session_view() && s.wf() && final(self).state_spec() is Idle),
            !(old(self).state_spec() is Established) ==> (r is None && *final(self) == *old(self)),
    {
        match self.state {
            HandshakeState::Established => {
                let mut taken: Option<Session> = None;
                std::mem::swap(&mut taken, &mut self.session);
                self.state = HandshakeState::Idle;
                self.role = None;
                taken
            },
            _ => None,
        }
    }
}

} // verus!
