//! The session handle: the artifact a completed handshake produces. It owns
//! one cipher per traffic direction, cross-wired so that what one peer's send
//! cipher encrypts, the other peer's receive cipher decrypts, and records
//! which role this peer played. The transport socket stays with the caller;
//! the handle only ever exists fully initialized.

use vstd::prelude::*;
use crate::cipher::{DirectionCipher, KEY_SIZE, NONCE_SIZE, STREAM_CAPACITY, xor_keystream,
    lemma_xor_keystream_round_trip};

verus! {

/// Which side of the call this peer is: the caller (who generates the session
/// nonces) or the callee (who consumes them). Set exactly once per call.
#[derive(Clone, Copy, PartialEq, Eq, Structural, Debug)]
pub enum Role {
    Initiator,
    Responder,
}

/// A fully established call session: one cipher per direction, plus the role
/// under which the handshake ran.
pub struct Session {
    role: Role,
    send_cipher: DirectionCipher,
    recv_cipher: DirectionCipher,
}

impl Session {
    /// The role this peer played in the handshake.
    pub closed spec fn role_spec(&self) -> Role {
        self.role
    }

    /// The cipher that encrypts outgoing traffic.
    pub closed spec fn send_cipher_spec(&self) -> DirectionCipher {
        self.send_cipher
    }

    /// The cipher that decrypts incoming traffic.
    pub closed spec fn recv_cipher_spec(&self) -> DirectionCipher {
        self.recv_cipher
    }

    /// Well-formedness: both direction ciphers are well-formed.
    pub open spec fn wf(&self) -> bool {
        &&& self.send_cipher_spec().wf()
        &&& self.recv_cipher_spec().wf()
    }

    /// Build a session from the shared secret and the two direction nonces,
    /// both ciphers at stream position zero.
    pub fn new(role: Role, key: &Vec<u8>, send_nonce: &Vec<u8>, recv_nonce: &Vec<u8>) -> (r:
        Session)
        requires
            key@.len() == KEY_SIZE,
            send_nonce@.len() == NONCE_SIZE,
            recv_nonce@.len() == NONCE_SIZE,
        ensures
            r.wf(),
            r.role_spec() == role,
            r.send_cipher_spec().key_view() == key@,
            r.send_cipher_spec().nonce_view() == send_nonce@,
            r.send_cipher_spec().stream_pos() == 0,
            r.recv_cipher_spec().key_view() == key@,
            r.recv_cipher_spec().nonce_view() == recv_nonce@,
            r.recv_cipher_spec().stream_pos() == 0,
    {
        Session {
            role,
            send_cipher: DirectionCipher::new(key, send_nonce),
            recv_cipher: DirectionCipher::new(key, recv_nonce),
        }
    }

    /// The role this peer played.
    pub fn role(&self) -> (r: Role)
        ensures
            r == self.role_spec(),
    {
        self.role
    }

    /// Encrypt an outgoing block at the send direction's current stream
    /// position, advancing it.
    pub fn encrypt(&mut self, plaintext: &Vec<u8>) -> (r: Vec<u8>)
        requires
            old(self).wf(),
            plaintext@.len() <= STREAM_CAPACITY - old(self).send_cipher_spec().stream_pos(),
        ensures
            final(self).wf(),
            final(self).role_spec() == old(self).role_spec(),
            final(self).recv_cipher_spec() == old(self).recv_cipher_spec(),
            final(self).send_cipher_spec().key_view() == old(self).send_cipher_spec().key_view(),
            final(self).send_cipher_spec().nonce_view() == old(self).send_cipher_spec().nonce_view(),
            final(self).send_cipher_spec().stream_pos() == old(self).send_cipher_spec().stream_pos()
                + plaintext@.len(),
            r@ == xor_keystream(plaintext@, old(self).send_cipher_spec().key_view(),
                old(self).send_cipher_spec().nonce_view(),
                old(self).send_cipher_spec().stream_pos() as int),
    {
        self.send_cipher.apply(plaintext)
    }

    /// Decrypt an incoming block at the receive direction's current stream
    /// position, advancing it.
    pub fn decrypt(&mut self, ciphertext: &Vec<u8>) -> (r: Vec<u8>)
        requires
            old(self).wf(),
            ciphertext@.len() <= STREAM_CAPACITY - old(self).recv_cipher_spec().stream_pos(),
        ensures
            final(self).wf(),
            final(self).role_spec() == old(self).role_spec(),
            final(self).send_cipher_spec() == old(self).send_cipher_spec(),
            final(self).recv_cipher_spec().key_view() == old(self).recv_cipher_spec().key_view(),
            final(self).recv_cipher_spec().nonce_view() == old(self).recv_cipher_spec().nonce_view(),
            final(self).recv_cipher_spec().stream_pos() == old(self).recv_cipher_spec().stream_pos()
                + ciphertext@.len(),
            r@ == xor_keystream(ciphertext@, old(self).recv_cipher_spec().key_view(),
                old(self).recv_cipher_spec().nonce_view(),
                old(self).recv_cipher_spec().stream_pos() as int),
    {
        self.recv_cipher.apply(ciphertext)
    }
}

/// Law: nonce cross-wiring. When the initiator seeds its send cipher with the
/// first wire nonce and its receive cipher with the second, and the responder
/// — receiving those nonces in the same wire order — seeds its receive cipher
/// with the first and its send cipher with the second, then under a common
/// key each side's send cipher matches the other side's receive cipher, and a
/// block either side encrypts decrypts back to the original under the other's
/// matching cipher.
pub proof fn lemma_cross_wired_sessions(
    ini: Session,
    res: Session,
    key: Seq<u8>,
    first: Seq<u8>,
    second: Seq<u8>,
    data: Seq<u8>,
)
    requires
        ini.send_cipher_spec().key_view() == key,
        ini.send_cipher_spec().nonce_view() == first,
        ini.send_cipher_spec().stream_pos() == 0,
        ini.recv_cipher_spec().key_view() == key,
        ini.recv_cipher_spec().nonce_view() == second,
        ini.recv_cipher_spec().stream_pos() == 0,
        res.recv_cipher_spec().key_view() == key,
        res.recv_cipher_spec().nonce_view() == first,
        res.recv_cipher_spec().stream_pos() == 0,
        res.send_cipher_spec().key_view() == key,
        res.send_cipher_spec().nonce_view() == second,
        res.send_cipher_spec().stream_pos() == 0,
    ensures
        ini.send_cipher_spec().key_view() == res.recv_cipher_spec().key_view(),
        ini.send_cipher_spec().nonce_view() == res.recv_cipher_spec().nonce_view(),
        res.send_cipher_spec().key_view() == ini.recv_cipher_spec().key_view(),
        res.send_cipher_spec().nonce_view() == ini.recv_cipher_spec().nonce_view(),
        xor_keystream(xor_keystream(data, key, first, 0), key, first, 0) == data,
        xor_keystream(xor_keystream(data, key, second, 0), key, second, 0) == data,
{
    lemma_xor_keystream_round_trip(data, key, first, 0);
    lemma_xor_keystream_round_trip(data, key, second, 0);
}

/// Law: matched directions carry traffic faithfully. When one session's send
/// cipher and another's receive cipher are seeded with the same key and nonce
/// and stand at the same stream position, whatever the first encrypts the
/// second decrypts back to the original bytes.
pub proof fn lemma_matched_directions_round_trip(a: Session, b: Session, data: Seq<u8>)
    requires
        a.send_cipher_spec().key_view() == b.recv_cipher_spec().key_view(),
        a.send_cipher_spec().nonce_view() == b.recv_cipher_spec().nonce_view(),
        a.send_cipher_spec().stream_pos() == b.recv_cipher_spec().stream_pos(),
    ensures
        xor_keystream(
            xor_keystream(data, a.send_cipher_spec().key_view(), a.send_cipher_spec().nonce_view(),
                a.send_cipher_spec().stream_pos() as int),
            b.recv_cipher_spec().key_view(),
            b.recv_cipher_spec().nonce_view(),
            b.recv_cipher_spec().stream_pos() as int,
        ) == data,
{
    lemma_xor_keystream_round_trip(data, a.send_cipher_spec().key_view(),
        a.send_cipher_spec().nonce_view(), a.send_cipher_spec().stream_pos() as int);
}

} // verus!
