//! Per-direction stream-cipher state. Each direction of a call owns one
//! cipher, seeded with the call's shared secret and that direction's nonce;
//! applying it XORs data with the ChaCha20 keystream, so applying twice at the
//! same stream position restores the original bytes.

use vstd::prelude::*;
use chacha20::cipher::{KeyIvInit, StreamCipher, StreamCipherSeek};
use rand_core::RngCore;

verus! {

/// Stream-cipher key length in bytes; equals the shared-secret length.
pub const KEY_SIZE: usize = 32;

/// Stream-cipher nonce length in bytes.
pub const NONCE_SIZE: usize = 12;

/// Total keystream a single (key, nonce) pair can produce: the cipher's
/// 32-bit block counter covers 2^32 - 1 full 64-byte blocks.
pub const STREAM_CAPACITY: u64 = 274_877_906_880;

/// The ChaCha20 keystream byte at position `index` of the stream determined
/// by `key` and `nonce`. A function of its arguments alone.
pub uninterp spec fn keystream_byte(key: Seq<u8>, nonce: Seq<u8>, index: int) -> u8;

/// `data` XORed bytewise with the keystream for (`key`, `nonce`) starting at
/// stream position `pos`.
pub open spec fn xor_keystream(data: Seq<u8>, key: Seq<u8>, nonce: Seq<u8>, pos: int) -> Seq<u8> {
    Seq::new(data.len(), |i: int| data[i] ^ keystream_byte(key, nonce, pos + i))
}

/// Relies on chacha20::ChaCha20 through cipher::KeyIvInit::new_from_slices,
/// cipher::StreamCipherSeek::seek and cipher::StreamCipher::apply_keystream:
/// the result XORs `data` with the ChaCha20 keystream for (`key`, `nonce`)
/// starting at byte position `offset`; the keystream depends on the key and
/// nonce alone.
#[verifier::external_body]
pub(crate) fn chacha20_xor_at(key: &Vec<u8>, nonce: &Vec<u8>, offset: u64, data: &Vec<u8>) -> (r: Vec<u8>)
    requires
        key@.len() == KEY_SIZE,
        nonce@.len() == NONCE_SIZE,
        offset + data@.len() <= STREAM_CAPACITY,
    ensures
        r@.len() == data@.len(),
        forall|i: int| 0 <= i < data@.len() ==> r@[i] == (data@[i] ^ keystream_byte(
            key@,
            nonce@,
            offset + i,
        )),
{
    let mut cipher = chacha20::ChaCha20::new_from_slices(key.as_slice(), nonce.as_slice()).unwrap();
    cipher.seek(offset);
    let mut buf = data.clone();
    cipher.apply_keystream(buf.as_mut_slice());
    buf
}

/// Relies on rand_core::OsRng::fill_bytes: fills the nonce from the operating
/// system's cryptographically secure random source. Nothing is promised of
/// the bytes themselves beyond their number.
#[verifier::external_body]
pub(crate) fn generate_nonce() -> (r: Vec<u8>)
    ensures
        r@.len() == NONCE_SIZE,
{
    let mut buf = [0u8; 12];
    rand_core::OsRng.fill_bytes(&mut buf);
    buf.to_vec()
}

/// A keyed, nonce-seeded stream cipher for one traffic direction, owning its
/// stream position. Deliberately not cloneable: a direction's keystream must
/// be consumed once.
pub struct DirectionCipher {
    key: Vec<u8>,
    nonce: Vec<u8>,
    position: u64,
}

impl DirectionCipher {
    /// The key this cipher was seeded with.
    pub closed spec fn key_view(&self) -> Seq<u8> {
        self.key@
    }

    /// The nonce this cipher was seeded with.
    pub closed spec fn nonce_view(&self) -> Seq<u8> {
        self.nonce@
    }

    /// How many keystream bytes this cipher has already consumed.
    pub closed spec fn stream_pos(&self) -> u64 {
        self.position
    }

    /// Well-formedness: correctly sized seed material, position within the
    /// keystream capacity.
    pub open spec fn wf(&self) -> bool {
        &&& self.key_view().len() == KEY_SIZE
        &&& self.nonce_view().len() == NONCE_SIZE
        &&& self.stream_pos() <= STREAM_CAPACITY
    }

    /// Seed a fresh cipher from a key and a nonce, at stream position zero.
    pub fn new(key: &Vec<u8>, nonce: &Vec<u8>) -> (r: DirectionCipher)
        requires
            key@.len() == KEY_SIZE,
            nonce@.len() == NONCE_SIZE,
        ensures
            r.wf(),
            r.key_view() == key@,
            r.nonce_view() == nonce@,
            r.stream_pos() == 0,
    {
        DirectionCipher { key: key.clone(), nonce: nonce.clone(), position: 0 }
    }

    /// Encrypt or decrypt `data` at the current stream position and advance
    /// the position past it. XOR makes the two operations the same.
    pub fn apply(&mut self, data: &Vec<u8>) -> (r: Vec<u8>)
        requires
            old(self).wf(),
            data@.len() <= STREAM_CAPACITY - old(self).stream_pos(),
        ensures
            final(self).wf(),
            final(self).key_view() == old(self).key_view(),
            final(self).nonce_view() == old(self).nonce_view(),
            final(self).stream_pos() == old(self).stream_pos() + data@.len(),
            r@ == xor_keystream(data@, old(self).key_view(), old(self).nonce_view(),
                old(self).stream_pos() as int),
    {
        let r = chacha20_xor_at(&self.key, &self.nonce, self.position, data);
        proof {
            assert(r@ =~= xor_keystream(data@, self.key@, self.nonce@, self.position as int));
        }
        self.position = self.position + data.len() as u64;
        r
    }
}

/// Law: applying the same keystream twice restores the original bytes, so
/// whatever a cipher encrypts, a cipher seeded with the same key and nonce
/// and aligned at the same stream position decrypts.
pub proof fn lemma_xor_keystream_round_trip(data: Seq<u8>, key: Seq<u8>, nonce: Seq<u8>, pos: int)
    ensures
        xor_keystream(xor_keystream(data, key, nonce, pos), key, nonce, pos) == data,
{
    let once = xor_keystream(data, key, nonce, pos);
    let twice = xor_keystream(once, key, nonce, pos);
    assert forall|i: int| 0 <= i < data.len() implies twice[i] == data[i] by {
        let d = data[i];
        let k = keystream_byte(key, nonce, pos + i);
        assert((d ^ k) ^ k == d) by (bit_vector);
    }
    assert(twice =~= data);
}

} // verus!
