//! Ephemeral elliptic-curve Diffie-Hellman over NIST P-256. Each call
//! attempt generates a fresh key pair; the peers exchange uncompressed SEC1
//! point encodings and each derives the same shared secret, which seeds the
//! session's stream ciphers. The private scalar is wiped on drop and is
//! discarded as soon as the shared secret exists.

use vstd::prelude::*;
use p256::elliptic_curve::Generate;

verus! {

/// Length in bytes of an uncompressed SEC1 encoding of a P-256 point.
pub const PUBLIC_KEY_SIZE: usize = 65;

/// Length in bytes of the derived shared secret (a P-256 field element).
pub const SHARED_SECRET_SIZE: usize = 32;

/// A P-256 ephemeral secret scalar, wiped on drop by the outside crate. Held
/// only between key-pair generation and shared-secret derivation, and opaque:
/// nothing is stated or known of the value inside.
#[verifier::external_body]
pub struct SecretScalar {
    inner: p256::ecdh::EphemeralSecret,
}

/// Whether `encoding` is a SEC1 encoding of a valid, non-identity point on
/// the P-256 curve. A function of the bytes alone.
pub uninterp spec fn sec1_point_valid(encoding: Seq<u8>) -> bool;

/// The shared secret that elliptic-curve Diffie-Hellman derives for the key
/// pair whose public encoding is `local_public` and the peer point encoded by
/// `remote_public`. A point encoding determines its point, and a public key
/// its secret scalar, so this is a function of the two encodings alone.
pub uninterp spec fn dh_shared_secret(local_public: Seq<u8>, remote_public: Seq<u8>) -> Seq<u8>;

/// A freshly generated ephemeral key pair: the secret scalar and the
/// uncompressed SEC1 encoding of its public point.
pub struct EphemeralKeyPair {
    secret: SecretScalar,
    public: Vec<u8>,
}

impl EphemeralKeyPair {
    /// The uncompressed SEC1 encoding of this key pair's public point.
    pub closed spec fn public_view(&self) -> Seq<u8> {
        self.public@
    }

    /// The encoded public point, to be sent to the peer.
    pub fn public_bytes(&self) -> (r: &Vec<u8>)
        ensures
            r@ == self.public_view(),
    {
        &self.public
    }
}

/// Relies on p256's ephemeral-secret generation (elliptic_curve::Generate,
/// drawing from the system's secure random source) and on
/// PublicKey::to_sec1_bytes, which for P-256 produces the uncompressed SEC1
/// encoding: 65 bytes that from_sec1_bytes accepts again. Nothing is promised
/// of which key pair comes out.
#[verifier::external_body]
pub(crate) fn generate_ephemeral_key_pair() -> (r: EphemeralKeyPair)
    ensures
        r.public_view().len() == PUBLIC_KEY_SIZE,
        sec1_point_valid(r.public_view()),
{
    let secret = p256::ecdh::EphemeralSecret::generate();
    let public = secret.public_key().to_sec1_bytes().into_vec();
    EphemeralKeyPair { secret: SecretScalar { inner: secret }, public }
}

/// Relies on p256::PublicKey::from_sec1_bytes, which accepts exactly the SEC1
/// encodings of valid non-identity curve points, and on
/// EphemeralSecret::diffie_hellman with SharedSecret::raw_secret_bytes, whose
/// 32 result bytes depend only on the secret scalar and the peer point — and,
/// as p256's elliptic-curve Diffie-Hellman documentation states, are the same
/// bytes both participants arrive at, whichever side derives them.
#[verifier::external_body]
pub(crate) fn ecdh_shared_secret(keypair: &EphemeralKeyPair, remote: &Vec<u8>) -> (r: Option<
    Vec<u8>,
>)
    ensures
        r is Some <==> sec1_point_valid(remote@),
        r matches Some(s) ==> (s@.len() == SHARED_SECRET_SIZE
            && s@ == dh_shared_secret(keypair.public_view(), remote@)
            && s@ == dh_shared_secret(remote@, keypair.public_view())),
{
    match p256::PublicKey::from_sec1_bytes(remote.as_slice()) {
        Ok(pk) => Some(keypair.secret.inner.diffie_hellman(&pk).raw_secret_bytes().to_vec()),
        Err(_) => None,
    }
}

/// Law: key agreement. A peer that derives its secret from its own public
/// encoding `a_public` and the other's `b_public` learns both orderings of
/// the derivation; the other peer's derivation then yields the same bytes.
pub proof fn lemma_key_agreement(
    a_public: Seq<u8>,
    b_public: Seq<u8>,
    secret_a: Seq<u8>,
    secret_b: Seq<u8>,
)
    ensures
        (secret_a == dh_shared_secret(a_public, b_public) && secret_a == dh_shared_secret(
            b_public,
            a_public,
        ) && secret_b == dh_shared_secret(b_public, a_public)) ==> secret_a == secret_b,
{
}

} // verus!
