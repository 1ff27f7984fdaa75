use voice_chat::client::{
    VoiceChatClient, CONNECTION_REQUEST_RESPONSE_BUSY, CONNECTION_REQUEST_RESPONSE_OK,
    RING_REQUEST,
};
use voice_chat::errors::ErrorKind;
use voice_chat::session::{Role, Session};

/// Drive a complete successful handshake between two fresh-state peers and
/// hand back both sessions plus the nonce pair the initiator generated.
fn run_handshake(a: &mut VoiceChatClient, b: &mut VoiceChatClient) -> (Session, Session, Vec<u8>, Vec<u8>) {
    let ring = a.call();
    assert_eq!(ring, RING_REQUEST);
    let resp = b.handle_ring_request(false);
    assert_eq!(resp, CONNECTION_REQUEST_RESPONSE_OK);
    a.handle_ring_response(resp).unwrap();
    let a_pub = a.begin_key_exchange();
    let b_pub = b.begin_key_exchange();
    assert_eq!(a_pub.len(), 65);
    assert_eq!(b_pub.len(), 65);
    a.handle_peer_public_key(&b_pub).unwrap();
    b.handle_peer_public_key(&a_pub).unwrap();
    let (n1, n2) = a.initiator_session_setup();
    b.responder_session_setup(&n1, &n2).unwrap();
    let sa = a.take_session().unwrap();
    let sb = b.take_session().unwrap();
    (sa, sb, n1, n2)
}

#[test]
fn full_handshake_both_directions() {
    let mut a = VoiceChatClient::new();
    let mut b = VoiceChatClient::new();
    let (mut sa, mut sb, _n1, _n2) = run_handshake(&mut a, &mut b);
    assert_eq!(sa.role(), Role::Initiator);
    assert_eq!(sb.role(), Role::Responder);

    let plaintext: Vec<u8> = b"a fixed plaintext block".to_vec();
    let ciphertext = sa.encrypt(&plaintext);
    assert_ne!(ciphertext, plaintext);
    let decrypted = sb.decrypt(&ciphertext);
    assert_eq!(decrypted, plaintext);

    let reply: Vec<u8> = b"the reverse direction too".to_vec();
    let reply_ct = sb.encrypt(&reply);
    assert_ne!(reply_ct, reply);
    let reply_pt = sa.decrypt(&reply_ct);
    assert_eq!(reply_pt, reply);
}

#[test]
fn consecutive_handshakes_use_fresh_nonces() {
    let mut a = VoiceChatClient::new();
    let mut b = VoiceChatClient::new();
    let (_sa1, _sb1, n1_first, n2_first) = run_handshake(&mut a, &mut b);
    let (_sa2, _sb2, n1_second, n2_second) = run_handshake(&mut a, &mut b);
    assert!((n1_first, n2_first) != (n1_second, n2_second));
}

#[test]
fn busy_response_is_user_is_busy() {
    let mut a = VoiceChatClient::new();
    let mut b = VoiceChatClient::new();
    let _ring = a.call();
    let resp = b.handle_ring_request(true);
    assert_eq!(resp, CONNECTION_REQUEST_RESPONSE_BUSY);
    assert_eq!(b.role(), None);
    let err = a.handle_ring_response(resp).unwrap_err();
    assert_eq!(err.kind(), ErrorKind::UserIsBusy);
}

#[test]
fn unknown_response_byte_is_invalid() {
    let mut a = VoiceChatClient::new();
    let _ring = a.call();
    let err = a.handle_ring_response(7).unwrap_err();
    assert_eq!(err.kind(), ErrorKind::InvalidConnectionRequestResponse);
    let mut c = VoiceChatClient::new();
    let _ring = c.call();
    let err = c.handle_ring_response(255).unwrap_err();
    assert_eq!(err.kind(), ErrorKind::InvalidConnectionRequestResponse);
}

#[test]
fn short_first_nonce_fails_receive() {
    let mut a = VoiceChatClient::new();
    let mut b = VoiceChatClient::new();
    let _ring = a.call();
    let resp = b.handle_ring_request(false);
    a.handle_ring_response(resp).unwrap();
    let a_pub = a.begin_key_exchange();
    let b_pub = b.begin_key_exchange();
    a.handle_peer_public_key(&b_pub).unwrap();
    b.handle_peer_public_key(&a_pub).unwrap();
    let (_n1, n2) = a.initiator_session_setup();
    let short = vec![0u8; 11];
    let err = b.responder_session_setup(&short, &n2).unwrap_err();
    assert_eq!(err.kind(), ErrorKind::FailedToReceiveNonce);
}

#[test]
fn truncated_public_key_fails_receive() {
    let mut a = VoiceChatClient::new();
    let _ring = a.call();
    a.handle_ring_response(CONNECTION_REQUEST_RESPONSE_OK).unwrap();
    let _a_pub = a.begin_key_exchange();
    let short = vec![4u8; 10];
    let err = a.handle_peer_public_key(&short).unwrap_err();
    assert_eq!(err.kind(), ErrorKind::FailedToReceivePublicKey);
}

#[test]
fn invalid_point_fails_diffie_hellman() {
    let mut a = VoiceChatClient::new();
    let _ring = a.call();
    a.handle_ring_response(CONNECTION_REQUEST_RESPONSE_OK).unwrap();
    let _a_pub = a.begin_key_exchange();
    let garbage = vec![0xffu8; 65];
    let err = a.handle_peer_public_key(&garbage).unwrap_err();
    assert_eq!(err.kind(), ErrorKind::FailedToPerformDiffieHellman);
}

#[test]
fn short_nonce_fails_receive() {
    let mut a = VoiceChatClient::new();
    let mut b = VoiceChatClient::new();
    let _ring = a.call();
    let resp = b.handle_ring_request(false);
    a.handle_ring_response(resp).unwrap();
    let a_pub = a.begin_key_exchange();
    let b_pub = b.begin_key_exchange();
    a.handle_peer_public_key(&b_pub).unwrap();
    b.handle_peer_public_key(&a_pub).unwrap();
    let (n1, _n2) = a.initiator_session_setup();
    let short = vec![0u8; 5];
    let err = b.responder_session_setup(&n1, &short).unwrap_err();
    assert_eq!(err.kind(), ErrorKind::FailedToReceiveNonce);
    assert!(b.take_session().is_none());
}

#[test]
fn no_session_before_handshake_completes() {
    let mut a = VoiceChatClient::new();
    assert!(a.take_session().is_none());
    let _ring = a.call();
    assert!(a.take_session().is_none());
}
