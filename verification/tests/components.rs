use voice_chat::cipher::DirectionCipher;
use voice_chat::errors::{Error, ErrorKind, InnerError, IntoEmptyVoiceChatResult, IntoVoiceChatResult};

#[test]
fn chacha20_known_keystream() {
    // With an all-zero key and nonce, encrypting zeros exposes the keystream,
    // whose first bytes for ChaCha20 at block 0 are fixed and well known.
    let key = vec![0u8; 32];
    let nonce = vec![0u8; 12];
    let mut cipher = DirectionCipher::new(&key, &nonce);
    let zeros = vec![0u8; 16];
    let keystream = cipher.apply(&zeros);
    let expected: Vec<u8> = vec![
        0x76, 0xb8, 0xe0, 0xad, 0xa0, 0xf1, 0x3d, 0x90, 0x40, 0x5d, 0x6a, 0xe5, 0x53, 0x86,
        0xbd, 0x28,
    ];
    assert_eq!(keystream, expected);
}

#[test]
fn cipher_round_trip_at_same_position() {
    let key = vec![7u8; 32];
    let nonce = vec![9u8; 12];
    let mut sender = DirectionCipher::new(&key, &nonce);
    let mut receiver = DirectionCipher::new(&key, &nonce);
    let plaintext: Vec<u8> = b"stream ciphers are involutive".to_vec();
    let ciphertext = sender.apply(&plaintext);
    assert_ne!(ciphertext, plaintext);
    assert_eq!(receiver.apply(&ciphertext), plaintext);
}

#[test]
fn cipher_position_advances_consistently() {
    let key = vec![1u8; 32];
    let nonce = vec![2u8; 12];
    let mut chunked = DirectionCipher::new(&key, &nonce);
    let mut whole = DirectionCipher::new(&key, &nonce);
    let first: Vec<u8> = b"hello ".to_vec();
    let second: Vec<u8> = b"world".to_vec();
    let mut combined = first.clone();
    combined.extend_from_slice(&second);
    let mut out = chunked.apply(&first);
    out.extend_from_slice(&chunked.apply(&second));
    assert_eq!(out, whole.apply(&combined));
}

#[test]
fn empty_block_stays_empty() {
    let key = vec![3u8; 32];
    let nonce = vec![4u8; 12];
    let mut cipher = DirectionCipher::new(&key, &nonce);
    let empty: Vec<u8> = Vec::new();
    assert_eq!(cipher.apply(&empty), empty);
}

#[test]
fn empty_error_has_no_cause() {
    let err = ErrorKind::UserIsBusy.into_empty_error();
    assert_eq!(err.kind(), ErrorKind::UserIsBusy);
    assert!(matches!(err.inner, InnerError::NoCause));
}

#[test]
fn io_result_keeps_its_cause() {
    let failed: std::io::Result<u8> = Err(std::io::Error::new(
        std::io::ErrorKind::ConnectionRefused,
        "refused",
    ));
    let err: Error = failed
        .into_voice_chat_result(ErrorKind::FailedToConnectToTarget)
        .unwrap_err();
    assert_eq!(err.kind(), ErrorKind::FailedToConnectToTarget);
    match err.inner {
        InnerError::IO(cause) => assert_eq!(cause.kind(), std::io::ErrorKind::ConnectionRefused),
        InnerError::NoCause => panic!("the transport cause was dropped"),
    }
}

#[test]
fn ok_io_result_passes_through() {
    let fine: std::io::Result<u8> = Ok(17);
    let v = fine
        .into_voice_chat_result(ErrorKind::FailedToConnectToTarget)
        .unwrap();
    assert_eq!(v, 17);
}

#[test]
fn any_result_converts_without_cause() {
    let failed: Result<u8, &str> = Err("parse");
    let err = failed
        .into_empty_voice_chat_result(ErrorKind::FailedToPerformDiffieHellman)
        .unwrap_err();
    assert_eq!(err.kind(), ErrorKind::FailedToPerformDiffieHellman);
    assert!(matches!(err.inner, InnerError::NoCause));
    let fine: Result<u8, &str> = Ok(3);
    assert_eq!(
        fine.into_empty_voice_chat_result(ErrorKind::FailedToPerformDiffieHellman)
            .unwrap(),
        3
    );
}
