//! Closed taxonomy of handshake failures, each variant naming the failing
//! operation, plus an opaque underlying transport cause where one exists.

use vstd::prelude::*;

verus! {

/// The kind of a handshake failure; every failure path reports exactly one.
#[derive(Clone, Copy, PartialEq, Eq, Structural, Debug)]
pub enum ErrorKind {
    FailedToCreateSockets,
    FailedToConnectToTarget,
    FailedToSendConnectionRequest,
    FailedToReceiveConnectionRequestResponse,
    UserIsBusy,
    InvalidConnectionRequestResponse,
    FailedToSendBusyResponse,
    FailedToSendPublicKey,
    FailedToReceivePublicKey,
    FailedToPerformDiffieHellman,
    FailedToSendNonce,
    FailedToReceiveNonce,
}

/// std::io::Error carried as an opaque cause; Verus sees nothing inside it.
#[verifier::external_type_specification]
#[verifier::external_body]
pub struct ExIoError(std::io::Error);

/// The underlying cause of a failure: a transport-layer error, or none for
/// purely logical protocol violations.
#[derive(Debug)]
pub enum InnerError {
    IO(std::io::Error),
    NoCause,
}

/// A handshake failure: what failed, and why the transport said it failed.
#[derive(Debug)]
pub struct Error {
    pub kind: ErrorKind,
    pub inner: InnerError,
}

impl ErrorKind {
    /// Wrap a logical failure kind as an error with no transport cause.
    pub fn into_empty_error(self) -> (r: Error)
        ensures
            r.kind == self,
            r.inner is NoCause,
    {
        Error { kind: self, inner: InnerError::NoCause }
    }
}

impl Error {
    /// The kind of this failure.
    pub fn kind(&self) -> (r: ErrorKind)
        ensures
            r == self.kind,
    {
        self.kind
    }
}

/// Attach a failure kind to an I/O result, keeping the I/O error as the cause.
pub trait IntoVoiceChatResult<T> {
    fn into_voice_chat_result(self, error_kind: ErrorKind) -> Result<T, Error>;
}

/// Attach a failure kind to any result, discarding the original error.
pub trait IntoEmptyVoiceChatResult<T> {
    fn into_empty_voice_chat_result(self, error_kind: ErrorKind) -> Result<T, Error>;
}

impl<T> IntoVoiceChatResult<T> for std::io::Result<T> {
    fn into_voice_chat_result(self, error_kind: ErrorKind) -> (r: Result<T, Error>)
        ensures
            self matches Ok(v) ==> r == Ok::<T, Error>(v),
            self matches Err(io) ==> r == Err::<T, Error>(Error {
                kind: error_kind,
                inner: InnerError::IO(io),
            }),
    {
        match self {
            Ok(v) => Ok(v),
            Err(e) => Err(Error { kind: error_kind, inner: InnerError::IO(e) }),
        }
    }
}

impl<T, E> IntoEmptyVoiceChatResult<T> for Result<T, E> {
    fn into_empty_voice_chat_result(self, error_kind: ErrorKind) -> (r: Result<T, Error>)
        ensures
            self matches Ok(v) ==> r == Ok::<T, Error>(v),
            self is Err ==> r == Err::<T, Error>(Error {
                kind: error_kind,
                inner: InnerError::NoCause,
            }),
    {
        match self {
            Ok(v) => Ok(v),
            Err(_) => Err(Error { kind: error_kind, inner: InnerError::NoCause }),
        }
    }
}

} // verus!
