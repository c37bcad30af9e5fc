use vstd::prelude::*;

verus! {

/// A connection or protocol failure on `publish`, `subscribe`, or `ack`.
///
/// Publish retries are bounded; once they are exhausted the error surfaces to
/// the producer's caller. An exhausted `ack` is logged and treated as
/// non-fatal: the entry is removed from the local cache regardless.
#[derive(Debug, PartialEq, Eq)]
pub enum TransportError {
    /// The channel is closed or being re-established; no request can be
    /// carried right now.
    ChannelUnavailable,
    /// The far side answered with something the protocol does not allow.
    Protocol(String),
    /// A socket-level failure reported by the runtime that carries the
    /// request.
    Io(String),
}

/// A failure of the external sender while dispatching one task.
///
/// Never retried immediately: the task stays in the pending cache and is
/// retried on the next sweep, indefinitely.
#[derive(Debug, PartialEq, Eq)]
pub enum DispatchError {
    /// The sender could not deliver the message to the recipient.
    SendFailed(String),
}

/// A failure to re-establish a channel after a detected fault. The recovery
/// machine restarts the subscription from scratch rather than repairing it.
#[derive(Debug, PartialEq, Eq)]
pub enum RecoveryError {
    /// Opening the replacement channel failed.
    Reconnect(String),
}

/// Account-layer failures surfaced by the login and attach flows.
#[derive(Debug, PartialEq, Eq)]
pub enum AuthError {
    UserNotRegistered,
    AuthCodeInvalid,
    UsernameAlreadyRegistered,
    UsernameEmpty,
}

/// Failures of the mailbox scanner.
#[derive(Debug, PartialEq, Eq)]
pub enum MailCheckerError {
    /// A fetched message came without an envelope.
    EmptyEnvelope,
}

/// Failures internal to the process rather than to any one collaborator.
#[derive(Debug, PartialEq, Eq)]
pub enum InternalError {
    RWLockPoisonedError(String),
    RuntimeError(String),
}

} // verus!
