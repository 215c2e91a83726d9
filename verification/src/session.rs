//! Lifecycle of one MQTT telemetry session.
//!
//! A session owns one transport connection and one protocol handshake.
//! The transport connect is bounded by a fixed timeout; a transport
//! failure is classified as a network error, a rejected handshake as a
//! protocol error, and the caller treats both the same way — rebuild the
//! session.  Publishing is permitted only in `Ready`; a publish that fails
//! on the network invalidates the session, and the driver waits a fixed
//! short delay before acting on such a failure, to avoid a tight failure
//! loop.  The driver performs the socket and protocol work and reports
//! each outcome here as an event; this module decides the next state.

use vstd::prelude::*;

verus! {

/// Timeout on the transport connect, in seconds.
pub const CONNECT_TIMEOUT_SECS: u64 = 10;

/// Delay observed after a failed publish before the caller proceeds, in
/// seconds.
pub const PUBLISH_FAILURE_DELAY_SECS: u64 = 1;

/// How the protocol client reported a failed call: its own marker for a
/// broken transport, or the broker's MQTT reason code.
#[derive(Clone, Copy, Debug, PartialEq, Eq, Structural)]
pub enum ReasonKind {
    /// The transport failed underneath the protocol client.
    NetworkError,
    /// The broker answered with this reason code.
    Rejected(u8),
}

/// Why building a session failed.  Both variants are treated as transient
/// by the caller: it simply reconnects.
#[derive(Clone, Copy, Debug, PartialEq, Eq, Structural)]
pub enum ConnectError {
    /// The transport could not be opened, or the handshake failed for a
    /// reason the protocol client reports as a network error.
    Network,
    /// The handshake was answered with any other reason code.
    Protocol,
}

/// Why a publish failed.
#[derive(Clone, Copy, Debug, PartialEq, Eq, Structural)]
pub enum PublishError {
    /// The transport failed; the session must be considered invalid.
    Network,
    /// The broker answered with a non-network reason code.
    Protocol,
}

/// Where a session stands in its lifecycle.
#[derive(Clone, Copy, Debug, PartialEq, Eq, Structural)]
pub enum SessionState {
    Closed,
    TransportConnecting,
    HandshakeInProgress,
    Ready,
}

/// One observed step of the session lifecycle.
#[derive(Clone, Copy, Debug, PartialEq, Eq, Structural)]
pub enum SessionEvent {
    /// The caller starts opening the transport.
    StartConnect,
    /// The transport connect completed within the timeout.
    TransportOpened,
    /// The transport connect failed or timed out.
    TransportFailed,
    /// The broker accepted the handshake.
    HandshakeAccepted,
    /// The handshake failed, classified as network or protocol.
    HandshakeFailed(ConnectError),
    /// A publish was acknowledged.
    PublishSucceeded,
    /// A publish failed.
    PublishFailed(PublishError),
}

/// Classifies a failed handshake: a broken transport is transient network
/// trouble, any reason code the broker answered with is a protocol
/// failure.  The caller treats both the same way — reconnect.
pub fn classify_connect_failure(r: ReasonKind) -> (e: ConnectError)
    ensures
        e is Network <==> r is NetworkError,
{
    match r {
        ReasonKind::NetworkError => ConnectError::Network,
        ReasonKind::Rejected(_) => ConnectError::Protocol,
    }
}

/// Classifies a failed publish: exactly a broken transport invalidates the
/// session; any reason code from the broker leaves it usable.
pub fn classify_publish_failure(r: ReasonKind) -> (e: PublishError)
    ensures
        e is Network <==> r is NetworkError,
{
    match r {
        ReasonKind::NetworkError => PublishError::Network,
        ReasonKind::Rejected(_) => PublishError::Protocol,
    }
}

/// Whether `publish` may be called in state `s`.
pub open spec fn publish_permitted(s: SessionState) -> bool {
    s is Ready
}

/// The successor state of `s` on event `e`.
///
/// The success path is `Closed -> TransportConnecting ->
/// HandshakeInProgress -> Ready`; every failure returns to `Closed`, as
/// does a publish that fails on the network.  A publish rejected by the
/// broker for a non-network reason leaves the session usable.  An event
/// that cannot occur in `s` leaves the state unchanged.
pub open spec fn session_next_spec(s: SessionState, e: SessionEvent) -> SessionState {
    match (s, e) {
        (SessionState::Closed, SessionEvent::StartConnect) => SessionState::TransportConnecting,
        (SessionState::TransportConnecting, SessionEvent::TransportOpened) =>
            SessionState::HandshakeInProgress,
        (SessionState::TransportConnecting, SessionEvent::TransportFailed) => SessionState::Closed,
        (SessionState::HandshakeInProgress, SessionEvent::HandshakeAccepted) =>
            SessionState::Ready,
        (SessionState::HandshakeInProgress, SessionEvent::HandshakeFailed(_)) =>
            SessionState::Closed,
        (SessionState::Ready, SessionEvent::PublishSucceeded) => SessionState::Ready,
        (SessionState::Ready, SessionEvent::PublishFailed(PublishError::Network)) =>
            SessionState::Closed,
        (SessionState::Ready, SessionEvent::PublishFailed(PublishError::Protocol)) =>
            SessionState::Ready,
        (_, _) => s,
    }
}

/// Advances the session lifecycle by one observed event.
pub fn session_next(s: SessionState, e: SessionEvent) -> (n: SessionState)
    ensures
        n == session_next_spec(s, e),
{
    match (s, e) {
        (SessionState::Closed, SessionEvent::StartConnect) => SessionState::TransportConnecting,
        (SessionState::TransportConnecting, SessionEvent::TransportOpened) =>
            SessionState::HandshakeInProgress,
        (SessionState::TransportConnecting, SessionEvent::TransportFailed) => SessionState::Closed,
        (SessionState::HandshakeInProgress, SessionEvent::HandshakeAccepted) =>
            SessionState::Ready,
        (SessionState::HandshakeInProgress, SessionEvent::HandshakeFailed(_)) =>
            SessionState::Closed,
        (SessionState::Ready, SessionEvent::PublishSucceeded) => SessionState::Ready,
        (SessionState::Ready, SessionEvent::PublishFailed(PublishError::Network)) =>
            SessionState::Closed,
        (SessionState::Ready, SessionEvent::PublishFailed(PublishError::Protocol)) =>
            SessionState::Ready,
        (_, _) => s,
    }
}

/// Every failure event closes the session, from any state in which it can
/// occur.
pub proof fn lemma_failure_closes(s: SessionState, e: SessionEvent)
    requires
        (s is TransportConnecting && e is TransportFailed) || (s is HandshakeInProgress
            && e is HandshakeFailed) || (s is Ready && e == SessionEvent::PublishFailed(
            PublishError::Network,
        )),
    ensures
        session_next_spec(s, e) == SessionState::Closed,
{
}

/// Publishing only ever becomes permitted through an accepted handshake:
/// the sole transition from a non-`Ready` state into `Ready` is
/// `HandshakeInProgress` on `HandshakeAccepted`.
pub proof fn lemma_ready_needs_handshake(s: SessionState, e: SessionEvent)
    requires
        !publish_permitted(s),
        publish_permitted(session_next_spec(s, e)),
    ensures
        s is HandshakeInProgress && e is HandshakeAccepted,
{
}

} // verus!
