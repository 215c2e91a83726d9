//! Lifecycle of the WiFi link and its IP lease.
//!
//! The link is established once at process start and then owned by the
//! caller for the process lifetime.  Association retries immediately and
//! without bound on failure — there is no failure state, only a loop back
//! to `Associating` — and once associated the driver polls at fixed short
//! intervals until a DHCPv4 lease is obtained.  `LeaseAcquired` is the
//! terminal success state.  The driver performs the radio and DHCP work
//! and reports each outcome here as an event; this module decides the next
//! state.

use vstd::prelude::*;

verus! {

/// Poll period while waiting for the DHCP configuration to come up, in
/// milliseconds.
pub const DHCP_POLL_MILLIS: u64 = 100;

/// Poll period while waiting for the leased address itself, in
/// milliseconds.
pub const LEASE_POLL_MILLIS: u64 = 500;

/// Where the network link stands.
#[derive(Clone, Copy, Debug, PartialEq, Eq, Structural)]
pub enum ConnectionState {
    Disconnected,
    Associating,
    Associated,
    LeaseAcquired,
}

/// One observed step of bringing the link up.
#[derive(Clone, Copy, Debug, PartialEq, Eq, Structural)]
pub enum NetworkEvent {
    /// The driver starts the WPA2 association.
    StartAssociation,
    /// The access point accepted the association.
    JoinSucceeded,
    /// The association failed with the radio's status code.
    JoinFailed(u32),
    /// The DHCP client is still waiting; poll again.
    LeasePending,
    /// A DHCPv4 lease was obtained.
    LeaseObtained,
}

/// The successor state of `s` on event `e`.
///
/// The success path is `Disconnected -> Associating -> Associated ->
/// LeaseAcquired`.  A failed association loops straight back into
/// `Associating` — retry is immediate, unbounded, and without backoff —
/// and `LeaseAcquired` is terminal.  An event that cannot occur in `s`
/// leaves the state unchanged.
pub open spec fn network_next_spec(s: ConnectionState, e: NetworkEvent) -> ConnectionState {
    match (s, e) {
        (ConnectionState::Disconnected, NetworkEvent::StartAssociation) =>
            ConnectionState::Associating,
        (ConnectionState::Associating, NetworkEvent::JoinSucceeded) => ConnectionState::Associated,
        (ConnectionState::Associating, NetworkEvent::JoinFailed(_)) => ConnectionState::Associating,
        (ConnectionState::Associated, NetworkEvent::LeasePending) => ConnectionState::Associated,
        (ConnectionState::Associated, NetworkEvent::LeaseObtained) =>
            ConnectionState::LeaseAcquired,
        (_, _) => s,
    }
}

/// Advances the link lifecycle by one observed event.
pub fn network_next(s: ConnectionState, e: NetworkEvent) -> (n: ConnectionState)
    ensures
        n == network_next_spec(s, e),
{
    match (s, e) {
        (ConnectionState::Disconnected, NetworkEvent::StartAssociation) =>
            ConnectionState::Associating,
        (ConnectionState::Associating, NetworkEvent::JoinSucceeded) => ConnectionState::Associated,
        (ConnectionState::Associating, NetworkEvent::JoinFailed(_)) => ConnectionState::Associating,
        (ConnectionState::Associated, NetworkEvent::LeasePending) => ConnectionState::Associated,
        (ConnectionState::Associated, NetworkEvent::LeaseObtained) =>
            ConnectionState::LeaseAcquired,
        (_, _) => s,
    }
}

/// A failed association never leaves the machine stuck elsewhere: it loops
/// back to `Associating`, from where the join is retried.
pub proof fn lemma_join_failure_retries(status: u32)
    ensures
        network_next_spec(ConnectionState::Associating, NetworkEvent::JoinFailed(status))
            == ConnectionState::Associating,
{
}

/// `LeaseAcquired` is terminal: no event leaves it.
pub proof fn lemma_lease_terminal(e: NetworkEvent)
    ensures
        network_next_spec(ConnectionState::LeaseAcquired, e) == ConnectionState::LeaseAcquired,
{
}

} // verus!
