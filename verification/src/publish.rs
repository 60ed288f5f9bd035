//! The publish worker's connection state machine.
//!
//! The worker owns the outbound connection lifecycle: resolve the
//! broker's name, connect the transport, perform the protocol handshake,
//! publish one retained announcement describing the device, then publish
//! each snapshot taken from the guaranteed-delivery lane.  The network
//! itself is a collaborator outside this crate: the driver loop asks
//! [`PublishWorker::next_action`] what to do, performs it, and reports
//! what happened through [`PublishWorker::on_event`].
//!
//! Every transport-level failure drops the connection and restarts the
//! machine from a backoff in `Disconnected`; a non-transport publish or
//! announcement error, and a snapshot that fails to serialize, skip only
//! the publish at hand and keep the connection.

use vstd::prelude::*;

verus! {

/// Fixed backoff between connection attempts, milliseconds.
pub const RECONNECT_BACKOFF_MS: u64 = 500;

/// Idle timeout applied to the transport connection, seconds.
pub const CONNECT_TIMEOUT_SECS: u64 = 10;

/// Where the worker stands in the connection lifecycle.
#[derive(Clone, Copy, Debug, PartialEq, Eq, Structural)]
pub enum PublishPhase {
    /// No connection; wait out the backoff before trying again.
    Disconnected,
    /// Resolving the broker's network name.
    Resolving,
    /// Opening the transport connection.
    Connecting,
    /// Performing the publish-protocol handshake.
    Handshaking,
    /// Connected; the retained device announcement is being published.
    Announced,
    /// Steady state: publishing one snapshot after another.
    Publishing,
}

/// What the driver loop should do next for a given phase.
#[derive(Clone, Copy, Debug, PartialEq, Eq, Structural)]
pub enum PublishAction {
    /// Sleep for [`RECONNECT_BACKOFF_MS`], then report it elapsed.
    Backoff,
    /// Resolve the broker's network name.
    Resolve,
    /// Open the transport connection, idle timeout
    /// [`CONNECT_TIMEOUT_SECS`].
    Connect,
    /// Perform the publish-protocol handshake with the fixed client
    /// identity.
    Handshake,
    /// Serialize and publish the retained device announcement.
    SendAnnouncement,
    /// Take the next snapshot from the guaranteed-delivery lane,
    /// serialize it, and publish it retained.
    PublishSnapshot,
}

/// What happened when the driver performed the requested action.
#[derive(Clone, Copy, Debug, PartialEq, Eq, Structural)]
pub enum PublishEvent {
    /// The reconnect backoff elapsed.
    BackoffElapsed,
    /// Name resolution succeeded.
    ResolveOk,
    /// Name resolution failed.
    ResolveFailed,
    /// The transport connection opened.
    ConnectOk,
    /// The transport connection could not be opened.
    ConnectFailed,
    /// The protocol handshake succeeded.
    HandshakeOk,
    /// The protocol handshake failed, at the transport or the protocol
    /// level; either way the connection is dropped.
    HandshakeFailed,
    /// The announcement was published.
    AnnounceOk,
    /// A transport-level error while publishing the announcement.
    AnnounceNetworkError,
    /// A protocol-level announcement error; the worker proceeds to
    /// steady state regardless.
    AnnounceOtherError,
    /// The announcement payload failed to serialize; it is skipped.
    AnnounceSerializeFailed,
    /// The snapshot was published.
    PublishOk,
    /// A transport-level error while publishing a snapshot.
    PublishNetworkError,
    /// A protocol-level publish error; the loop continues connected.
    PublishOtherError,
    /// The snapshot payload failed to serialize; it is skipped.
    PublishSerializeFailed,
}

/// The action each phase asks of the driver loop.
pub open spec fn spec_action(phase: PublishPhase) -> PublishAction {
    match phase {
        PublishPhase::Disconnected => PublishAction::Backoff,
        PublishPhase::Resolving => PublishAction::Resolve,
        PublishPhase::Connecting => PublishAction::Connect,
        PublishPhase::Handshaking => PublishAction::Handshake,
        PublishPhase::Announced => PublishAction::SendAnnouncement,
        PublishPhase::Publishing => PublishAction::PublishSnapshot,
    }
}

/// The phase the machine moves to when `event` arrives in `phase`.  An
/// event that does not belong to the phase's pending action leaves the
/// phase unchanged.
pub open spec fn spec_step(phase: PublishPhase, event: PublishEvent) -> PublishPhase {
    match (phase, event) {
        (PublishPhase::Disconnected, PublishEvent::BackoffElapsed) => PublishPhase::Resolving,
        (PublishPhase::Resolving, PublishEvent::ResolveOk) => PublishPhase::Connecting,
        (PublishPhase::Resolving, PublishEvent::ResolveFailed) => PublishPhase::Disconnected,
        (PublishPhase::Connecting, PublishEvent::ConnectOk) => PublishPhase::Handshaking,
        (PublishPhase::Connecting, PublishEvent::ConnectFailed) => PublishPhase::Disconnected,
        (PublishPhase::Handshaking, PublishEvent::HandshakeOk) => PublishPhase::Announced,
        (PublishPhase::Handshaking, PublishEvent::HandshakeFailed) => PublishPhase::Disconnected,
        (PublishPhase::Announced, PublishEvent::AnnounceOk) => PublishPhase::Publishing,
        (PublishPhase::Announced, PublishEvent::AnnounceNetworkError) => PublishPhase::Disconnected,
        (PublishPhase::Announced, PublishEvent::AnnounceOtherError) => PublishPhase::Publishing,
        (PublishPhase::Announced, PublishEvent::AnnounceSerializeFailed) => PublishPhase::Publishing,
        (PublishPhase::Publishing, PublishEvent::PublishOk) => PublishPhase::Publishing,
        (PublishPhase::Publishing, PublishEvent::PublishNetworkError) => PublishPhase::Disconnected,
        (PublishPhase::Publishing, PublishEvent::PublishOtherError) => PublishPhase::Publishing,
        (PublishPhase::Publishing, PublishEvent::PublishSerializeFailed) => PublishPhase::Publishing,
        _ => phase,
    }
}

/// The publish worker: nothing but where it stands in the lifecycle.
pub struct PublishWorker {
    pub phase: PublishPhase,
}

impl PublishWorker {
    /// A fresh worker starts disconnected.
    pub fn new() -> (r: PublishWorker)
        ensures
            r.phase == PublishPhase::Disconnected,
    {
        PublishWorker { phase: PublishPhase::Disconnected }
    }

    /// What the driver loop should do next.
    pub fn next_action(&self) -> (r: PublishAction)
        ensures
            r == spec_action(self.phase),
    {
        match self.phase {
            PublishPhase::Disconnected => PublishAction::Backoff,
            PublishPhase::Resolving => PublishAction::Resolve,
            PublishPhase::Connecting => PublishAction::Connect,
            PublishPhase::Handshaking => PublishAction::Handshake,
            PublishPhase::Announced => PublishAction::SendAnnouncement,
            PublishPhase::Publishing => PublishAction::PublishSnapshot,
        }
    }

    /// Digest the outcome of the action the driver just performed.
    pub fn on_event(&mut self, event: &PublishEvent)
        ensures
            final(self).phase == spec_step(old(self).phase, *event),
    {
        self.phase = match (self.phase, *event) {
            (PublishPhase::Disconnected, PublishEvent::BackoffElapsed) => PublishPhase::Resolving,
            (PublishPhase::Resolving, PublishEvent::ResolveOk) => PublishPhase::Connecting,
            (PublishPhase::Resolving, PublishEvent::ResolveFailed) => PublishPhase::Disconnected,
            (PublishPhase::Connecting, PublishEvent::ConnectOk) => PublishPhase::Handshaking,
            (PublishPhase::Connecting, PublishEvent::ConnectFailed) => PublishPhase::Disconnected,
            (PublishPhase::Handshaking, PublishEvent::HandshakeOk) => PublishPhase::Announced,
            (PublishPhase::Handshaking, PublishEvent::HandshakeFailed) => {
                PublishPhase::Disconnected
            },
            (PublishPhase::Announced, PublishEvent::AnnounceOk) => PublishPhase::Publishing,
            (PublishPhase::Announced, PublishEvent::AnnounceNetworkError) => {
                PublishPhase::Disconnected
            },
            (PublishPhase::Announced, PublishEvent::AnnounceOtherError) => PublishPhase::Publishing,
            (PublishPhase::Announced, PublishEvent::AnnounceSerializeFailed) => {
                PublishPhase::Publishing
            },
            (PublishPhase::Publishing, PublishEvent::PublishOk) => PublishPhase::Publishing,
            (PublishPhase::Publishing, PublishEvent::PublishNetworkError) => {
                PublishPhase::Disconnected
            },
            (PublishPhase::Publishing, PublishEvent::PublishOtherError) => {
                PublishPhase::Publishing
            },
            (PublishPhase::Publishing, PublishEvent::PublishSerializeFailed) => {
                PublishPhase::Publishing
            },
            (p, _) => p,
        };
    }
}

/// The announcement is published once per connection: the only way into
/// the announcing phase is straight out of a successful handshake, so a
/// worker that has reached steady state cannot announce again without
/// first losing the connection and redoing the handshake.
pub proof fn lemma_announce_once_per_connection(phase: PublishPhase, event: PublishEvent)
    requires
        phase != PublishPhase::Announced,
        spec_step(phase, event) == PublishPhase::Announced,
    ensures
        phase == PublishPhase::Handshaking && event == PublishEvent::HandshakeOk,
{
}

/// A transport-level failure, wherever it strikes, puts the machine back
/// in `Disconnected`, where the only pending action is the backoff.
pub proof fn lemma_network_error_restarts()
    ensures
        spec_step(PublishPhase::Announced, PublishEvent::AnnounceNetworkError)
            == PublishPhase::Disconnected,
        spec_step(PublishPhase::Publishing, PublishEvent::PublishNetworkError)
            == PublishPhase::Disconnected,
        spec_action(PublishPhase::Disconnected) == PublishAction::Backoff,
{
}

} // verus!
