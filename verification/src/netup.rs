//! Network bring-up: the bounded waits between power-on and a usable
//! network stack.
//!
//! The radio join, address assignment and link establishment themselves
//! are collaborators outside this crate; the driver loop performs them
//! and reports each attempt's outcome.  This module owns the decisions:
//! joining is retried for as long as it takes, while the two
//! convergence waits after it — for an address and for the link — are
//! bounded, and exhausting either is fatal and calls for a device
//! reset.  It also says which progress screen belongs on the display
//! while each stage is in flight.

use vstd::prelude::*;

use crate::render::ConnectionStage;

verus! {

/// Timeout on a single radio-join attempt, seconds.
pub const JOIN_TIMEOUT_SECS: u64 = 30;

/// Pause between convergence polls, milliseconds.
pub const CONVERGENCE_POLL_MS: u64 = 500;

/// Polls the address assignment may take before bring-up is declared
/// failed.
pub const DHCP_RETRIES: u32 = 60;

/// Polls the link may take before bring-up is declared failed.
pub const LINK_RETRIES: u32 = 120;

/// Where the bring-up stands.
#[derive(Clone, Copy, Debug, PartialEq, Eq, Structural)]
pub enum NetPhase {
    /// Joining the radio network; retried for as long as it takes.
    Joining,
    /// Joined; waiting for an address, a bounded number of polls.
    WaitingDhcp,
    /// Addressed; waiting for the link, a bounded number of polls.
    WaitingLink,
    /// The stack is usable.
    Up,
    /// A convergence wait ran out; only a device reset recovers.
    Failed,
}

/// What one bring-up step observed.
#[derive(Clone, Copy, Debug, PartialEq, Eq, Structural)]
pub enum NetEvent {
    /// A join attempt succeeded.
    JoinOk,
    /// A join attempt failed or timed out.
    JoinFailed,
    /// An address was assigned.
    DhcpUp,
    /// No address yet.
    DhcpNotYet,
    /// The link came up.
    LinkUp,
    /// No link yet.
    LinkNotYet,
}

/// The bring-up state: the phase and, inside a convergence wait, how
/// many polls are left before giving up.
#[derive(Clone, Copy, Debug, PartialEq, Eq, Structural)]
pub struct NetBringUp {
    pub phase: NetPhase,
    pub retries_left: u32,
}

/// The state after one observed event.  A failed join never gives up; a
/// convergence wait burns one retry per fruitless poll and fails when
/// the last one is gone.  An event that does not belong to the phase
/// changes nothing.
pub open spec fn spec_net_step(s: NetBringUp, e: NetEvent) -> NetBringUp {
    match (s.phase, e) {
        (NetPhase::Joining, NetEvent::JoinOk) => NetBringUp {
            phase: NetPhase::WaitingDhcp,
            retries_left: DHCP_RETRIES,
        },
        (NetPhase::Joining, NetEvent::JoinFailed) => s,
        (NetPhase::WaitingDhcp, NetEvent::DhcpUp) => NetBringUp {
            phase: NetPhase::WaitingLink,
            retries_left: LINK_RETRIES,
        },
        (NetPhase::WaitingDhcp, NetEvent::DhcpNotYet) => {
            if s.retries_left <= 1 {
                NetBringUp { phase: NetPhase::Failed, retries_left: 0 }
            } else {
                NetBringUp { phase: NetPhase::WaitingDhcp, retries_left: (s.retries_left - 1) as u32 }
            }
        },
        (NetPhase::WaitingLink, NetEvent::LinkUp) => NetBringUp {
            phase: NetPhase::Up,
            retries_left: 0,
        },
        (NetPhase::WaitingLink, NetEvent::LinkNotYet) => {
            if s.retries_left <= 1 {
                NetBringUp { phase: NetPhase::Failed, retries_left: 0 }
            } else {
                NetBringUp { phase: NetPhase::WaitingLink, retries_left: (s.retries_left - 1) as u32 }
            }
        },
        _ => s,
    }
}

/// The progress screen shown while a phase is in flight; a failed
/// bring-up shows nothing, the device resets.
pub open spec fn spec_stage_screen(phase: NetPhase) -> Option<ConnectionStage> {
    match phase {
        NetPhase::Joining => Some(ConnectionStage::Wifi),
        NetPhase::WaitingDhcp => Some(ConnectionStage::Dhcp),
        NetPhase::WaitingLink => Some(ConnectionStage::Dhcp),
        NetPhase::Up => Some(ConnectionStage::Ready),
        NetPhase::Failed => None,
    }
}

impl NetBringUp {
    /// Bring-up starts with the radio join.
    pub fn new() -> (r: NetBringUp)
        ensures
            r.phase == NetPhase::Joining,
    {
        NetBringUp { phase: NetPhase::Joining, retries_left: 0 }
    }

    /// Digest one observed event.
    pub fn on_event(&mut self, e: &NetEvent)
        ensures
            *final(self) == spec_net_step(*old(self), *e),
    {
        *self = match (self.phase, *e) {
            (NetPhase::Joining, NetEvent::JoinOk) => NetBringUp {
                phase: NetPhase::WaitingDhcp,
                retries_left: DHCP_RETRIES,
            },
            (NetPhase::WaitingDhcp, NetEvent::DhcpUp) => NetBringUp {
                phase: NetPhase::WaitingLink,
                retries_left: LINK_RETRIES,
            },
            (NetPhase::WaitingDhcp, NetEvent::DhcpNotYet) => {
                if self.retries_left <= 1 {
                    NetBringUp { phase: NetPhase::Failed, retries_left: 0 }
                } else {
                    NetBringUp { phase: NetPhase::WaitingDhcp, retries_left: self.retries_left - 1 }
                }
            },
            (NetPhase::WaitingLink, NetEvent::LinkUp) => NetBringUp {
                phase: NetPhase::Up,
                retries_left: 0,
            },
            (NetPhase::WaitingLink, NetEvent::LinkNotYet) => {
                if self.retries_left <= 1 {
                    NetBringUp { phase: NetPhase::Failed, retries_left: 0 }
                } else {
                    NetBringUp { phase: NetPhase::WaitingLink, retries_left: self.retries_left - 1 }
                }
            },
            _ => *self,
        };
    }

    /// The progress screen for the current phase.
    pub fn stage_screen(&self) -> (r: Option<ConnectionStage>)
        ensures
            r == spec_stage_screen(self.phase),
    {
        match self.phase {
            NetPhase::Joining => Some(ConnectionStage::Wifi),
            NetPhase::WaitingDhcp => Some(ConnectionStage::Dhcp),
            NetPhase::WaitingLink => Some(ConnectionStage::Dhcp),
            NetPhase::Up => Some(ConnectionStage::Ready),
            NetPhase::Failed => None,
        }
    }

    /// Whether bring-up has given up; the driver resets the device.
    pub fn is_failed(&self) -> (r: bool)
        ensures
            r == (self.phase == NetPhase::Failed),
    {
        matches!(self.phase, NetPhase::Failed)
    }

    /// Whether the network stack is usable.
    pub fn is_up(&self) -> (r: bool)
        ensures
            r == (self.phase == NetPhase::Up),
    {
        matches!(self.phase, NetPhase::Up)
    }
}

/// The state after `n` consecutive fruitless polls reporting `e`.
pub open spec fn spec_after_stalls(s: NetBringUp, e: NetEvent, n: nat) -> NetBringUp
    decreases n,
{
    if n == 0 {
        s
    } else {
        spec_net_step(spec_after_stalls(s, e, (n - 1) as nat), e)
    }
}

/// The convergence waits are bounded: from a wait with `r` polls left,
/// fewer than `r` fruitless polls leave the machine still waiting, and
/// the `r`-th declares bring-up failed — there is no waiting forever
/// for a network that never converges.
pub proof fn lemma_convergence_wait_is_bounded(s: NetBringUp, e: NetEvent, n: nat)
    requires
        (s.phase == NetPhase::WaitingDhcp && e == NetEvent::DhcpNotYet) || (s.phase
            == NetPhase::WaitingLink && e == NetEvent::LinkNotYet),
        s.retries_left >= 1,
        n <= s.retries_left,
    ensures
        n < s.retries_left ==> spec_after_stalls(s, e, n) == (NetBringUp {
            phase: s.phase,
            retries_left: (s.retries_left - n) as u32,
        }),
        n == s.retries_left ==> spec_after_stalls(s, e, n).phase == NetPhase::Failed,
    decreases n,
{
    if n > 0 {
        lemma_convergence_wait_is_bounded(s, e, (n - 1) as nat);
    }
}

} // verus!
