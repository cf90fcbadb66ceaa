//! Relay core for a two-role command channel: a controller ("USER") and a
//! controlled device ("TANK") connect over a socket, the controller's commands
//! are broadcast to every active session, and each role may be held by at most
//! one connection at a time.
//!
//! This crate holds the verified logic: the wire codec for the two message
//! envelopes, the shared role-slot state, and the per-connection session
//! decisions. The surrounding I/O (sockets, the broadcast channel, the accept
//! loop) lives outside and drives these functions with plain values.
use vstd::prelude::*;

pub mod client;
pub mod message;
pub mod request;
pub mod response;

verus! {

use crate::client::ClientType;

/// The movement command carried by an `Action` envelope. The relay forwards it
/// without interpreting it; only its wire ordinal (FORWARD=0 .. STOP=4)
/// matters here.
#[derive(Clone, Copy, Debug, PartialEq, Eq, Structural)]
pub enum Command {
    FORWARD,
    BACKWARD,
    LEFT,
    RIGHT,
    STOP,
}

/// Wire ordinal of a command, part of the wire contract: FORWARD=0, BACKWARD=1,
/// LEFT=2, RIGHT=3, STOP=4.
pub open spec fn command_ord(c: Command) -> u8 {
    match c {
        Command::FORWARD => 0,
        Command::BACKWARD => 1,
        Command::LEFT => 2,
        Command::RIGHT => 3,
        Command::STOP => 4,
    }
}

/// Shared role-slot record: whether a USER and whether a TANK connection is
/// currently active. Each field is a capacity-1 slot; all mutation goes
/// through `try_claim` and `release`. The process shares one `State` among all
/// sessions behind a lock; the lock itself lives with the I/O layer.
#[derive(Clone, Copy, Debug, PartialEq, Eq, Structural)]
pub struct State {
    pub tank_connected: bool,
    pub client_connected: bool,
}

impl State {
    /// Fresh state: no role held.
    pub fn new() -> (s: State)
        ensures
            !s.tank_connected,
            !s.client_connected,
    {
        State { tank_connected: false, client_connected: false }
    }

    /// Atomically claim the slot for `role` (the caller serializes access by
    /// holding the process-wide lock around this call). Succeeds exactly when
    /// the slot is free; never touches the other slot. Claiming UNDEFINED
    /// always fails and changes nothing.
    pub fn try_claim(&mut self, role: ClientType) -> (r: bool)
        ensures
            (*final(self), r) == spec_try_claim(*old(self), role),
    {
        match role {
            ClientType::USER => {
                if self.client_connected {
                    false
                } else {
                    self.client_connected = true;
                    true
                }
            }
            ClientType::TANK => {
                if self.tank_connected {
                    false
                } else {
                    self.tank_connected = true;
                    true
                }
            }
            ClientType::UNDEFINED => false,
        }
    }

    /// Clear the slot for `role`. Idempotent: the slot is free afterwards
    /// whether or not it was held; the other slot is never touched. Releasing
    /// UNDEFINED changes nothing.
    pub fn release(&mut self, role: ClientType)
        ensures
            *final(self) == spec_release(*old(self), role),
    {
        match role {
            ClientType::USER => self.client_connected = false,
            ClientType::TANK => self.tank_connected = false,
            ClientType::UNDEFINED => (),
        }
    }
}

/// Whether `s` currently holds the slot for `role`. UNDEFINED owns no slot.
pub open spec fn role_claimed(s: State, role: ClientType) -> bool {
    match role {
        ClientType::USER => s.client_connected,
        ClientType::TANK => s.tank_connected,
        ClientType::UNDEFINED => false,
    }
}

/// The claim transition: resulting state and whether the claim succeeded.
pub open spec fn spec_try_claim(s: State, role: ClientType) -> (State, bool) {
    match role {
        ClientType::USER => if s.client_connected {
            (s, false)
        } else {
            (State { client_connected: true, ..s }, true)
        },
        ClientType::TANK => if s.tank_connected {
            (s, false)
        } else {
            (State { tank_connected: true, ..s }, true)
        },
        ClientType::UNDEFINED => (s, false),
    }
}

/// The release transition: the slot for `role` is cleared, the rest is kept.
pub open spec fn spec_release(s: State, role: ClientType) -> State {
    match role {
        ClientType::USER => State { client_connected: false, ..s },
        ClientType::TANK => State { tank_connected: false, ..s },
        ClientType::UNDEFINED => s,
    }
}

/// Role exclusivity. Each role slot has capacity one: a claim succeeds exactly
/// when the slot is free, a successful claim fills the slot, and as long as the
/// slot stays filled every further claim of the same role fails. Since all
/// claims are serialized through the shared lock, at most one session holds
/// USER and at most one holds TANK at any instant.
pub proof fn lemma_role_exclusivity(s: State, role: ClientType)
    ensures
        spec_try_claim(s, role).1 <==> (role != ClientType::UNDEFINED && !role_claimed(s, role)),
        spec_try_claim(s, role).1 ==> role_claimed(spec_try_claim(s, role).0, role),
        spec_try_claim(s, role).1 ==> !spec_try_claim(spec_try_claim(s, role).0, role).1,
{
}

/// A claim never disturbs the other role's slot, and neither does a release:
/// one connection's claim, rejection, or teardown is isolated from the peer
/// role's holder.
pub proof fn lemma_claim_release_frame(s: State, role: ClientType, other: ClientType)
    requires
        role != other,
    ensures
        role_claimed(spec_try_claim(s, role).0, other) == role_claimed(s, other),
        role_claimed(spec_release(s, role), other) == role_claimed(s, other),
{
}

/// A released slot is free again: after `release(role)` the slot for `role` is
/// unheld, and a fresh claim of that role succeeds. A session that releases
/// its role on termination therefore never leaves a permanently stuck slot.
pub proof fn lemma_release_frees_slot(s: State, role: ClientType)
    requires
        role != ClientType::UNDEFINED,
    ensures
        !role_claimed(spec_release(s, role), role),
        spec_try_claim(spec_release(s, role), role).1,
{
}

} // verus!
