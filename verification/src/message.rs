//! The payload broadcast on the in-process message bus, distinct from the
//! wire-level envelopes: every publish is delivered to every subscribed
//! session, the publisher's own included.
use vstd::prelude::*;

verus! {

use crate::Command;

/// Bus message: a command published by one session for fan-out to all.
#[derive(Clone, Copy, Debug, PartialEq, Eq, Structural)]
pub enum Message {
    Command(Command),
}

} // verus!
