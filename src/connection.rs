//! The connection slot: at most one shared connection, made by the first caller
//! that finds the slot empty and reused by every caller after it.

use vstd::prelude::*;
use crate::error::{ErrorKind, GatewayError};
use vstd::string::*;

verus! {

/// What a caller that holds the lock does next.
#[derive(Clone, Copy, Debug, PartialEq, Eq, Structural)]
pub enum ConnectStep {
    /// The slot is empty: perform the connect handshake while holding the lock.
    Handshake,
    /// A connection is in place: use it.
    Reuse,
}

/// The step a caller takes in a slot that is, or is not, connected.
pub open spec fn step_for(connected: bool) -> ConnectStep {
    if connected {
        ConnectStep::Reuse
    } else {
        ConnectStep::Handshake
    }
}

/// Whether the slot is connected after a caller's turn, given how its handshake
/// would end. A failed handshake leaves the slot empty for a later retry.
pub open spec fn connected_after(connected: bool, handshake_ok: bool) -> bool {
    match step_for(connected) {
        ConnectStep::Reuse => true,
        ConnectStep::Handshake => handshake_ok,
    }
}

/// The number of handshakes that callers served one at a time through the lock
/// perform, from a slot that is or is not connected; `outcomes[i]` is how the
/// i-th caller's handshake would end.
pub open spec fn handshakes(connected: bool, outcomes: Seq<bool>) -> nat
    decreases outcomes.len(),
{
    if outcomes.len() == 0 {
        0
    } else {
        let rest = handshakes(connected_after(connected, outcomes[0]), outcomes.drop_first());
        match step_for(connected) {
            ConnectStep::Handshake => rest + 1,
            ConnectStep::Reuse => rest,
        }
    }
}

/// The single shared connection, held behind the caller's exclusion lock.
pub struct ConnectionSlot<C> {
    client: Option<C>,
}

impl<C> ConnectionSlot<C> {
    /// The connection in the slot, if any.
    pub closed spec fn current(&self) -> Option<C> {
        self.client
    }

    pub open spec fn is_connected(&self) -> bool {
        self.current() is Some
    }

    /// An empty slot.
    pub fn new() -> (r: Self)
        ensures
            !r.is_connected(),
    {
        ConnectionSlot { client: None }
    }

    /// The step for the caller that now holds the lock.
    pub fn next_step(&self) -> (r: ConnectStep)
        ensures
            r == step_for(self.is_connected()),
    {
        match self.client {
            Some(_) => ConnectStep::Reuse,
            None => ConnectStep::Handshake,
        }
    }

    /// Records how a handshake ended: a new connection fills the slot; a failure
    /// leaves it empty and is reported as a connection error.
    pub fn complete(&mut self, outcome: Result<C, String>) -> (r: Result<(), GatewayError>)
        requires
            !old(self).is_connected(),
        ensures
            final(self).is_connected() == connected_after(old(self).is_connected(), outcome is Ok),
            outcome is Ok ==> final(self).current() == Some(outcome->Ok_0),
            r is Ok <==> outcome is Ok,
            r is Err ==> r->Err_0.kind == ErrorKind::Connection && r->Err_0.message@
                == "Failed to connect to PostgreSQL: "@ + outcome->Err_0@,
    {
        match outcome {
            Ok(c) => {
                self.client = Some(c);
                Ok(())
            },
            Err(e) => {
                let mut message = String::from_str("Failed to connect to PostgreSQL: ");
                message.append(e.as_str());
                Err(GatewayError::new(ErrorKind::Connection, message))
            },
        }
    }

    /// The shared connection, once there is one.
    pub fn client(&self) -> (r: Option<&C>)
        ensures
            r is Some <==> self.is_connected(),
            r is Some ==> *r->0 == self.current()->0,
    {
        self.client.as_ref()
    }
}

proof fn lemma_connected_stays_quiet(outcomes: Seq<bool>)
    ensures
        handshakes(true, outcomes) == 0,
    decreases outcomes.len(),
{
    if outcomes.len() > 0 {
        lemma_connected_stays_quiet(outcomes.drop_first());
    }
}

/// Callers that reach an empty slot one at a time through the lock perform
/// exactly one handshake when it succeeds: the first caller connects and every
/// later caller reuses that connection.
pub proof fn lemma_single_handshake(outcomes: Seq<bool>)
    requires
        outcomes.len() > 0,
        outcomes[0],
    ensures
        handshakes(false, outcomes) == 1,
{
    lemma_connected_stays_quiet(outcomes.drop_first());
}

/// A failed handshake leaves the slot empty, so the next caller tries again:
/// each failure before the first success costs one more handshake.
pub proof fn lemma_failed_handshake_retries(outcomes: Seq<bool>)
    requires
        outcomes.len() > 0,
        !outcomes[0],
    ensures
        handshakes(false, outcomes) == 1 + handshakes(false, outcomes.drop_first()),
{
}

} // verus!
