//! Tickets: by which the outcome of an admitted turn is awaited.
use vstd::prelude::*;

use crate::types::TurnId;

verus! {

/// Names an admitted turn. The actor retains the outcome of every turn it admitted, so whoever
/// holds the ticket finds the outcome there, however late they look.
#[derive(Debug, Clone, Copy, PartialEq, Eq, Structural)]
pub struct TurnTicket {
    turn_id: TurnId,
}

impl TurnTicket {
    /// The turn that the ticket belongs to.
    pub closed spec fn id(self) -> TurnId {
        self.turn_id
    }

    /// A ticket for a turn.
    pub fn new(turn_id: TurnId) -> (result: Self)
        ensures
            result.id() == turn_id,
    {
        TurnTicket { turn_id }
    }

    pub fn turn_id(&self) -> (result: TurnId)
        ensures
            result == self.id(),
    {
        self.turn_id
    }
}

} // verus!
