//! Why the actor refuses a request.
use vstd::prelude::*;

use crate::types::TurnId;

verus! {

/// Why the actor refuses a request.
#[derive(Debug, Clone, Copy, PartialEq, Eq, Structural)]
pub enum ActorError {
    Closed,
    Shutdown,
    PolicyPending,
    PolicyCancelled,
    PolicyCeiling,
    UnknownTurn(TurnId),
}

impl ActorError {
    /// The sentence that describes the error; for an unknown turn, the sentence that its identity
    /// completes.
    pub open spec fn spec_message(self) -> Seq<char> {
        match self {
            ActorError::Closed => "the actor is closed"@,
            ActorError::Shutdown => "the actor is shutting down"@,
            ActorError::PolicyPending => "policy update is pending; use async admission"@,
            ActorError::PolicyCancelled => "policy update was cancelled"@,
            ActorError::PolicyCeiling => "child policy exceeds its inherited authority ceiling"@,
            ActorError::UnknownTurn(_) => "no such turn: "@,
        }
    }

    /// The sentence that describes the error; for an unknown turn, the sentence that its identity
    /// completes.
    pub fn message(&self) -> (result: &'static str)
        ensures
            result@ == self.spec_message(),
    {
        match self {
            ActorError::Closed => "the actor is closed",
            ActorError::Shutdown => "the actor is shutting down",
            ActorError::PolicyPending => "policy update is pending; use async admission",
            ActorError::PolicyCancelled => "policy update was cancelled",
            ActorError::PolicyCeiling => "child policy exceeds its inherited authority ceiling",
            ActorError::UnknownTurn(_) => "no such turn: ",
        }
    }
}

} // verus!
