//! The membership guard: authorizes a request to listen on a room's
//! broadcast channel from the answers the membership store gives about the
//! requesting user and the room. Subscribing never creates membership; the
//! guard only authorizes listening.
use vstd::prelude::*;

verus! {

/// What the membership store answers about one user and one room.
#[derive(Clone, Copy, Debug, PartialEq, Eq, Structural)]
pub struct RoomFacts {
    /// The room exists.
    pub room_exists: bool,
    /// The user is banned from the room.
    pub banned: bool,
    /// The user is a participant of the room.
    pub participant: bool,
}

/// Why a join request was refused.
#[derive(Clone, Copy, Debug, PartialEq, Eq, Structural)]
pub enum GuardError {
    RoomMissing,
    Banned,
    NotParticipant,
}

/// The guard's decision: the checks run in order — the room must exist, the
/// user must not be banned, and the user must already be a participant.
pub open spec fn join_outcome(facts: RoomFacts) -> Result<(), GuardError> {
    if !facts.room_exists {
        Err(GuardError::RoomMissing)
    } else if facts.banned {
        Err(GuardError::Banned)
    } else if !facts.participant {
        Err(GuardError::NotParticipant)
    } else {
        Ok(())
    }
}

/// Authorizes a join request: `Ok` exactly when the room exists, the user
/// is not banned from it, and the user is a participant; otherwise the
/// error of the first failed check.
pub fn authorize_join(facts: &RoomFacts) -> (r: Result<(), GuardError>)
    ensures
        r == join_outcome(*facts),
{
    if !facts.room_exists {
        Err(GuardError::RoomMissing)
    } else if facts.banned {
        Err(GuardError::Banned)
    } else if !facts.participant {
        Err(GuardError::NotParticipant)
    } else {
        Ok(())
    }
}

} // verus!
