//! The room-creation resolver: draw a random candidate id, ask the Room
//! actor to initialize it if absent, accept on success, redraw on a
//! collision, and give up with an internal error after a bounded number
//! of attempts rather than looping without end.

use crate::room_id::{RoomId, ROOM_ID_SPACE};
use vstd::prelude::*;

verus! {

/// How many collisions the resolver tolerates before it reports an
/// internal error: at `26^6` slots a genuine collision streak this long
/// signals a failing collaborator, not luck.
pub const CREATE_ROOM_ATTEMPT_LIMIT: u64 = 20;

/// The local entropy source failed; drawing a candidate is impossible.
#[derive(Debug, Clone, Copy, PartialEq, Eq, Structural)]
pub struct EntropyError;

/// Relies on `getrandom::getrandom`: eight random bytes, read as a
/// machine word. Nothing is assumed about the value.
#[verifier::external_body]
fn random_u64() -> (r: Result<u64, EntropyError>)
{
    let mut buf = [0u8; 8];
    getrandom::getrandom(&mut buf).map_err(|_| EntropyError)?;
    Ok(u64::from_be_bytes(buf))
}

/// What one resolver step decided.
#[derive(Debug, Clone, Copy, PartialEq, Eq, Structural)]
pub enum CreateRoomProgress {
    /// The candidate was free and is now this caller's room.
    Accepted(RoomId),
    /// The candidate existed; draw another.
    Retry,
    /// Too many collisions; report an internal error.
    GiveUp,
}

/// The resolver's state across attempts: how many collisions so far,
/// and how many it will tolerate.
#[derive(Debug, Clone, Copy, PartialEq, Eq, Structural)]
pub struct CreateRoomResolver {
    pub attempts: u64,
    pub limit: u64,
}

impl CreateRoomResolver {
    /// A fresh resolver with the standard attempt ceiling.
    pub fn new() -> (r: Self)
        ensures
            r.attempts == 0,
            r.limit == CREATE_ROOM_ATTEMPT_LIMIT,
    {
        Self { attempts: 0, limit: CREATE_ROOM_ATTEMPT_LIMIT }
    }

    /// A fresh resolver with a chosen attempt ceiling.
    pub fn with_limit(limit: u64) -> (r: Self)
        ensures
            r.attempts == 0,
            r.limit == limit,
    {
        Self { attempts: 0, limit }
    }

    /// Draw a random candidate id, uniformly up to the reduction of a
    /// machine word into the id range.
    pub fn draw_candidate(&self) -> (r: Result<RoomId, EntropyError>)
        ensures
            r matches Ok(id) ==> id.id_spec() < ROOM_ID_SPACE,
    {
        let raw = random_u64()?;
        Ok(RoomId::from_entropy(raw))
    }

    /// Record what the Room actor said about a candidate: `was_absent`
    /// accepts it; a collision counts one attempt, and the ceiling
    /// turns further collisions into giving up.
    pub fn note_result(&mut self, candidate: RoomId, was_absent: bool) -> (r: CreateRoomProgress)
        requires
            old(self).attempts < u64::MAX,
        ensures
            was_absent ==> r == CreateRoomProgress::Accepted(candidate) && *final(self) == *old(
                self,
            ),
            !was_absent ==> final(self).attempts == old(self).attempts + 1 && final(self).limit
                == old(self).limit,
            !was_absent && old(self).attempts + 1 < old(self).limit ==> r
                == CreateRoomProgress::Retry,
            !was_absent && old(self).attempts + 1 >= old(self).limit ==> r
                == CreateRoomProgress::GiveUp,
    {
        if was_absent {
            CreateRoomProgress::Accepted(candidate)
        } else {
            self.attempts = self.attempts + 1;
            if self.attempts < self.limit {
                CreateRoomProgress::Retry
            } else {
                CreateRoomProgress::GiveUp
            }
        }
    }
}

} // verus!
