//! The reasons for which the coordinator refuses an operation.

use vstd::prelude::*;

verus! {

/// Why the coordinator refused an operation. A refused operation changes
/// nothing.
#[derive(Debug, Clone, Copy, PartialEq, Eq, Structural)]
pub enum Rejection {
    /// The id is not registered.
    UnknownSession,
    /// The session is not a member of the room it addressed.
    NotInRoom,
    /// The snapshot covers less of the history than the stored one.
    StaleSnapshot,
    /// The snapshot claims to cover broadcasts that were never made.
    SnapshotAhead,
}

impl Rejection {
    /// The words in which a client is told of the refusal.
    pub open spec fn text(self) -> Seq<char> {
        match self {
            Rejection::UnknownSession => "session is not registered"@,
            Rejection::NotInRoom => "not a member of the room"@,
            Rejection::StaleSnapshot => "snapshot is older than the stored one"@,
            Rejection::SnapshotAhead => "snapshot is ahead of the room's history"@,
        }
    }

    /// The words in which a client is told of the refusal.
    pub fn message(&self) -> (res: String)
        ensures
            res@ == self.text(),
    {
        match self {
            Rejection::UnknownSession => "session is not registered".to_owned(),
            Rejection::NotInRoom => "not a member of the room".to_owned(),
            Rejection::StaleSnapshot => "snapshot is older than the stored one".to_owned(),
            Rejection::SnapshotAhead => "snapshot is ahead of the room's history".to_owned(),
        }
    }
}

} // verus!
