//! Payloads that the server sends to a client.

use crate::wsmsg::{bytes_view, clone_bytes, LeaveRoom, RoomInit, SetId, SetSnapper};
use vstd::prelude::*;

verus! {

/// A brush change, tagged with the id of the member who made it.
#[derive(Debug, PartialEq, Eq)]
pub struct SetBrush {
    pub id: String,
    pub brush: Option<Vec<u8>>,
}

/// A movement, tagged with the id of the member who made it.
#[derive(Debug, PartialEq, Eq)]
pub struct Movement {
    pub id: String,
    pub point: Option<Vec<u8>>,
    pub kind: i32,
}

/// Notification that `id` entered the room.
#[derive(Debug, PartialEq, Eq)]
pub struct JoinRoom {
    pub id: String,
}

/// The variants of a server message.
#[derive(Debug, PartialEq, Eq)]
pub enum Kind {
    SetId(SetId),
    JoinRoom(JoinRoom),
    LeaveRoom(LeaveRoom),
    SetBrush(SetBrush),
    Movement(Movement),
    RoomInit(RoomInit),
    SetSnapper(SetSnapper),
    ServerError(String),
}

impl Clone for SetBrush {
    fn clone(&self) -> (res: Self)
        ensures
            res.id@ == self.id@,
            bytes_view(res.brush) == bytes_view(self.brush),
    {
        SetBrush { id: self.id.clone(), brush: clone_bytes(&self.brush) }
    }
}

impl Clone for Movement {
    fn clone(&self) -> (res: Self)
        ensures
            res.id@ == self.id@,
            bytes_view(res.point) == bytes_view(self.point),
            res.kind == self.kind,
    {
        Movement { id: self.id.clone(), point: clone_bytes(&self.point), kind: self.kind }
    }
}

impl Clone for JoinRoom {
    fn clone(&self) -> (res: Self)
        ensures
            res.id@ == self.id@,
    {
        JoinRoom { id: self.id.clone() }
    }
}

} // verus!
