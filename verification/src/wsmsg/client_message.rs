//! Payloads that a client sends to the server.

use crate::wsmsg::{bytes_view, clone_bytes, clone_text, text_view, Snapshot, SnapperRequest};
use vstd::prelude::*;

verus! {

/// A change of the sender's brush. The brush itself is an encoded payload
/// that the server relays without looking inside.
#[derive(Debug, PartialEq, Eq)]
pub struct SetBrush {
    pub brush: Option<Vec<u8>>,
}

/// A cursor or stroke movement: an encoded point and the kind of movement.
#[derive(Debug, PartialEq, Eq)]
pub struct Movement {
    pub point: Option<Vec<u8>>,
    pub kind: i32,
}

/// A request to enter a room; without a room id the server picks one.
#[derive(Debug, PartialEq, Eq)]
pub struct JoinRoom {
    pub room_id: Option<String>,
}

/// The variants of a client message.
#[derive(Debug, PartialEq, Eq)]
pub enum Kind {
    SetBrush(SetBrush),
    Movement(Movement),
    JoinRoom(JoinRoom),
    Snapshot(Snapshot),
    SnapperRequest(SnapperRequest),
}

/// Mathematical value of a client message.
pub enum ClientMessageView {
    /// No variant was present in the decoded message.
    Empty,
    SetBrush { brush: Option<Seq<u8>> },
    Movement { point: Option<Seq<u8>>, kind: i32 },
    JoinRoom { room_id: Option<Seq<char>> },
    Snapshot { payload: Seq<u8>, next_log_index: u64 },
    SnapperRequest,
}

impl View for Kind {
    type V = ClientMessageView;

    open spec fn view(&self) -> ClientMessageView {
        match *self {
            Kind::SetBrush(b) => ClientMessageView::SetBrush { brush: bytes_view(b.brush) },
            Kind::Movement(m) => ClientMessageView::Movement {
                point: bytes_view(m.point),
                kind: m.kind,
            },
            Kind::JoinRoom(j) => ClientMessageView::JoinRoom { room_id: text_view(j.room_id) },
            Kind::Snapshot(s) => ClientMessageView::Snapshot {
                payload: s.payload@,
                next_log_index: s.next_log_index,
            },
            Kind::SnapperRequest(_) => ClientMessageView::SnapperRequest,
        }
    }
}

impl Clone for SetBrush {
    fn clone(&self) -> (res: Self)
        ensures
            bytes_view(res.brush) == bytes_view(self.brush),
    {
        SetBrush { brush: clone_bytes(&self.brush) }
    }
}

impl Clone for Movement {
    fn clone(&self) -> (res: Self)
        ensures
            bytes_view(res.point) == bytes_view(self.point),
            res.kind == self.kind,
    {
        Movement { point: clone_bytes(&self.point), kind: self.kind }
    }
}

impl Clone for JoinRoom {
    fn clone(&self) -> (res: Self)
        ensures
            text_view(res.room_id) == text_view(self.room_id),
    {
        JoinRoom { room_id: clone_text(&self.room_id) }
    }
}

impl Clone for Kind {
    fn clone(&self) -> (res: Self)
        ensures
            res@ == self@,
    {
        match self {
            Kind::SetBrush(b) => Kind::SetBrush(b.clone()),
            Kind::Movement(m) => Kind::Movement(m.clone()),
            Kind::JoinRoom(j) => Kind::JoinRoom(j.clone()),
            Kind::Snapshot(s) => Kind::Snapshot(s.clone()),
            Kind::SnapperRequest(_) => Kind::SnapperRequest(SnapperRequest {  }),
        }
    }
}

} // verus!
