//! The messages exchanged with clients, and their mathematical values.
//!
//! Encoding to and from bytes is not done here: callers hand over decoded
//! messages and take messages back. Brushes, points and snapshot payloads
//! are carried as encoded bytes and never inspected.

use vstd::prelude::*;

pub mod client_message;
pub mod server_message;

verus! {

/// Value of an optional byte payload.
pub open spec fn bytes_view(o: Option<Vec<u8>>) -> Option<Seq<u8>> {
    match o {
        Some(v) => Some(v@),
        None => None,
    }
}

/// Value of an optional string.
pub open spec fn text_view(o: Option<String>) -> Option<Seq<char>> {
    match o {
        Some(s) => Some(s@),
        None => None,
    }
}

/// Copies a byte string.
pub fn copy_bytes(v: &Vec<u8>) -> (res: Vec<u8>)
    ensures
        res@ == v@,
{
    let mut res: Vec<u8> = Vec::new();
    let mut i: usize = 0;
    while i < v.len()
        invariant
            i <= v.len(),
            res@ == v@.take(i as int),
        decreases v.len() - i,
    {
        res.push(v[i]);
        i = i + 1;
    }
    res
}

/// Copies an optional byte payload.
pub fn clone_bytes(o: &Option<Vec<u8>>) -> (res: Option<Vec<u8>>)
    ensures
        bytes_view(res) == bytes_view(*o),
{
    match o {
        Some(v) => Some(copy_bytes(v)),
        None => None,
    }
}

/// Copies an optional string.
pub fn clone_text(o: &Option<String>) -> (res: Option<String>)
    ensures
        text_view(res) == text_view(*o),
{
    match o {
        Some(s) => Some(s.clone()),
        None => None,
    }
}

/// A compact summary of a room's state. It subsumes the first
/// `next_log_index` broadcasts ever made in the room.
#[derive(Debug, PartialEq, Eq)]
pub struct Snapshot {
    pub payload: Vec<u8>,
    pub next_log_index: u64,
}

/// Mathematical value of a [`Snapshot`].
pub struct SnapshotView {
    pub payload: Seq<u8>,
    pub next_log_index: u64,
}

impl View for Snapshot {
    type V = SnapshotView;

    open spec fn view(&self) -> SnapshotView {
        SnapshotView { payload: self.payload@, next_log_index: self.next_log_index }
    }
}

impl Clone for Snapshot {
    fn clone(&self) -> (res: Self)
        ensures
            res@ == self@,
    {
        Snapshot { payload: copy_bytes(&self.payload), next_log_index: self.next_log_index }
    }
}

/// Value of an optional snapshot.
pub open spec fn snapshot_view(o: Option<Snapshot>) -> Option<SnapshotView> {
    match o {
        Some(s) => Some(s@),
        None => None,
    }
}

/// Copies an optional snapshot.
pub fn clone_snapshot(o: &Option<Snapshot>) -> (res: Option<Snapshot>)
    ensures
        snapshot_view(res) == snapshot_view(*o),
{
    match o {
        Some(s) => Some(s.clone()),
        None => None,
    }
}

/// A request to become the room's snapshot producer.
#[derive(Debug, PartialEq, Eq)]
pub struct SnapperRequest {}

/// Notification of who the room's snapshot producer is.
#[derive(Debug, PartialEq, Eq)]
pub struct SetSnapper {
    pub id: String,
}

/// Notification that `id` left the room.
#[derive(Debug, PartialEq, Eq)]
pub struct LeaveRoom {
    pub id: String,
}

/// Tells a client the identity it was given.
#[derive(Debug, PartialEq, Eq)]
pub struct SetId {
    pub id: String,
}

/// An operation that was relayed to a room: the only kind of message a
/// room's log holds.
#[derive(Debug, PartialEq, Eq)]
pub enum Broadcast {
    SetBrush(server_message::SetBrush),
    Movement(server_message::Movement),
}

/// Mathematical value of a [`Broadcast`].
pub enum BroadcastView {
    SetBrush { id: Seq<char>, brush: Option<Seq<u8>> },
    Movement { id: Seq<char>, point: Option<Seq<u8>>, kind: i32 },
}

impl BroadcastView {
    /// The id of the member who made the operation.
    pub open spec fn sender(self) -> Seq<char> {
        match self {
            BroadcastView::SetBrush { id, .. } => id,
            BroadcastView::Movement { id, .. } => id,
        }
    }
}

impl View for Broadcast {
    type V = BroadcastView;

    open spec fn view(&self) -> BroadcastView {
        match *self {
            Broadcast::SetBrush(b) => BroadcastView::SetBrush {
                id: b.id@,
                brush: bytes_view(b.brush),
            },
            Broadcast::Movement(m) => BroadcastView::Movement {
                id: m.id@,
                point: bytes_view(m.point),
                kind: m.kind,
            },
        }
    }
}

impl Clone for Broadcast {
    fn clone(&self) -> (res: Self)
        ensures
            res@ == self@,
    {
        match self {
            Broadcast::SetBrush(b) => Broadcast::SetBrush(b.clone()),
            Broadcast::Movement(m) => Broadcast::Movement(m.clone()),
        }
    }
}

impl Broadcast {
    /// The message by which this operation is delivered to a member.
    pub fn to_message(&self) -> (res: ServerMessage)
        ensures
            res@ == ServerMessageView::Broadcast(self@),
    {
        match self {
            Broadcast::SetBrush(b) => ServerMessage {
                kind: Some(server_message::Kind::SetBrush(b.clone())),
            },
            Broadcast::Movement(m) => ServerMessage {
                kind: Some(server_message::Kind::Movement(m.clone())),
            },
        }
    }
}

/// Values of the entries of a log.
pub open spec fn log_view(log: Seq<Broadcast>) -> Seq<BroadcastView> {
    log.map_values(|b: Broadcast| b@)
}

/// Copies a log.
pub fn clone_log(log: &Vec<Broadcast>) -> (res: Vec<Broadcast>)
    ensures
        log_view(res@) == log_view(log@),
{
    let mut res: Vec<Broadcast> = Vec::new();
    let mut i: usize = 0;
    while i < log.len()
        invariant
            i <= log.len(),
            res.len() == i,
            forall|j: int| 0 <= j < i ==> (#[trigger] res@[j])@ == log@[j]@,
        decreases log.len() - i,
    {
        let entry = log[i].clone();
        res.push(entry);
        i = i + 1;
    }
    res
}

/// What a member is handed on entering a room: the room's snapshot and the
/// broadcasts made since. Applying the snapshot and replaying the log in
/// order rebuilds the room's current state.
#[derive(Debug, PartialEq, Eq)]
pub struct RoomInit {
    pub room_id: String,
    pub snapshot: Option<Snapshot>,
    pub log: Vec<Broadcast>,
}

/// Mathematical value of a [`RoomInit`].
pub struct RoomInitView {
    pub room_id: Seq<char>,
    pub snapshot: Option<SnapshotView>,
    pub log: Seq<BroadcastView>,
}

impl View for RoomInit {
    type V = RoomInitView;

    open spec fn view(&self) -> RoomInitView {
        RoomInitView {
            room_id: self.room_id@,
            snapshot: snapshot_view(self.snapshot),
            log: log_view(self.log@),
        }
    }
}

impl Clone for RoomInit {
    fn clone(&self) -> (res: Self)
        ensures
            res@ == self@,
    {
        RoomInit {
            room_id: self.room_id.clone(),
            snapshot: clone_snapshot(&self.snapshot),
            log: clone_log(&self.log),
        }
    }
}

/// A message from the server to a client.
#[derive(Debug, PartialEq, Eq)]
pub struct ServerMessage {
    pub kind: Option<server_message::Kind>,
}

/// Mathematical value of a [`ServerMessage`].
pub enum ServerMessageView {
    /// No variant is present.
    Empty,
    SetId { id: Seq<char> },
    JoinRoom { id: Seq<char> },
    LeaveRoom { id: Seq<char> },
    Broadcast(BroadcastView),
    RoomInit(RoomInitView),
    SetSnapper { id: Seq<char> },
    ServerError { text: Seq<char> },
}

impl View for ServerMessage {
    type V = ServerMessageView;

    open spec fn view(&self) -> ServerMessageView {
        match self.kind {
            None => ServerMessageView::Empty,
            Some(server_message::Kind::SetId(m)) => ServerMessageView::SetId { id: m.id@ },
            Some(server_message::Kind::JoinRoom(m)) => ServerMessageView::JoinRoom { id: m.id@ },
            Some(server_message::Kind::LeaveRoom(m)) => ServerMessageView::LeaveRoom { id: m.id@ },
            Some(server_message::Kind::SetBrush(m)) => ServerMessageView::Broadcast(
                BroadcastView::SetBrush { id: m.id@, brush: bytes_view(m.brush) },
            ),
            Some(server_message::Kind::Movement(m)) => ServerMessageView::Broadcast(
                BroadcastView::Movement { id: m.id@, point: bytes_view(m.point), kind: m.kind },
            ),
            Some(server_message::Kind::RoomInit(m)) => ServerMessageView::RoomInit(m@),
            Some(server_message::Kind::SetSnapper(m)) => ServerMessageView::SetSnapper {
                id: m.id@,
            },
            Some(server_message::Kind::ServerError(text)) => ServerMessageView::ServerError {
                text: text@,
            },
        }
    }
}

impl Clone for ServerMessage {
    fn clone(&self) -> (res: Self)
        ensures
            res@ == self@,
    {
        let kind = match &self.kind {
            None => None,
            Some(server_message::Kind::SetId(m)) => Some(
                server_message::Kind::SetId(SetId { id: m.id.clone() }),
            ),
            Some(server_message::Kind::JoinRoom(m)) => Some(
                server_message::Kind::JoinRoom(m.clone()),
            ),
            Some(server_message::Kind::LeaveRoom(m)) => Some(
                server_message::Kind::LeaveRoom(LeaveRoom { id: m.id.clone() }),
            ),
            Some(server_message::Kind::SetBrush(m)) => Some(
                server_message::Kind::SetBrush(m.clone()),
            ),
            Some(server_message::Kind::Movement(m)) => Some(
                server_message::Kind::Movement(m.clone()),
            ),
            Some(server_message::Kind::RoomInit(m)) => Some(
                server_message::Kind::RoomInit(m.clone()),
            ),
            Some(server_message::Kind::SetSnapper(m)) => Some(
                server_message::Kind::SetSnapper(SetSnapper { id: m.id.clone() }),
            ),
            Some(server_message::Kind::ServerError(text)) => Some(
                server_message::Kind::ServerError(text.clone()),
            ),
        };
        ServerMessage { kind }
    }
}

/// A message from a client to the server, as decoded.
#[derive(Debug, PartialEq, Eq)]
pub struct ClientMessage {
    pub kind: Option<client_message::Kind>,
}

impl View for ClientMessage {
    type V = client_message::ClientMessageView;

    open spec fn view(&self) -> client_message::ClientMessageView {
        match self.kind {
            None => client_message::ClientMessageView::Empty,
            Some(k) => k@,
        }
    }
}

} // verus!
