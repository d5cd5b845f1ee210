//! The protocol state machine of one connection.
//!
//! A session does no input or output itself. Each event of the connection
//! (a frame arrived, the coordinator answered, the heartbeat timer fired)
//! is handed to the session, which changes its state and returns the
//! actions to perform: what to write to the client and what to ask of the
//! coordinator. Time is a count of milliseconds from a clock that does not
//! run backwards.

use crate::server::{
    Connect, Disconnect, JoinRoom, Movement, RoomId, SetBrush, SnapperRequest, Snapshot, Uid,
};
use crate::wsmsg::client_message::{ClientMessageView, Kind};
use crate::wsmsg::{
    bytes_view, clone_text, server_message, text_view, ClientMessage, RoomInit, RoomInitView,
    ServerMessage, ServerMessageView, SetId,
};
use vstd::prelude::*;

verus! {

/// How often the peer is probed, in milliseconds.
pub const HEARTBEAT_INTERVAL: u64 = 5000;

/// How long the peer may stay silent before the connection is given up, in
/// milliseconds.
pub const CLIENT_TIMEOUT: u64 = 10000;

/// Told to a client that sends an operation before it has an identity.
pub const NOT_IDENTIFIED: &'static str = "no identity assigned yet";

/// Told to a client that sends a room operation while in no room.
pub const NOT_IN_ROOM: &'static str = "not in a room";

/// Why a peer closes the connection.
#[derive(Debug, PartialEq, Eq)]
pub struct CloseReason {
    pub code: u16,
    pub description: Option<String>,
}

/// Mathematical value of a [`CloseReason`].
pub struct CloseReasonView {
    pub code: u16,
    pub description: Option<Seq<char>>,
}

impl View for CloseReason {
    type V = CloseReasonView;

    open spec fn view(&self) -> CloseReasonView {
        CloseReasonView { code: self.code, description: text_view(self.description) }
    }
}

/// Value of an optional close reason.
pub open spec fn reason_view(reason: Option<CloseReason>) -> Option<CloseReasonView> {
    match reason {
        Some(r) => Some(r@),
        None => None,
    }
}

/// The transport could not make a frame of what arrived.
#[derive(Debug, PartialEq, Eq)]
pub struct ProtocolError {}

/// The payload of a binary frame is not a client message.
#[derive(Debug, PartialEq, Eq)]
pub struct DecodeError {}

/// The coordinator could not be reached.
#[derive(Debug, PartialEq, Eq)]
pub struct MailboxError {}

/// One inbound frame. A binary frame comes with its payload decoded.
#[derive(Debug, PartialEq, Eq)]
pub enum Frame {
    Ping(Vec<u8>),
    Pong(Vec<u8>),
    Text(String),
    Binary(Result<ClientMessage, DecodeError>),
    Close(Option<CloseReason>),
    Continuation,
    Nop,
}

/// Mathematical value of a [`Frame`], as far as the session reads it.
pub enum FrameView {
    Ping(Seq<u8>),
    Pong,
    /// A binary frame with a client message in it.
    Message(ClientMessageView),
    /// A binary frame whose payload could not be decoded.
    Undecodable,
    Close(Option<CloseReasonView>),
    /// A frame of a kind that the protocol has no use for.
    Other,
}

impl View for Frame {
    type V = FrameView;

    open spec fn view(&self) -> FrameView {
        match *self {
            Frame::Ping(payload) => FrameView::Ping(payload@),
            Frame::Pong(_) => FrameView::Pong,
            Frame::Text(_) => FrameView::Other,
            Frame::Binary(Ok(msg)) => FrameView::Message(msg@),
            Frame::Binary(Err(_)) => FrameView::Undecodable,
            Frame::Close(reason) => FrameView::Close(reason_view(reason)),
            Frame::Continuation => FrameView::Other,
            Frame::Nop => FrameView::Other,
        }
    }
}

/// Something for the connection's driver to do.
#[derive(Debug, PartialEq, Eq)]
pub enum Action {
    /// Probe the peer.
    Ping,
    /// Answer the peer's probe with the probe's payload.
    Pong(Vec<u8>),
    /// Write a message to the client.
    Send(ServerMessage),
    /// Ask the coordinator to register the session, and hand the answer to
    /// [`WsClientSession::registered`].
    Connect(Connect),
    /// Ask the coordinator to move the session into a room, and hand the
    /// answer to [`WsClientSession::joined`].
    JoinRoom(JoinRoom),
    /// Pass a change of brush on to the coordinator.
    SetBrush(SetBrush),
    /// Pass a movement on to the coordinator.
    Movement(Movement),
    /// Pass a snapshot on to the coordinator.
    Snapshot(Snapshot),
    /// Pass a request for the producer's role on to the coordinator.
    SnapperRequest(SnapperRequest),
    /// Tell the coordinator that the session is gone.
    Disconnect(Disconnect),
    /// Close the connection towards the peer.
    Close(Option<CloseReason>),
    /// Stop serving the connection.
    Stop,
}

/// Mathematical value of an [`Action`].
pub enum ActionView {
    Ping,
    Pong(Seq<u8>),
    Send(ServerMessageView),
    Connect { proposed: Option<Seq<char>>, addr: u64 },
    JoinRoom { id: Seq<char>, old_room: Option<Seq<char>>, requested: Option<Seq<char>> },
    /// A room operation of the member `id` of `room_id`, passed on.
    Forward { id: Seq<char>, room_id: Seq<char>, op: ClientMessageView },
    Disconnect { id: Seq<char>, old_room: Option<Seq<char>> },
    Close(Option<CloseReasonView>),
    Stop,
}

impl View for Action {
    type V = ActionView;

    open spec fn view(&self) -> ActionView {
        match *self {
            Action::Ping => ActionView::Ping,
            Action::Pong(payload) => ActionView::Pong(payload@),
            Action::Send(msg) => ActionView::Send(msg@),
            Action::Connect(c) => ActionView::Connect { proposed: text_view(c.id), addr: c.addr },
            Action::JoinRoom(j) => ActionView::JoinRoom {
                id: j.id@,
                old_room: text_view(j.room_id),
                requested: text_view(j.join_room.room_id),
            },
            Action::SetBrush(b) => ActionView::Forward {
                id: b.id@,
                room_id: b.room_id@,
                op: ClientMessageView::SetBrush { brush: bytes_view(b.set_brush.brush) },
            },
            Action::Movement(m) => ActionView::Forward {
                id: m.id@,
                room_id: m.room_id@,
                op: ClientMessageView::Movement {
                    point: bytes_view(m.movement.point),
                    kind: m.movement.kind,
                },
            },
            Action::Snapshot(s) => ActionView::Forward {
                id: s.id@,
                room_id: s.room_id@,
                op: ClientMessageView::Snapshot {
                    payload: s.snapshot.payload@,
                    next_log_index: s.snapshot.next_log_index,
                },
            },
            Action::SnapperRequest(r) => ActionView::Forward {
                id: r.id@,
                room_id: r.room_id@,
                op: ClientMessageView::SnapperRequest,
            },
            Action::Disconnect(d) => ActionView::Disconnect {
                id: d.id@,
                old_room: text_view(d.room_id),
            },
            Action::Close(reason) => ActionView::Close(reason_view(reason)),
            Action::Stop => ActionView::Stop,
        }
    }
}

/// Values of a list of actions.
pub open spec fn actions_view(actions: Seq<Action>) -> Seq<ActionView> {
    actions.map_values(|a: Action| a@)
}

/// Where a session stands in the protocol.
pub enum Phase {
    /// Connected, without an identity yet.
    Unidentified,
    /// With an identity, in no room.
    Identified,
    /// With an identity, in a room.
    InRoom,
    /// Gone for good.
    Closed,
}

/// Mathematical value of a session.
pub struct SessionView {
    pub id: Option<Seq<char>>,
    pub room_id: Option<Seq<char>>,
    pub hb: u64,
    pub closed: bool,
}

/// A session's next state and the actions to perform.
pub struct Reaction {
    pub state: SessionView,
    pub actions: Seq<ActionView>,
}

/// The message that tells a client of an error.
pub open spec fn server_error(text: Seq<char>) -> ActionView {
    ActionView::Send(ServerMessageView::ServerError { text })
}

impl SessionView {
    /// Where the session stands in the protocol.
    pub open spec fn phase(self) -> Phase {
        if self.closed {
            Phase::Closed
        } else if self.id is None {
            Phase::Unidentified
        } else if self.room_id is None {
            Phase::Identified
        } else {
            Phase::InRoom
        }
    }

    /// The session does nothing.
    pub open spec fn idle(self) -> Reaction {
        Reaction { state: self, actions: Seq::empty() }
    }

    /// What the coordinator is told when the session goes: its id and the
    /// room it is in. A session without an identity has nothing to tell.
    pub open spec fn farewell(self) -> Seq<ActionView> {
        match self.id {
            Some(id) => seq![ActionView::Disconnect { id, old_room: self.room_id }],
            None => Seq::empty(),
        }
    }

    /// The session gives up: the coordinator is told, and the connection
    /// is no longer served.
    pub open spec fn close(self) -> Reaction {
        Reaction {
            state: SessionView { closed: true, ..self },
            actions: self.farewell().push(ActionView::Stop),
        }
    }

    /// The connection opened: the session asks to be registered.
    pub open spec fn started(self, addr: u64) -> Reaction {
        if self.closed {
            self.idle()
        } else {
            Reaction {
                state: self,
                actions: seq![ActionView::Connect { proposed: self.id, addr }],
            }
        }
    }

    /// The coordinator answered the request to register: with the id it
    /// assigned, which the client is told, or not at all, which ends the
    /// session.
    pub open spec fn registered(self, answer: Option<Seq<char>>) -> Reaction {
        if self.closed {
            self.idle()
        } else {
            match answer {
                Some(id) => Reaction {
                    state: SessionView { id: Some(id), ..self },
                    actions: seq![ActionView::Send(ServerMessageView::SetId { id })],
                },
                None => self.close(),
            }
        }
    }

    /// The coordinator answered the request to enter a room: with the
    /// room's state, which is passed on to the client, or not at all,
    /// which ends the session.
    pub open spec fn joined(self, answer: Option<RoomInitView>) -> Reaction {
        if self.closed {
            self.idle()
        } else {
            match answer {
                Some(init) => Reaction {
                    state: SessionView { room_id: Some(init.room_id), ..self },
                    actions: seq![ActionView::Send(ServerMessageView::RoomInit(init))],
                },
                None => self.close(),
            }
        }
    }

    /// A message of the client arrived. A request to enter a room needs an
    /// identity, every other operation a room; without it the client is
    /// told of the error and nothing is passed on.
    pub open spec fn on_message(self, msg: ClientMessageView) -> Reaction {
        match msg {
            ClientMessageView::Empty => self.idle(),
            ClientMessageView::JoinRoom { room_id } => match self.id {
                Some(id) => Reaction {
                    state: self,
                    actions: seq![
                        ActionView::JoinRoom { id, old_room: self.room_id, requested: room_id },
                    ],
                },
                None => Reaction { state: self, actions: seq![server_error(NOT_IDENTIFIED@)] },
            },
            _ => match (self.id, self.room_id) {
                (Some(id), Some(room_id)) => Reaction {
                    state: self,
                    actions: seq![ActionView::Forward { id, room_id, op: msg }],
                },
                (None, _) => Reaction { state: self, actions: seq![server_error(NOT_IDENTIFIED@)] },
                (Some(_), None) => Reaction {
                    state: self,
                    actions: seq![server_error(NOT_IN_ROOM@)],
                },
            },
        }
    }

    /// A frame arrived at time `now`, or the transport failed.
    pub open spec fn on_frame(self, frame: Option<FrameView>, now: u64) -> Reaction {
        if self.closed {
            self.idle()
        } else {
            match frame {
                None => self.close(),
                Some(FrameView::Ping(payload)) => Reaction {
                    state: SessionView { hb: now, ..self },
                    actions: seq![ActionView::Pong(payload)],
                },
                Some(FrameView::Pong) => Reaction {
                    state: SessionView { hb: now, ..self },
                    actions: Seq::empty(),
                },
                Some(FrameView::Message(msg)) => self.on_message(msg),
                Some(FrameView::Undecodable) => self.idle(),
                Some(FrameView::Close(reason)) => Reaction {
                    state: SessionView { closed: true, ..self },
                    actions: seq![ActionView::Close(reason)] + self.close().actions,
                },
                Some(FrameView::Other) => self.idle(),
            }
        }
    }

    /// Whether the peer has been silent for too long at time `now`.
    pub open spec fn timed_out(self, now: u64) -> bool {
        now - self.hb > CLIENT_TIMEOUT
    }

    /// The heartbeat timer fired at time `now`: a peer that has been
    /// silent for too long is given up, any other is probed.
    pub open spec fn heartbeat(self, now: u64) -> Reaction {
        if self.closed {
            self.idle()
        } else if self.timed_out(now) {
            self.close()
        } else {
            Reaction { state: self, actions: seq![ActionView::Ping] }
        }
    }

    /// The connection is being torn down: unless the session has closed
    /// already, the coordinator is told.
    pub open spec fn stopping(self) -> Reaction {
        if self.closed {
            self.idle()
        } else {
            Reaction { state: SessionView { closed: true, ..self }, actions: self.farewell() }
        }
    }

    /// Something for the client arrived: a message that the coordinator
    /// pushed, or the text of an error. A closed session drops it.
    pub open spec fn outbound(self, msg: ServerMessageView) -> Reaction {
        if self.closed {
            self.idle()
        } else {
            Reaction { state: self, actions: seq![ActionView::Send(msg)] }
        }
    }
}

/// One client connection: its identity, its room, and when the peer was
/// last heard of.
#[derive(Debug, PartialEq, Eq)]
pub struct WsClientSession {
    /// The id that the coordinator assigned, once it has.
    pub id: Option<Uid>,
    /// The room the session is in, if any.
    pub room_id: Option<RoomId>,
    /// When the peer last answered or sent a probe.
    pub hb: u64,
    /// Whether the session has ended.
    pub closed: bool,
}

impl View for WsClientSession {
    type V = SessionView;

    open spec fn view(&self) -> SessionView {
        SessionView {
            id: text_view(self.id),
            room_id: text_view(self.room_id),
            hb: self.hb,
            closed: self.closed,
        }
    }
}

/// The message that tells a client of an error.
fn error_message(text: String) -> (res: ServerMessage)
    ensures
        res@ == (ServerMessageView::ServerError { text: text@ }),
{
    ServerMessage { kind: Some(server_message::Kind::ServerError(text)) }
}

impl WsClientSession {
    /// The session of a connection that opened at time `now`.
    pub fn new(now: u64) -> (res: WsClientSession)
        ensures
            res@ == (SessionView { id: None, room_id: None, hb: now, closed: false }),
    {
        WsClientSession { id: None, room_id: None, hb: now, closed: false }
    }

    /// The connection opened: returns the request to register the
    /// session, with `addr` as the handle by which messages reach it.
    pub fn started(&mut self, addr: u64) -> (res: Vec<Action>)
        ensures
            final(self)@ == old(self)@.started(addr).state,
            actions_view(res@) == old(self)@.started(addr).actions,
    {
        if self.closed {
            return Vec::new();
        }
        vec![Action::Connect(Connect { id: clone_text(&self.id), addr })]
    }

    /// The coordinator answered the request to register. With an id, the
    /// session takes it and tells the client; without an answer, the
    /// session ends.
    pub fn registered(&mut self, answer: Result<Uid, MailboxError>) -> (res: Vec<Action>)
        ensures
            final(self)@ == old(self)@.registered(
                match answer {
                    Ok(id) => Some(id@),
                    Err(_) => None,
                },
            ).state,
            actions_view(res@) == old(self)@.registered(
                match answer {
                    Ok(id) => Some(id@),
                    Err(_) => None,
                },
            ).actions,
    {
        if self.closed {
            return Vec::new();
        }
        match answer {
            Ok(id) => {
                let msg = ServerMessage {
                    kind: Some(server_message::Kind::SetId(SetId { id: id.clone() })),
                };
                self.id = Some(id);
                vec![Action::Send(msg)]
            },
            Err(_) => self.close(),
        }
    }

    /// The coordinator answered the request to enter a room. With the
    /// room's state, the session is in that room and passes the state on
    /// to the client; without an answer, the session ends.
    pub fn joined(&mut self, answer: Result<RoomInit, MailboxError>) -> (res: Vec<Action>)
        ensures
            final(self)@ == old(self)@.joined(
                match answer {
                    Ok(init) => Some(init@),
                    Err(_) => None,
                },
            ).state,
            actions_view(res@) == old(self)@.joined(
                match answer {
                    Ok(init) => Some(init@),
                    Err(_) => None,
                },
            ).actions,
    {
        if self.closed {
            return Vec::new();
        }
        match answer {
            Ok(init) => {
                self.room_id = Some(init.room_id.clone());
                vec![
                    Action::Send(
                        ServerMessage { kind: Some(server_message::Kind::RoomInit(init)) },
                    ),
                ]
            },
            Err(_) => self.close(),
        }
    }

    /// A frame arrived at time `now`, or the transport failed. A probe or
    /// its answer shows that the peer is alive; a client message is passed
    /// on or refused; a close frame or a failure of the transport ends
    /// the session; what cannot be decoded, and frames of other kinds, are
    /// dropped.
    pub fn handle(&mut self, msg: Result<Frame, ProtocolError>, now: u64) -> (res: Vec<Action>)
        ensures
            final(self)@ == old(self)@.on_frame(
                match msg {
                    Ok(frame) => Some(frame@),
                    Err(_) => None,
                },
                now,
            ).state,
            actions_view(res@) == old(self)@.on_frame(
                match msg {
                    Ok(frame) => Some(frame@),
                    Err(_) => None,
                },
                now,
            ).actions,
    {
        if self.closed {
            return Vec::new();
        }
        match msg {
            Err(_) => self.close(),
            Ok(Frame::Ping(payload)) => {
                self.hb = now;
                vec![Action::Pong(payload)]
            },
            Ok(Frame::Pong(_)) => {
                self.hb = now;
                Vec::new()
            },
            Ok(Frame::Binary(Ok(client_message))) => self.on_message(client_message),
            Ok(Frame::Close(reason)) => {
                let mut res = vec![Action::Close(reason)];
                let mut rest = self.close();
                res.append(&mut rest);
                res
            },
            Ok(_) => Vec::new(),
        }
    }

    /// The heartbeat timer fired at time `now`: a peer that has been
    /// silent for longer than [`CLIENT_TIMEOUT`] is given up and the
    /// session ends; any other peer is probed.
    pub fn hb(&mut self, now: u64) -> (res: Vec<Action>)
        ensures
            final(self)@ == old(self)@.heartbeat(now).state,
            actions_view(res@) == old(self)@.heartbeat(now).actions,
    {
        if self.closed {
            return Vec::new();
        }
        if now > self.hb && now - self.hb > CLIENT_TIMEOUT {
            return self.close();
        }
        vec![Action::Ping]
    }

    /// The connection is being torn down: unless the session has ended
    /// already, it ends now and the coordinator is told.
    pub fn stopping(&mut self) -> (res: Vec<Action>)
        ensures
            final(self)@ == old(self)@.stopping().state,
            actions_view(res@) == old(self)@.stopping().actions,
    {
        if self.closed {
            return Vec::new();
        }
        self.closed = true;
        self.farewell()
    }

    /// A message that the coordinator pushed is written to the client,
    /// unless the session has ended.
    pub fn deliver(&self, msg: ServerMessage) -> (res: Vec<Action>)
        ensures
            actions_view(res@) == self@.outbound(msg@).actions,
    {
        if self.closed {
            return Vec::new();
        }
        vec![Action::Send(msg)]
    }

    /// A request could not be handed to the coordinator: the client is
    /// told why, unless the session has ended.
    pub fn undelivered(&self, reason: String) -> (res: Vec<Action>)
        ensures
            actions_view(res@) == self@.outbound(
                ServerMessageView::ServerError { text: reason@ },
            ).actions,
    {
        self.deliver(error_message(reason))
    }

    /// Decides what becomes of a client's message: passed on to the
    /// coordinator with the session's id and room, or answered with an
    /// error if the session has no identity or, for a room operation, no
    /// room.
    fn on_message(&self, msg: ClientMessage) -> (res: Vec<Action>)
        ensures
            actions_view(res@) == self@.on_message(msg@).actions,
    {
        let kind = match msg.kind {
            None => {
                return Vec::new();
            },
            Some(kind) => kind,
        };
        let id = match &self.id {
            None => {
                return vec![Action::Send(error_message(NOT_IDENTIFIED.to_owned()))];
            },
            Some(id) => id.clone(),
        };
        let action = match (kind, clone_text(&self.room_id)) {
            (Kind::JoinRoom(join_room), room_id) => Action::JoinRoom(
                JoinRoom { id, room_id, join_room },
            ),
            (_, None) => Action::Send(error_message(NOT_IN_ROOM.to_owned())),
            (Kind::SetBrush(set_brush), Some(room_id)) => Action::SetBrush(
                SetBrush { id, room_id, set_brush },
            ),
            (Kind::Movement(movement), Some(room_id)) => Action::Movement(
                Movement { id, room_id, movement },
            ),
            (Kind::Snapshot(snapshot), Some(room_id)) => Action::Snapshot(
                Snapshot { id, room_id, snapshot },
            ),
            (Kind::SnapperRequest(snapper_request), Some(room_id)) => Action::SnapperRequest(
                SnapperRequest { id, room_id, snapper_request },
            ),
        };
        vec![action]
    }

    /// What the coordinator is told when the session goes.
    fn farewell(&self) -> (res: Vec<Action>)
        ensures
            actions_view(res@) == self@.farewell(),
    {
        match &self.id {
            Some(id) => vec![
                Action::Disconnect(
                    Disconnect { id: id.clone(), room_id: clone_text(&self.room_id) },
                ),
            ],
            None => Vec::new(),
        }
    }

    /// Ends the session.
    fn close(&mut self) -> (res: Vec<Action>)
        ensures
            final(self)@ == old(self)@.close().state,
            actions_view(res@) == old(self)@.close().actions,
    {
        let mut res = self.farewell();
        res.push(Action::Stop);
        self.closed = true;
        res
    }
}

} // verus!
