//! What holds of every run of the coordinator.

use crate::invariants::{lemma_compact_wf, lemma_depart_wf, lemma_enter_wf, lemma_join_wf};
use crate::model::{DeliveryView, Effect, ServerModel};
use crate::session::{ActionView, FrameView, SessionView};
use crate::trace::{lemma_run_wf, outbox, run, step, Request};
use crate::wsmsg::{BroadcastView, RoomInitView, ServerMessageView, SnapshotView};
use vstd::prelude::*;

verus! {

/// What a request does to the membership of `id` in `room`, if it touches
/// it at all: `Some(true)` if `id` enters `room`, `Some(false)` if `id`
/// leaves it, by entering another room or by disconnecting.
pub open spec fn membership_event(
    s: ServerModel,
    request: Request,
    room: Seq<char>,
    id: Seq<char>,
) -> Option<bool> {
    match request {
        Request::Join { id: who, requested, pick } => if who == id && s.sessions.contains_key(id) {
            Some(s.target(requested, pick) == room)
        } else {
            None
        },
        Request::Deregister { id: who } => if who == id {
            Some(false)
        } else {
            None
        },
        _ => None,
    }
}

/// The most recent membership event of `id` in `room` during a run.
pub open spec fn last_membership_event(
    s: ServerModel,
    requests: Seq<Request>,
    room: Seq<char>,
    id: Seq<char>,
) -> Option<bool>
    decreases requests.len(),
{
    if requests.len() == 0 {
        None
    } else {
        match membership_event(run(s, requests.drop_last()), requests.last(), room, id) {
            Some(entered) => Some(entered),
            None => last_membership_event(s, requests.drop_last(), room, id),
        }
    }
}

/// After one request, `id` is a member of `room` if the request made it
/// enter, is none if the request made it leave, and is what it was if the
/// request did neither.
pub proof fn law_membership_step(s: ServerModel, request: Request, room: Seq<char>, id: Seq<char>)
    requires
        s.wf(),
    ensures
        step(s, request).state.is_member(room, id) <==> match membership_event(
            s,
            request,
            room,
            id,
        ) {
            Some(entered) => entered,
            None => s.is_member(room, id),
        },
{
    // Whoever is a member of `room` is recorded there.
    assert(s.is_member(room, id) ==> s.sessions[id].room == Some(room));
    match request {
        Request::Deregister { id: who } => {
            if s.sessions.contains_key(who) {
                if let Some(old_room) = s.sessions[who].room {
                    lemma_depart_wf(s.rooms[old_room], who);
                }
            }
        },
        Request::Join { id: who, requested, pick } => {
            if s.sessions.contains_key(who) {
                let left = match s.sessions[who].room {
                    Some(old_room) => s.leave(old_room, who),
                    None => Effect { state: s, deliveries: Seq::empty() },
                };
                if let Some(old_room) = s.sessions[who].room {
                    lemma_depart_wf(s.rooms[old_room], who);
                }
                let before = left.state.room_or_empty(s.target(requested, pick));
                assert(before.log =~= before.history.skip(before.base() as int));
                lemma_enter_wf(before, who);
            }
        },
        _ => {},
    }
}

/// After any run, the members of a room are exactly the ids whose most
/// recent membership event there is an entering, with no leaving and no
/// disconnecting after it; an id without any event is a member if it was
/// one at the start.
pub proof fn law_membership(s: ServerModel, requests: Seq<Request>, room: Seq<char>, id: Seq<char>)
    requires
        s.wf(),
    ensures
        run(s, requests).is_member(room, id) <==> match last_membership_event(
            s,
            requests,
            room,
            id,
        ) {
            Some(entered) => entered,
            None => s.is_member(room, id),
        },
    decreases requests.len(),
{
    if requests.len() > 0 {
        law_membership(s, requests.drop_last(), room, id);
        lemma_run_wf(s, requests.drop_last());
        law_membership_step(run(s, requests.drop_last()), requests.last(), room, id);
    }
}

/// A session is a member of at most one room.
pub proof fn law_one_room(s: ServerModel, id: Seq<char>, room1: Seq<char>, room2: Seq<char>)
    requires
        s.wf(),
        s.is_member(room1, id),
        s.is_member(room2, id),
    ensures
        room1 == room2,
{
}

/// An accepted snapshot with index `k` leaves of the log what stood behind
/// the entries it covers, which is the room's history from `k` on. Whoever
/// enters the room afterwards is handed that snapshot and that log.
pub proof fn law_snapshot_compacts(
    s: ServerModel,
    room: Seq<char>,
    id: Seq<char>,
    snapshot: SnapshotView,
    joiner: Seq<char>,
    pick: u8,
)
    requires
        s.wf(),
        s.is_member(room, id),
        s.rooms[room].base() <= snapshot.next_log_index <= s.rooms[room].history.len(),
        s.sessions.contains_key(joiner),
    ensures
        s.submit_snapshot(room, id, snapshot) matches Ok(t) && {
            let log = s.rooms[room].log;
            let covered = snapshot.next_log_index - s.rooms[room].base();
            &&& t.rooms[room].log == log.subrange(covered, log.len() as int)
            &&& t.rooms[room].log == s.rooms[room].history.skip(snapshot.next_log_index as int)
            &&& t.rooms[room].history == s.rooms[room].history
            &&& t.join(joiner, Some(room), pick) matches Ok(entry) && entry.init == (RoomInitView {
                room_id: room,
                snapshot: Some(snapshot),
                log: s.rooms[room].history.skip(snapshot.next_log_index as int),
            })
        },
{
    lemma_compact_wf(s.rooms[room], snapshot);
}

/// Without a stored snapshot, a snapshot with index `k` leaves the last
/// `len - k` entries of a log of length `len`.
pub proof fn law_first_snapshot(
    s: ServerModel,
    room: Seq<char>,
    id: Seq<char>,
    snapshot: SnapshotView,
)
    requires
        s.wf(),
        s.is_member(room, id),
        s.rooms[room].snapshot is None,
        snapshot.next_log_index <= s.rooms[room].log.len(),
    ensures
        s.submit_snapshot(room, id, snapshot) matches Ok(t) && {
            let log = s.rooms[room].log;
            &&& t.rooms[room].log == log.subrange(snapshot.next_log_index as int, log.len() as int)
            &&& t.rooms[room].log.len() == log.len() - snapshot.next_log_index
        },
{
}

/// A room's history grows by an accepted broadcast in that room and by
/// nothing else, and no request takes anything from it. The room's log is
/// at all times the history from the stored snapshot's index on.
pub proof fn law_history_step(s: ServerModel, request: Request, room: Seq<char>)
    requires
        s.wf(),
        s.rooms.contains_key(room),
    ensures
        step(s, request).state.rooms.contains_key(room),
        step(s, request).state.rooms[room].history == match request {
            Request::Broadcast { room: target, op } => if target == room && s.broadcast(room, op)
                is Ok {
                s.rooms[room].history.push(op)
            } else {
                s.rooms[room].history
            },
            _ => s.rooms[room].history,
        },
        step(s, request).state.rooms[room].log == step(s, request).state.rooms[room].history.skip(
            step(s, request).state.rooms[room].base() as int,
        ),
{
}

/// A request for the producer's role in a room that has a producer leaves
/// the producer in place, and the members are told who it is.
pub proof fn law_producer_stays(s: ServerModel, room: Seq<char>, id: Seq<char>, producer: Seq<char>)
    requires
        s.wf(),
        s.is_member(room, id),
        s.rooms[room].snapper == Some(producer),
    ensures
        s.request_producer(room, id) matches Ok(effect) && {
            &&& effect.state.rooms[room].snapper == Some(producer)
            &&& effect.deliveries == effect.state.fan_out(
                room,
                ServerMessageView::SetSnapper { id: producer },
            )
        },
{
}

/// A request for the producer's role in a room without a producer makes
/// the requesting member the producer.
pub proof fn law_producer_elected(s: ServerModel, room: Seq<char>, id: Seq<char>)
    requires
        s.wf(),
        s.is_member(room, id),
        s.rooms[room].snapper is None,
    ensures
        s.request_producer(room, id) matches Ok(effect) && effect.state.rooms[room].snapper
            == Some(id),
{
}

/// Whether a request takes the session `id` out of the room it is in.
pub open spec fn departs(s: ServerModel, request: Request, id: Seq<char>) -> bool {
    match request {
        Request::Deregister { id: who } => who == id,
        Request::Join { id: who, .. } => who == id,
        _ => false,
    }
}

/// A room's producer stays the producer through every request but one by
/// which the producer leaves the room or disconnects; that one empties
/// the slot.
pub proof fn law_producer_slot(
    s: ServerModel,
    request: Request,
    room: Seq<char>,
    producer: Seq<char>,
)
    requires
        s.wf(),
        s.rooms.contains_key(room),
        s.rooms[room].snapper == Some(producer),
    ensures
        step(s, request).state.rooms.contains_key(room),
        if departs(s, request, producer) {
            step(s, request).state.rooms[room].snapper is None
        } else {
            step(s, request).state.rooms[room].snapper == Some(producer)
        },
{
    assert(s.is_member(room, producer));
}

/// Once the producer has disconnected, the slot is empty, and the next
/// member to ask becomes the producer.
pub proof fn law_producer_succession(
    s: ServerModel,
    room: Seq<char>,
    producer: Seq<char>,
    next: Seq<char>,
)
    requires
        s.wf(),
        s.rooms.contains_key(room),
        s.rooms[room].snapper == Some(producer),
        s.is_member(room, next),
        next != producer,
    ensures
        ({
            let t = s.deregister(producer).state;
            &&& t.rooms[room].snapper is None
            &&& t.request_producer(room, next) matches Ok(effect)
                && effect.state.rooms[room].snapper == Some(next)
        }),
{
    assert(s.is_member(room, producer));
    lemma_depart_wf(s.rooms[room], producer);
}

/// The messages of the first `n` requests of a run stand at the head of
/// the run's messages.
pub proof fn lemma_outbox_prefix(s: ServerModel, requests: Seq<Request>, n: int)
    requires
        0 <= n <= requests.len(),
    ensures
        outbox(s, requests.take(n)).len() <= outbox(s, requests).len(),
        forall|k: int|
            0 <= k < outbox(s, requests.take(n)).len() ==> outbox(s, requests)[k] == outbox(
                s,
                requests.take(n),
            )[k],
    decreases requests.len(),
{
    if n == requests.len() {
        assert(requests.take(n) =~= requests);
    } else {
        lemma_outbox_prefix(s, requests.drop_last(), n);
        assert(requests.drop_last().take(n) =~= requests.take(n));
    }
}

/// The messages of request number `n` of a run stand in the run's
/// messages behind those of the requests before it.
pub proof fn lemma_outbox_segment(s: ServerModel, requests: Seq<Request>, n: int, k: int)
    requires
        0 <= n < requests.len(),
        0 <= k < step(run(s, requests.take(n)), requests[n]).deliveries.len(),
    ensures
        outbox(s, requests.take(n + 1)).len() == outbox(s, requests.take(n)).len() + step(
            run(s, requests.take(n)),
            requests[n],
        ).deliveries.len(),
        outbox(s, requests.take(n + 1)).len() <= outbox(s, requests).len(),
        outbox(s, requests)[outbox(s, requests.take(n)).len() + k] == step(
            run(s, requests.take(n)),
            requests[n],
        ).deliveries[k],
{
    let head = requests.take(n + 1);
    assert(head.drop_last() =~= requests.take(n));
    lemma_outbox_prefix(s, requests, n + 1);
}

/// Of two broadcasts in one room, every member present for both is sent
/// the first before the second.
pub proof fn law_broadcast_order(
    s: ServerModel,
    requests: Seq<Request>,
    i: int,
    j: int,
    room: Seq<char>,
    first: BroadcastView,
    second: BroadcastView,
    member: Seq<char>,
)
    requires
        s.wf(),
        0 <= i < j < requests.len(),
        requests[i] == (Request::Broadcast { room, op: first }),
        requests[j] == (Request::Broadcast { room, op: second }),
        run(s, requests.take(i)).broadcast(room, first) is Ok,
        run(s, requests.take(j)).broadcast(room, second) is Ok,
        run(s, requests.take(i)).is_member(room, member),
        run(s, requests.take(j)).is_member(room, member),
    ensures
        exists|p: int, q: int|
            0 <= p < q < outbox(s, requests).len() && #[trigger] outbox(s, requests)[p] == (
            DeliveryView {
                addr: run(s, requests.take(i)).sessions[member].addr,
                msg: ServerMessageView::Broadcast(first),
            }) && #[trigger] outbox(s, requests)[q] == (DeliveryView {
                addr: run(s, requests.take(j)).sessions[member].addr,
                msg: ServerMessageView::Broadcast(second),
            }),
{
    // The member's place in the room at either time is the place of its
    // message among those of the broadcast.
    let ki = run(s, requests.take(i)).rooms[room].users.index_of(member);
    let kj = run(s, requests.take(j)).rooms[room].users.index_of(member);
    lemma_outbox_segment(s, requests, i, ki);
    lemma_outbox_segment(s, requests, j, kj);
    // Whatever the first broadcast sent stands before what the second sent.
    lemma_outbox_prefix(s, requests.take(j), i + 1);
    assert(requests.take(j).take(i + 1) =~= requests.take(i + 1));
    let p = outbox(s, requests.take(i)).len() + ki;
    let q = outbox(s, requests.take(j)).len() + kj;
    assert(p < q);
}

/// A session that has ended stays as it is and does nothing, whatever
/// happens to it.
pub proof fn law_closed_session(
    s: SessionView,
    frame: Option<FrameView>,
    now: u64,
    addr: u64,
    id: Option<Seq<char>>,
    init: Option<RoomInitView>,
    msg: ServerMessageView,
)
    requires
        s.closed,
    ensures
        s.started(addr) == s.idle(),
        s.registered(id) == s.idle(),
        s.joined(init) == s.idle(),
        s.on_frame(frame, now) == s.idle(),
        s.heartbeat(now) == s.idle(),
        s.stopping() == s.idle(),
        s.outbound(msg) == s.idle(),
{
}

/// A session passes a room operation on only while it is in a room, and
/// then under its own id and for its own room.
pub proof fn law_guard(s: SessionView, frame: Option<FrameView>, now: u64, k: int)
    requires
        0 <= k < s.on_frame(frame, now).actions.len(),
        s.on_frame(frame, now).actions[k] is Forward,
    ensures
        s.phase() is InRoom,
        s.on_frame(frame, now).actions[k]->Forward_id == s.id->0,
        s.on_frame(frame, now).actions[k]->room_id == s.room_id->0,
{
}

/// A session asks to enter a room only once it has an identity, and then
/// under its own id.
pub proof fn law_join_needs_identity(s: SessionView, frame: Option<FrameView>, now: u64, k: int)
    requires
        0 <= k < s.on_frame(frame, now).actions.len(),
        s.on_frame(frame, now).actions[k] is JoinRoom,
    ensures
        !(s.phase() is Unidentified),
        !(s.phase() is Closed),
        s.on_frame(frame, now).actions[k]->JoinRoom_id == s.id->0,
        s.on_frame(frame, now).actions[k]->JoinRoom_old_room == s.room_id,
{
}

/// Whatever ends a session tells the coordinator of its going, with its
/// id and its room, if it has an identity.
pub proof fn law_farewell(s: SessionView, frame: Option<FrameView>, now: u64)
    requires
        !s.closed,
        s.id is Some,
    ensures
        s.on_frame(frame, now).state.closed ==> s.on_frame(frame, now).actions.contains(
            ActionView::Disconnect { id: s.id->0, old_room: s.room_id },
        ),
        s.heartbeat(now).state.closed ==> s.heartbeat(now).actions.contains(
            ActionView::Disconnect { id: s.id->0, old_room: s.room_id },
        ),
        s.stopping().actions == seq![ActionView::Disconnect { id: s.id->0, old_room: s.room_id }],
{
    let bye = ActionView::Disconnect { id: s.id->0, old_room: s.room_id };
    assert(s.close().actions[0] == bye);
    if frame matches Some(FrameView::Close(_)) {
        assert(s.on_frame(frame, now).actions[1] == bye);
    }
}

/// Once the coordinator has registered a session and the session has
/// taken the answer, the session goes by the id under which it is
/// registered.
pub proof fn law_registration_agrees(
    s: ServerModel,
    v: SessionView,
    addr: u64,
    minted: Seq<char>,
)
    requires
        !v.closed,
    ensures
        ({
            let (t, id) = s.register(v.id, addr, minted);
            t.sessions.contains_key(id) && t.sessions[id].addr == addr && v.registered(
                Some(id),
            ).state.id == Some(id)
        }),
{
}

/// Once the coordinator has moved a session into a room and the session
/// has taken the answer, both hold the same room for the session.
pub proof fn law_join_agrees(
    s: ServerModel,
    v: SessionView,
    requested: Option<Seq<char>>,
    pick: u8,
)
    requires
        s.wf(),
        !v.closed,
        v.id matches Some(id) && s.sessions.contains_key(id),
    ensures
        s.join(v.id->0, requested, pick) matches Ok(entry) && {
            &&& entry.state.sessions[v.id->0].room == v.joined(Some(entry.init)).state.room_id
            &&& entry.state.is_member(entry.init.room_id, v.id->0)
        },
{
    let id = v.id->0;
    lemma_join_wf(s, id, requested, pick);
    let entry = s.join(id, requested, pick)->Ok_0;
    assert(entry.state.sessions.contains_key(id));
}

/// The coordinator refuses no room operation that a session passes on,
/// as long as the session holds the room that the coordinator records
/// for it.
pub proof fn law_forward_accepted(
    s: ServerModel,
    v: SessionView,
    frame: Option<FrameView>,
    now: u64,
    k: int,
)
    requires
        s.wf(),
        v.id matches Some(id) && s.sessions.contains_key(id) && s.sessions[id].room == v.room_id,
        0 <= k < v.on_frame(frame, now).actions.len(),
        v.on_frame(frame, now).actions[k] is Forward,
    ensures
        s.refusal(
            v.on_frame(frame, now).actions[k]->room_id,
            v.on_frame(frame, now).actions[k]->Forward_id,
        ) is None,
{
}

} // verus!
