//! Every operation of the coordinator keeps its state well formed.

use crate::model::{without, Effect, RoomModel, ServerModel};
use crate::wsmsg::{BroadcastView, SnapshotView};
use vstd::prelude::*;

verus! {

/// Taking `id` out of a list without repetitions leaves exactly the others,
/// still without repetitions.
pub proof fn lemma_without(users: Seq<Seq<char>>, id: Seq<char>)
    requires
        users.no_duplicates(),
    ensures
        without(users, id).no_duplicates(),
        !without(users, id).contains(id),
        forall|x: Seq<char>| #[trigger]
            without(users, id).contains(x) <==> users.contains(x) && x != id,
{
    if users.contains(id) {
        let k = users.index_of(id);
        let rest = users.remove(k);
        assert forall|x: Seq<char>| #[trigger] rest.contains(x) <==> users.contains(x) && x
            != id by {
            if users.contains(x) && x != id {
                let j = users.index_of(x);
                assert(rest[if j < k { j } else { j - 1 }] == x);
            }
        }
    }
}

/// A room stays well formed when someone enters.
pub proof fn lemma_enter_wf(room: RoomModel, id: Seq<char>)
    requires
        room.wf(),
    ensures
        room.enter(id).wf(),
        room.enter(id).users.contains(id),
        forall|x: Seq<char>| #[trigger]
            room.enter(id).users.contains(x) <==> room.users.contains(x) || x == id,
{
    if !room.users.contains(id) {
        let users = room.users.push(id);
        assert(users[users.len() - 1] == id);
        assert forall|x: Seq<char>| #[trigger] users.contains(x) <==> room.users.contains(x) || x
            == id by {
            if room.users.contains(x) {
                assert(users[room.users.index_of(x)] == x);
            }
        }
    }
}

/// A room stays well formed when someone leaves.
pub proof fn lemma_depart_wf(room: RoomModel, id: Seq<char>)
    requires
        room.wf(),
    ensures
        room.depart(id).wf(),
        forall|x: Seq<char>| #[trigger]
            room.depart(id).users.contains(x) <==> room.users.contains(x) && x != id,
{
    lemma_without(room.users, id);
}

/// A room stays well formed when a broadcast is appended.
pub proof fn lemma_append_wf(room: RoomModel, op: BroadcastView)
    requires
        room.wf(),
    ensures
        room.append(op).wf(),
{
    assert(room.append(op).log =~= room.append(op).history.skip(room.base() as int));
}

/// A room stays well formed when an accepted snapshot is stored, and its
/// log is then the history from the snapshot's index on.
pub proof fn lemma_compact_wf(room: RoomModel, snapshot: SnapshotView)
    requires
        room.wf(),
        room.accepts(snapshot),
    ensures
        room.compact(snapshot).wf(),
        room.compact(snapshot).log == room.history.skip(snapshot.next_log_index as int),
{
}

/// Registration keeps the coordinator well formed.
pub proof fn lemma_register_wf(
    s: ServerModel,
    proposed: Option<Seq<char>>,
    addr: u64,
    minted: Seq<char>,
)
    requires
        s.wf(),
    ensures
        s.register(proposed, addr, minted).0.wf(),
{
    let t = s.register(proposed, addr, minted).0;
    assert forall|room: Seq<char>, id: Seq<char>| #[trigger] t.is_member(room, id) implies {
        t.sessions.contains_key(id) && t.sessions[id].room == Some(room)
    } by {
        assert(s.is_member(room, id));
    }
}

/// Removing a session keeps the coordinator well formed.
pub proof fn lemma_deregister_wf(s: ServerModel, id: Seq<char>)
    requires
        s.wf(),
    ensures
        s.deregister(id).state.wf(),
{
    let t = s.deregister(id).state;
    if s.sessions.contains_key(id) {
        if let Some(room) = s.sessions[id].room {
            lemma_depart_wf(s.rooms[room], id);
        }
        assert forall|room: Seq<char>, x: Seq<char>| #[trigger] t.is_member(room, x) implies {
            t.sessions.contains_key(x) && t.sessions[x].room == Some(room)
        } by {
            assert(s.is_member(room, x));
        }
    }
}

/// Entering a room keeps the coordinator well formed.
pub proof fn lemma_join_wf(s: ServerModel, id: Seq<char>, requested: Option<Seq<char>>, pick: u8)
    requires
        s.wf(),
        s.sessions.contains_key(id),
    ensures
        s.join(id, requested, pick) is Ok,
        s.join(id, requested, pick)->Ok_0.state.wf(),
{
    let t = s.join(id, requested, pick)->Ok_0.state;
    let left = match s.sessions[id].room {
        Some(old_room) => s.leave(old_room, id),
        None => Effect { state: s, deliveries: Seq::empty() },
    };
    let target = s.target(requested, pick);
    let before = left.state.room_or_empty(target);
    // After leaving, `id` is in no room and the rooms are still well formed.
    assert forall|room: Seq<char>| #[trigger] left.state.rooms.contains_key(room) implies {
        &&& left.state.rooms[room].wf()
        &&& !left.state.rooms[room].users.contains(id)
        &&& s.rooms.contains_key(room)
        &&& forall|x: Seq<char>|
            x != id ==> (left.state.rooms[room].users.contains(x) <==> s.rooms[room].users.contains(
                x,
            ))
    } by {
        lemma_depart_wf(s.rooms[room], id);
        if s.rooms[room].users.contains(id) {
            assert(s.is_member(room, id));
        }
    }
    if !left.state.rooms.contains_key(target) {
        assert(RoomModel::empty().log =~= RoomModel::empty().history.skip(0));
    }
    lemma_enter_wf(before, id);
    assert forall|room: Seq<char>, x: Seq<char>| #[trigger] t.is_member(room, x) implies {
        t.sessions.contains_key(x) && t.sessions[x].room == Some(room)
    } by {
        if x != id || room != target {
            assert(s.is_member(room, x));
        }
    }
}

/// A broadcast keeps the coordinator well formed.
pub proof fn lemma_broadcast_wf(s: ServerModel, room: Seq<char>, op: BroadcastView)
    requires
        s.wf(),
    ensures
        s.broadcast(room, op) matches Ok(e) ==> e.state.wf(),
{
    if s.broadcast(room, op) is Ok {
        let t = s.broadcast(room, op)->Ok_0.state;
        lemma_append_wf(s.rooms[room], op);
        lemma_same_members_wf(s, t, room);
    }
}

/// A request for the producer's role keeps the coordinator well formed.
pub proof fn lemma_request_producer_wf(s: ServerModel, room: Seq<char>, id: Seq<char>)
    requires
        s.wf(),
    ensures
        s.request_producer(room, id) matches Ok(e) ==> e.state.wf(),
{
    if s.request_producer(room, id) is Ok {
        let t = s.request_producer(room, id)->Ok_0.state;
        lemma_same_members_wf(s, t, room);
    }
}

/// A snapshot keeps the coordinator well formed.
pub proof fn lemma_submit_snapshot_wf(
    s: ServerModel,
    room: Seq<char>,
    id: Seq<char>,
    snapshot: SnapshotView,
)
    requires
        s.wf(),
    ensures
        s.submit_snapshot(room, id, snapshot) matches Ok(t) ==> t.wf(),
{
    if s.submit_snapshot(room, id, snapshot) is Ok {
        let t = s.submit_snapshot(room, id, snapshot)->Ok_0;
        lemma_compact_wf(s.rooms[room], snapshot);
        lemma_same_members_wf(s, t, room);
    }
}

/// Replacing one room by a well-formed room with the same members keeps
/// the coordinator well formed.
proof fn lemma_same_members_wf(s: ServerModel, t: ServerModel, room: Seq<char>)
    requires
        s.wf(),
        s.rooms.contains_key(room),
        t.sessions == s.sessions,
        t.pool == s.pool,
        t.rooms.dom() =~= s.rooms.dom(),
        forall|r: Seq<char>| r != room && s.rooms.contains_key(r) ==> t.rooms[r] == s.rooms[r],
        t.rooms[room].wf(),
        t.rooms[room].users == s.rooms[room].users,
    ensures
        t.wf(),
{
    assert forall|r: Seq<char>, x: Seq<char>| #[trigger] t.is_member(r, x) implies {
        t.sessions.contains_key(x) && t.sessions[x].room == Some(r)
    } by {
        assert(s.is_member(r, x));
    }
}

} // verus!
