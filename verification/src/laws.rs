//! What holds of the hub and of a session over their whole life.

use crate::delivery::{
    cast_count, delivers, is_cast, lemma_cast_len, lemma_cast_serves_each_once,
    lemma_delivers_len, lemma_delivers_only_targets, times_served, Cast, Delivery,
};
use crate::envelope::user_offline_frame;
use crate::events::Disconnect;
use crate::socket_session::{FrameView, ReactionView, SocketSession};
use crate::ws_server::{lemma_probes_fit, probe, HubState};
use vstd::prelude::*;

verus! {

/// One request to the hub that changes it.
pub enum HubEvent {
    /// A connection opens; the number is the candidate that was drawn for
    /// its identifier.
    Connect(usize),
    /// A session presents a token that named this user, or nobody.
    Authenticate(Option<u128>, usize),
    /// A session ends.
    Disconnect(usize),
}

/// The hub before any request.
pub open spec fn empty_hub() -> HubState {
    HubState { sessions: Map::empty(), visitors: 0 }
}

/// The state after one request.
pub open spec fn hub_step(hub: HubState, event: HubEvent) -> HubState {
    match event {
        HubEvent::Connect(candidate) => hub.connected(hub.first_free(candidate)),
        HubEvent::Authenticate(verified, id) => hub.authenticated(verified, id),
        HubEvent::Disconnect(id) => if hub.sessions.contains_key(id) {
            hub.disconnected(id)
        } else {
            hub
        },
    }
}

/// The state after a history of requests, from the empty hub.
pub open spec fn hub_after(history: Seq<HubEvent>) -> HubState
    decreases history.len(),
{
    if history.len() == 0 {
        empty_hub()
    } else {
        hub_step(hub_after(history.drop_last()), history.last())
    }
}

/// The number of connections that a history opened.
pub open spec fn opened(history: Seq<HubEvent>) -> nat
    decreases history.len(),
{
    if history.len() == 0 {
        0
    } else {
        opened(history.drop_last()) + if history.last() is Connect {
            1nat
        } else {
            0nat
        }
    }
}

/// The number of connections that a history closed: the disconnect notices
/// that found their session open.
pub open spec fn closed(history: Seq<HubEvent>) -> nat
    decreases history.len(),
{
    if history.len() == 0 {
        0
    } else {
        closed(history.drop_last()) + match history.last() {
            HubEvent::Disconnect(id) => if hub_after(history.drop_last()).sessions.contains_key(
                id,
            ) {
                1nat
            } else {
                0nat
            },
            _ => 0nat,
        }
    }
}

/// Whether an identifier is free after a history that never filled the
/// whole range of identifiers.
pub open spec fn has_room(hub: HubState) -> bool {
    hub.sessions.dom().finite() && hub.sessions.dom().len() <= usize::MAX
}

/// The first free identifier above a candidate is free.
pub proof fn lemma_first_free_is_free(hub: HubState, candidate: usize)
    requires
        has_room(hub),
    ensures
        !hub.sessions.contains_key(hub.first_free(candidate)),
{
    lemma_free_offset_exists(hub, candidate, 0);
}

/// From any number of taken steps on, a free identifier comes.
proof fn lemma_free_offset_exists(hub: HubState, candidate: usize, k: nat)
    requires
        has_room(hub),
        k <= usize::MAX,
        forall|j: nat|
            j < k ==> hub.sessions.contains_key(#[trigger] probe(candidate, j)),
    ensures
        exists|n: nat| hub.is_free_offset(candidate, n),
    decreases usize::MAX - k,
{
    if !hub.sessions.contains_key(probe(candidate, k)) {
        assert(hub.is_free_offset(candidate, k));
    } else {
        assert forall|j: nat| j < k + 1 implies hub.sessions.contains_key(
            #[trigger] probe(candidate, j),
        ) by {}
        lemma_probes_fit(hub.sessions.dom(), candidate, k + 1);
        lemma_free_offset_exists(hub, candidate, k + 1);
    }
}

/// The directory always holds as many sessions as connections were opened
/// and not yet closed.
pub proof fn lemma_directory_counts_open_connections(history: Seq<HubEvent>)
    requires
        history.len() <= usize::MAX,
    ensures
        hub_after(history).sessions.dom().finite(),
        hub_after(history).sessions.dom().len() == opened(history) - closed(history),
        hub_after(history).sessions.dom().len() <= history.len(),
    decreases history.len(),
{
    if history.len() > 0 {
        let before = hub_after(history.drop_last());
        lemma_directory_counts_open_connections(history.drop_last());
        match history.last() {
            HubEvent::Connect(candidate) => {
                lemma_first_free_is_free(before, candidate);
            },
            HubEvent::Authenticate(verified, id) => {
                assert(before.authenticated(verified, id).sessions.dom() =~= before.sessions.dom());
            },
            HubEvent::Disconnect(id) => {},
        }
    }
}

/// When the last session of a user ends, the sessions that are left get the
/// notice that the user went offline, once, and the user is online no more.
/// A second notice for the same session changes nothing and sends nothing.
pub proof fn lemma_last_disconnect_sends_offline_once(hub: HubState, id: usize, user: u128)
    requires
        hub.sessions.contains_key(id),
        hub.sessions[id] == Some(user),
        forall|s: usize| hub.presence(user).contains(s) ==> s == id,
    ensures
        hub.orphaned(id) == Some(user),
        hub.disconnect_casts(id) == seq![
            Cast { targets: hub.sessions.dom().remove(id), frame: user_offline_frame(user) },
        ],
        !hub.disconnected(id).is_online(user),
        hub.disconnected(id).presence(user) == Set::<usize>::empty(),
        hub_step(hub.disconnected(id), HubEvent::Disconnect(id)) == hub.disconnected(id),
        hub.disconnected(id).disconnect_casts(id) == Seq::<Cast>::empty(),
{
    let after = hub.disconnected(id);
    if after.is_online(user) {
        let s = choose|s: usize| after.sessions.contains_key(s) && #[trigger] after.sessions[s]
            == Some(user);
        assert(hub.presence(user).contains(s));
    }
    assert(after.presence(user) =~= Set::<usize>::empty());
}

/// While a user has another session, the end of one sends nothing.
pub proof fn lemma_earlier_disconnect_is_silent(hub: HubState, id: usize, other: usize, user: u128)
    requires
        hub.sessions.contains_key(id),
        hub.sessions[id] == Some(user),
        other != id,
        hub.presence(user).contains(other),
    ensures
        hub.orphaned(id) is None,
        hub.disconnect_casts(id) == Seq::<Cast>::empty(),
        hub.disconnected(id).is_online(user),
{
    let after = hub.disconnected(id);
    assert(after.sessions.contains_key(other) && after.sessions[other] == Some(user));
}

/// The end of a session that never authenticated changes no presence and
/// sends nothing.
pub proof fn lemma_anonymous_disconnect_is_silent(hub: HubState, id: usize, user: u128)
    requires
        hub.sessions.contains_key(id),
        hub.sessions[id] is None,
    ensures
        hub.disconnect_casts(id) == Seq::<Cast>::empty(),
        hub.disconnected(id).presence(user) == hub.presence(user),
{
    assert(hub.disconnected(id).presence(user) =~= hub.presence(user));
}

/// A session that authenticates again as another user leaves the presence
/// of the first and enters that of the second; the first is told offline
/// exactly if it has no other session, and the second is told online.
pub proof fn lemma_reauthentication_moves_the_session(
    hub: HubState,
    id: usize,
    first: u128,
    second: u128,
)
    requires
        hub.sessions.contains_key(id),
        hub.sessions[id] == Some(first),
        first != second,
    ensures
        hub.authenticated(Some(second), id).presence(first) == hub.presence(first).remove(id),
        hub.authenticated(Some(second), id).presence(second) == hub.presence(second).insert(id),
        hub.displaced(Some(second), id) == if hub.presence(first).remove(id) == Set::<
            usize,
        >::empty() {
            Some(first)
        } else {
            None
        },
        hub.auth_casts(Some(second), id).last() == (Cast {
            targets: hub.sessions.dom(),
            frame: crate::envelope::user_online_frame(second),
        }),
        hub.displaced(Some(second), id) is Some ==> hub.auth_casts(Some(second), id)[0] == (Cast {
            targets: hub.sessions.dom(),
            frame: user_offline_frame(first),
        }),
{
    let after = hub.authenticated(Some(second), id);
    assert(after.presence(first) =~= hub.presence(first).remove(id));
    assert(after.presence(second) =~= hub.presence(second).insert(id));
    if after.is_online(first) {
        let s = choose|s: usize| after.sessions.contains_key(s) && #[trigger] after.sessions[s]
            == Some(first);
        assert(hub.presence(first).remove(id).contains(s));
    } else {
        assert forall|s: usize| !hub.presence(first).remove(id).contains(s) by {
            if hub.presence(first).remove(id).contains(s) {
                assert(after.sessions.contains_key(s) && after.sessions[s] == Some(first));
            }
        }
        assert(hub.presence(first).remove(id) =~= Set::<usize>::empty());
    }
}

/// A unicast to a user has exactly as many deliveries as sessions are
/// authenticated as that user, one for each.
pub proof fn lemma_unicast_count(hub: HubState, user: u128, frame: Seq<char>, sent: Seq<Delivery>)
    requires
        is_cast(sent, hub.presence(user), frame),
    ensures
        hub.presence(user).finite(),
        sent.len() == hub.presence(user).len(),
        forall|s: usize|
            times_served(sent, s) == if hub.presence(user).contains(s) {
                1nat
            } else {
                0nat
            },
{
    lemma_cast_len(sent, hub.presence(user), frame);
    assert forall|s: usize|
        times_served(sent, s) == if hub.presence(user).contains(s) {
            1nat
        } else {
            0nat
        } by {
        lemma_cast_serves_each_once(sent, hub.presence(user), frame, s);
    }
}

/// An event for a list of users has as many deliveries as those users have
/// sessions, and each goes to a session of one of them.
pub proof fn lemma_fan_out_reaches_members_only(
    hub: HubState,
    users: Seq<u128>,
    frame: Seq<char>,
    sent: Seq<Delivery>,
    i: int,
)
    requires
        delivers(sent, hub.unicasts(users, frame)),
        0 <= i < sent.len(),
    ensures
        sent.len() == cast_count(hub.unicasts(users, frame)),
        sent[i].frame@ == frame,
        exists|u: int|
            0 <= u < users.len() && hub.sessions.contains_key(sent[i].session)
                && hub.sessions[sent[i].session] == Some(#[trigger] users[u]),
{
    let casts = hub.unicasts(users, frame);
    lemma_delivers_len(sent, casts);
    lemma_delivers_only_targets(sent, casts, i);
    let c = choose|c: int|
        0 <= c < casts.len() && (#[trigger] casts[c]).targets.contains(sent[i].session)
            && casts[c].frame == sent[i].frame@;
    assert(hub.presence(users[c]).contains(sent[i].session));
}

/// One thing that happens to a session.
pub enum SessionEvent {
    /// The hub answered the connect request.
    Registered(Option<usize>),
    /// The heartbeat was checked.
    Tick(u64),
    /// A frame came from the client.
    Frame(FrameView, u64),
    /// The hub answered an authentication request.
    AuthReply(Option<u128>),
    /// The connection is being torn down.
    Stopping,
}

/// The notice to the hub that a reaction carries.
pub open spec fn notice_in(reaction: ReactionView) -> Option<Disconnect> {
    match reaction {
        ReactionView::Stop { notice, close } => notice,
        _ => None,
    }
}

/// The session after one event, and the notice that went to the hub.
pub open spec fn session_step(session: SocketSession, event: SessionEvent) -> (
    SocketSession,
    Option<Disconnect>,
) {
    match event {
        SessionEvent::Registered(reply) => {
            let (next, reaction) = session.after_registration(reply);
            (next, notice_in(reaction))
        },
        SessionEvent::Tick(now) => {
            let (next, reaction) = session.after_tick(now);
            (next, notice_in(reaction))
        },
        SessionEvent::Frame(frame, now) => {
            let (next, reaction) = session.after_frame(frame, now);
            (next, notice_in(reaction))
        },
        SessionEvent::AuthReply(reply) => {
            let (next, reaction) = session.after_auth_reply(reply);
            (next, notice_in(reaction))
        },
        SessionEvent::Stopping => (session.ended(), session.last_notice()),
    }
}

/// The session after a run of events.
pub open spec fn session_after(session: SocketSession, events: Seq<SessionEvent>) -> SocketSession
    decreases events.len(),
{
    if events.len() == 0 {
        session
    } else {
        session_step(session_after(session, events.drop_last()), events.last()).0
    }
}

/// The number of notices that went to the hub over a run of events.
pub open spec fn notices(session: SocketSession, events: Seq<SessionEvent>) -> nat
    decreases events.len(),
{
    if events.len() == 0 {
        0
    } else {
        notices(session, events.drop_last()) + if session_step(
            session_after(session, events.drop_last()),
            events.last(),
        ).1 is Some {
            1nat
        } else {
            0nat
        }
    }
}

/// Whatever happens to a session, the hub is told of its end at most once:
/// exactly once where the hub knew the session when it ended, and never
/// where the session was over from the start.
pub proof fn lemma_hub_is_told_at_most_once(session: SocketSession, events: Seq<SessionEvent>)
    ensures
        notices(session, events) <= 1,
        session.closed ==> notices(session, events) == 0 && session_after(session, events).closed,
        notices(session, events) == 1 ==> session_after(session, events).closed,
        !session.closed && session_after(session, events).closed && session_after(
            session,
            events,
        ).registered ==> notices(session, events) == 1,
    decreases events.len(),
{
    if events.len() > 0 {
        lemma_hub_is_told_at_most_once(session, events.drop_last());
    }
}

/// A session whose client stays silent past the timeout is disconnected by
/// the first check of the heartbeat that sees it, and no later check or
/// teardown tells the hub again.
pub proof fn lemma_timeout_disconnects_once(
    session: SocketSession,
    now: u64,
    later: Seq<SessionEvent>,
)
    requires
        session.live(),
        session.timed_out(now),
    ensures
        session.after_tick(now).1 == (ReactionView::Stop {
            notice: Some(Disconnect { id: session.id, user_id: session.user_id }),
            close: false,
        }),
        session.after_tick(now).0.closed,
        notices(session.after_tick(now).0, later) == 0,
        notices(session, seq![SessionEvent::Tick(now)] + later) == 1,
{
    let ended = session.after_tick(now).0;
    lemma_hub_is_told_at_most_once(ended, later);
    lemma_notices_concat(session, seq![SessionEvent::Tick(now)], later);
    let first = seq![SessionEvent::Tick(now)];
    assert(first.drop_last() =~= Seq::<SessionEvent>::empty());
    assert(first.last() == SessionEvent::Tick(now));
    reveal_with_fuel(notices, 2);
    reveal_with_fuel(session_after, 2);
}

/// The notices of a run are those of its first part and those of the rest.
pub proof fn lemma_notices_concat(
    session: SocketSession,
    first: Seq<SessionEvent>,
    rest: Seq<SessionEvent>,
)
    ensures
        session_after(session, first + rest) == session_after(session_after(session, first), rest),
        notices(session, first + rest) == notices(session, first) + notices(
            session_after(session, first),
            rest,
        ),
    decreases rest.len(),
{
    if rest.len() == 0 {
        assert(first + rest =~= first);
    } else {
        let all = first + rest;
        assert(all.drop_last() =~= first + rest.drop_last());
        assert(all.last() == rest.last());
        lemma_notices_concat(session, first, rest.drop_last());
    }
}

} // verus!
