//! The hub: the one owner of the session directory and of the presence
//! index.
//!
//! The hub sends nothing itself. Each operation changes the hub and returns
//! the deliveries that the caller is to hand to the connections, in the
//! order in which the hub issued them.

use crate::delivery::{
    delivers, is_cast, lemma_cast_len, lemma_delivers_one, lemma_delivers_push, push_cast,
    push_cast_to_keys, targets_of, Cast, Delivery,
};
use crate::envelope::{
    event_frame, frame_text, hi_frame, payload_text, user_offline_frame, user_online_frame,
    ClientMessage,
};
use crate::events::{
    recipients, select_recipients, Auth, Disconnect, MessageDeleted, NewMessage, NewUser,
    ReactionUpdated,
};
use crate::json::{in_quotes, is_plain};
use crate::presence::{list, listed, no_empty_entry, unlist};
use crate::tokens::verify_jwt;
use std::collections::HashMap;
use std::collections::HashSet;
use vstd::prelude::*;
use vstd::std_specs::hash::*;

verus! {

/// What the hub knows: for each open session the user it is bound to, if
/// any, and the number of connections counted so far.
pub struct HubState {
    pub sessions: Map<usize, Option<u128>>,
    pub visitors: nat,
}

impl HubState {
    /// The sessions that are authenticated as a user.
    pub open spec fn presence(self, user: u128) -> Set<usize> {
        Set::new(|s: usize| self.sessions.contains_key(s) && self.sessions[s] == Some(user))
    }

    /// A user is online while at least one session is authenticated as it.
    pub open spec fn is_online(self, user: u128) -> bool {
        exists|s: usize| self.sessions.contains_key(s) && #[trigger] self.sessions[s] == Some(user)
    }

    /// The state after a session opened under `id`: the session is in the
    /// directory, bound to nobody, and the counter went up by one, wrapping.
    pub open spec fn connected(self, id: usize) -> HubState {
        HubState {
            sessions: self.sessions.insert(id, None),
            visitors: if self.visitors >= usize::MAX {
                0
            } else {
                self.visitors + 1
            },
        }
    }

    /// Whether `k` steps from `candidate` reach the first identifier that no
    /// open session has.
    pub open spec fn is_free_offset(self, candidate: usize, k: nat) -> bool {
        &&& k <= usize::MAX
        &&& !self.sessions.contains_key(probe(candidate, k))
        &&& forall|j: nat| j < k ==> self.sessions.contains_key(#[trigger] probe(candidate, j))
    }

    /// The identifier that a new session gets when `candidate` was drawn:
    /// the first one from `candidate` upwards, wrapping at the top, that no
    /// open session has.
    pub open spec fn first_free(self, candidate: usize) -> usize {
        probe(candidate, choose|k: nat| self.is_free_offset(candidate, k))
    }

    /// Whether an authentication request binds the session: the token named
    /// a user and the session is open.
    pub open spec fn admits(self, verified: Option<u128>, id: usize) -> bool {
        verified is Some && self.sessions.contains_key(id)
    }

    /// The state after an authentication request.
    pub open spec fn authenticated(self, verified: Option<u128>, id: usize) -> HubState {
        if self.admits(verified, id) {
            HubState { sessions: self.sessions.insert(id, verified), visitors: self.visitors }
        } else {
            self
        }
    }

    /// The user that an authentication request sends offline: the one that
    /// the session was bound to before, if it is another user and has no
    /// session left.
    pub open spec fn displaced(self, verified: Option<u128>, id: usize) -> Option<u128> {
        if self.admits(verified, id) {
            match self.sessions[id] {
                Some(before) => if Some(before) != verified && !self.authenticated(
                    verified,
                    id,
                ).is_online(before) {
                    Some(before)
                } else {
                    None
                },
                None => None,
            }
        } else {
            None
        }
    }

    /// What an authentication request makes the hub send: to every open
    /// session the notice that the displaced user went offline, if there is
    /// one, and then the notice that the user came online.
    pub open spec fn auth_casts(self, verified: Option<u128>, id: usize) -> Seq<Cast> {
        if self.admits(verified, id) {
            let online = Cast {
                targets: self.sessions.dom(),
                frame: user_online_frame(verified->0),
            };
            match self.displaced(verified, id) {
                Some(before) => seq![
                    Cast { targets: self.sessions.dom(), frame: user_offline_frame(before) },
                    online,
                ],
                None => seq![online],
            }
        } else {
            Seq::empty()
        }
    }

    /// The state after a session closed.
    pub open spec fn disconnected(self, id: usize) -> HubState {
        HubState { sessions: self.sessions.remove(id), visitors: self.visitors }
    }

    /// The user that the end of a session sends offline: the one that the
    /// session was bound to, if it has no session left.
    pub open spec fn orphaned(self, id: usize) -> Option<u128> {
        if self.sessions.contains_key(id) {
            match self.sessions[id] {
                Some(user) => if !self.disconnected(id).is_online(user) {
                    Some(user)
                } else {
                    None
                },
                None => None,
            }
        } else {
            None
        }
    }

    /// What the end of a session makes the hub send: to every session that
    /// is left the notice that the orphaned user went offline, if there is
    /// one.
    pub open spec fn disconnect_casts(self, id: usize) -> Seq<Cast> {
        match self.orphaned(id) {
            Some(user) => seq![
                Cast {
                    targets: self.disconnected(id).sessions.dom(),
                    frame: user_offline_frame(user),
                },
            ],
            None => Seq::empty(),
        }
    }

    /// What an event in a conversation makes the hub send, given the answer
    /// of the membership resolver: one frame to each session of each member
    /// but the one excluded; nothing where the resolver failed.
    pub open spec fn event_casts(
        self,
        members: Option<Vec<u128>>,
        excluding: Option<u128>,
        frame: Seq<char>,
    ) -> Seq<Cast> {
        match members {
            Some(list) => self.unicasts(recipients(list@, excluding), frame),
            None => Seq::empty(),
        }
    }

    /// The casts that bring one frame to each session of each user of a
    /// list, user by user.
    pub open spec fn unicasts(self, users: Seq<u128>, frame: Seq<char>) -> Seq<Cast> {
        Seq::new(users.len(), |i: int| Cast { targets: self.presence(users[i]), frame })
    }
}

/// The identifier `k` steps above `candidate`, wrapping at the top.
pub open spec fn probe(candidate: usize, k: nat) -> usize {
    if candidate + k <= usize::MAX {
        (candidate + k) as usize
    } else {
        (candidate + k - usize::MAX - 1) as usize
    }
}

/// What a connect request comes to.
#[derive(Debug)]
pub struct Connected {
    /// The identifier of the new session.
    pub id: usize,
    /// The greeting for every open session.
    pub deliveries: Vec<Delivery>,
}

/// What an authentication request comes to.
#[derive(Debug)]
pub struct AuthOutcome {
    /// The user that the session is now bound to; `None` where the request
    /// changed nothing.
    pub user_id: Option<u128>,
    /// The user to record as offline, if the request left one without
    /// sessions.
    pub went_offline: Option<u128>,
    /// The notices for the open sessions.
    pub deliveries: Vec<Delivery>,
}

/// What a disconnect notice comes to.
#[derive(Debug)]
pub struct DisconnectOutcome {
    /// Whether the session was open.
    pub removed: bool,
    /// The user to record as offline, if the session was its last.
    pub went_offline: Option<u128>,
    /// The notices for the sessions that are left.
    pub deliveries: Vec<Delivery>,
}

/// The hub.
pub struct WsServer {
    sessions: HashMap<usize, Option<u128>>,
    users: HashMap<u128, HashSet<usize>>,
    visitor_count: usize,
}

impl View for WsServer {
    type V = HubState;

    closed spec fn view(&self) -> HubState {
        HubState { sessions: self.sessions@, visitors: self.visitor_count as nat }
    }
}

impl WsServer {
    /// The presence index as a map: the users that have an entry, each with
    /// the sessions listed under it.
    pub closed spec fn presence_map(&self) -> Map<u128, Set<usize>> {
        Map::new(|u: u128| self.users@.contains_key(u), |u: u128| self.users@[u]@)
    }

    /// The presence index agrees with the directory: a session is listed
    /// under a user exactly if the directory binds it to that user, and no
    /// entry is empty.
    pub closed spec fn wf(&self) -> bool {
        &&& no_empty_entry(self.users@)
        &&& forall|u: u128, s: usize| #[trigger]
            listed(self.users@, u, s) <==> self.sessions@.contains_key(s) && self.sessions@[s]
                == Some(u)
    }

    /// A hub without sessions, counting from `visitor_count`.
    pub fn new(visitor_count: usize) -> (hub: WsServer)
        ensures
            hub.wf(),
            hub@.sessions == Map::<usize, Option<u128>>::empty(),
            hub@.visitors == visitor_count,
    {
        WsServer { sessions: HashMap::new(), users: HashMap::new(), visitor_count }
    }

    /// The number of open sessions.
    pub fn session_count(&self) -> (count: usize)
        ensures
            count == self@.sessions.dom().len(),
    {
        broadcast use group_hash_axioms;

        self.sessions.len()
    }

    /// The number of connections counted so far.
    pub fn visitor_count(&self) -> (count: usize)
        ensures
            count == self@.visitors,
    {
        self.visitor_count
    }

    /// Whether a session is open.
    pub fn is_connected(&self, id: usize) -> (open: bool)
        ensures
            open == self@.sessions.contains_key(id),
    {
        broadcast use group_hash_axioms;

        self.sessions.contains_key(&id)
    }

    /// The user that an open session is bound to.
    pub fn bound_user(&self, id: usize) -> (user: Option<u128>)
        ensures
            user == if self@.sessions.contains_key(id) {
                self@.sessions[id]
            } else {
                None
            },
    {
        broadcast use group_hash_axioms;

        match self.sessions.get(&id) {
            Some(bound) => *bound,
            None => None,
        }
    }

    /// Whether a user is online.
    pub fn is_online(&self, user: u128) -> (online: bool)
        requires
            self.wf(),
        ensures
            online == self@.is_online(user),
    {
        broadcast use group_hash_axioms;

        proof {
            self.lemma_presence_map(user);
        }
        self.users.contains_key(&user)
    }

    /// The number of sessions that are authenticated as a user.
    pub fn presence_count(&self, user: u128) -> (count: usize)
        requires
            self.wf(),
        ensures
            count == self@.presence(user).len(),
    {
        broadcast use group_hash_axioms;

        proof {
            self.lemma_entry_is_presence(user);
        }
        match self.users.get(&user) {
            Some(sessions) => sessions.len(),
            None => 0,
        }
    }

    /// A user has an entry in the presence index exactly while it is online,
    /// and the entry holds exactly the sessions that are authenticated as
    /// the user, of which there is at least one.
    pub proof fn lemma_presence_map(&self, user: u128)
        requires
            self.wf(),
        ensures
            self.presence_map().contains_key(user) <==> self@.is_online(user),
            self.presence_map().contains_key(user) <==> self@.presence(user).len() > 0,
            self.presence_map().contains_key(user) ==> self.presence_map()[user] == self@.presence(
                user,
            ),
            self@.presence(user).finite(),
    {
        self.lemma_entry_is_presence(user);
        if self.users@.contains_key(user) {
            let s = self.users@[user]@.choose();
            assert(listed(self.users@, user, s));
        }
        if self@.is_online(user) {
            let s = choose|s: usize|
                self.sessions@.contains_key(s) && #[trigger] self.sessions@[s] == Some(user);
            assert(listed(self.users@, user, s));
        }
    }

    /// The entry of a user is the user's presence; a user without an entry
    /// has none.
    proof fn lemma_entry_is_presence(&self, user: u128)
        requires
            self.wf(),
        ensures
            self.users@.contains_key(user) ==> self.users@[user]@ == self@.presence(user),
            !self.users@.contains_key(user) ==> self@.presence(user) == Set::<usize>::empty(),
            self@.presence(user).finite(),
    {
        if self.users@.contains_key(user) {
            assert forall|s: usize|
                self.users@[user]@.contains(s) <==> self@.presence(user).contains(s) by {
                assert(listed(self.users@, user, s) <==> self.users@[user]@.contains(s));
            }
            assert(self.users@[user]@ =~= self@.presence(user));
        } else {
            assert forall|s: usize| !self@.presence(user).contains(s) by {
                assert(!listed(self.users@, user, s));
            }
            assert(self@.presence(user) =~= Set::<usize>::empty());
        }
    }

    /// Hands a message to every open session, authenticated or not.
    pub fn broadcast(&self, message: &ClientMessage) -> (sent: Vec<Delivery>)
        ensures
            is_cast(sent@, self@.sessions.dom(), message.wire_text()),
            is_plain(message.op@) ==> is_cast(
                sent@,
                self@.sessions.dom(),
                frame_text(in_quotes(message.op@), payload_text(message.d)),
            ),
    {
        let frame = message.to_frame();
        let mut sent: Vec<Delivery> = Vec::new();
        let ghost none = Seq::<Cast>::empty();
        push_cast_to_keys(&mut sent, &self.sessions, &frame, Ghost(none));
        proof {
            let cast = Cast { targets: self.sessions@.dom(), frame: frame@ };
            assert(none.push(cast) =~= seq![cast]);
            lemma_delivers_one(sent@, cast);
        }
        sent
    }

    /// Hands a message to every session that is authenticated as a user. A
    /// user without sessions receives nothing.
    pub fn send_message(&self, user_id: &u128, message: &ClientMessage) -> (sent: Vec<Delivery>)
        requires
            self.wf(),
        ensures
            is_cast(sent@, self@.presence(*user_id), message.wire_text()),
            sent@.len() == self@.presence(*user_id).len(),
            is_plain(message.op@) ==> is_cast(
                sent@,
                self@.presence(*user_id),
                frame_text(in_quotes(message.op@), payload_text(message.d)),
            ),
    {
        let frame = message.to_frame();
        let mut sent: Vec<Delivery> = Vec::new();
        self.unicast(&mut sent, *user_id, &frame, Ghost(Seq::<Cast>::empty()));
        proof {
            let cast = Cast { targets: self@.presence(*user_id), frame: frame@ };
            assert(Seq::<Cast>::empty().push(cast) =~= seq![cast]);
            lemma_delivers_one(sent@, cast);
            lemma_cast_len(sent@, cast.targets, cast.frame);
        }
        sent
    }

    /// Appends the deliveries of one frame to the sessions of one user.
    fn unicast(
        &self,
        out: &mut Vec<Delivery>,
        user: u128,
        frame: &String,
        Ghost(casts): Ghost<Seq<Cast>>,
    )
        requires
            self.wf(),
            delivers(old(out)@, casts),
        ensures
            delivers(final(out)@, casts.push(Cast { targets: self@.presence(user), frame: frame@ })),
    {
        broadcast use group_hash_axioms;

        proof {
            self.lemma_entry_is_presence(user);
        }
        match self.users.get(&user) {
            Some(sessions) => {
                push_cast(out, sessions, frame, Ghost(casts));
            },
            None => {
                proof {
                    let cast = Cast { targets: self@.presence(user), frame: frame@ };
                    let nothing = Seq::<Delivery>::empty();
                    assert(targets_of(nothing) =~= Seq::<usize>::empty());
                    assert(targets_of(nothing).to_set() =~= Set::<usize>::empty());
                    lemma_delivers_push(out@, casts, nothing, cast);
                    assert(out@ + nothing =~= out@);
                }
            },
        }
    }

    /// The identifier for a new session when `candidate` was drawn.
    fn fresh_id(&self, candidate: usize) -> (id: usize)
        ensures
            !self@.sessions.contains_key(id),
            id == self@.first_free(candidate),
            !self@.sessions.contains_key(candidate) ==> id == candidate,
    {
        broadcast use group_hash_axioms;

        let open = self.sessions.len();
        let mut id = candidate;
        let ghost mut k: nat = 0;
        while self.sessions.contains_key(&id)
            invariant
                open == self.sessions@.dom().len(),
                self.sessions@.dom().finite(),
                k <= usize::MAX,
                id == probe(candidate, k),
                forall|j: nat| j < k ==> self.sessions@.contains_key(#[trigger] probe(candidate, j)),
            decreases self.sessions@.dom().len() - k,
        {
            proof {
                lemma_probes_fit(self.sessions@.dom(), candidate, k + 1);
            }
            id = if id == usize::MAX {
                0
            } else {
                id + 1
            };
            proof {
                k = k + 1;
            }
        }
        proof {
            assert(self@.is_free_offset(candidate, k));
            let chosen = choose|n: nat| self@.is_free_offset(candidate, n);
            assert(self@.is_free_offset(candidate, chosen));
            if chosen < k {
                assert(self.sessions@.contains_key(probe(candidate, chosen)));
            }
            if k < chosen {
                assert(self.sessions@.contains_key(probe(candidate, k)));
            }
            if !self@.sessions.contains_key(candidate) && k > 0 {
                assert(self.sessions@.contains_key(probe(candidate, 0)));
            }
        }
        id
    }

    /// Opens a session under the first free identifier from `candidate`
    /// upwards, counts it, and greets every open session, the new one too,
    /// with the count as it stood before.
    pub fn connect_with(&mut self, candidate: usize) -> (connected: Connected)
        requires
            old(self).wf(),
        ensures
            final(self).wf(),
            connected.id == old(self)@.first_free(candidate),
            !old(self)@.sessions.contains_key(candidate) ==> connected.id == candidate,
            !old(self)@.sessions.contains_key(connected.id),
            final(self)@ == old(self)@.connected(connected.id),
            is_cast(
                connected.deliveries@,
                final(self)@.sessions.dom(),
                hi_frame(old(self)@.visitors),
            ),
    {
        broadcast use group_hash_axioms;

        let id = self.fresh_id(candidate);
        self.sessions.insert(id, None);
        let count = self.visitor_count;
        self.visitor_count = if count == usize::MAX {
            0
        } else {
            count + 1
        };
        proof {
            assert forall|u: u128, s: usize| #[trigger]
                listed(self.users@, u, s) <==> self.sessions@.contains_key(s) && self.sessions@[s]
                    == Some(u) by {
                assert(listed(old(self).users@, u, s) <==> old(self).sessions@.contains_key(s)
                    && old(self).sessions@[s] == Some(u));
            }
        }
        let deliveries = self.broadcast(&ClientMessage::hi(count));
        Connected { id, deliveries }
    }

    /// Opens a session under an identifier drawn at random, or the next free
    /// one above it where the draw is taken.
    pub fn connect(&mut self) -> (connected: Connected)
        requires
            old(self).wf(),
        ensures
            final(self).wf(),
            !old(self)@.sessions.contains_key(connected.id),
            final(self)@ == old(self)@.connected(connected.id),
            is_cast(
                connected.deliveries@,
                final(self)@.sessions.dom(),
                hi_frame(old(self)@.visitors),
            ),
    {
        self.connect_with(random_usize())
    }

    /// Binds a session to the user that its token named. Where the token
    /// named nobody, or the session is not open, nothing changes and nothing
    /// is sent. Otherwise the session leaves the presence of the user it was
    /// bound to before and enters that of the new one, and every open
    /// session is told who went offline, if anyone, and who came online.
    pub fn authenticate(&mut self, verified: Option<u128>, id: usize) -> (outcome: AuthOutcome)
        requires
            old(self).wf(),
        ensures
            final(self).wf(),
            is_auth_outcome(old(self)@, final(self)@, outcome, verified, id),
    {
        broadcast use group_hash_axioms;

        let user = match verified {
            Some(user) => user,
            None => {
                return AuthOutcome { user_id: None, went_offline: None, deliveries: Vec::new() };
            },
        };
        let before = match self.sessions.get(&id) {
            Some(before) => *before,
            None => {
                return AuthOutcome { user_id: None, went_offline: None, deliveries: Vec::new() };
            },
        };
        let mut went_offline: Option<u128> = None;
        match before {
            Some(other) => {
                if other != user {
                    let emptied = unlist(&mut self.users, other, id);
                    proof {
                        assert(listed(old(self).users@, other, id));
                        let after = old(self)@.authenticated(verified, id);
                        if after.is_online(other) {
                            let s = choose|s: usize|
                                after.sessions.contains_key(s) && #[trigger] after.sessions[s]
                                    == Some(other);
                            assert(listed(old(self).users@, other, s));
                            assert(listed(self.users@, other, s));
                        }
                        if self.users@.contains_key(other) {
                            let s = self.users@[other]@.choose();
                            assert(listed(self.users@, other, s));
                            assert(listed(old(self).users@, other, s));
                            assert(after.sessions.contains_key(s) && after.sessions[s] == Some(
                                other,
                            ));
                        }
                    }
                    if emptied {
                        went_offline = Some(other);
                    }
                }
            },
            None => {},
        }
        self.sessions.insert(id, Some(user));
        let ghost unlisted = self.users@;
        list(&mut self.users, user, id);
        proof {
            assert forall|u: u128, s: usize| #[trigger]
                listed(self.users@, u, s) <==> self.sessions@.contains_key(s) && self.sessions@[s]
                    == Some(u) by {
                assert(listed(old(self).users@, u, s) <==> old(self).sessions@.contains_key(s)
                    && old(self).sessions@[s] == Some(u));
                assert(listed(self.users@, u, s) <==> listed(unlisted, u, s) || (u == user && s
                    == id));
                if before is Some && before != Some(user) {
                    assert(listed(unlisted, u, s) <==> listed(old(self).users@, u, s) && !(u
                        == before->0 && s == id));
                }
            }
            assert(self.sessions@.dom() =~= old(self).sessions@.dom());
        }
        let mut deliveries: Vec<Delivery> = Vec::new();
        let ghost mut casts = Seq::<Cast>::empty();
        match went_offline {
            Some(other) => {
                let frame = ClientMessage::user_offline(other).to_frame();
                push_cast_to_keys(&mut deliveries, &self.sessions, &frame, Ghost(casts));
                proof {
                    casts = casts.push(Cast { targets: self.sessions@.dom(), frame: frame@ });
                }
            },
            None => {},
        }
        let frame = ClientMessage::user_online(user).to_frame();
        push_cast_to_keys(&mut deliveries, &self.sessions, &frame, Ghost(casts));
        proof {
            casts = casts.push(Cast { targets: self.sessions@.dom(), frame: frame@ });
            assert(casts =~= old(self)@.auth_casts(verified, id));
        }
        AuthOutcome { user_id: Some(user), went_offline, deliveries }
    }

    /// Handles an authentication request: verifies the token under the
    /// secret and binds the session to the user that it names, if it names
    /// one.
    pub fn handle_auth(&mut self, msg: &Auth, secret: &str) -> (outcome: AuthOutcome)
        requires
            old(self).wf(),
        ensures
            final(self).wf(),
            exists|verified: Option<u128>| #[trigger]
                is_auth_outcome(old(self)@, final(self)@, outcome, verified, msg.id),
    {
        let verified = verify_jwt(msg.access_token.as_str(), secret);
        let outcome = self.authenticate(verified, msg.id);
        proof {
            assert(is_auth_outcome(old(self)@, self@, outcome, verified, msg.id));
        }
        outcome
    }

    /// Closes a session. A session that is not open is left alone: the
    /// notice may come twice. An open one leaves the directory and the
    /// presence of its user; where it was the user's last, every session
    /// that is left is told that the user went offline. The binding that the
    /// hub recorded decides, not the one in the notice.
    pub fn disconnect(&mut self, msg: &Disconnect) -> (outcome: DisconnectOutcome)
        requires
            old(self).wf(),
        ensures
            final(self).wf(),
            final(self)@ == (if old(self)@.sessions.contains_key(msg.id) {
                old(self)@.disconnected(msg.id)
            } else {
                old(self)@
            }),
            outcome.removed == old(self)@.sessions.contains_key(msg.id),
            outcome.went_offline == old(self)@.orphaned(msg.id),
            delivers(outcome.deliveries@, old(self)@.disconnect_casts(msg.id)),
    {
        broadcast use group_hash_axioms;

        let id = msg.id;
        let bound = match self.sessions.remove(&id) {
            Some(bound) => bound,
            None => {
                proof {
                    assert(self.sessions@ =~= old(self).sessions@);
                }
                return DisconnectOutcome {
                    removed: false,
                    went_offline: None,
                    deliveries: Vec::new(),
                };
            },
        };
        let mut went_offline: Option<u128> = None;
        match bound {
            Some(user) => {
                let emptied = unlist(&mut self.users, user, id);
                proof {
                    assert(listed(old(self).users@, user, id));
                    let after = old(self)@.disconnected(id);
                    if after.is_online(user) {
                        let s = choose|s: usize|
                            after.sessions.contains_key(s) && #[trigger] after.sessions[s] == Some(
                                user,
                            );
                        assert(listed(old(self).users@, user, s));
                        assert(listed(self.users@, user, s));
                    }
                    if self.users@.contains_key(user) {
                        let s = self.users@[user]@.choose();
                        assert(listed(self.users@, user, s));
                        assert(listed(old(self).users@, user, s));
                        assert(after.sessions.contains_key(s) && after.sessions[s] == Some(user));
                    }
                }
                if emptied {
                    went_offline = Some(user);
                }
            },
            None => {},
        }
        proof {
            assert forall|u: u128, s: usize| #[trigger]
                listed(self.users@, u, s) <==> self.sessions@.contains_key(s) && self.sessions@[s]
                    == Some(u) by {
                assert(listed(old(self).users@, u, s) <==> old(self).sessions@.contains_key(s)
                    && old(self).sessions@[s] == Some(u));
                if bound is Some {
                    assert(listed(self.users@, u, s) <==> listed(old(self).users@, u, s) && !(u
                        == bound->0 && s == id));
                }
            }
        }
        let mut deliveries: Vec<Delivery> = Vec::new();
        match went_offline {
            Some(user) => {
                let frame = ClientMessage::user_offline(user).to_frame();
                push_cast_to_keys(
                    &mut deliveries,
                    &self.sessions,
                    &frame,
                    Ghost(Seq::<Cast>::empty()),
                );
                proof {
                    assert(Seq::<Cast>::empty().push(
                        Cast { targets: self.sessions@.dom(), frame: frame@ },
                    ) =~= old(self)@.disconnect_casts(id));
                }
            },
            None => {},
        }
        DisconnectOutcome { removed: true, went_offline, deliveries }
    }

    /// Sends an event of a conversation to the members that the resolver
    /// named, but the one excluded. Where the resolver failed the event is
    /// dropped.
    fn fan_out(
        &self,
        message: &ClientMessage,
        members: &Option<Vec<u128>>,
        excluding: Option<u128>,
    ) -> (sent: Vec<Delivery>)
        requires
            self.wf(),
            is_plain(message.op@),
        ensures
            delivers(
                sent@,
                self@.event_casts(
                    *members,
                    excluding,
                    frame_text(in_quotes(message.op@), payload_text(message.d)),
                ),
            ),
    {
        match members {
            Some(list) => {
                let chosen = select_recipients(list, excluding);
                self.deliver(message, &chosen)
            },
            None => Vec::new(),
        }
    }

    /// A message was posted: every session of every other member of the
    /// conversation gets it.
    pub fn handle_new_message(&self, msg: &NewMessage, members: &Option<Vec<u128>>) -> (sent: Vec<
        Delivery,
    >)
        requires
            self.wf(),
        ensures
            delivers(
                sent@,
                self@.event_casts(
                    *members,
                    Some(msg.author_id),
                    event_frame("new_message"@, msg.payload),
                ),
            ),
    {
        self.fan_out(&msg.to_client_message(), members, Some(msg.author_id))
    }

    /// A message was deleted: every session of every other member of the
    /// conversation hears of it.
    pub fn handle_message_deleted(
        &self,
        msg: &MessageDeleted,
        members: &Option<Vec<u128>>,
    ) -> (sent: Vec<Delivery>)
        requires
            self.wf(),
        ensures
            delivers(
                sent@,
                self@.event_casts(
                    *members,
                    Some(msg.author_id),
                    event_frame("message_deleted"@, msg.payload()),
                ),
            ),
    {
        self.fan_out(&msg.to_client_message(), members, Some(msg.author_id))
    }

    /// A reaction changed: every session of every other member of the
    /// conversation hears of it.
    pub fn handle_reaction_updated(
        &self,
        msg: &ReactionUpdated,
        members: &Option<Vec<u128>>,
    ) -> (sent: Vec<Delivery>)
        requires
            self.wf(),
        ensures
            delivers(
                sent@,
                self@.event_casts(
                    *members,
                    Some(msg.user_id),
                    event_frame("reaction_updated"@, msg.payload()),
                ),
            ),
    {
        self.fan_out(&msg.to_client_message(), members, Some(msg.user_id))
    }

    /// A user registered: every open session hears of it.
    pub fn handle_new_user(&self, msg: &NewUser) -> (sent: Vec<Delivery>)
        ensures
            is_cast(sent@, self@.sessions.dom(), event_frame("new_user"@, msg.payload)),
    {
        self.broadcast(&msg.to_client_message())
    }

    /// Hands one frame to the sessions of each user of a list, user by user.
    pub fn deliver(&self, message: &ClientMessage, users: &Vec<u128>) -> (sent: Vec<Delivery>)
        requires
            self.wf(),
        ensures
            delivers(sent@, self@.unicasts(users@, message.wire_text())),
            is_plain(message.op@) ==> delivers(
                sent@,
                self@.unicasts(users@, frame_text(in_quotes(message.op@), payload_text(message.d))),
            ),
    {
        let frame = message.to_frame();
        let mut sent: Vec<Delivery> = Vec::new();
        let mut i: usize = 0;
        proof {
            assert(self@.unicasts(users@.take(0), frame@) =~= Seq::<Cast>::empty());
        }
        while i < users.len()
            invariant
                self.wf(),
                i <= users@.len(),
                delivers(sent@, self@.unicasts(users@.take(i as int), frame@)),
            decreases users@.len() - i,
        {
            let ghost done = self@.unicasts(users@.take(i as int), frame@);
            self.unicast(&mut sent, users[i], &frame, Ghost(done));
            proof {
                assert(done.push(Cast { targets: self@.presence(users@[i as int]), frame: frame@ })
                    =~= self@.unicasts(users@.take(i + 1), frame@));
            }
            i = i + 1;
        }
        proof {
            assert(users@.take(i as int) =~= users@);
        }
        sent
    }
}

/// Whether an outcome and a new state are what an authentication request
/// comes to, given the old state and what the token named.
pub open spec fn is_auth_outcome(
    before: HubState,
    after: HubState,
    outcome: AuthOutcome,
    verified: Option<u128>,
    id: usize,
) -> bool {
    &&& after == before.authenticated(verified, id)
    &&& outcome.user_id == if before.admits(verified, id) {
        verified
    } else {
        None
    }
    &&& outcome.went_offline == before.displaced(verified, id)
    &&& delivers(outcome.deliveries@, before.auth_casts(verified, id))
}

/// `rand::random` at `usize`: a number drawn from the thread's generator.
/// Nothing is promised of it.
#[verifier::external_body]
fn random_usize() -> usize {
    rand::random::<usize>()
}

/// Where the first `k` steps above a candidate all lie in a finite set, the
/// set has at least `k` members: the steps reach `k` different identifiers.
pub proof fn lemma_probes_fit(taken: Set<usize>, candidate: usize, k: nat)
    requires
        taken.finite(),
        k <= usize::MAX + 1,
        forall|j: nat| j < k ==> taken.contains(#[trigger] probe(candidate, j)),
    ensures
        k <= taken.len(),
    decreases k,
{
    if k > 0 {
        let prev = (k - 1) as nat;
        let last = probe(candidate, prev);
        assert forall|j: nat| j < prev implies taken.remove(last).contains(
            #[trigger] probe(candidate, j),
        ) by {
            assert(taken.contains(probe(candidate, j)));
        }
        lemma_probes_fit(taken.remove(last), candidate, prev);
        assert(taken.contains(probe(candidate, prev)));
    }
}

} // verus!
