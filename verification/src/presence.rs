//! The presence index: for each user that is online, the sessions that are
//! authenticated as that user.
//!
//! An entry never holds an empty set: the user whose last session leaves
//! loses the entry with it.

use std::collections::HashMap;
use std::collections::HashSet;
use vstd::prelude::*;
use vstd::set_lib::axiom_is_empty_len0;
use vstd::std_specs::hash::*;

verus! {

/// Whether the index lists a session under a user.
pub open spec fn listed(index: Map<u128, HashSet<usize>>, user: u128, session: usize) -> bool {
    index.contains_key(user) && index[user]@.contains(session)
}

/// Every entry of the index holds a finite set with at least one session.
pub open spec fn no_empty_entry(index: Map<u128, HashSet<usize>>) -> bool {
    forall|user: u128| #[trigger]
        index.contains_key(user) ==> index[user]@.finite() && index[user]@.len() > 0
}

/// Lists a session under a user, opening the user's entry if there is none.
pub(crate) fn list(index: &mut HashMap<u128, HashSet<usize>>, user: u128, session: usize)
    requires
        no_empty_entry(old(index)@),
    ensures
        no_empty_entry(final(index)@),
        forall|u: u128, s: usize|
            #![trigger listed(final(index)@, u, s)]
            #![trigger listed(old(index)@, u, s)]
            listed(final(index)@, u, s) <==> listed(old(index)@, u, s) || (u == user && s
                == session),
        forall|u: u128|
            final(index)@.contains_key(u) <==> old(index)@.contains_key(u) || u == user,
{
    broadcast use group_hash_axioms;

    let mut sessions = match index.remove(&user) {
        Some(sessions) => sessions,
        None => HashSet::new(),
    };
    sessions.insert(session);
    index.insert(user, sessions);
    proof {
        assert forall|u: u128| #[trigger] final(index)@.contains_key(u) implies index@[u]@.finite()
            && index@[u]@.len() > 0 by {
            if u != user {
                assert(old(index)@.contains_key(u));
            }
        }
    }
}

/// Strikes a session from a user's entry, and the entry with it once it is
/// empty. Says whether the entry went.
pub(crate) fn unlist(
    index: &mut HashMap<u128, HashSet<usize>>,
    user: u128,
    session: usize,
) -> (emptied: bool)
    requires
        no_empty_entry(old(index)@),
    ensures
        no_empty_entry(final(index)@),
        forall|u: u128, s: usize|
            #![trigger listed(final(index)@, u, s)]
            #![trigger listed(old(index)@, u, s)]
            listed(final(index)@, u, s) <==> listed(old(index)@, u, s) && !(u == user && s
                == session),
        forall|u: u128| u != user ==> (final(index)@.contains_key(u) <==> old(index)@.contains_key(u)),
        final(index)@.contains_key(user) ==> old(index)@.contains_key(user),
        emptied <==> old(index)@.contains_key(user) && !final(index)@.contains_key(user),
{
    broadcast use group_hash_axioms;
    broadcast use axiom_is_empty_len0;

    match index.remove(&user) {
        Some(mut sessions) => {
            sessions.remove(&session);
            if sessions.is_empty() {
                proof {
                    assert forall|u: u128| #[trigger] index@.contains_key(u) implies index@[u]@.finite()
                        && index@[u]@.len() > 0 by {
                        assert(old(index)@.contains_key(u));
                    }
                    assert forall|s: usize| listed(old(index)@, user, s) implies s == session by {
                        if s != session {
                            assert(sessions@.contains(s));
                        }
                    }
                }
                true
            } else {
                index.insert(user, sessions);
                proof {
                    assert forall|u: u128| #[trigger] index@.contains_key(u) implies index@[u]@.finite()
                        && index@[u]@.len() > 0 by {
                        if u != user {
                            assert(old(index)@.contains_key(u));
                        }
                    }
                }
                false
            }
        },
        None => false,
    }
}

} // verus!
