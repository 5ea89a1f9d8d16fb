//! What the hub hands to the connections: text frames, each for one session.
//!
//! The hub walks hash tables, so the order in which the sessions of one
//! broadcast are served is not fixed. A [`Cast`] says what is fixed: the set
//! of sessions and the frame. [`delivers`] says that a run of deliveries is a
//! given list of casts, one after the other.

use std::collections::HashMap;
use std::collections::HashSet;
use vstd::prelude::*;
use vstd::seq_lib::*;
use vstd::std_specs::hash::*;
use vstd::std_specs::iter::IteratorSpec;

verus! {

/// One text frame for one session.
#[derive(Debug)]
pub struct Delivery {
    pub session: usize,
    pub frame: String,
}

/// One frame for each session of a set.
pub struct Cast {
    pub targets: Set<usize>,
    pub frame: Seq<char>,
}

/// The sessions that a run of deliveries addresses, in order.
pub open spec fn targets_of(sent: Seq<Delivery>) -> Seq<usize> {
    sent.map_values(|d: Delivery| d.session)
}

/// A run of deliveries that hands one frame to each session of a set exactly
/// once, in any order.
pub open spec fn is_cast(sent: Seq<Delivery>, targets: Set<usize>, frame: Seq<char>) -> bool {
    &&& targets_of(sent).no_duplicates()
    &&& targets_of(sent).to_set() == targets
    &&& forall|i: int| 0 <= i < sent.len() ==> (#[trigger] sent[i]).frame@ == frame
}

/// A run of deliveries that performs the given casts in order: it splits
/// into one stretch per cast, and each stretch is that cast.
pub open spec fn delivers(sent: Seq<Delivery>, casts: Seq<Cast>) -> bool
    decreases casts.len(),
{
    if casts.len() == 0 {
        sent.len() == 0
    } else {
        let last = casts.last();
        let n = last.targets.len() as int;
        &&& last.targets.finite()
        &&& n <= sent.len()
        &&& is_cast(sent.skip(sent.len() - n), last.targets, last.frame)
        &&& delivers(sent.take(sent.len() - n), casts.drop_last())
    }
}

/// The number of deliveries that a list of casts asks for.
pub open spec fn cast_count(casts: Seq<Cast>) -> nat
    decreases casts.len(),
{
    if casts.len() == 0 {
        0
    } else {
        cast_count(casts.drop_last()) + casts.last().targets.len()
    }
}

/// The test for one session.
pub open spec fn is_session(session: usize) -> spec_fn(usize) -> bool {
    |s: usize| s == session
}

/// How often a run of deliveries addresses a session.
pub open spec fn times_served(sent: Seq<Delivery>, session: usize) -> nat {
    targets_of(sent).filter(is_session(session)).len()
}

/// A cast has as many deliveries as it has targets.
pub proof fn lemma_cast_len(sent: Seq<Delivery>, targets: Set<usize>, frame: Seq<char>)
    requires
        is_cast(sent, targets, frame),
    ensures
        targets.finite(),
        sent.len() == targets.len(),
{
    targets_of(sent).unique_seq_to_set();
    seq_to_set_is_finite(targets_of(sent));
}

/// In a cast every target is served exactly once and no other session is
/// served at all.
pub proof fn lemma_cast_serves_each_once(
    sent: Seq<Delivery>,
    targets: Set<usize>,
    frame: Seq<char>,
    session: usize,
)
    requires
        is_cast(sent, targets, frame),
    ensures
        times_served(sent, session) == if targets.contains(session) {
            1nat
        } else {
            0nat
        },
{
    lemma_count_in_unique(targets_of(sent), session);
    assert(targets_of(sent).to_set().contains(session) <==> targets_of(sent).contains(session));
}

/// A value occurs once in a sequence without duplicates that holds it, and
/// not at all in one that does not.
proof fn lemma_count_in_unique(s: Seq<usize>, x: usize)
    requires
        s.no_duplicates(),
    ensures
        s.filter(is_session(x)).len() == if s.contains(x) {
            1nat
        } else {
            0nat
        },
    decreases s.len(),
{
    let p = is_session(x);
    reveal(Seq::filter);
    if s.len() > 0 {
        let front = s.drop_last();
        assert(front.no_duplicates());
        lemma_count_in_unique(front, x);
        if s.last() == x {
            assert(!front.contains(x)) by {
                if front.contains(x) {
                    let i = choose|i: int| 0 <= i < front.len() && front[i] == x;
                    assert(s[i] == s[s.len() - 1]);
                }
            }
            assert(s.contains(x)) by {
                assert(s[s.len() - 1] == x);
            }
        } else {
            assert(s.contains(x) == front.contains(x)) by {
                if s.contains(x) {
                    let i = choose|i: int| 0 <= i < s.len() && s[i] == x;
                    assert(front[i] == x);
                }
                if front.contains(x) {
                    let i = choose|i: int| 0 <= i < front.len() && front[i] == x;
                    assert(s[i] == x);
                }
            }
        }
    } else {
        assert(s.filter(p) =~= Seq::<usize>::empty());
    }
}

/// A run that performs one cast is that cast.
pub proof fn lemma_delivers_one(sent: Seq<Delivery>, cast: Cast)
    ensures
        delivers(sent, seq![cast]) <==> is_cast(sent, cast.targets, cast.frame),
{
    reveal_with_fuel(delivers, 2);
    let casts = seq![cast];
    assert(casts.last() == cast);
    assert(casts.drop_last() =~= Seq::<Cast>::empty());
    let n = cast.targets.len() as int;
    if is_cast(sent, cast.targets, cast.frame) {
        lemma_cast_len(sent, cast.targets, cast.frame);
        assert(sent.skip(0) =~= sent);
        assert(sent.take(0).len() == 0);
        assert(delivers(sent.take(0), casts.drop_last()));
    }
    if delivers(sent, casts) {
        let tail = sent.skip(sent.len() - n);
        lemma_cast_len(tail, cast.targets, cast.frame);
        assert(sent.take(sent.len() - n).len() == 0);
        assert(tail =~= sent);
    }
}

/// A cast after a run of casts is a run of casts.
pub proof fn lemma_delivers_push(
    sent: Seq<Delivery>,
    casts: Seq<Cast>,
    more: Seq<Delivery>,
    cast: Cast,
)
    requires
        delivers(sent, casts),
        is_cast(more, cast.targets, cast.frame),
    ensures
        delivers(sent + more, casts.push(cast)),
{
    lemma_cast_len(more, cast.targets, cast.frame);
    let all = sent + more;
    let grown = casts.push(cast);
    assert(grown.last() == cast);
    assert(grown.drop_last() =~= casts);
    assert(all.skip(all.len() - more.len()) =~= more);
    assert(all.take(all.len() - more.len()) =~= sent);
}

/// A run of casts has as many deliveries as the casts have targets.
pub proof fn lemma_delivers_len(sent: Seq<Delivery>, casts: Seq<Cast>)
    requires
        delivers(sent, casts),
    ensures
        sent.len() == cast_count(casts),
    decreases casts.len(),
{
    if casts.len() > 0 {
        let n = casts.last().targets.len() as int;
        lemma_cast_len(sent.skip(sent.len() - n), casts.last().targets, casts.last().frame);
        lemma_delivers_len(sent.take(sent.len() - n), casts.drop_last());
    }
}

/// Every delivery of a run of casts goes to a target of one of the casts and
/// carries that cast's frame.
pub proof fn lemma_delivers_only_targets(sent: Seq<Delivery>, casts: Seq<Cast>, i: int)
    requires
        delivers(sent, casts),
        0 <= i < sent.len(),
    ensures
        exists|c: int|
            0 <= c < casts.len() && (#[trigger] casts[c]).targets.contains(sent[i].session)
                && casts[c].frame == sent[i].frame@,
    decreases casts.len(),
{
    if casts.len() > 0 {
        let last = casts.last();
        let n = last.targets.len() as int;
        let cut = sent.len() - n;
        if i < cut {
            lemma_delivers_only_targets(sent.take(cut), casts.drop_last(), i);
            let c = choose|c: int|
                0 <= c < casts.drop_last().len() && (#[trigger] casts.drop_last()[c]).targets.contains(
                    sent.take(cut)[i].session,
                ) && casts.drop_last()[c].frame == sent.take(cut)[i].frame@;
            assert(casts[c] == casts.drop_last()[c]);
        } else {
            let tail = sent.skip(cut);
            assert(tail[i - cut] == sent[i]);
            assert(targets_of(tail)[i - cut] == sent[i].session);
            assert(targets_of(tail).to_set().contains(sent[i].session));
            assert(casts[casts.len() - 1] == last);
        }
    }
}

/// Appends to `out` one delivery of `frame` for each session in `targets`.
pub(crate) fn push_cast(
    out: &mut Vec<Delivery>,
    targets: &HashSet<usize>,
    frame: &String,
    Ghost(casts): Ghost<Seq<Cast>>,
)
    requires
        delivers(old(out)@, casts),
    ensures
        delivers(final(out)@, casts.push(Cast { targets: targets@, frame: frame@ })),
{
    broadcast use group_hash_axioms;

    let ghost start = out@;
    let ghost all = spec_hash_keys_iter(targets).remaining();
    for s in it: targets.iter()
        invariant
            it.seq() == all,
            out@.len() == start.len() + it.index(),
            out@.take(start.len() as int) == start,
            forall|j: int|
                0 <= j < it.index() ==> (#[trigger] out@[start.len() + j]).session == *all[j],
            forall|j: int|
                0 <= j < it.index() ==> (#[trigger] out@[start.len() + j]).frame@ == frame@,
    {
        out.push(Delivery { session: *s, frame: frame.clone() });
    }
    proof {
        let tail = out@.skip(start.len() as int);
        assert forall|j: int| 0 <= j < tail.len() implies targets_of(tail)[j] == all.unref()[j]
            && (#[trigger] tail[j]).frame@ == frame@ by {
            assert(tail[j] == out@[start.len() + j]);
        }
        assert(targets_of(tail) =~= all.unref());
        assert(all.unref().no_duplicates()) by {
            assert forall|i: int, j: int| 0 <= i < j < all.len() implies all.unref()[i]
                != all.unref()[j] by {
                assert(all[i] != all[j]);
            }
        }
        assert(out@ =~= start + tail);
        lemma_delivers_push(start, casts, tail, Cast { targets: targets@, frame: frame@ });
    }
}

/// Appends to `out` one delivery of `frame` for each key of `directory`.
pub(crate) fn push_cast_to_keys(
    out: &mut Vec<Delivery>,
    directory: &HashMap<usize, Option<u128>>,
    frame: &String,
    Ghost(casts): Ghost<Seq<Cast>>,
)
    requires
        delivers(old(out)@, casts),
    ensures
        delivers(final(out)@, casts.push(Cast { targets: directory@.dom(), frame: frame@ })),
{
    broadcast use group_hash_axioms;

    let ghost start = out@;
    let ghost all = spec_keys_iter(directory).remaining();
    for s in it: directory.keys()
        invariant
            it.seq() == all,
            out@.len() == start.len() + it.index(),
            out@.take(start.len() as int) == start,
            forall|j: int|
                0 <= j < it.index() ==> (#[trigger] out@[start.len() + j]).session == *all[j],
            forall|j: int|
                0 <= j < it.index() ==> (#[trigger] out@[start.len() + j]).frame@ == frame@,
    {
        out.push(Delivery { session: *s, frame: frame.clone() });
    }
    proof {
        let tail = out@.skip(start.len() as int);
        assert forall|j: int| 0 <= j < tail.len() implies targets_of(tail)[j] == all.unref()[j]
            && (#[trigger] tail[j]).frame@ == frame@ by {
            assert(tail[j] == out@[start.len() + j]);
        }
        assert(targets_of(tail) =~= all.unref());
        assert(all.unref().no_duplicates()) by {
            assert forall|i: int, j: int| 0 <= i < j < all.len() implies all.unref()[i]
                != all.unref()[j] by {
                assert(all[i] != all[j]);
            }
        }
        assert(out@ =~= start + tail);
        lemma_delivers_push(start, casts, tail, Cast { targets: directory@.dom(), frame: frame@ });
    }
}

} // verus!
