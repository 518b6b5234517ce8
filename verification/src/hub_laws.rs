//! What the hub's operations promise of one another.

use vstd::prelude::*;
use crate::hub::HubView;
use crate::seqs::{lemma_filter_other_than, other_than};

verus! {

/// A message to a user reaches every connection registered for that user:
/// after connection `c` of `u` is registered, `u`'s connections are the
/// earlier ones followed by `c`.
pub proof fn law_register_then_send(h: HubView, u: Seq<char>, c: u64)
    ensures
        h.register(u, c).conns_of(u) == h.conns_of(u).push(c),
        forall|w: Seq<char>| w != u ==> #[trigger] h.register(u, c).conns_of(w) == h.conns_of(w),
{
}

/// Closing a connection undoes registering it: the hub is as before, except
/// that a user who had no other connection is no longer subscribed.
pub proof fn law_unregister_undoes_register(h: HubView, u: Seq<char>, c: u64)
    requires
        h.inv(),
        !h.conns_of(u).contains(c),
    ensures
        h.connections.dom().contains(u) ==> h.register(u, c).unregister(u, c) == h,
        !h.connections.dom().contains(u) ==> h.register(u, c).unregister(u, c) == h.unsubscribe(u),
{
    let old_list = h.conns_of(u);
    let list = old_list.push(c);
    reveal(Seq::filter);
    old_list.lemma_filter_push(c, other_than(c));
    lemma_filter_other_than(old_list, c);
    assert(list.filter(other_than(c)) == old_list);
    let r = h.register(u, c);
    assert(r.connections.dom().contains(u));
    assert(r.connections[u] == list);
    if h.connections.dom().contains(u) {
        assert(old_list.len() > 0);
        assert(r.unregister(u, c).connections =~= h.connections);
    } else {
        assert(old_list =~= Seq::<u64>::empty());
        assert(r.unregister(u, c).connections =~= h.connections);
    }
}

/// A closed connection receives nothing more, and a user whose last
/// connection closes is neither connected nor subscribed.
pub proof fn law_unregister_removes(h: HubView, u: Seq<char>, c: u64)
    requires
        h.inv(),
    ensures
        !h.unregister(u, c).conns_of(u).contains(c),
        h.conns_of(u) == seq![c] ==> !h.unregister(u, c).connections.dom().contains(u)
            && !h.unregister(u, c).is_subscribed(u),
        forall|w: Seq<char>| w != u ==> #[trigger] h.unregister(u, c).conns_of(w) == h.conns_of(w),
{
    lemma_filter_other_than(h.conns_of(u), c);
    lemma_filter_other_than(h.subscribed, u);
    if h.conns_of(u) == seq![c] {
        assert(h.connections.dom().contains(u));
        let rest = h.connections[u].filter(other_than(c));
        assert(!rest.contains(c));
        if rest.len() > 0 {
            assert(h.connections[u].contains(rest[0]));
            assert(rest.contains(rest[0]));
        }
    }
}

/// Subscribing is idempotent and undone by unsubscribing.
pub proof fn law_subscription(h: HubView, u: Seq<char>)
    requires
        h.inv(),
    ensures
        h.subscribe(u).is_subscribed(u),
        h.subscribe(u).subscribe(u) == h.subscribe(u),
        !h.unsubscribe(u).is_subscribed(u),
        !h.is_subscribed(u) ==> h.subscribe(u).unsubscribe(u) == h,
        forall|w: Seq<char>| w != u ==> (#[trigger] h.subscribe(u).is_subscribed(w) <==> h.is_subscribed(w)),
        forall|w: Seq<char>| w != u ==> (#[trigger] h.unsubscribe(u).is_subscribed(w) <==> h.is_subscribed(w)),
{
    lemma_filter_other_than(h.subscribed, u);
    let s = h.subscribe(u);
    if !h.is_subscribed(u) {
        assert(s.subscribed[h.subscribed.len() as int] == u);
        reveal(Seq::filter);
        h.subscribed.lemma_filter_push(u, other_than(u));
        assert(s.unsubscribe(u).subscribed == h.subscribed);
        assert forall|w: Seq<char>| w != u implies (#[trigger] s.is_subscribed(w) <==> h.is_subscribed(w)) by {
            if s.subscribed.contains(w) {
                let k = choose|k: int| 0 <= k < s.subscribed.len() && s.subscribed[k] == w;
                assert(h.subscribed[k] == w);
            }
            if h.subscribed.contains(w) {
                let k = choose|k: int| 0 <= k < h.subscribed.len() && h.subscribed[k] == w;
                assert(s.subscribed[k] == w);
            }
        }
    }
}

/// Joining a voice channel puts the user in it once, at the end, and
/// joining again changes nothing.
pub proof fn law_voice_join(h: HubView, c: Seq<char>, u: Seq<char>)
    requires
        h.inv(),
    ensures
        h.voice_join(c, u).in_voice(c, u),
        h.voice_join(c, u).voice_join(c, u) == h.voice_join(c, u),
        !h.in_voice(c, u) ==> h.voice_join(c, u).users_in(c) == h.users_in(c).push(u),
        h.in_voice(c, u) ==> h.voice_join(c, u) == h,
        forall|d: Seq<char>| d != c ==> #[trigger] h.voice_join(c, u).users_in(d) == h.users_in(d),
{
    let j = h.voice_join(c, u);
    if !h.in_voice(c, u) {
        assert(h.users_in(c).push(u)[h.users_in(c).len() as int] == u);
    } else {
        assert(h.voice_channels.dom().contains(c));
        assert(j.voice_channels =~= h.voice_channels);
    }
    assert(j.voice_join(c, u).voice_channels =~= j.voice_channels);
}

/// Leaving a voice channel takes the user out of it and leaves the other
/// channels alone; leaving right after joining undoes the join.
pub proof fn law_voice_leave(h: HubView, c: Seq<char>, u: Seq<char>)
    requires
        h.inv(),
    ensures
        !h.voice_leave(c, u).in_voice(c, u),
        forall|d: Seq<char>| d != c ==> #[trigger] h.voice_leave(c, u).users_in(d) == h.users_in(d),
        forall|w: Seq<char>| w != u ==> (#[trigger] h.voice_leave(c, u).in_voice(c, w) <==> h.in_voice(c, w)),
        !h.in_voice(c, u) ==> h.voice_join(c, u).voice_leave(c, u) == h,
{
    lemma_filter_other_than(h.users_in(c), u);
    assert forall|w: Seq<char>| w != u implies (#[trigger] h.voice_leave(c, u).in_voice(c, w)
        <==> h.in_voice(c, w)) by {
        if h.voice_channels.dom().contains(c) {
            let rest = h.voice_channels[c].filter(other_than(u));
            if rest.len() == 0 && h.in_voice(c, w) {
                assert(rest.contains(w));
            }
        }
    }
    if !h.in_voice(c, u) {
        let users = h.users_in(c);
        reveal(Seq::filter);
        users.lemma_filter_push(u, other_than(u));
        assert(users.push(u).filter(other_than(u)) == users);
        let j = h.voice_join(c, u);
        if h.voice_channels.dom().contains(c) {
            assert(users.len() > 0);
            assert(j.voice_leave(c, u).voice_channels =~= h.voice_channels);
        } else {
            assert(users =~= Seq::<Seq<char>>::empty());
            assert(j.voice_leave(c, u).voice_channels =~= h.voice_channels);
        }
    }
}

/// On disconnect a user leaves every voice channel; everyone else stays
/// where they were, and no channel is left empty.
pub proof fn law_voice_leave_all(h: HubView, u: Seq<char>)
    requires
        h.inv(),
    ensures
        forall|c: Seq<char>| !#[trigger] h.voice_leave_all(u).in_voice(c, u),
        forall|c: Seq<char>, w: Seq<char>|
            w != u ==> (#[trigger] h.voice_leave_all(u).in_voice(c, w) <==> h.in_voice(c, w)),
        h.voice_leave_all(u).inv(),
{
    let a = h.voice_leave_all(u);
    assert forall|c: Seq<char>| !#[trigger] a.in_voice(c, u) by {
        lemma_filter_other_than(h.users_in(c), u);
    }
    assert forall|c: Seq<char>, w: Seq<char>|
        w != u implies (#[trigger] a.in_voice(c, w) <==> h.in_voice(c, w)) by {
        lemma_filter_other_than(h.users_in(c), u);
        if h.voice_channels.dom().contains(c) {
            let rest = h.voice_channels[c].filter(other_than(u));
            if rest.len() == 0 && h.in_voice(c, w) {
                assert(rest.contains(w));
            }
        }
    }
    assert(a.voice_channels.dom() =~= h.voice_channels.dom().filter(
        |c: Seq<char>| h.voice_channels[c].filter(other_than(u)).len() > 0,
    ));
    assert forall|c: Seq<char>| #[trigger] a.voice_channels.dom().contains(c) implies a.voice_channels[c].len() > 0
        && a.voice_channels[c].no_duplicates() by {
        lemma_filter_other_than(h.voice_channels[c], u);
    }
}

/// A connection is addressed by a fan-out exactly when it belongs to one of
/// the users addressed.
pub proof fn law_fan_out_members(h: HubView, users: Seq<Seq<char>>, c: u64)
    ensures
        h.fan_out(users).contains(c) <==> exists|i: int|
            0 <= i < users.len() && #[trigger] h.conns_of(users[i]).contains(c),
    decreases users.len(),
{
    if users.len() > 0 {
        let r = users.drop_last();
        let l = users.last();
        law_fan_out_members(h, r, c);
        let a = h.fan_out(r);
        let b = h.conns_of(l);
        assert((a + b).contains(c) <==> (a.contains(c) || b.contains(c))) by {
            if (a + b).contains(c) {
                let k = choose|k: int| 0 <= k < (a + b).len() && (a + b)[k] == c;
                if k < a.len() {
                    assert(a[k] == c);
                } else {
                    assert(b[k - a.len()] == c);
                }
            }
            if a.contains(c) {
                let k = choose|k: int| 0 <= k < a.len() && a[k] == c;
                assert((a + b)[k] == c);
            }
            if b.contains(c) {
                let k = choose|k: int| 0 <= k < b.len() && b[k] == c;
                assert((a + b)[a.len() + k] == c);
            }
        }
        if exists|i: int| 0 <= i < users.len() && #[trigger] h.conns_of(users[i]).contains(c) {
            let i = choose|i: int| 0 <= i < users.len() && #[trigger] h.conns_of(users[i]).contains(c);
            if i < r.len() {
                assert(r[i] == users[i]);
            }
        }
        if exists|i: int| 0 <= i < r.len() && #[trigger] h.conns_of(r[i]).contains(c) {
            let i = choose|i: int| 0 <= i < r.len() && #[trigger] h.conns_of(r[i]).contains(c);
            assert(users[i] == r[i]);
        }
        assert(users[users.len() - 1] == l);
    }
}

/// Every operation keeps the hub's invariant: connection lists and voice
/// channels are never empty, and no name is listed twice.
pub proof fn law_operations_keep_inv(h: HubView, u: Seq<char>, c: Seq<char>, conn: u64)
    requires
        h.inv(),
    ensures
        h.register(u, conn).inv(),
        h.unregister(u, conn).inv(),
        h.subscribe(u).inv(),
        h.unsubscribe(u).inv(),
        h.voice_join(c, u).inv(),
        h.voice_leave(c, u).inv(),
        h.voice_leave_all(u).inv(),
{
    lemma_filter_other_than(h.conns_of(u), conn);
    lemma_filter_other_than(h.subscribed, u);
    lemma_filter_other_than(h.users_in(c), u);
    law_voice_leave_all(h, u);
    let s = h.subscribe(u);
    if !h.subscribed.contains(u) {
        assert forall|i: int, j: int|
            0 <= i < s.subscribed.len() && 0 <= j < s.subscribed.len() && i != j implies s.subscribed[i]
            != s.subscribed[j] by {
            if i < h.subscribed.len() && j < h.subscribed.len() {
            } else if i < h.subscribed.len() {
                assert(h.subscribed.contains(s.subscribed[i]));
            } else {
                assert(h.subscribed.contains(s.subscribed[j]));
            }
        }
    }
    let users = h.users_in(c);
    if !users.contains(u) {
        let p = users.push(u);
        assert forall|i: int, j: int| 0 <= i < p.len() && 0 <= j < p.len() && i != j implies p[i]
            != p[j] by {
            if i < users.len() && j < users.len() {
            } else if i < users.len() {
                assert(users.contains(p[i]));
            } else {
                assert(users.contains(p[j]));
            }
        }
    }
}

} // verus!
