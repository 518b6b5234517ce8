//! The connection hub: who is connected on which connections, who is
//! subscribed to group traffic, and who sits in which voice channel.
//!
//! The hub decides where a message goes; the caller owns the sending ends
//! of the connections, names each by a number, and delivers to the numbers
//! that the hub hands back.

use vstd::prelude::*;
use crate::assoc::{
    as_map, has_key, keys_distinct, lemma_as_map_empty, lemma_as_map_index, lemma_as_map_len,
    lemma_as_map_push, lemma_as_map_remove, lemma_as_map_update,
};
use crate::seqs::{lemma_filter_other_than, other_than};

verus! {

/// A connection of one client, named by a number the caller chose.
pub type ConnId = u64;

/// The abstract state of a hub.
pub struct HubView {
    /// Each connected user and that user's open connections, oldest first.
    pub connections: Map<Seq<char>, Seq<ConnId>>,
    /// The users subscribed to group traffic, in the order they subscribed.
    pub subscribed: Seq<Seq<char>>,
    /// Each active voice channel and its users, in the order they joined.
    pub voice_channels: Map<Seq<char>, Seq<Seq<char>>>,
}

impl HubView {
    /// What every reachable hub state satisfies.
    pub open spec fn inv(self) -> bool {
        &&& self.connections.dom().finite()
        &&& forall|u: Seq<char>| #[trigger]
            self.connections.dom().contains(u) ==> self.connections[u].len() > 0
        &&& self.subscribed.no_duplicates()
        &&& self.voice_channels.dom().finite()
        &&& forall|c: Seq<char>| #[trigger]
            self.voice_channels.dom().contains(c) ==> self.voice_channels[c].len() > 0
                && self.voice_channels[c].no_duplicates()
    }

    /// The hub with nothing in it.
    pub open spec fn empty() -> HubView {
        HubView {
            connections: Map::empty(),
            subscribed: Seq::empty(),
            voice_channels: Map::empty(),
        }
    }

    /// The open connections of `u` (none when `u` is not connected).
    pub open spec fn conns_of(self, u: Seq<char>) -> Seq<ConnId> {
        if self.connections.dom().contains(u) {
            self.connections[u]
        } else {
            Seq::empty()
        }
    }

    /// The users in voice channel `c` (none when the channel is not active).
    pub open spec fn users_in(self, c: Seq<char>) -> Seq<Seq<char>> {
        if self.voice_channels.dom().contains(c) {
            self.voice_channels[c]
        } else {
            Seq::empty()
        }
    }

    /// `u` is subscribed to group traffic.
    pub open spec fn is_subscribed(self, u: Seq<char>) -> bool {
        self.subscribed.contains(u)
    }

    /// The connections a message to each of `users` in turn goes to.
    pub open spec fn fan_out(self, users: Seq<Seq<char>>) -> Seq<ConnId>
        decreases users.len(),
    {
        if users.len() == 0 {
            Seq::empty()
        } else {
            self.fan_out(users.drop_last()) + self.conns_of(users.last())
        }
    }

    /// The number of users with at least one open connection.
    pub open spec fn online_count(self) -> nat {
        self.connections.dom().len()
    }

    /// After connection `c` of `u` is registered.
    pub open spec fn register(self, u: Seq<char>, c: ConnId) -> HubView {
        HubView { connections: self.connections.insert(u, self.conns_of(u).push(c)), ..self }
    }

    /// After connection `c` of `u` is closed: when it was the last one, `u`
    /// is no longer connected nor subscribed.
    pub open spec fn unregister(self, u: Seq<char>, c: ConnId) -> HubView {
        if !self.connections.dom().contains(u) {
            self
        } else {
            let rest = self.connections[u].filter(other_than(c));
            if rest.len() == 0 {
                HubView {
                    connections: self.connections.remove(u),
                    subscribed: self.subscribed.filter(other_than(u)),
                    ..self
                }
            } else {
                HubView { connections: self.connections.insert(u, rest), ..self }
            }
        }
    }

    /// After `u` subscribes to group traffic.
    pub open spec fn subscribe(self, u: Seq<char>) -> HubView {
        if self.subscribed.contains(u) {
            self
        } else {
            HubView { subscribed: self.subscribed.push(u), ..self }
        }
    }

    /// After `u` unsubscribes from group traffic.
    pub open spec fn unsubscribe(self, u: Seq<char>) -> HubView {
        HubView { subscribed: self.subscribed.filter(other_than(u)), ..self }
    }

    /// `u` is in voice channel `c`.
    pub open spec fn in_voice(self, c: Seq<char>, u: Seq<char>) -> bool {
        self.users_in(c).contains(u)
    }

    /// The users of channel `c` once `u` has joined it: `u` is appended
    /// unless already there.
    pub open spec fn joined(self, c: Seq<char>, u: Seq<char>) -> Seq<Seq<char>> {
        if self.users_in(c).contains(u) {
            self.users_in(c)
        } else {
            self.users_in(c).push(u)
        }
    }

    /// After `u` joins voice channel `c`.
    pub open spec fn voice_join(self, c: Seq<char>, u: Seq<char>) -> HubView {
        HubView { voice_channels: self.voice_channels.insert(c, self.joined(c, u)), ..self }
    }

    /// After `u` leaves voice channel `c`: a channel left empty is closed.
    pub open spec fn voice_leave(self, c: Seq<char>, u: Seq<char>) -> HubView {
        if !self.voice_channels.dom().contains(c) {
            self
        } else {
            let rest = self.voice_channels[c].filter(other_than(u));
            if rest.len() == 0 {
                HubView { voice_channels: self.voice_channels.remove(c), ..self }
            } else {
                HubView { voice_channels: self.voice_channels.insert(c, rest), ..self }
            }
        }
    }

    /// After `u` leaves every voice channel: channels left empty are closed.
    pub open spec fn voice_leave_all(self, u: Seq<char>) -> HubView {
        HubView {
            voice_channels: Map::new(
                |c: Seq<char>|
                    self.voice_channels.dom().contains(c) && self.voice_channels[c].filter(
                        other_than(u),
                    ).len() > 0,
                |c: Seq<char>| self.voice_channels[c].filter(other_than(u)),
            ),
            ..self
        }
    }
}

/// The connection table held by a vector of entries.
spec fn conn_entries(s: Seq<(String, Vec<ConnId>)>) -> Seq<(Seq<char>, Seq<ConnId>)> {
    s.map_values(|e: (String, Vec<ConnId>)| (e.0@, e.1@))
}

/// The voice table held by a vector of entries.
pub open spec fn voice_entries(s: Seq<(String, Vec<String>)>) -> Seq<(Seq<char>, Seq<Seq<char>>)> {
    s.map_values(|e: (String, Vec<String>)| (e.0@, names(e.1)))
}

/// The names held by a vector of strings.
pub open spec fn names(v: Vec<String>) -> Seq<Seq<char>> {
    v@.map_values(|s: String| s@)
}

/// The live state of the connection hub. Each table is a vector of entries
/// keyed by name, at most one entry per name, whose view is a map; the order
/// of the entries carries no meaning.
pub struct Hub {
    connections: Vec<(String, Vec<ConnId>)>,
    subscribed: Vec<String>,
    voice_channels: Vec<(String, Vec<String>)>,
}

impl Hub {
    /// The connection table as a sequence of (user, connections) pairs.
    pub closed spec fn conn_table(&self) -> Seq<(Seq<char>, Seq<ConnId>)> {
        conn_entries(self.connections@)
    }

    /// The voice table as a sequence of (channel, users) pairs.
    pub closed spec fn voice_table(&self) -> Seq<(Seq<char>, Seq<Seq<char>>)> {
        voice_entries(self.voice_channels@)
    }

    /// The hub's state is consistent.
    pub closed spec fn wf(&self) -> bool {
        &&& keys_distinct(self.conn_table())
        &&& keys_distinct(self.voice_table())
        &&& self@.inv()
    }
}

impl View for Hub {
    type V = HubView;

    closed spec fn view(&self) -> HubView {
        HubView {
            connections: as_map(self.conn_table()),
            subscribed: names(self.subscribed),
            voice_channels: as_map(self.voice_table()),
        }
    }
}

/// Position of the entry keyed `key`, if any.
fn find_entry<V>(entries: &Vec<(String, V)>, key: &String) -> (r: Option<usize>)
    ensures
        match r {
            Some(i) => i < entries@.len() && entries@[i as int].0@ == key@,
            None => forall|i: int| 0 <= i < entries@.len() ==> #[trigger] entries@[i].0@ != key@,
        },
{
    let mut i: usize = 0;
    while i < entries.len()
        invariant
            i <= entries@.len(),
            forall|j: int| 0 <= j < i ==> #[trigger] entries@[j].0@ != key@,
        decreases entries@.len() - i,
    {
        if entries[i].0 == *key {
            return Some(i);
        }
        i = i + 1;
    }
    None
}

/// Whether `v` holds the name `x`.
fn names_contain(v: &Vec<String>, x: &String) -> (r: bool)
    ensures
        r == names(*v).contains(x@),
{
    let mut i: usize = 0;
    while i < v.len()
        invariant
            i <= v@.len(),
            forall|j: int| 0 <= j < i ==> #[trigger] v@[j]@ != x@,
        decreases v@.len() - i,
    {
        if v[i] == *x {
            assert(names(*v)[i as int] == x@);
            return true;
        }
        i = i + 1;
    }
    assert forall|j: int| 0 <= j < names(*v).len() implies names(*v)[j] != x@ by {
        assert(names(*v)[j] == v@[j]@);
    }
    false
}

/// The connections of `v` other than `c`, in order.
fn without_conn(v: &Vec<ConnId>, c: ConnId) -> (r: Vec<ConnId>)
    ensures
        r@ == v@.filter(other_than(c)),
{
    let mut out: Vec<ConnId> = Vec::new();
    let mut i: usize = 0;
    while i < v.len()
        invariant
            i <= v@.len(),
            out@ == v@.take(i as int).filter(other_than(c)),
        decreases v@.len() - i,
    {
        proof {
            assert(v@.take(i + 1) =~= v@.take(i as int).push(v@[i as int]));
            v@.take(i as int).lemma_filter_push(v@[i as int], other_than(c));
        }
        if v[i] != c {
            out.push(v[i]);
        }
        i = i + 1;
    }
    assert(v@.take(v@.len() as int) =~= v@);
    out
}

/// The names of `v` other than `x`, in order.
fn without_name(v: &Vec<String>, x: &String) -> (r: Vec<String>)
    ensures
        names(r) == names(*v).filter(other_than(x@)),
{
    let mut out: Vec<String> = Vec::new();
    let mut i: usize = 0;
    while i < v.len()
        invariant
            i <= v@.len(),
            names(out) == names(*v).take(i as int).filter(other_than(x@)),
        decreases v@.len() - i,
    {
        proof {
            assert(names(*v).take(i + 1) =~= names(*v).take(i as int).push(names(*v)[i as int]));
            names(*v).take(i as int).lemma_filter_push(names(*v)[i as int], other_than(x@));
        }
        if v[i] != *x {
            let s = v[i].clone();
            let ghost before = names(out);
            out.push(s);
            assert(names(out) =~= before.push(v@[i as int]@));
        }
        i = i + 1;
    }
    assert(names(*v).take(v@.len() as int) =~= names(*v));
    out
}

/// A copy of a vector of names.
fn copy_names(v: &Vec<String>) -> (r: Vec<String>)
    ensures
        names(r) == names(*v),
{
    let mut out: Vec<String> = Vec::new();
    let mut i: usize = 0;
    while i < v.len()
        invariant
            i <= v@.len(),
            names(out) == names(*v).take(i as int),
        decreases v@.len() - i,
    {
        let s = v[i].clone();
        let ghost before = names(out);
        out.push(s);
        assert(names(out) =~= before.push(v@[i as int]@));
        assert(names(*v).take(i + 1) =~= names(*v).take(i as int).push(names(*v)[i as int]));
        i = i + 1;
    }
    assert(names(*v).take(v@.len() as int) =~= names(*v));
    out
}

impl Hub {
    /// An empty hub.
    pub fn new() -> (h: Hub)
        ensures
            h.wf(),
            h@ == HubView::empty(),
    {
        let h = Hub { connections: Vec::new(), subscribed: Vec::new(), voice_channels: Vec::new() };
        proof {
            lemma_as_map_empty(h.conn_table());
            lemma_as_map_empty(h.voice_table());
            assert(names(h.subscribed) =~= Seq::<Seq<char>>::empty());
        }
        h
    }

    /// A hub built by its own operations satisfies `HubView::inv`, so the
    /// laws stated over hub views apply to it.
    pub proof fn law_reachable_hub_inv(&self)
        requires
            self.wf(),
        ensures
            self@.inv(),
    {
    }

    /// Records connection `conn` of `username`.
    pub fn register(&mut self, username: &str, conn: ConnId)
        requires
            old(self).wf(),
        ensures
            final(self).wf(),
            final(self)@ == old(self)@.register(username@, conn),
    {
        let key = username.to_owned();
        let ghost t = self.conn_table();
        match find_entry(&self.connections, &key) {
            Some(i) => {
                proof {
                    lemma_as_map_index(t, i as int);
                }
                let ghost old_conns = self.connections@[i as int].1@;
                self.connections[i].1.push(conn);
                proof {
                    assert(self.conn_table() =~= t.update(i as int, (t[i as int].0, old_conns.push(conn))));
                    lemma_as_map_update(t, i as int, old_conns.push(conn));
                }
            },
            None => {
                let mut v: Vec<ConnId> = Vec::new();
                v.push(conn);
                proof {
                    assert(!has_key(t, key@)) by {
                        if has_key(t, key@) {
                            let j = choose|j: int| 0 <= j < t.len() && #[trigger] t[j].0 == key@;
                            assert(self.connections@[j].0@ == key@);
                        }
                    }
                }
                self.connections.push((key, v));
                proof {
                    assert(self.conn_table() =~= t.push((username@, seq![conn])));
                    assert(seq![conn] =~= Seq::<ConnId>::empty().push(conn));
                    lemma_as_map_push(t, username@, seq![conn]);
                }
            },
        }
        proof {
            lemma_as_map_len(self.conn_table());
        }
    }

    /// Forgets connection `conn` of `username`; when it was the user's last
    /// connection, the user is dropped and unsubscribed.
    pub fn unregister(&mut self, username: &str, conn: ConnId)
        requires
            old(self).wf(),
        ensures
            final(self).wf(),
            final(self)@ == old(self)@.unregister(username@, conn),
    {
        let key = username.to_owned();
        let ghost t = self.conn_table();
        let ghost v0 = self@;
        match find_entry(&self.connections, &key) {
            Some(i) => {
                proof {
                    lemma_as_map_index(t, i as int);
                }
                let rest = without_conn(&self.connections[i].1, conn);
                proof {
                    lemma_filter_other_than(t[i as int].1, conn);
                }
                if rest.len() == 0 {
                    self.connections.remove(i);
                    proof {
                        assert(self.conn_table() =~= t.remove(i as int));
                        lemma_as_map_remove(t, i as int);
                    }
                    let subs = without_name(&self.subscribed, &key);
                    self.subscribed = subs;
                    proof {
                        lemma_filter_other_than(v0.subscribed, username@);
                    }
                } else {
                    let ghost r = rest@;
                    self.connections[i].1 = rest;
                    proof {
                        assert(self.conn_table() =~= t.update(i as int, (t[i as int].0, r)));
                        lemma_as_map_update(t, i as int, r);
                    }
                }
            },
            None => {
                proof {
                    assert(!as_map(t).dom().contains(username@)) by {
                        if has_key(t, username@) {
                            let j = choose|j: int| 0 <= j < t.len() && #[trigger] t[j].0 == username@;
                            assert(self.connections@[j].0@ == username@);
                        }
                    }
                }
            },
        }
        proof {
            lemma_as_map_len(self.conn_table());
            assert(self@ == v0.unregister(username@, conn));
        }
    }

    /// Subscribes `username` to group traffic.
    pub fn subscribe(&mut self, username: &str)
        requires
            old(self).wf(),
        ensures
            final(self).wf(),
            final(self)@ == old(self)@.subscribe(username@),
    {
        let key = username.to_owned();
        let ghost v0 = self@;
        if !names_contain(&self.subscribed, &key) {
            self.subscribed.push(key);
            proof {
                assert(names(self.subscribed) =~= v0.subscribed.push(username@));
                let s = names(self.subscribed);
                assert forall|i: int, j: int|
                    0 <= i < s.len() && 0 <= j < s.len() && i != j implies s[i] != s[j] by {
                    if i < v0.subscribed.len() && j < v0.subscribed.len() {
                    } else if i < v0.subscribed.len() {
                        assert(v0.subscribed.contains(s[i]));
                    } else {
                        assert(v0.subscribed.contains(s[j]));
                    }
                }
            }
        }
        proof {
            assert(self@ =~= v0.subscribe(username@));
        }
    }

    /// Unsubscribes `username` from group traffic.
    pub fn unsubscribe(&mut self, username: &str)
        requires
            old(self).wf(),
        ensures
            final(self).wf(),
            final(self)@ == old(self)@.unsubscribe(username@),
    {
        let key = username.to_owned();
        let ghost v0 = self@;
        let subs = without_name(&self.subscribed, &key);
        self.subscribed = subs;
        proof {
            lemma_filter_other_than(v0.subscribed, username@);
            assert(self@ =~= v0.unsubscribe(username@));
        }
    }

    /// The open connections of `username`, oldest first.
    fn conns_of(&self, username: &String) -> (r: Vec<ConnId>)
        requires
            self.wf(),
        ensures
            r@ == self@.conns_of(username@),
    {
        let ghost t = self.conn_table();
        match find_entry(&self.connections, username) {
            Some(i) => {
                proof {
                    lemma_as_map_index(t, i as int);
                }
                let mut out: Vec<ConnId> = Vec::new();
                let src = &self.connections[i].1;
                let mut j: usize = 0;
                while j < src.len()
                    invariant
                        j <= src@.len(),
                        out@ == src@.take(j as int),
                    decreases src@.len() - j,
                {
                    out.push(src[j]);
                    assert(src@.take(j + 1) =~= src@.take(j as int).push(src@[j as int]));
                    j = j + 1;
                }
                assert(src@.take(src@.len() as int) =~= src@);
                out
            },
            None => {
                proof {
                    assert(!as_map(t).dom().contains(username@)) by {
                        if has_key(t, username@) {
                            let j = choose|j: int| 0 <= j < t.len() && #[trigger] t[j].0 == username@;
                            assert(self.connections@[j].0@ == username@);
                        }
                    }
                }
                Vec::new()
            },
        }
    }

    /// The connections a message for `username` goes to.
    pub fn send_to_user(&self, username: &str) -> (r: Vec<ConnId>)
        requires
            self.wf(),
        ensures
            r@ == self@.conns_of(username@),
    {
        let key = username.to_owned();
        self.conns_of(&key)
    }

    /// The number of users with at least one open connection.
    pub fn online_count(&self) -> (n: usize)
        requires
            self.wf(),
        ensures
            n == self@.online_count(),
    {
        proof {
            lemma_as_map_len(self.conn_table());
        }
        self.connections.len()
    }
}

/// Whether key `c` is among the first `n` entries of table `t`.
spec fn key_before<W>(t: Seq<(Seq<char>, W)>, c: Seq<char>, n: int) -> bool {
    exists|j: int| 0 <= j < n && #[trigger] t[j].0 == c
}

/// A table whose entries are all non-empty lists without repeats.
spec fn lists_ok(t: Seq<(Seq<char>, Seq<Seq<char>>)>) -> bool {
    forall|k: int| 0 <= k < t.len() ==> #[trigger] t[k].1.len() > 0 && t[k].1.no_duplicates()
}

impl Hub {
    /// Position of voice channel `key` in the voice table, with what it means
    /// for the view.
    fn find_channel(&self, key: &String) -> (r: Option<usize>)
        requires
            self.wf(),
        ensures
            match r {
                Some(i) => {
                    &&& i < self.voice_channels@.len()
                    &&& self.voice_channels@[i as int].0@ == key@
                    &&& self@.voice_channels.dom().contains(key@)
                    &&& self@.voice_channels[key@] == names(self.voice_channels@[i as int].1)
                },
                None => !self@.voice_channels.dom().contains(key@),
            },
    {
        let ghost t = self.voice_table();
        let r = find_entry(&self.voice_channels, key);
        proof {
            match r {
                Some(i) => {
                    lemma_as_map_index(t, i as int);
                },
                None => {
                    if has_key(t, key@) {
                        let j = choose|j: int| 0 <= j < t.len() && #[trigger] t[j].0 == key@;
                        assert(self.voice_channels@[j].0@ == key@);
                    }
                },
            }
        }
        r
    }

    /// Puts `username` in voice channel `channel_id` (at the end, unless
    /// already there) and returns the channel's users afterwards.
    pub fn voice_join(&mut self, channel_id: &str, username: &str) -> (users: Vec<String>)
        requires
            old(self).wf(),
        ensures
            final(self).wf(),
            final(self)@ == old(self)@.voice_join(channel_id@, username@),
            names(users) == old(self)@.joined(channel_id@, username@),
    {
        let ck = channel_id.to_owned();
        let uk = username.to_owned();
        let ghost v0 = self@;
        let ghost t = self.voice_table();
        match self.find_channel(&ck) {
            Some(i) => {
                let ghost old_users = names(self.voice_channels@[i as int].1);
                if !names_contain(&self.voice_channels[i].1, &uk) {
                    self.voice_channels[i].1.push(uk);
                    proof {
                        let nu = names(self.voice_channels@[i as int].1);
                        assert(nu =~= old_users.push(username@));
                        assert forall|a: int, b: int|
                            0 <= a < nu.len() && 0 <= b < nu.len() && a != b implies nu[a]
                            != nu[b] by {
                            if a < old_users.len() && b < old_users.len() {
                            } else if a < old_users.len() {
                                assert(old_users.contains(nu[a]));
                            } else {
                                assert(old_users.contains(nu[b]));
                            }
                        }
                    }
                }
                let ghost nu = names(self.voice_channels@[i as int].1);
                proof {
                    assert(self.voice_table() =~= t.update(i as int, (t[i as int].0, nu)));
                    lemma_as_map_update(t, i as int, nu);
                    lemma_as_map_len(self.voice_table());
                    assert(self@ =~= v0.voice_join(channel_id@, username@));
                }
                copy_names(&self.voice_channels[i].1)
            },
            None => {
                let mut v: Vec<String> = Vec::new();
                v.push(uk);
                let users = copy_names(&v);
                proof {
                    assert(names(v) =~= seq![username@]);
                    assert(seq![username@] =~= Seq::<Seq<char>>::empty().push(username@));
                    assert(!has_key(t, channel_id@));
                }
                self.voice_channels.push((ck, v));
                proof {
                    assert(self.voice_table() =~= t.push((channel_id@, seq![username@])));
                    lemma_as_map_push(t, channel_id@, seq![username@]);
                    lemma_as_map_len(self.voice_table());
                    assert(self@ =~= v0.voice_join(channel_id@, username@));
                }
                users
            },
        }
    }

    /// Takes `username` out of voice channel `channel_id`, closing the
    /// channel when it becomes empty; tells whether the user was in it.
    pub fn voice_leave(&mut self, channel_id: &str, username: &str) -> (was_present: bool)
        requires
            old(self).wf(),
        ensures
            final(self).wf(),
            final(self)@ == old(self)@.voice_leave(channel_id@, username@),
            was_present == old(self)@.in_voice(channel_id@, username@),
    {
        let ck = channel_id.to_owned();
        let uk = username.to_owned();
        let ghost v0 = self@;
        let ghost t = self.voice_table();
        match self.find_channel(&ck) {
            Some(i) => {
                let present = names_contain(&self.voice_channels[i].1, &uk);
                let rest = without_name(&self.voice_channels[i].1, &uk);
                proof {
                    lemma_filter_other_than(t[i as int].1, username@);
                }
                if rest.len() == 0 {
                    self.voice_channels.remove(i);
                    proof {
                        assert(self.voice_table() =~= t.remove(i as int));
                        lemma_as_map_remove(t, i as int);
                    }
                } else {
                    let ghost r = names(rest);
                    self.voice_channels[i].1 = rest;
                    proof {
                        assert(self.voice_table() =~= t.update(i as int, (t[i as int].0, r)));
                        lemma_as_map_update(t, i as int, r);
                    }
                }
                proof {
                    lemma_as_map_len(self.voice_table());
                    assert(self@ =~= v0.voice_leave(channel_id@, username@));
                }
                present
            },
            None => false,
        }
    }

    /// Takes `username` out of every voice channel, closing channels that
    /// become empty; returns the channels the user was in, each once.
    pub fn voice_leave_all(&mut self, username: &str) -> (affected: Vec<String>)
        requires
            old(self).wf(),
        ensures
            final(self).wf(),
            final(self)@ == old(self)@.voice_leave_all(username@),
            names(affected).no_duplicates(),
            forall|c: Seq<char>| #[trigger]
                names(affected).contains(c) <==> old(self)@.in_voice(c, username@),
    {
        let uk = username.to_owned();
        let ghost v0 = self@;
        let ghost t = self.voice_table();
        let ghost target = v0.voice_leave_all(username@).voice_channels;
        let mut kept: Vec<(String, Vec<String>)> = Vec::new();
        let mut affected: Vec<String> = Vec::new();
        let mut i: usize = 0;
        proof {
            assert forall|k: int| 0 <= k < t.len() implies #[trigger] t[k].1.len() > 0
                && t[k].1.no_duplicates() by {
                lemma_as_map_index(t, k);
            }
        }
        while i < self.voice_channels.len()
            invariant
                t == self.voice_table(),
                uk@ == username@,
                keys_distinct(t),
                lists_ok(t),
                v0.voice_channels == as_map(t),
                target == v0.voice_leave_all(username@).voice_channels,
                i <= t.len(),
                keys_distinct(voice_entries(kept@)),
                forall|c: Seq<char>| #[trigger]
                    as_map(voice_entries(kept@)).dom().contains(c) <==> (key_before(t, c, i as int)
                        && target.dom().contains(c)),
                forall|c: Seq<char>| #[trigger]
                    as_map(voice_entries(kept@)).dom().contains(c) ==> as_map(
                        voice_entries(kept@),
                    )[c] == target[c],
                names(affected).no_duplicates(),
                forall|c: Seq<char>| #[trigger]
                    names(affected).contains(c) <==> (key_before(t, c, i as int)
                        && v0.in_voice(c, username@)),
            decreases t.len() - i,
        {
            let ghost kt = voice_entries(kept@);
            let ghost key = t[i as int].0;
            let ghost users = t[i as int].1;
            proof {
                assert(t[i as int] == (self.voice_channels@[i as int].0@, names(
                    self.voice_channels@[i as int].1,
                )));
                lemma_as_map_index(t, i as int);
                lemma_filter_other_than(users, username@);
                assert(!key_before(t, key, i as int)) by {
                    if key_before(t, key, i as int) {
                        let j = choose|j: int| 0 <= j < i && #[trigger] t[j].0 == key;
                    }
                }
                assert forall|c: Seq<char>| key_before(t, c, i + 1) <==> (key_before(t, c, i as int)
                    || c == key) by {
                    if key_before(t, c, i + 1) && c != key {
                        let j = choose|j: int| 0 <= j < i + 1 && #[trigger] t[j].0 == c;
                        assert(j < i);
                    }
                    if c == key {
                        assert(t[i as int].0 == c);
                    }
                }
            }
            let ghost aff0 = names(affected);
            let present = names_contain(&self.voice_channels[i].1, &uk);
            if present {
                let name = self.voice_channels[i].0.clone();
                let ghost before = names(affected);
                affected.push(name);
                proof {
                    let na = names(affected);
                    assert(na =~= before.push(key));
                    assert(!before.contains(key));
                    assert forall|a: int, b: int|
                        0 <= a < na.len() && 0 <= b < na.len() && a != b implies na[a]
                        != na[b] by {
                        if a < before.len() && b < before.len() {
                        } else if a < before.len() {
                            assert(before.contains(na[a]));
                        } else {
                            assert(before.contains(na[b]));
                        }
                    }
                }
            }
            proof {
                assert(v0.in_voice(key, username@) == present);
                assert forall|c: Seq<char>| #[trigger] names(affected).contains(c) <==> (key_before(
                    t,
                    c,
                    i + 1,
                ) && v0.in_voice(c, username@)) by {
                    if present {
                        let p = aff0.push(key);
                        assert(names(affected) == p);
                        if p.contains(c) && c != key {
                            let k = choose|k: int| 0 <= k < p.len() && p[k] == c;
                            assert(aff0[k] == c);
                        }
                        if aff0.contains(c) {
                            let k = choose|k: int| 0 <= k < aff0.len() && aff0[k] == c;
                            assert(p[k] == c);
                        }
                        if c == key {
                            assert(p[aff0.len() as int] == c);
                        }
                    } else {
                        assert(names(affected) == aff0);
                    }
                }
            }
            let rest = without_name(&self.voice_channels[i].1, &uk);
            if rest.len() > 0 {
                let name = self.voice_channels[i].0.clone();
                let ghost r = names(rest);
                proof {
                    assert(!has_key(kt, key)) by {
                        if has_key(kt, key) {
                            assert(as_map(kt).dom().contains(key));
                        }
                    }
                }
                kept.push((name, rest));
                proof {
                    assert(voice_entries(kept@) =~= kt.push((key, r)));
                    lemma_as_map_push(kt, key, r);
                }
            }
            proof {
                assert(v0.voice_channels.dom().contains(key));
                assert(v0.voice_channels[key] == users);
                assert(names(rest).len() == rest@.len());
                assert(names(rest) == users.filter(other_than(username@)));
                assert(target.dom().contains(key) <==> rest@.len() > 0);
                if target.dom().contains(key) {
                    assert(target[key] == names(rest));
                }
                let nk = voice_entries(kept@);
                assert forall|c: Seq<char>| #[trigger] as_map(nk).dom().contains(c) <==> (key_before(
                    t,
                    c,
                    i + 1,
                ) && target.dom().contains(c)) by {
                    if rest@.len() > 0 {
                        assert(as_map(nk).dom().contains(c) <==> (as_map(kt).dom().contains(c) || c
                            == key));
                    } else {
                        assert(nk == kt);
                    }
                }
                assert forall|c: Seq<char>| #[trigger] as_map(nk).dom().contains(c) implies as_map(
                    nk,
                )[c] == target[c] by {
                    if rest@.len() > 0 && c == key {
                        assert(as_map(nk)[c] == names(rest));
                    }
                }
            }
            i = i + 1;
        }
        proof {
            let kt = voice_entries(kept@);
            assert forall|c: Seq<char>| #[trigger] as_map(kt).dom().contains(c) <==> target.dom().contains(c) by {
                if target.dom().contains(c) {
                    assert(has_key(t, c));
                    let j = choose|j: int| 0 <= j < t.len() && #[trigger] t[j].0 == c;
                    assert(key_before(t, c, t.len() as int));
                }
            }
            assert(as_map(kt) =~= target);
            assert forall|c: Seq<char>| #[trigger] names(affected).contains(c) <==> v0.in_voice(c, username@) by {
                if v0.in_voice(c, username@) {
                    assert(has_key(t, c));
                    let j = choose|j: int| 0 <= j < t.len() && #[trigger] t[j].0 == c;
                    assert(key_before(t, c, t.len() as int));
                }
            }
        }
        self.voice_channels = kept;
        proof {
            lemma_as_map_len(self.voice_table());
            assert(self@ =~= v0.voice_leave_all(username@));
            assert forall|c: Seq<char>| #[trigger] self@.voice_channels.dom().contains(c) implies
                self@.voice_channels[c].len() > 0 && self@.voice_channels[c].no_duplicates() by {
                lemma_filter_other_than(v0.voice_channels[c], username@);
            }
        }
        affected
    }
}

/// `users` without the excluded one, if any.
pub open spec fn excluding(users: Seq<Seq<char>>, exclude: Option<Seq<char>>) -> Seq<Seq<char>> {
    match exclude {
        Some(e) => users.filter(other_than(e)),
        None => users,
    }
}

/// The text of an optional string slice.
pub open spec fn opt_text(o: Option<&str>) -> Option<Seq<char>> {
    match o {
        Some(s) => Some(s@),
        None => None,
    }
}

/// Sending to `users` then to `u` is sending to `users.push(u)`.
proof fn lemma_fan_out_push(h: HubView, users: Seq<Seq<char>>, u: Seq<char>)
    ensures
        h.fan_out(users.push(u)) == h.fan_out(users) + h.conns_of(u),
{
    assert(users.push(u).drop_last() =~= users);
}

impl Hub {
    /// The connections of each of `users` in turn.
    fn fan_out(&self, users: &Vec<String>) -> (r: Vec<ConnId>)
        requires
            self.wf(),
        ensures
            r@ == self@.fan_out(names(*users)),
    {
        let mut out: Vec<ConnId> = Vec::new();
        let mut i: usize = 0;
        proof {
            assert(names(*users).take(0) =~= Seq::<Seq<char>>::empty());
        }
        while i < users.len()
            invariant
                self.wf(),
                i <= users@.len(),
                out@ == self@.fan_out(names(*users).take(i as int)),
            decreases users@.len() - i,
        {
            let mut c = self.conns_of(&users[i]);
            proof {
                assert(names(*users).take(i + 1) =~= names(*users).take(i as int).push(
                    names(*users)[i as int],
                ));
                lemma_fan_out_push(self@, names(*users).take(i as int), names(*users)[i as int]);
            }
            out.append(&mut c);
            i = i + 1;
        }
        assert(names(*users).take(users@.len() as int) =~= names(*users));
        out
    }

    /// The connections of every member in `members` (the group's member
    /// list), in that order.
    pub fn broadcast_to_all(&self, members: &Vec<String>) -> (r: Vec<ConnId>)
        requires
            self.wf(),
        ensures
            r@ == self@.fan_out(names(*members)),
    {
        self.fan_out(members)
    }

    /// The connections of every subscribed user.
    pub fn broadcast_to_subscribed(&self) -> (r: Vec<ConnId>)
        requires
            self.wf(),
        ensures
            r@ == self@.fan_out(self@.subscribed),
    {
        self.fan_out(&self.subscribed)
    }

    /// The connections of every subscribed user, anonymous viewers of a
    /// public channel included.
    pub fn broadcast_to_all_subscribed(&self) -> (r: Vec<ConnId>)
        requires
            self.wf(),
        ensures
            r@ == self@.fan_out(self@.subscribed),
    {
        self.fan_out(&self.subscribed)
    }

    /// A copy of every active voice channel with its users.
    pub fn get_voice_channels(&self) -> (r: Vec<(String, Vec<String>)>)
        requires
            self.wf(),
        ensures
            keys_distinct(voice_entries(r@)),
            as_map(voice_entries(r@)) == self@.voice_channels,
    {
        let ghost t = self.voice_table();
        let mut out: Vec<(String, Vec<String>)> = Vec::new();
        let mut i: usize = 0;
        while i < self.voice_channels.len()
            invariant
                t == self.voice_table(),
                i <= t.len(),
                voice_entries(out@) == t.take(i as int),
            decreases t.len() - i,
        {
            let name = self.voice_channels[i].0.clone();
            let users = copy_names(&self.voice_channels[i].1);
            let ghost before = voice_entries(out@);
            out.push((name, users));
            proof {
                assert(voice_entries(out@) =~= before.push(t[i as int]));
                assert(t.take(i + 1) =~= t.take(i as int).push(t[i as int]));
            }
            i = i + 1;
        }
        assert(t.take(t.len() as int) =~= t);
        out
    }

    /// The connections of the users of voice channel `channel_id`, in the
    /// order they joined, leaving out `exclude`.
    pub fn broadcast_to_voice_channel(&self, channel_id: &str, exclude: Option<&str>) -> (r: Vec<
        ConnId,
    >)
        requires
            self.wf(),
        ensures
            r@ == self@.fan_out(excluding(self@.users_in(channel_id@), opt_text(exclude))),
    {
        let ck = channel_id.to_owned();
        match self.find_channel(&ck) {
            Some(i) => {
                let users = match exclude {
                    Some(e) => {
                        let ek = e.to_owned();
                        without_name(&self.voice_channels[i].1, &ek)
                    },
                    None => copy_names(&self.voice_channels[i].1),
                };
                self.fan_out(&users)
            },
            None => {
                proof {
                    reveal(Seq::filter);
                    assert(excluding(Seq::<Seq<char>>::empty(), opt_text(exclude)) =~= Seq::<
                        Seq<char>,
                    >::empty());
                }
                Vec::new()
            },
        }
    }
}

} // verus!
