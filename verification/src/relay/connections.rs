//! The table of UDP links that a relay keeps, one per client address

use vstd::prelude::*;

use crate::address::SocketAddress;

verus! {

/// No two entries of `s` share an address.
pub open spec fn distinct_keys<V>(s: Seq<(SocketAddress, V)>) -> bool {
    forall|i: int, j: int|
        0 <= i < s.len() && 0 <= j < s.len() && i != j ==> #[trigger] s[i].0 != #[trigger] s[j].0
}

/// Some entry of `s` has address `k`.
pub open spec fn holds_key<V>(s: Seq<(SocketAddress, V)>, k: SocketAddress) -> bool {
    exists|i: int| 0 <= i < s.len() && #[trigger] s[i].0 == k
}

/// The map from address to value that the entries `s` spell.
pub open spec fn entries_map<V>(s: Seq<(SocketAddress, V)>) -> Map<SocketAddress, V> {
    Map::new(
        |k: SocketAddress| holds_key(s, k),
        |k: SocketAddress| s[choose|i: int| 0 <= i < s.len() && #[trigger] s[i].0 == k].1,
    )
}

/// An entry of a table with distinct addresses is what the map holds for its address.
pub proof fn lemma_entry<V>(s: Seq<(SocketAddress, V)>, i: int)
    requires
        distinct_keys(s),
        0 <= i < s.len(),
    ensures
        entries_map(s).dom().contains(s[i].0),
        entries_map(s)[s[i].0] == s[i].1,
{
    let k = s[i].0;
    assert(holds_key(s, k));
    let j = choose|j: int| 0 <= j < s.len() && #[trigger] s[j].0 == k;
    assert(j == i);
}

/// A map is the one that entries with distinct addresses spell when it holds
/// exactly their addresses, each with the entry's value.
pub proof fn lemma_entries_map_is<V>(s: Seq<(SocketAddress, V)>, m: Map<SocketAddress, V>)
    requires
        distinct_keys(s),
        forall|i: int| 0 <= i < s.len() ==> #[trigger] m.dom().contains(s[i].0) && m[s[i].0] == s[i].1,
        forall|k: SocketAddress| m.dom().contains(k) ==> holds_key(s, k),
    ensures
        entries_map(s) == m,
{
    assert forall|k: SocketAddress| #[trigger] entries_map(s).dom().contains(k) <==> m.dom().contains(k) by {
        if holds_key(s, k) {
            let i = choose|i: int| 0 <= i < s.len() && #[trigger] s[i].0 == k;
            assert(m.dom().contains(s[i].0));
        }
    }
    assert forall|k: SocketAddress| #[trigger] entries_map(s).dom().contains(k) implies entries_map(s)[k] == m[k] by {
        let i = choose|i: int| 0 <= i < s.len() && #[trigger] s[i].0 == k;
        lemma_entry(s, i);
        assert(m.dom().contains(s[i].0));
    }
    assert(entries_map(s) =~= m);
}

/// A table of links keyed by peer address, at most one per address.
///
/// A socket address is not an integer (an IPv6 one takes more than 128 bits),
/// and vstd specifies hash maps only for integer keys, so the table is a vector
/// of entries whose addresses are distinct, viewed as a map.
#[derive(Debug)]
pub struct ConnectionTable<V> {
    entries: Vec<(SocketAddress, V)>,
}

impl<V> ConnectionTable<V> {
    #[verifier::type_invariant]
    spec fn inv(self) -> bool {
        distinct_keys(self.entries@)
    }
}

impl<V> View for ConnectionTable<V> {
    type V = Map<SocketAddress, V>;

    closed spec fn view(&self) -> Map<SocketAddress, V> {
        entries_map(self.entries@)
    }
}

impl<V> ConnectionTable<V> {
    /// An empty table.
    pub fn new() -> (t: ConnectionTable<V>)
        ensures
            t@ == Map::<SocketAddress, V>::empty(),
    {
        let t = ConnectionTable { entries: Vec::new() };
        proof {
            lemma_entries_map_is(t.entries@, Map::<SocketAddress, V>::empty());
        }
        t
    }

    /// The number of links in the table.
    pub fn len(&self) -> (n: usize)
        ensures
            n == self@.dom().len(),
            self@.dom().finite(),
    {
        proof {
            use_type_invariant(self);
            self.lemma_dom_len();
        }
        self.entries.len()
    }

    proof fn lemma_dom_len(&self)
        requires
            distinct_keys(self.entries@),
        ensures
            self@.dom().finite(),
            self@.dom().len() == self.entries@.len(),
    {
        let s = self.entries@;
        let keys = s.map_values(|e: (SocketAddress, V)| e.0);
        assert forall|i: int, j: int| 0 <= i < keys.len() && 0 <= j < keys.len() && i != j implies keys[i] != keys[j] by {
            assert(s[i].0 != s[j].0);
        }
        keys.unique_seq_to_set();
        assert forall|k: SocketAddress| #[trigger] self@.dom().contains(k) <==> keys.to_set().contains(k) by {
            if self@.dom().contains(k) {
                let i = choose|i: int| 0 <= i < s.len() && #[trigger] s[i].0 == k;
                assert(keys[i] == k);
            }
            if keys.to_set().contains(k) {
                let i = choose|i: int| 0 <= i < keys.len() && keys[i] == k;
                assert(s[i].0 == k);
            }
        }
        assert(self@.dom() =~= keys.to_set());
    }

    /// Does the table hold a link for `k`?
    pub fn contains_key(&self, k: &SocketAddress) -> (r: bool)
        ensures
            r == self@.dom().contains(*k),
    {
        match find_entry(&self.entries, k) {
            Some(i) => {
                proof {
                    use_type_invariant(self);
                    lemma_entry(self.entries@, i as int);
                }
                true
            },
            None => false,
        }
    }

    /// The link held for `k`, if any.
    pub fn get(&self, k: &SocketAddress) -> (r: Option<&V>)
        ensures
            self@.dom().contains(*k) ==> r == Some(&self@[*k]),
            !self@.dom().contains(*k) ==> r is None,
    {
        match find_entry(&self.entries, k) {
            Some(i) => {
                proof {
                    use_type_invariant(self);
                    lemma_entry(self.entries@, i as int);
                }
                Some(&self.entries[i].1)
            },
            None => None,
        }
    }

    /// Hold `v` as the link for `k`, in place of any link held for it before.
    pub fn insert(&mut self, k: SocketAddress, v: V)
        ensures
            final(self)@ == old(self)@.insert(k, v),
    {
        proof {
            use_type_invariant(&*self);
        }
        let ghost before = self.entries@;
        let mut entries: Vec<(SocketAddress, V)> = Vec::new();
        std::mem::swap(&mut entries, &mut self.entries);
        assert(entries@ == before);
        let ghost m = entries_map(before).insert(k, v);
        match find_entry(&entries, &k) {
            Some(i) => {
                entries.set(i, (k, v));
                proof {
                    let s = entries@;
                    assert forall|a: int, b: int|
                        0 <= a < s.len() && 0 <= b < s.len() && a != b implies #[trigger] s[a].0
                        != #[trigger] s[b].0 by {
                        assert(before[a].0 != before[b].0);
                    }
                    assert forall|j: int| 0 <= j < s.len() implies #[trigger] m.dom().contains(s[j].0)
                        && m[s[j].0] == s[j].1 by {
                        if j != i {
                            lemma_entry(before, j);
                            assert(before[j].0 != before[i as int].0);
                        }
                    }
                    assert forall|q: SocketAddress| m.dom().contains(q) implies holds_key(s, q) by {
                        if q != k {
                            let j = choose|j: int| 0 <= j < before.len() && #[trigger] before[j].0 == q;
                            assert(s[j].0 == q);
                        } else {
                            assert(s[i as int].0 == q);
                        }
                    }
                    lemma_entries_map_is(s, m);
                }
            },
            None => {
                entries.push((k, v));
                proof {
                    let s = entries@;
                    assert forall|a: int, b: int|
                        0 <= a < s.len() && 0 <= b < s.len() && a != b implies #[trigger] s[a].0
                        != #[trigger] s[b].0 by {
                        if a < before.len() && b < before.len() {
                            assert(before[a].0 != before[b].0);
                        } else if a < before.len() {
                            assert(before[a].0 == s[a].0);
                        } else {
                            assert(before[b].0 == s[b].0);
                        }
                    }
                    assert forall|j: int| 0 <= j < s.len() implies #[trigger] m.dom().contains(s[j].0)
                        && m[s[j].0] == s[j].1 by {
                        if j < before.len() {
                            lemma_entry(before, j);
                            assert(before[j].0 == s[j].0);
                        }
                    }
                    assert forall|q: SocketAddress| m.dom().contains(q) implies holds_key(s, q) by {
                        if q != k {
                            let j = choose|j: int| 0 <= j < before.len() && #[trigger] before[j].0 == q;
                            assert(s[j].0 == q);
                        } else {
                            assert(s[before.len() as int].0 == q);
                        }
                    }
                    lemma_entries_map_is(s, m);
                }
            },
        }
        self.entries = entries;
    }

    /// Drop the link held for `k`, if any, and hand it back.
    pub fn remove(&mut self, k: &SocketAddress) -> (r: Option<V>)
        ensures
            final(self)@ == old(self)@.remove(*k),
            old(self)@.dom().contains(*k) ==> r == Some(old(self)@[*k]),
            !old(self)@.dom().contains(*k) ==> r is None,
    {
        proof {
            use_type_invariant(&*self);
        }
        let ghost before = self.entries@;
        let mut entries: Vec<(SocketAddress, V)> = Vec::new();
        std::mem::swap(&mut entries, &mut self.entries);
        let ghost m = entries_map(before).remove(*k);
        let r = match find_entry(&entries, k) {
            Some(i) => {
                let (_, v) = entries.remove(i);
                proof {
                    lemma_entry(before, i as int);
                    before.remove_ensures(i as int);
                    let s = entries@;
                    assert forall|a: int, b: int|
                        0 <= a < s.len() && 0 <= b < s.len() && a != b implies #[trigger] s[a].0
                        != #[trigger] s[b].0 by {
                        let a0 = if a < i { a } else { a + 1 };
                        let b0 = if b < i { b } else { b + 1 };
                        assert(s[a] == before[a0]);
                        assert(s[b] == before[b0]);
                        assert(before[a0].0 != before[b0].0);
                    }
                    assert forall|j: int| 0 <= j < s.len() implies #[trigger] m.dom().contains(s[j].0)
                        && m[s[j].0] == s[j].1 by {
                        let j0 = if j < i { j } else { j + 1 };
                        assert(s[j] == before[j0]);
                        lemma_entry(before, j0);
                        assert(before[j0].0 != before[i as int].0);
                    }
                    assert forall|q: SocketAddress| m.dom().contains(q) implies holds_key(s, q) by {
                        let j0 = choose|j: int| 0 <= j < before.len() && #[trigger] before[j].0 == q;
                        assert(j0 != i);
                        let j = if j0 < i { j0 } else { j0 - 1 };
                        assert(s[j] == before[j0]);
                    }
                    lemma_entries_map_is(s, m);
                }
                Some(v)
            },
            None => {
                proof {
                    assert(entries_map(before).remove(*k) =~= entries_map(before));
                }
                None
            },
        };
        self.entries = entries;
        r
    }
}

/// Once a peer has a link to the remote side, its datagrams go over that link,
/// whatever links to clients there are.
pub proof fn law_linked_peer_routes_to_remote<V>(
    clients: Map<SocketAddress, V>,
    remotes: Map<SocketAddress, V>,
    peer: SocketAddress,
    link: V,
)
    ensures
        spec_route(clients, remotes.insert(peer, link), peer) == Route::Remote(link),
{
}

/// The route of a datagram from a peer: over its remote link whenever one is
/// held; over its link back to the client only when that alone is held; and
/// nowhere yet when neither is held.
pub proof fn law_route_cases<V>(
    clients: Map<SocketAddress, V>,
    remotes: Map<SocketAddress, V>,
    peer: SocketAddress,
)
    ensures
        remotes.dom().contains(peer) ==> spec_route(clients, remotes, peer) == Route::Remote(
            remotes[peer],
        ),
        !remotes.dom().contains(peer) && clients.dom().contains(peer) ==> spec_route(
            clients,
            remotes,
            peer,
        ) == Route::Client(clients[peer]),
        !remotes.dom().contains(peer) && !clients.dom().contains(peer) ==> spec_route(
            clients,
            remotes,
            peer,
        ) == Route::<V>::New,
{
}

/// Once a peer's links are forgotten, its next datagram is treated as coming
/// from a new peer.
pub proof fn law_forgotten_peer_is_new<V>(
    clients: Map<SocketAddress, V>,
    remotes: Map<SocketAddress, V>,
    peer: SocketAddress,
)
    ensures
        spec_route(clients.remove(peer), remotes.remove(peer), peer) == Route::<V>::New,
{
}

/// Forgetting one peer's links changes the route of no other peer.
pub proof fn law_forget_keeps_other_routes<V>(
    clients: Map<SocketAddress, V>,
    remotes: Map<SocketAddress, V>,
    peer: SocketAddress,
    other: SocketAddress,
)
    requires
        other != peer,
    ensures
        spec_route(clients.remove(peer), remotes.remove(peer), other) == spec_route(
            clients,
            remotes,
            other,
        ),
{
}

/// Adding a link for one peer changes the route of no other peer.
pub proof fn law_link_keeps_other_routes<V>(
    clients: Map<SocketAddress, V>,
    remotes: Map<SocketAddress, V>,
    peer: SocketAddress,
    client_link: V,
    remote_link: V,
    other: SocketAddress,
)
    requires
        other != peer,
    ensures
        spec_route(clients.insert(peer, client_link), remotes.insert(peer, remote_link), other)
            == spec_route(clients, remotes, other),
{
}

/// The position of the entry for `k` among `entries`, if there is one.
fn find_entry<V>(entries: &Vec<(SocketAddress, V)>, k: &SocketAddress) -> (r: Option<usize>)
    ensures
        r matches Some(i) ==> i < entries@.len() && entries@[i as int].0 == *k,
        r is None ==> !holds_key(entries@, *k),
{
    let mut i: usize = 0;
    while i < entries.len()
        invariant
            i <= entries@.len(),
            forall|j: int| 0 <= j < i ==> #[trigger] entries@[j].0 != *k,
        decreases entries@.len() - i,
    {
        if entries[i].0 == *k {
            return Some(i);
        }
        i = i + 1;
    }
    None
}

/// Where a datagram from a peer goes: over the link to the remote side held for
/// that peer, over the link back to that peer, or nowhere yet (a new peer).
#[derive(Debug, PartialEq, Eq)]
pub enum Route<T> {
    Remote(T),
    Client(T),
    New,
}

/// The route for `peer`, given the links to clients and the links to the remote
/// side, both keyed by client address: the remote link first, then the client link.
pub open spec fn spec_route<V>(
    clients: Map<SocketAddress, V>,
    remotes: Map<SocketAddress, V>,
    peer: SocketAddress,
) -> Route<V> {
    if remotes.dom().contains(peer) {
        Route::Remote(remotes[peer])
    } else if clients.dom().contains(peer) {
        Route::Client(clients[peer])
    } else {
        Route::New
    }
}

/// The links of a UDP relay: for each client address, the socket connected back
/// to that client and the socket connected to the remote side on its behalf.
#[derive(Debug)]
pub struct Connections<V> {
    clients: ConnectionTable<V>,
    remotes: ConnectionTable<V>,
}

impl<V> Connections<V> {
    /// The links back to clients, by client address.
    pub closed spec fn clients(&self) -> Map<SocketAddress, V> {
        self.clients@
    }

    /// The links to the remote side, by client address.
    pub closed spec fn remotes(&self) -> Map<SocketAddress, V> {
        self.remotes@
    }

    /// No links at all.
    pub fn new() -> (c: Connections<V>)
        ensures
            c.clients() == Map::<SocketAddress, V>::empty(),
            c.remotes() == Map::<SocketAddress, V>::empty(),
    {
        Connections { clients: ConnectionTable::new(), remotes: ConnectionTable::new() }
    }

    /// Where a datagram that arrives from `peer` goes (see [`spec_route`]).
    pub fn route(&self, peer: &SocketAddress) -> (r: Route<&V>)
        ensures
            match r {
                Route::Remote(v) => spec_route(self.clients(), self.remotes(), *peer) == Route::Remote(*v),
                Route::Client(v) => spec_route(self.clients(), self.remotes(), *peer) == Route::Client(*v),
                Route::New => spec_route(self.clients(), self.remotes(), *peer) == Route::<V>::New,
            },
    {
        match self.remotes.get(peer) {
            Some(v) => Route::Remote(v),
            None => match self.clients.get(peer) {
                Some(v) => Route::Client(v),
                None => Route::New,
            },
        }
    }

    /// The link back to the client at `addr`, if there is one.
    pub fn client_link(&self, addr: &SocketAddress) -> (r: Option<&V>)
        ensures
            self.clients().dom().contains(*addr) ==> r == Some(&self.clients()[*addr]),
            !self.clients().dom().contains(*addr) ==> r is None,
    {
        self.clients.get(addr)
    }

    /// The link to the remote side held for the client at `client`, if there is one.
    pub fn remote_link(&self, client: &SocketAddress) -> (r: Option<&V>)
        ensures
            self.remotes().dom().contains(*client) ==> r == Some(&self.remotes()[*client]),
            !self.remotes().dom().contains(*client) ==> r is None,
    {
        self.remotes.get(client)
    }

    /// Hold `link` as the link back to the client at `addr`.
    pub fn add_client_link(&mut self, addr: SocketAddress, link: V)
        ensures
            final(self).clients() == old(self).clients().insert(addr, link),
            final(self).remotes() == old(self).remotes(),
    {
        self.clients.insert(addr, link);
    }

    /// Hold `link` as the link to the remote side for the client at `client`.
    pub fn add_remote_link(&mut self, client: SocketAddress, link: V)
        ensures
            final(self).remotes() == old(self).remotes().insert(client, link),
            final(self).clients() == old(self).clients(),
    {
        self.remotes.insert(client, link);
    }

    /// Drop every link held under `peer`, in both tables: what a relay does when
    /// the link to `peer` has been idle for too long.
    pub fn forget(&mut self, peer: &SocketAddress)
        ensures
            final(self).clients() == old(self).clients().remove(*peer),
            final(self).remotes() == old(self).remotes().remove(*peer),
    {
        let _ = self.clients.remove(peer);
        let _ = self.remotes.remove(peer);
    }
}

} // verus!
