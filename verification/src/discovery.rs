//! Decisions of peer discovery: which announcements are forwarded, which
//! local addresses are advertised, and which peers are new.
use vstd::prelude::*;

verus! {

/// The ids of `v`, as character sequences.
pub open spec fn ids_of(v: Seq<String>) -> Seq<Seq<char>> {
    v.map_values(|s: String| s@)
}

/// A set of peer ids, each remembered once.
pub struct SeenSet {
    ids: Vec<String>,
}

impl View for SeenSet {
    type V = Set<Seq<char>>;

    closed spec fn view(&self) -> Set<Seq<char>> {
        ids_of(self.ids@).to_set()
    }
}

impl SeenSet {
    /// No id is remembered twice.
    #[verifier::type_invariant]
    spec fn no_id_twice(&self) -> bool {
        ids_of(self.ids@).no_duplicates()
    }

    /// An empty set.
    pub fn new() -> (s: Self)
        ensures
            s@ == Set::<Seq<char>>::empty(),
    {
        let s = SeenSet { ids: Vec::new() };
        assert(ids_of(s.ids@) =~= Seq::<Seq<char>>::empty());
        s
    }

    /// Whether `id` is in the set.
    pub fn contains(&self, id: &String) -> (r: bool)
        ensures
            r == self@.contains(id@),
    {
        let mut i: usize = 0;
        while i < self.ids.len()
            invariant
                0 <= i <= self.ids@.len(),
                forall|j: int| 0 <= j < i ==> self.ids@[j]@ != id@,
            decreases self.ids@.len() - i,
        {
            if self.ids[i] == *id {
                assert(ids_of(self.ids@)[i as int] == id@);
                return true;
            }
            i = i + 1;
        }
        assert(!ids_of(self.ids@).contains(id@));
        false
    }

    /// Adds `id`; true when it was not in the set before.
    pub fn insert(&mut self, id: &String) -> (r: bool)
        ensures
            r == !old(self)@.contains(id@),
            final(self)@ == old(self)@.insert(id@),
    {
        proof {
            use_type_invariant(&*self);
        }
        if self.contains(id) {
            assert(self@.insert(id@) =~= self@);
            false
        } else {
            let ghost before = ids_of(self.ids@);
            let mut ids: Vec<String> = Vec::new();
            std::mem::swap(&mut ids, &mut self.ids);
            ids.push(id.clone());
            assert(ids_of(ids@) =~= before.push(id@));
            self.ids = ids;
            assert(ids_of(self.ids@).to_set() =~= before.to_set().insert(id@)) by {
                before.lemma_push_to_set_commute(id@);
            }
            true
        }
    }
}

/// The abstract state of a [`PeerFilter`]: this node's own id and the ids
/// already forwarded.
pub struct PeerFilterView {
    pub own: Seq<char>,
    pub seen: Set<Seq<char>>,
}

/// Whether an announcement of `peer` with `n_addrs` addresses is forwarded
/// from state `v`: it is another node, it has an address, and it was not
/// forwarded before.
pub open spec fn forwards(v: PeerFilterView, peer: Seq<char>, n_addrs: nat) -> bool {
    peer != v.own && n_addrs > 0 && !v.seen.contains(peer)
}

/// The state after an announcement of `peer` with `n_addrs` addresses.
pub open spec fn after_announcement(v: PeerFilterView, peer: Seq<char>, n_addrs: nat) -> PeerFilterView {
    if forwards(v, peer, n_addrs) {
        PeerFilterView { own: v.own, seen: v.seen.insert(peer) }
    } else {
        v
    }
}

/// Filters the announcements that discovery hears: this node's own
/// announcement, announcements without addresses and repeated announcements
/// of a peer are dropped.
pub struct PeerFilter {
    own_id: String,
    seen: SeenSet,
}

impl View for PeerFilter {
    type V = PeerFilterView;

    closed spec fn view(&self) -> PeerFilterView {
        PeerFilterView { own: self.own_id@, seen: self.seen@ }
    }
}

impl PeerFilter {
    /// A filter for the node with id `own_id` that has forwarded nothing yet.
    pub fn new(own_id: String) -> (f: Self)
        ensures
            f@.own == own_id@,
            f@.seen == Set::<Seq<char>>::empty(),
    {
        PeerFilter { own_id, seen: SeenSet::new() }
    }

    /// Handles an announcement of `peer_id` at `addrs`: returns the addresses
    /// to forward, which are all of `addrs` when the announcement passes the
    /// filter and none otherwise.
    pub fn accept<A>(&mut self, peer_id: &String, addrs: Vec<A>) -> (r: Vec<A>)
        ensures
            final(self)@ == after_announcement(old(self)@, peer_id@, addrs@.len()),
            forwards(old(self)@, peer_id@, addrs@.len()) ==> r@ == addrs@,
            !forwards(old(self)@, peer_id@, addrs@.len()) ==> r@.len() == 0,
            peer_id@ != old(self)@.own && addrs@.len() > 0 && !old(self)@.seen.contains(peer_id@)
                ==> r@ == addrs@ && final(self)@.seen == old(self)@.seen.insert(peer_id@),
            peer_id@ == old(self)@.own || addrs@.len() == 0 || old(self)@.seen.contains(peer_id@)
                ==> r@.len() == 0 && final(self)@ == old(self)@,
            final(self)@.own == old(self)@.own,
    {
        if *peer_id == self.own_id {
            return Vec::new();
        }
        if addrs.len() == 0 {
            return Vec::new();
        }
        if !self.seen.insert(peer_id) {
            assert(old(self).seen@.insert(peer_id@) =~= old(self).seen@);
            return Vec::new();
        }
        addrs
    }
}

/// The state after a sequence of announcements, each a peer id and an
/// address count.
pub open spec fn after_all(v: PeerFilterView, anns: Seq<(Seq<char>, nat)>) -> PeerFilterView
    decreases anns.len(),
{
    if anns.len() == 0 {
        v
    } else {
        after_all(after_announcement(v, anns[0].0, anns[0].1), anns.drop_first())
    }
}

/// Announcements never change the own id, and never forget a forwarded peer.
pub proof fn lemma_filter_keeps(v: PeerFilterView, anns: Seq<(Seq<char>, nat)>, peer: Seq<char>)
    ensures
        after_all(v, anns).own == v.own,
        v.seen.contains(peer) ==> after_all(v, anns).seen.contains(peer),
    decreases anns.len(),
{
    if anns.len() > 0 {
        lemma_filter_keeps(after_announcement(v, anns[0].0, anns[0].1), anns.drop_first(), peer);
    }
}

/// A peer is forwarded at most once: after an announcement of `peer` has been
/// forwarded, no later announcement of it is, whatever came in between.
pub proof fn lemma_forward_at_most_once(
    v: PeerFilterView,
    peer: Seq<char>,
    n: nat,
    between: Seq<(Seq<char>, nat)>,
    m: nat,
)
    requires
        forwards(v, peer, n),
    ensures
        !forwards(after_all(after_announcement(v, peer, n), between), peer, m),
{
    lemma_filter_keeps(after_announcement(v, peer, n), between, peer);
}

/// An announcement is forwarded exactly when it names another node, carries
/// an address and names a peer not forwarded before; forwarding remembers the
/// peer and nothing else, and a dropped announcement changes nothing.
pub proof fn lemma_announcement_law(v: PeerFilterView, peer: Seq<char>, n: nat)
    ensures
        forwards(v, peer, n) <==> (peer != v.own && n > 0 && !v.seen.contains(peer)),
        after_announcement(v, peer, n).own == v.own,
        (peer != v.own && n > 0 && !v.seen.contains(peer)) ==> after_announcement(v, peer, n).seen
            == v.seen.insert(peer),
        !(peer != v.own && n > 0 && !v.seen.contains(peer)) ==> after_announcement(v, peer, n)
            == v,
{
}

/// The node's own announcements are never forwarded, whatever came before.
pub proof fn lemma_own_never_forwarded(v: PeerFilterView, anns: Seq<(Seq<char>, nat)>, m: nat)
    ensures
        !forwards(after_all(v, anns), v.own, m),
{
    lemma_filter_keeps(v, anns, v.own);
}

/// The interface addresses that a node advertises: those not on a loopback
/// interface, in order.
pub open spec fn advertised<A>(ifaces: Seq<(A, bool)>) -> Seq<A> {
    ifaces.filter(|p: (A, bool)| !p.1).map_values(|p: (A, bool)| p.0)
}

/// Advertising distributes over the interface list: the addresses of two
/// lists are those of the first followed by those of the second; a single
/// non-loopback interface gives its address and a single loopback interface
/// gives none.
pub proof fn lemma_advertised_law<A>(s: Seq<(A, bool)>, t: Seq<(A, bool)>, a: A)
    ensures
        advertised(s + t) == advertised(s) + advertised(t),
        advertised(Seq::<(A, bool)>::empty()) == Seq::<A>::empty(),
        advertised(seq![(a, false)]) == seq![a],
        advertised(seq![(a, true)]) == Seq::<A>::empty(),
{
    let pred = |p: (A, bool)| !p.1;
    Seq::filter_distributes_over_add(s, t, pred);
    assert((s + t).filter(pred).map_values(|p: (A, bool)| p.0) =~= s.filter(pred).map_values(
        |p: (A, bool)| p.0,
    ) + t.filter(pred).map_values(|p: (A, bool)| p.0));
    reveal_with_fuel(Seq::<_>::filter, 2);
    assert(seq![(a, false)].drop_last() =~= Seq::<(A, bool)>::empty());
    assert(seq![(a, true)].drop_last() =~= Seq::<(A, bool)>::empty());
    assert(advertised(seq![(a, false)]) =~= seq![a]);
    assert(advertised(seq![(a, true)]) =~= Seq::<A>::empty());
}

/// The address of every non-loopback interface is advertised.
pub proof fn lemma_advertised_members<A>(ifaces: Seq<(A, bool)>, i: int)
    requires
        0 <= i < ifaces.len(),
        !ifaces[i].1,
    ensures
        advertised(ifaces).contains(ifaces[i].0),
{
    let pred = |p: (A, bool)| !p.1;
    ifaces.lemma_filter_contains(pred, i);
    let f = ifaces.filter(pred);
    let k = choose|k: int| 0 <= k < f.len() && f[k] == ifaces[i];
    assert(advertised(ifaces)[k] == ifaces[i].0);
}

/// Picks the addresses to advertise from the local interfaces, each given
/// as an address and whether its interface is a loopback interface.
pub fn broadcast_addrs<A: Copy>(ifaces: &Vec<(A, bool)>) -> (r: Vec<A>)
    ensures
        r@ == advertised(ifaces@),
        forall|i: int| 0 <= i < ifaces@.len() && !ifaces@[i].1 ==> r@.contains(#[trigger] ifaces@[i].0),
{
    let mut out: Vec<A> = Vec::new();
    let mut i: usize = 0;
    while i < ifaces.len()
        invariant
            0 <= i <= ifaces@.len(),
            out@ == advertised(ifaces@.take(i as int)),
        decreases ifaces@.len() - i,
    {
        let (addr, loopback) = ifaces[i];
        proof {
            reveal_with_fuel(Seq::<_>::filter, 1);
            assert(ifaces@.take(i + 1).drop_last() =~= ifaces@.take(i as int));
        }
        if !loopback {
            out.push(addr);
        }
        assert(out@ =~= advertised(ifaces@.take(i + 1)));
        i = i + 1;
    }
    assert(ifaces@.take(ifaces@.len() as int) =~= ifaces@);
    proof {
        assert forall|i: int| 0 <= i < ifaces@.len() && !ifaces@[i].1 implies out@.contains(
            #[trigger] ifaces@[i].0,
        ) by {
            lemma_advertised_members(ifaces@, i);
        }
    }
    out
}

} // verus!
