//! The set of trusted remote peer relays.
//!
//! One entry per remote relay authorized to exchange draw events with this
//! instance, identified by its node identifier. Mutated only by explicit
//! add-peer and remove-peer control requests, both idempotent. Symmetry is
//! not enforced: a peer must be added on both sides for bidirectional flow.

use vstd::prelude::*;

verus! {

broadcast use vstd::seq_lib::group_seq_properties;

/// The addresses of `s`, each as the character sequence it reads as.
pub open spec fn views_of(s: Seq<String>) -> Seq<Seq<char>> {
    s.map_values(|p: String| p@)
}

/// Whether some address in `s` reads `a`.
pub open spec fn addrs_contain(s: Seq<String>, a: Seq<char>) -> bool {
    views_of(s).contains(a)
}

/// Whether no two addresses in `s` read the same.
pub open spec fn addrs_no_duplicates(s: Seq<String>) -> bool {
    views_of(s).no_duplicates()
}

/// Whether `a` is ruled out by the optional exclusion.
pub open spec fn addr_excluded(excluding: Option<&String>, a: Seq<char>) -> bool {
    match excluding {
        Some(e) => e@ == a,
        None => false,
    }
}

/// The trusted remote peers, as a set of node identifiers.
pub struct PeerMembershipSet {
    peers: Vec<String>,
}

impl View for PeerMembershipSet {
    type V = Set<Seq<char>>;

    closed spec fn view(&self) -> Set<Seq<char>> {
        Set::new(|a: Seq<char>| addrs_contain(self.peers@, a))
    }
}

impl PeerMembershipSet {
    /// Well-formed: each peer is tracked once.
    pub closed spec fn wf(&self) -> bool {
        addrs_no_duplicates(self.peers@)
    }

    /// An empty set: no peer is trusted yet.
    pub fn new() -> (s: PeerMembershipSet)
        ensures
            s.wf(),
            s@ == Set::<Seq<char>>::empty(),
    {
        let s = PeerMembershipSet { peers: Vec::new() };
        proof {
            assert(s@ =~= Set::<Seq<char>>::empty());
        }
        s
    }

    /// Whether the named node is currently a trusted peer.
    pub fn contains_peer(&self, addr: &String) -> (r: bool)
        ensures
            r == self@.contains(addr@),
    {
        let mut k: usize = 0;
        while k < self.peers.len()
            invariant
                0 <= k <= self.peers@.len(),
                forall|i: int| 0 <= i < k ==> self.peers@[i]@ != addr@,
            decreases self.peers@.len() - k,
        {
            let p: &String = &self.peers[k];
            if *p == *addr {
                proof {
                    assert(views_of(self.peers@)[k as int] == addr@);
                }
                return true;
            }
            k += 1;
        }
        proof {
            assert(!addrs_contain(self.peers@, addr@)) by {
                if addrs_contain(self.peers@, addr@) {
                    let i = choose|i: int|
                        0 <= i < views_of(self.peers@).len() && views_of(self.peers@)[i]
                            == addr@;
                    assert(self.peers@[i]@ == addr@);
                    assert(false);
                }
            }
        }
        false
    }

    /// Add a peer. Adding one already present is the same as not adding it.
    pub fn add_peer(&mut self, addr: String)
        requires
            old(self).wf(),
        ensures
            final(self).wf(),
            final(self)@ == old(self)@.insert(addr@),
    {
        let ghost av = addr@;
        if !self.contains_peer(&addr) {
            self.peers.push(addr);
            proof {
                assert(views_of(self.peers@) =~= views_of(old(self).peers@).push(av));
                assert(self@ =~= old(self)@.insert(av));
            }
        } else {
            proof {
                assert(old(self)@.contains(av));
                assert(self@ =~= old(self)@.insert(av));
            }
        }
    }

    /// Remove a peer. Removing an absent one is a no-op, not an error.
    pub fn remove_peer(&mut self, addr: &String)
        requires
            old(self).wf(),
        ensures
            final(self).wf(),
            final(self)@ == old(self)@.remove(addr@),
    {
        self.peers = peers_excluding(&self.peers, Some(addr));
        proof {
            assert(self@ =~= old(self)@.remove(addr@));
        }
    }

    /// The peers a forwarded event goes to: every trusted peer except
    /// `excluding`, each exactly once. A point-in-time snapshot (copy on
    /// read), so an in-flight fan-out can never observe a half-mutated set
    /// nor duplicate or skip a peer.
    pub fn for_each_peer(&self, excluding: Option<&String>) -> (r: Vec<String>)
        requires
            self.wf(),
        ensures
            addrs_no_duplicates(r@),
            forall|a: Seq<char>|
                #[trigger] addrs_contain(r@, a) <==> (self@.contains(a) && !addr_excluded(
                    excluding,
                    a,
                )),
    {
        peers_excluding(&self.peers, excluding)
    }
}

/// A copy of the addresses of `v` other than `excluding`, each exactly once.
fn peers_excluding(v: &Vec<String>, excluding: Option<&String>) -> (r: Vec<String>)
    requires
        addrs_no_duplicates(v@),
    ensures
        addrs_no_duplicates(r@),
        forall|a: Seq<char>|
            #[trigger] addrs_contain(r@, a) <==> (addrs_contain(v@, a) && !addr_excluded(
                excluding,
                a,
            )),
{
    let mut out: Vec<String> = Vec::new();
    let mut k: usize = 0;
    while k < v.len()
        invariant
            0 <= k <= v@.len(),
            addrs_no_duplicates(v@),
            addrs_no_duplicates(out@),
            forall|a: Seq<char>|
                #[trigger] addrs_contain(out@, a) <==> (exists|i: int|
                    0 <= i < k && v@[i]@ == a && !addr_excluded(excluding, a)),
        decreases v@.len() - k,
    {
        let p: &String = &v[k];
        let keep = match excluding {
            Some(e) => !(*p == *e),
            None => true,
        };
        if keep {
            proof {
                assert(!addrs_contain(out@, v@[k as int]@)) by {
                    if addrs_contain(out@, v@[k as int]@) {
                        let i = choose|i: int|
                            0 <= i < k && v@[i]@ == v@[k as int]@ && !addr_excluded(
                                excluding,
                                v@[k as int]@,
                            );
                        assert(views_of(v@)[i] == views_of(v@)[k as int]);
                        assert(false);
                    }
                }
            }
            let ghost out0 = out@;
            let copied = p.clone();
            out.push(copied);
            proof {
                assert(views_of(out@) =~= views_of(out0).push(v@[k as int]@));
                assert forall|a: Seq<char>| #[trigger] addrs_contain(out@, a) implies (
                exists|i: int|
                    0 <= i < k + 1 && v@[i]@ == a && !addr_excluded(excluding, a)) by {
                    if addrs_contain(out0, a) {
                        let i = choose|i: int|
                            0 <= i < k && v@[i]@ == a && !addr_excluded(excluding, a);
                        assert(0 <= i < k + 1 && v@[i]@ == a && !addr_excluded(excluding, a));
                    } else {
                        assert(a == v@[k as int]@);
                        assert(0 <= k < k + 1 && v@[k as int]@ == a && !addr_excluded(
                            excluding,
                            a,
                        ));
                    }
                }
                assert forall|a: Seq<char>|
                    (exists|i: int|
                        0 <= i < k + 1 && v@[i]@ == a && !addr_excluded(
                            excluding,
                            a,
                        )) implies #[trigger] addrs_contain(out@, a) by {
                    let i = choose|i: int|
                        0 <= i < k + 1 && v@[i]@ == a && !addr_excluded(excluding, a);
                    if i < k {
                        assert(addrs_contain(out0, a));
                    } else {
                        assert(views_of(out@).last() == a);
                    }
                }
            }
        } else {
            proof {
                assert(addr_excluded(excluding, v@[k as int]@));
                assert forall|a: Seq<char>|
                    (exists|i: int|
                        0 <= i < k + 1 && v@[i]@ == a && !addr_excluded(
                            excluding,
                            a,
                        )) implies #[trigger] addrs_contain(out@, a) by {
                    let i = choose|i: int|
                        0 <= i < k + 1 && v@[i]@ == a && !addr_excluded(excluding, a);
                    assert(i < k);
                }
            }
        }
        k += 1;
    }
    proof {
        assert forall|a: Seq<char>| #[trigger] addrs_contain(out@, a) implies (addrs_contain(
            v@,
            a,
        ) && !addr_excluded(excluding, a)) by {
            let i = choose|i: int|
                0 <= i < v@.len() && v@[i]@ == a && !addr_excluded(excluding, a);
            assert(views_of(v@)[i] == a);
        }
        assert forall|a: Seq<char>| addrs_contain(v@, a) && !addr_excluded(
            excluding,
            a,
        ) implies #[trigger] addrs_contain(out@, a) by {
            let i = choose|i: int|
                0 <= i < views_of(v@).len() && views_of(v@)[i] == a;
            assert(v@[i]@ == a && !addr_excluded(excluding, a));
        }
    }
    out
}

/// Peer membership is idempotent: adding an address twice leaves the set as
/// one add does.
pub proof fn lemma_add_peer_idempotent(s: Set<Seq<char>>, a: Seq<char>)
    ensures
        s.insert(a).insert(a) == s.insert(a),
{
    assert(s.insert(a).insert(a) =~= s.insert(a));
}

/// Removing an address that is not in the set leaves it unchanged.
pub proof fn lemma_remove_absent_peer(s: Set<Seq<char>>, a: Seq<char>)
    requires
        !s.contains(a),
    ensures
        s.remove(a) == s,
{
    assert(s.remove(a) =~= s);
}

} // verus!
