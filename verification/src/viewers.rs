//! The set of currently open local viewer connections.
//!
//! One entry per open duplex channel to a browser client, identified by the
//! transport's numeric channel id. The collection has set semantics: no
//! duplicates, and both insert and remove are idempotent, since an open or
//! close notification may race with other cleanup.

use vstd::prelude::*;

verus! {

broadcast use vstd::seq_lib::group_seq_properties;

/// The open local viewer connections, as a set of channel ids.
pub struct ViewerChannelSet {
    channels: Vec<u32>,
}

impl View for ViewerChannelSet {
    type V = Set<u32>;

    closed spec fn view(&self) -> Set<u32> {
        Set::new(|c: u32| self.channels@.contains(c))
    }
}

impl ViewerChannelSet {
    /// Well-formed: each open connection is tracked once.
    pub closed spec fn wf(&self) -> bool {
        self.channels@.no_duplicates()
    }

    /// An empty set: no viewer is connected yet.
    pub fn new() -> (s: ViewerChannelSet)
        ensures
            s.wf(),
            s@ == Set::<u32>::empty(),
    {
        let s = ViewerChannelSet { channels: Vec::new() };
        proof {
            assert(s@ =~= Set::<u32>::empty());
        }
        s
    }

    /// Whether the connection is currently registered.
    pub fn contains(&self, id: u32) -> (r: bool)
        ensures
            r == self@.contains(id),
    {
        let mut k: usize = 0;
        while k < self.channels.len()
            invariant
                0 <= k <= self.channels@.len(),
                forall|i: int| 0 <= i < k ==> self.channels@[i] != id,
            decreases self.channels@.len() - k,
        {
            if self.channels[k] == id {
                return true;
            }
            k += 1;
        }
        false
    }

    /// Record an open notification: the connection becomes eligible for
    /// broadcast. Registering a connection twice is the same as once.
    pub fn register(&mut self, id: u32)
        requires
            old(self).wf(),
        ensures
            final(self).wf(),
            final(self)@ == old(self)@.insert(id),
    {
        if !self.contains(id) {
            self.channels.push(id);
        }
        proof {
            assert(final(self)@ =~= old(self)@.insert(id));
        }
    }

    /// Record a close notification: the connection leaves the broadcast set.
    /// Removing an absent connection is a no-op, not an error.
    pub fn unregister(&mut self, id: u32)
        requires
            old(self).wf(),
        ensures
            final(self).wf(),
            final(self)@ == old(self)@.remove(id),
    {
        self.channels = channels_excluding(&self.channels, Some(id));
        proof {
            assert(final(self)@ =~= old(self)@.remove(id));
        }
    }

    /// The connections a payload goes to: every registered connection except
    /// `excluding`, each exactly once. A point-in-time snapshot, so sending
    /// can never observe a half-mutated set.
    pub fn broadcast_targets(&self, excluding: Option<u32>) -> (r: Vec<u32>)
        requires
            self.wf(),
        ensures
            r@.no_duplicates(),
            forall|c: u32|
                #[trigger] r@.contains(c) <==> (self@.contains(c) && excluding != Some(c)),
    {
        channels_excluding(&self.channels, excluding)
    }
}

/// The channels of `v` other than `excluding`, each exactly once.
fn channels_excluding(v: &Vec<u32>, excluding: Option<u32>) -> (r: Vec<u32>)
    requires
        v@.no_duplicates(),
    ensures
        r@.no_duplicates(),
        forall|c: u32|
            #[trigger] r@.contains(c) <==> (v@.contains(c) && excluding != Some(c)),
{
    let mut out: Vec<u32> = Vec::new();
    let mut k: usize = 0;
    while k < v.len()
        invariant
            0 <= k <= v@.len(),
            v@.no_duplicates(),
            out@.no_duplicates(),
            forall|c: u32|
                #[trigger] out@.contains(c) <==> (exists|i: int|
                    0 <= i < k && v@[i] == c && excluding != Some(c)),
        decreases v@.len() - k,
    {
        let keep = match excluding {
            Some(e) => v[k] != e,
            None => true,
        };
        if keep {
            proof {
                assert(!out@.contains(v@[k as int])) by {
                    if out@.contains(v@[k as int]) {
                        let i = choose|i: int|
                            0 <= i < k && v@[i] == v@[k as int] && excluding != Some(
                                v@[k as int],
                            );
                        assert(v@[i] == v@[k as int]);
                        assert(false);
                    }
                }
            }
            out.push(v[k]);
        }
        k += 1;
    }
    proof {
        assert forall|c: u32| #[trigger] out@.contains(c) implies (v@.contains(c) && excluding
            != Some(c)) by {
            let i = choose|i: int| 0 <= i < v@.len() && v@[i] == c && excluding != Some(c);
            assert(v@[i] == c);
        }
        assert forall|c: u32| v@.contains(c) && excluding != Some(c) implies #[trigger] out@
            .contains(c) by {
            let i = choose|i: int| 0 <= i < v@.len() && v@[i] == c;
            assert(v@[i] == c && excluding != Some(c));
        }
    }
    out
}

} // verus!
