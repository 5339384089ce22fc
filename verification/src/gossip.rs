//! The gossip loop's decision core: the local broadcast membership and the
//! reaction to each overlay event.
//!
//! The loop itself runs at the process boundary; it hands every event to
//! `handle_event` and performs the returned action. Membership is owned
//! exclusively by the gossip loop — no other part of the worker touches
//! it. Peers are identified by opaque tokens assigned at the process
//! boundary.
use vstd::prelude::*;

verus! {

/// The local view of the overlay: which peers are currently in the
/// broadcast membership. No peer appears twice.
pub struct PeerView {
    peers: Vec<u64>,
}

impl PeerView {
    /// Well-formed: the membership list holds no duplicates.
    pub closed spec fn wf(&self) -> bool {
        forall|i: int, j: int|
            0 <= i < j < self.peers@.len() ==> self.peers@[i] != self.peers@[j]
    }

    /// Whether a peer is in the broadcast membership.
    pub closed spec fn spec_contains(&self, p: u64) -> bool {
        self.peers@.contains(p)
    }

    /// An empty membership.
    pub fn new() -> (r: PeerView)
        ensures
            r.wf(),
            forall|q: u64| !r.spec_contains(q),
    {
        PeerView { peers: Vec::new() }
    }

    /// Membership test.
    pub fn contains(&self, p: u64) -> (r: bool)
        ensures
            r == self.spec_contains(p),
    {
        let mut j: usize = 0;
        while j < self.peers.len()
            invariant
                j <= self.peers@.len(),
                forall|k: int| 0 <= k < j ==> self.peers@[k] != p,
            decreases self.peers@.len() - j,
        {
            if self.peers[j] == p {
                return true;
            }
            j = j + 1;
        }
        false
    }

    /// Adds a peer to the membership; adding a present peer changes
    /// nothing.
    pub fn add_peer(&mut self, p: u64)
        requires
            old(self).wf(),
        ensures
            final(self).wf(),
            forall|q: u64|
                final(self).spec_contains(q) <==> (old(self).spec_contains(q) || q == p),
    {
        if !self.contains(p) {
            let ghost oldseq = self.peers@;
            self.peers.push(p);
            proof {
                let newseq = self.peers@;
                assert forall|q: u64|
                    newseq.contains(q) implies (oldseq.contains(q) || q == p) by {
                    let i = choose|i: int| 0 <= i < newseq.len() && newseq[i] == q;
                    if i < oldseq.len() {
                        assert(oldseq[i] == q);
                    }
                }
                assert forall|q: u64|
                    oldseq.contains(q) || q == p implies newseq.contains(q) by {
                    if oldseq.contains(q) {
                        let i = choose|i: int| 0 <= i < oldseq.len() && oldseq[i] == q;
                        assert(newseq[i] == q);
                    } else {
                        assert(newseq[oldseq.len() as int] == q);
                    }
                }
                assert(!oldseq.contains(p));
                assert forall|i: int, j: int|
                    0 <= i < j < newseq.len() implies newseq[i] != newseq[j] by {
                    if j < oldseq.len() {
                    } else {
                        assert(oldseq[i] == newseq[i]);
                    }
                }
            }
        }
    }

    /// Removes a peer from the membership; removing an absent peer changes
    /// nothing.
    pub fn remove_peer(&mut self, p: u64)
        requires
            old(self).wf(),
        ensures
            final(self).wf(),
            forall|q: u64|
                final(self).spec_contains(q) <==> (old(self).spec_contains(q) && q != p),
    {
        let ghost oldseq = self.peers@;
        let mut j: usize = 0;
        while j < self.peers.len()
            invariant
                self.peers@ == oldseq,
                old(self).peers@ == oldseq,
                j <= oldseq.len(),
                forall|a: int, b: int| 0 <= a < b < oldseq.len() ==> oldseq[a] != oldseq[b],
                forall|k: int| 0 <= k < j ==> oldseq[k] != p,
            decreases oldseq.len() - j,
        {
            if self.peers[j] == p {
                self.peers.remove(j);
                proof {
                    let idx = j as int;
                    let newseq = oldseq.remove(idx);
                    oldseq.remove_ensures(idx);
                    assert(self.peers@ == newseq);
                    assert(oldseq[idx] == p);
                    assert forall|q: u64|
                        newseq.contains(q) implies (oldseq.contains(q) && q != p) by {
                        let i = choose|i: int| 0 <= i < newseq.len() && newseq[i] == q;
                        if i < idx {
                            assert(newseq[i] == oldseq[i]);
                            assert(oldseq[i] != oldseq[idx]);
                            assert(oldseq.contains(q));
                        } else {
                            assert(newseq[i] == oldseq[i + 1]);
                            assert(oldseq[i + 1] != oldseq[idx]);
                            assert(oldseq.contains(q));
                        }
                    }
                    assert forall|q: u64|
                        oldseq.contains(q) && q != p implies newseq.contains(q) by {
                        let i = choose|i: int| 0 <= i < oldseq.len() && oldseq[i] == q;
                        if i < idx {
                            assert(newseq[i] == oldseq[i]);
                        } else {
                            assert(i != idx);
                            assert(newseq[i - 1] == oldseq[i]);
                        }
                    }
                    assert forall|a: int, b: int|
                        0 <= a < b < newseq.len() implies newseq[a] != newseq[b] by {
                        if b < idx {
                            assert(newseq[a] == oldseq[a]);
                            assert(newseq[b] == oldseq[b]);
                        } else if a < idx {
                            assert(newseq[a] == oldseq[a]);
                            assert(newseq[b] == oldseq[b + 1]);
                        } else {
                            assert(newseq[a] == oldseq[a + 1]);
                            assert(newseq[b] == oldseq[b + 1]);
                        }
                    }
                }
                return;
            }
            j = j + 1;
        }
        proof {
            assert(!oldseq.contains(p));
        }
    }
}

/// One event the gossip loop can wake up on.
pub enum GossipEvent {
    /// A message arrived on the topic from a peer.
    InboundMessage(Vec<u8>),
    /// New peers were discovered.
    Discovered(Vec<u64>),
    /// Known peers expired.
    Expired(Vec<u64>),
    /// The handoff queue yielded an outbound payload.
    OutboundReady(Vec<u8>),
    /// Both producers are exhausted.
    SourcesClosed,
}

/// What the process boundary must do after an event was handled.
pub enum GossipAction {
    /// Observe (log) an inbound message; it is parsed opportunistically
    /// and never verified or forwarded.
    Observe(Vec<u8>),
    /// Publish an outbound payload to all topic subscribers.
    Publish(Vec<u8>),
    /// Stop the gossip loop.
    Stop,
    /// Nothing beyond the membership update already applied.
    Continue,
}

/// Reacts to one overlay event: peer churn updates the membership and
/// nothing else; an inbound message or an outbound payload leaves the
/// membership untouched and is handed back as an action; exhausted
/// sources stop the loop.
pub fn handle_event(view: &mut PeerView, ev: GossipEvent) -> (a: GossipAction)
    requires
        old(view).wf(),
    ensures
        final(view).wf(),
        ev is Discovered ==> (a is Continue && forall|q: u64|
            final(view).spec_contains(q) <==> (old(view).spec_contains(q) || (
            ev->Discovered_0)@.contains(q))),
        ev is Expired ==> (a is Continue && forall|q: u64|
            final(view).spec_contains(q) <==> (old(view).spec_contains(q) && !(
            ev->Expired_0)@.contains(q))),
        ev is InboundMessage ==> (a == GossipAction::Observe(ev->InboundMessage_0)
            && forall|q: u64| final(view).spec_contains(q) == old(view).spec_contains(q)),
        ev is OutboundReady ==> (a == GossipAction::Publish(ev->OutboundReady_0)
            && forall|q: u64| final(view).spec_contains(q) == old(view).spec_contains(q)),
        ev is SourcesClosed ==> (a is Stop && forall|q: u64|
            final(view).spec_contains(q) == old(view).spec_contains(q)),
{
    match ev {
        GossipEvent::InboundMessage(data) => GossipAction::Observe(data),
        GossipEvent::Discovered(peers) => {
            let mut k: usize = 0;
            while k < peers.len()
                invariant
                    k <= peers@.len(),
                    view.wf(),
                    forall|q: u64|
                        view.spec_contains(q) <==> (old(view).spec_contains(q) || exists|i: int|
                            0 <= i < k && peers@[i] == q),
                decreases peers@.len() - k,
            {
                view.add_peer(peers[k]);
                k = k + 1;
            }
            GossipAction::Continue
        },
        GossipEvent::Expired(peers) => {
            let mut k: usize = 0;
            while k < peers.len()
                invariant
                    k <= peers@.len(),
                    view.wf(),
                    forall|q: u64|
                        view.spec_contains(q) <==> (old(view).spec_contains(q) && !(exists|i: int|
                            0 <= i < k && peers@[i] == q)),
                decreases peers@.len() - k,
            {
                view.remove_peer(peers[k]);
                k = k + 1;
            }
            GossipAction::Continue
        },
        GossipEvent::OutboundReady(payload) => GossipAction::Publish(payload),
        GossipEvent::SourcesClosed => GossipAction::Stop,
    }
}

/// Peer churn cancels out: a discovered peer followed by an expired event
/// for the same peer leaves the broadcast membership exactly as it stood
/// before the discovery, provided the peer was not already a member (an
/// expiry of a pre-existing member removes it, so the proviso is
/// necessary).
pub proof fn lemma_discover_then_expire(s0: PeerView, s1: PeerView, s2: PeerView, p: u64)
    requires
        !s0.spec_contains(p),
        forall|q: u64| s1.spec_contains(q) <==> (s0.spec_contains(q) || q == p),
        forall|q: u64| s2.spec_contains(q) <==> (s1.spec_contains(q) && q != p),
    ensures
        forall|q: u64| s2.spec_contains(q) == s0.spec_contains(q),
{
    assert forall|q: u64| s2.spec_contains(q) == s0.spec_contains(q) by {
        assert(s1.spec_contains(q) <==> (s0.spec_contains(q) || q == p));
        assert(s2.spec_contains(q) <==> (s1.spec_contains(q) && q != p));
    }
}

} // verus!
