//! The peers that a node knows of.

use vstd::prelude::*;

verus! {

/// A peer: its identifier in text form, and where it listens.
#[derive(Debug)]
pub struct PeerInfo {
    pub peer_id: String,
    pub address: String,
}

impl Clone for PeerInfo {
    fn clone(&self) -> (out: Self)
        ensures
            out.peer_id@ == self.peer_id@,
            out.address@ == self.address@,
    {
        PeerInfo { peer_id: self.peer_id.clone(), address: self.address.clone() }
    }
}

/// The peers known to a node, in the order in which they were added.
pub struct P2PNetwork {
    pub peers: Vec<PeerInfo>,
}

impl Default for P2PNetwork {
    fn default() -> (network: Self)
        ensures
            network.peers@.len() == 0,
    {
        P2PNetwork { peers: Vec::new() }
    }
}

/// What a list of peers holds: identifier and address of each.
pub open spec fn peer_views(peers: Seq<PeerInfo>) -> Seq<(Seq<char>, Seq<char>)> {
    Seq::new(peers.len(), |i: int| (peers[i].peer_id@, peers[i].address@))
}

impl P2PNetwork {
    /// The known peers, in the order in which they were added.
    pub fn discover_peers(&self) -> (out: Vec<PeerInfo>)
        ensures
            peer_views(out@) == peer_views(self.peers@),
    {
        let mut out: Vec<PeerInfo> = Vec::new();
        let mut i: usize = 0;
        while i < self.peers.len()
            invariant
                i <= self.peers@.len(),
                out@.len() == i,
                forall|k: int|
                    0 <= k < i ==> out@[k].peer_id@ == self.peers@[k].peer_id@ && out@[k].address@
                        == self.peers@[k].address@,
            decreases self.peers@.len() - i,
        {
            out.push(self.peers[i].clone());
            i += 1;
        }
        assert(peer_views(out@) =~= peer_views(self.peers@));
        out
    }

    /// Adds a peer behind those already known.
    pub fn add_peer(&mut self, peer: PeerInfo)
        ensures
            final(self).peers@ == old(self).peers@.push(peer),
    {
        self.peers.push(peer);
    }
}

} // verus!
