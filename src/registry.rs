//! The peers learnt from announcements, and attribution of signed messages
//! to them.

use vstd::prelude::*;

use crate::signing::{signature_matches, verify};
use crate::utils::ChatClient;

verus! {

/// Whether `signature` is `peer`'s signature over `body` and `timestamp`.
pub open spec fn signed_by(
    peer: (Seq<char>, Seq<u8>),
    body: Seq<char>,
    timestamp: u64,
    signature: Seq<char>,
) -> bool {
    signature_matches(peer.1, body, timestamp, signature)
}

/// The first peer, in registration order, whose key the signature matches.
pub open spec fn first_signer(
    peers: Seq<(Seq<char>, Seq<u8>)>,
    body: Seq<char>,
    timestamp: u64,
    signature: Seq<char>,
) -> Option<(Seq<char>, Seq<u8>)>
    decreases peers.len(),
{
    if peers.len() == 0 {
        None
    } else if signed_by(peers[0], body, timestamp, signature) {
        Some(peers[0])
    } else {
        first_signer(peers.drop_first(), body, timestamp, signature)
    }
}

/// The first signer is the peer at the least index whose key matches, and
/// there is none only when no key matches.
pub proof fn lemma_first_signer(
    peers: Seq<(Seq<char>, Seq<u8>)>,
    body: Seq<char>,
    timestamp: u64,
    signature: Seq<char>,
)
    ensures
        first_signer(peers, body, timestamp, signature) is None <==> forall|i: int|
            0 <= i < peers.len() ==> !signed_by(peers[i], body, timestamp, signature),
        first_signer(peers, body, timestamp, signature) matches Some(p) ==> exists|i: int|
            0 <= i < peers.len() && peers[i] == p && signed_by(p, body, timestamp, signature)
                && forall|j: int| 0 <= j < i ==> !signed_by(peers[j], body, timestamp, signature),
    decreases peers.len(),
{
    if peers.len() > 0 {
        let rest = peers.drop_first();
        lemma_first_signer(rest, body, timestamp, signature);
        if !signed_by(peers[0], body, timestamp, signature) {
            assert forall|i: int| 0 < i < peers.len() implies peers[i] == rest[i - 1] by {}
            if let Some(p) = first_signer(rest, body, timestamp, signature) {
                let k = choose|k: int|
                    0 <= k < rest.len() && rest[k] == p && signed_by(p, body, timestamp, signature)
                        && forall|j: int|
                        0 <= j < k ==> !signed_by(rest[j], body, timestamp, signature);
                assert(peers[k + 1] == p);
                assert forall|j: int| 0 <= j < k + 1 implies !signed_by(
                    peers[j],
                    body,
                    timestamp,
                    signature,
                ) by {
                    if j > 0 {
                        assert(peers[j] == rest[j - 1]);
                    }
                }
            } else {
                assert forall|i: int| 0 <= i < peers.len() implies !signed_by(
                    peers[i],
                    body,
                    timestamp,
                    signature,
                ) by {
                    if i > 0 {
                        assert(peers[i] == rest[i - 1]);
                    }
                }
            }
        }
    }
}

/// The announced peers, in the order their announcements arrived. Peers are
/// not merged: a second announcement of a key adds a second entry.
pub struct PeerRegistry {
    pub peers: Vec<ChatClient>,
}

impl View for PeerRegistry {
    type V = Seq<(Seq<char>, Seq<u8>)>;

    open spec fn view(&self) -> Seq<(Seq<char>, Seq<u8>)> {
        self.peers@.map_values(|c: ChatClient| c@)
    }
}

impl PeerRegistry {
    /// An empty registry.
    pub fn new() -> (r: PeerRegistry)
        ensures
            r@ == Seq::<(Seq<char>, Seq<u8>)>::empty(),
    {
        PeerRegistry { peers: Vec::new() }
    }

    /// Appends a peer; duplicates of alias or key are kept.
    pub fn register(&mut self, alias: String, pubkey: Vec<u8>)
        ensures
            final(self)@ == old(self)@.push((alias@, pubkey@)),
    {
        self.peers.push(ChatClient { alias, pubkey });
        assert(self@ == old(self)@.push((alias@, pubkey@)));
    }

    /// The number of registered peers.
    pub fn len(&self) -> (r: usize)
        ensures
            r == self@.len(),
    {
        self.peers.len()
    }

    /// The first registered peer whose key matches the signature over `body`
    /// and `timestamp`, or none.
    pub fn find_sender(&self, body: &String, timestamp: u64, signature: &String) -> (r: Option<
        ChatClient,
    >)
        ensures
            match r {
                Some(c) => first_signer(self@, body@, timestamp, signature@) == Some(c@),
                None => first_signer(self@, body@, timestamp, signature@) is None,
            },
    {
        let mut i: usize = 0;
        assert(self@.subrange(0, self@.len() as int) =~= self@);
        while i < self.peers.len()
            invariant
                i <= self.peers@.len(),
                self@.len() == self.peers@.len(),
                first_signer(self@, body@, timestamp, signature@) == first_signer(
                    self@.subrange(i as int, self@.len() as int),
                    body@,
                    timestamp,
                    signature@,
                ),
            decreases self.peers@.len() - i,
        {
            let ghost rest = self@.subrange(i as int, self@.len() as int);
            assert(rest[0] == self.peers@[i as int]@);
            if verify(self.peers[i].pubkey.as_slice(), body.as_str(), timestamp, signature.as_str()) {
                return Some(self.peers[i].clone());
            }
            assert(rest.drop_first() == self@.subrange(i + 1, self@.len() as int));
            i = i + 1;
        }
        None
    }
}

/// Attribution: a message whose signature matches exactly the registered
/// peers that hold key `k`'s PEM is attributed to a peer with that key, and
/// to the peer at `k` itself when no earlier peer holds the same key; a
/// message that matches no registered key is attributed to no one.
pub proof fn lemma_attribution(
    peers: Seq<(Seq<char>, Seq<u8>)>,
    k: int,
    body: Seq<char>,
    timestamp: u64,
    signature: Seq<char>,
)
    requires
        0 <= k < peers.len(),
        forall|i: int|
            0 <= i < peers.len() ==> (signed_by(peers[i], body, timestamp, signature) <==> peers[i].1
                == peers[k].1),
    ensures
        first_signer(peers, body, timestamp, signature) matches Some(p) && p.1 == peers[k].1,
        (forall|j: int| 0 <= j < k ==> peers[j].1 != peers[k].1) ==> first_signer(
            peers,
            body,
            timestamp,
            signature,
        ) == Some(peers[k]),
{
    lemma_first_signer(peers, body, timestamp, signature);
    assert(signed_by(peers[k], body, timestamp, signature));
    if forall|j: int| 0 <= j < k ==> peers[j].1 != peers[k].1 {
        let p = first_signer(peers, body, timestamp, signature)->0;
        let i = choose|i: int|
            0 <= i < peers.len() && peers[i] == p && signed_by(p, body, timestamp, signature)
                && forall|j: int| 0 <= j < i ==> !signed_by(peers[j], body, timestamp, signature);
        if i < k {
            assert(peers[i].1 != peers[k].1);
        } else if i > k {
            assert(!signed_by(peers[k], body, timestamp, signature));
        }
    }
}

/// A message that matches no registered key is attributed to no one.
pub proof fn lemma_unknown_signer(
    peers: Seq<(Seq<char>, Seq<u8>)>,
    body: Seq<char>,
    timestamp: u64,
    signature: Seq<char>,
)
    requires
        forall|i: int| 0 <= i < peers.len() ==> !signed_by(peers[i], body, timestamp, signature),
    ensures
        first_signer(peers, body, timestamp, signature) is None,
{
    lemma_first_signer(peers, body, timestamp, signature);
}

} // verus!
