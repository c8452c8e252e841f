//! Who is sent what when a client has been answered.

use vstd::prelude::*;

verus! {

/// The address of a connected client. An IPv4 address stands in the low 32 bits of `ip`, with
/// no flow information and no scope.
#[derive(Clone, Copy, PartialEq, Eq, Structural)]
pub struct PeerAddr {
    pub is_ipv6: bool,
    pub ip: u128,
    pub port: u16,
    pub flowinfo: u32,
    pub scope_id: u32,
}

/// What a client is sent.
#[derive(Clone, Copy, PartialEq, Eq, Structural)]
pub enum Content {
    /// What every client is told.
    Broadcast,
    /// What only the asking client is told.
    Response,
}

/// One message on its way to the client at position `peer` of the list of clients.
#[derive(Clone, Copy, PartialEq, Eq, Structural)]
pub struct Delivery {
    pub peer: usize,
    pub content: Content,
}

/// The broadcast goes to every client, in the order of the list.
pub open spec fn broadcasts(num_peers: nat) -> Seq<Delivery> {
    Seq::new(num_peers, |i: int| Delivery { peer: i as usize, content: Content::Broadcast })
}

/// The response goes to the clients whose address is the sender's, in the order of the list.
pub open spec fn responses(peers: Seq<PeerAddr>, sender: PeerAddr) -> Seq<Delivery>
    decreases peers.len(),
{
    if peers.len() == 0 {
        Seq::empty()
    } else {
        let earlier = responses(peers.drop_last(), sender);
        if peers.last() == sender {
            earlier.push(
                Delivery { peer: (peers.len() - 1) as usize, content: Content::Response },
            )
        } else {
            earlier
        }
    }
}

/// What is sent when `sender` has been answered: first the broadcast to every client, then the
/// response to the sender.
pub fn deliveries(peers: &Vec<PeerAddr>, sender: PeerAddr) -> (sent: Vec<Delivery>)
    ensures
        sent@ == broadcasts(peers@.len()) + responses(peers@, sender),
{
    let mut sent: Vec<Delivery> = Vec::new();
    let mut i: usize = 0;
    while i < peers.len()
        invariant
            i <= peers@.len(),
            sent@ == broadcasts(i as nat),
        decreases peers@.len() - i,
    {
        sent.push(Delivery { peer: i, content: Content::Broadcast });
        i += 1;
        assert(sent@ =~= broadcasts(i as nat));
    }
    let mut j: usize = 0;
    assert(peers@.take(0) =~= Seq::empty());
    while j < peers.len()
        invariant
            j <= peers@.len(),
            sent@ == broadcasts(peers@.len()) + responses(peers@.take(j as int), sender),
        decreases peers@.len() - j,
    {
        assert(peers@.take(j + 1).drop_last() =~= peers@.take(j as int));
        if peers[j] == sender {
            sent.push(Delivery { peer: j, content: Content::Response });
        }
        j += 1;
        assert(sent@ =~= broadcasts(peers@.len()) + responses(peers@.take(j as int), sender));
    }
    assert(peers@.take(j as int) =~= peers@);
    sent
}

/// The responses are for the sender's positions, and for each of them once.
proof fn lemma_responses(peers: Seq<PeerAddr>, sender: PeerAddr)
    requires
        peers.len() <= usize::MAX,
    ensures
        responses(peers, sender).no_duplicates(),
        forall|d: Delivery| #[trigger]
            responses(peers, sender).contains(d) <==> d.content == Content::Response && d.peer
                < peers.len() && peers[d.peer as int] == sender,
        forall|i: int, j: int|
            0 <= i < j < responses(peers, sender).len() ==> responses(peers, sender)[i].peer
                < responses(peers, sender)[j].peer,
    decreases peers.len(),
{
    if peers.len() > 0 {
        let earlier = responses(peers.drop_last(), sender);
        let all = responses(peers, sender);
        lemma_responses(peers.drop_last(), sender);
        let last = Delivery { peer: (peers.len() - 1) as usize, content: Content::Response };
        assert forall|d: Delivery| #[trigger] all.contains(d) <==> d.content == Content::Response
            && d.peer < peers.len() && peers[d.peer as int] == sender by {
            assert(earlier.contains(d) <==> d.content == Content::Response && d.peer < peers.len()
                - 1 && peers.drop_last()[d.peer as int] == sender);
            if peers.last() == sender {
                assert(all =~= earlier.push(last));
                assert(all[all.len() - 1] == last);
                if earlier.contains(d) {
                    let k = choose|k: int| 0 <= k < earlier.len() && earlier[k] == d;
                    assert(all[k] == d);
                }
                if all.contains(d) && d != last {
                    let k = choose|k: int| 0 <= k < all.len() && all[k] == d;
                    assert(earlier[k] == d);
                }
            }
        }
        if peers.last() == sender {
            assert forall|i: int, j: int| 0 <= i < j < all.len() implies all[i].peer
                < all[j].peer by {
                assert(earlier.contains(earlier[i]));
            }
            assert(!earlier.contains(last));
            assert forall|i: int, j: int|
                0 <= i < all.len() && 0 <= j < all.len() && i != j implies all[i] != all[j] by {
                if i < earlier.len() {
                    assert(earlier.contains(earlier[i]));
                }
                if j < earlier.len() {
                    assert(earlier.contains(earlier[j]));
                }
            }
        }
    }
}

/// Every client gets the broadcast once, the sender alone gets the response, once, and nobody
/// gets the response before all have been sent the broadcast. Both go out in the order of the
/// list.
pub proof fn law_who_is_sent_what(peers: Seq<PeerAddr>, sender: PeerAddr)
    requires
        peers.len() <= usize::MAX,
    ensures
        ({
            let sent = broadcasts(peers.len()) + responses(peers, sender);
            &&& sent.no_duplicates()
            &&& forall|d: Delivery| #[trigger]
                sent.contains(d) <==> d.peer < peers.len() && (d.content == Content::Broadcast
                    || peers[d.peer as int] == sender)
            &&& forall|i: int, j: int|
                #![trigger sent[i], sent[j]]
                0 <= i < sent.len() && 0 <= j < sent.len() && sent[i].content
                    == Content::Broadcast && sent[j].content == Content::Response ==> i < j
            &&& forall|i: int, j: int|
                #![trigger sent[i], sent[j]]
                0 <= i < j < sent.len() && sent[i].content == sent[j].content ==> sent[i].peer
                    < sent[j].peer
        }),
{
    let first = broadcasts(peers.len());
    let second = responses(peers, sender);
    let sent = first + second;
    lemma_responses(peers, sender);
    assert forall|i: int| 0 <= i < second.len() implies (#[trigger] second[i]).content
        == Content::Response by {
        assert(second.contains(second[i]));
    }
    assert forall|d: Delivery| #[trigger] sent.contains(d) <==> d.peer < peers.len() && (d.content
        == Content::Broadcast || peers[d.peer as int] == sender) by {
        assert(second.contains(d) <==> d.content == Content::Response && d.peer < peers.len()
            && peers[d.peer as int] == sender);
        if sent.contains(d) {
            let k = choose|k: int| 0 <= k < sent.len() && sent[k] == d;
            if k >= first.len() {
                assert(second[k - first.len()] == d);
                assert(second.contains(d));
            }
        }
        if d.peer < peers.len() && d.content == Content::Broadcast {
            assert(sent[d.peer as int] == d);
        }
        if second.contains(d) {
            let k = choose|k: int| 0 <= k < second.len() && second[k] == d;
            assert(sent[first.len() + k] == d);
        }
    }
    assert(sent.no_duplicates());
}

} // verus!
