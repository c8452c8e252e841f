use skull::peers::{deliveries, Content, PeerAddr};

fn peer(port: u16) -> PeerAddr {
    PeerAddr { is_ipv6: false, ip: 0x7f00_0001, port, flowinfo: 0, scope_id: 0 }
}

fn sent(peers: Vec<PeerAddr>, sender: PeerAddr) -> Vec<(usize, bool)> {
    deliveries(&peers, sender)
        .iter()
        .map(|delivery| (delivery.peer, delivery.content == Content::Response))
        .collect()
}

#[test]
fn everyone_hears_the_broadcast_and_the_sender_the_response() {
    let peers = vec![peer(1), peer(2), peer(3)];
    assert_eq!(
        sent(peers, peer(2)),
        vec![(0, false), (1, false), (2, false), (1, true)]
    );
}

#[test]
fn a_sender_who_is_gone_gets_no_response() {
    assert_eq!(sent(vec![peer(1)], peer(9)), vec![(0, false)]);
    assert_eq!(sent(vec![], peer(9)), vec![]);
}

#[test]
fn addresses_differ_in_every_part() {
    let mut other = peer(1);
    other.is_ipv6 = true;
    assert_eq!(sent(vec![peer(1)], other), vec![(0, false)]);
    let mut scoped = peer(1);
    scoped.scope_id = 4;
    assert_eq!(sent(vec![peer(1), scoped], scoped), vec![(0, false), (1, false), (1, true)]);
}
