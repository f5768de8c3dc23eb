use distributed_channel::discovery::{broadcast_addrs, PeerFilter, SeenSet};

#[test]
fn own_announcement_is_dropped() {
    let mut f = PeerFilter::new("me".to_string());
    assert!(f.accept(&"me".to_string(), vec![1, 2]).is_empty());
    assert_eq!(f.accept(&"peer".to_string(), vec![3]), vec![3]);
}

#[test]
fn announcement_without_addresses_is_dropped_and_not_remembered() {
    let mut f = PeerFilter::new("me".to_string());
    assert!(f.accept(&"peer".to_string(), Vec::<u16>::new()).is_empty());
    assert_eq!(f.accept(&"peer".to_string(), vec![7u16, 8]), vec![7, 8]);
}

#[test]
fn peer_is_forwarded_once() {
    let mut f = PeerFilter::new("me".to_string());
    assert_eq!(f.accept(&"a".to_string(), vec![1]), vec![1]);
    assert_eq!(f.accept(&"b".to_string(), vec![2]), vec![2]);
    assert!(f.accept(&"a".to_string(), vec![5, 6]).is_empty());
    assert!(f.accept(&"b".to_string(), vec![2]).is_empty());
}

#[test]
fn seen_set_insert_reports_novelty() {
    let mut s = SeenSet::new();
    assert!(!s.contains(&"x".to_string()));
    assert!(s.insert(&"x".to_string()));
    assert!(s.contains(&"x".to_string()));
    assert!(!s.insert(&"x".to_string()));
    assert!(s.insert(&"y".to_string()));
    assert!(!s.contains(&"z".to_string()));
}

#[test]
fn loopback_addresses_are_not_advertised() {
    let ifaces = vec![(1u32, true), (2, false), (3, true), (4, false)];
    assert_eq!(broadcast_addrs(&ifaces), vec![2, 4]);
    assert_eq!(broadcast_addrs::<u32>(&vec![]), Vec::<u32>::new());
    assert_eq!(broadcast_addrs(&vec![(9u8, true)]), Vec::<u8>::new());
}
