use hbb_common::discovery::{DiscoveryPeer, LanPeers};

#[test]
fn discovery_legacy_cache_has_unknown_presence() {
    let stored: serde_json::Value =
        serde_json::from_str(r#"{"id":"old","online":true}"#).unwrap();
    let peer = DiscoveryPeer {
        id: stored["id"].as_str().unwrap_or_default().to_owned(),
        online: stored["online"].as_bool().unwrap_or_default(),
        last_seen: stored["last_seen"].as_i64().unwrap_or_default(),
        last_checked: stored["last_checked"].as_i64().unwrap_or_default(),
        ..Default::default()
    };
    assert!(peer.online);
    assert_eq!(peer.online_state(100_000), None);
}

#[test]
fn discovery_presence_expires_and_rejects_clock_rollback() {
    let mut peer = DiscoveryPeer::default();
    peer.mark_seen(100_000);
    assert_eq!(peer.online_state(100_000), Some(true));
    assert_eq!(peer.online_state(129_999), Some(true));
    assert_eq!(peer.online_state(130_000), None);
    assert_eq!(peer.online_state(99_999), None);
    peer.last_checked = 0; // failed discovery must not leave a green badge
    assert_eq!(peer.online_state(100_001), None);
}

#[test]
fn discovery_requires_repeated_misses_and_grace_before_offline() {
    let mut peer = DiscoveryPeer::default();
    peer.mark_seen(100_000);
    for now in [108_000, 116_000, 124_000] {
        peer.mark_missed(now);
        assert_eq!(peer.online_state(now), None);
    }
    peer.mark_missed(132_000);
    assert_eq!(peer.online_state(132_000), Some(false));
    assert_eq!(peer.last_seen, 100_000);
    assert_eq!(peer.online_state(162_000), None);
    peer.mark_seen(163_000);
    assert_eq!(peer.online_state(163_000), Some(true));
    assert_eq!(peer.missed_discoveries, 0);
}

#[test]
fn discovery_pause_resets_consecutive_misses() {
    let mut peer = DiscoveryPeer::default();
    peer.mark_seen(100_000);
    peer.mark_missed(110_000);
    peer.mark_missed(120_000);
    peer.mark_missed(200_000);
    assert_eq!(peer.missed_discoveries, 1);
    assert_eq!(peer.online_state(200_000), None);
    peer.last_checked = i64::MIN;
    peer.mark_missed(200_001);
    assert_eq!(peer.missed_discoveries, 1);
}

#[test]
fn misses_do_not_count_past_the_largest_number() {
    let mut peer = DiscoveryPeer::default();
    peer.missed_discoveries = u32::MAX;
    peer.last_checked = 5;
    peer.mark_missed(6);
    assert_eq!(peer.missed_discoveries, u32::MAX);
    peer.mark_missed(i64::MIN);
    assert_eq!(peer.missed_discoveries, 1);
}

#[test]
fn the_same_host_is_known_by_fingerprint_or_by_id_and_user() {
    let mut a = DiscoveryPeer {
        id: "a".to_owned(),
        username: "u".to_owned(),
        fingerprint: "ABCDEF".to_owned(),
        ..Default::default()
    };
    let mut b = DiscoveryPeer {
        id: "b".to_owned(),
        username: "u".to_owned(),
        fingerprint: "abcdef".to_owned(),
        ..Default::default()
    };
    assert!(a.is_same_peer(&b));
    assert!(b.is_same_peer(&a));
    b.fingerprint = String::new();
    assert!(!a.is_same_peer(&b));
    b.id = "a".to_owned();
    assert!(a.is_same_peer(&b));
    a.username = "v".to_owned();
    assert!(!a.is_same_peer(&b));
    assert!(a.is_same_peer(&a));
}

#[test]
fn the_list_that_is_stored_holds_all_hosts() {
    let mut one = DiscoveryPeer::default();
    one.id = "one".to_owned();
    one.ip_mac.insert("10.0.0.1".to_owned(), "aa".to_owned());
    let mut two = DiscoveryPeer::default();
    two.mark_seen(7);
    let stored = LanPeers::store(&[one, two]);
    assert_eq!(stored.peers.len(), 2);
    assert_eq!(stored.peers[0].id, "one");
    assert_eq!(stored.peers[0].ip_mac.get("10.0.0.1").map(String::as_str), Some("aa"));
    assert_eq!(stored.peers[1].last_seen, 7);
    assert_eq!(LanPeers::default().peers.len(), 0);
}
