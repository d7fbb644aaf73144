use oauth_loopback::ports::{PortScan, OAUTH_PORT_MAX, OAUTH_PORT_MIN};
use oauth_loopback::registry::NonceRegistry;

#[test]
fn fresh_registry_is_empty() {
    let registry = NonceRegistry::active_nonces();
    assert!(registry.lookup(17900).is_none());
}

#[test]
fn insert_then_lookup() {
    let mut registry = NonceRegistry::active_nonces();
    registry.insert(17900, String::from("n1"));
    registry.insert(17901, String::from("n2"));
    assert_eq!(registry.lookup(17900), Some(String::from("n1")));
    assert_eq!(registry.lookup(17901), Some(String::from("n2")));
    assert!(registry.lookup(17902).is_none());
}

#[test]
fn insert_overwrites_a_reclaimed_port() {
    let mut registry = NonceRegistry::active_nonces();
    registry.insert(17900, String::from("stale"));
    registry.insert(17900, String::from("fresh"));
    assert_eq!(registry.lookup(17900), Some(String::from("fresh")));
}

#[test]
fn remove_is_idempotent() {
    let mut registry = NonceRegistry::active_nonces();
    registry.insert(17900, String::from("n1"));
    registry.remove(17900);
    assert!(registry.lookup(17900).is_none());
    // Removing an absent port is a no-op.
    registry.remove(17900);
    registry.remove(17999);
    assert!(registry.lookup(17900).is_none());
}

#[test]
fn removal_leaves_other_ports_alone() {
    let mut registry = NonceRegistry::active_nonces();
    registry.insert(17900, String::from("n1"));
    registry.insert(17901, String::from("n2"));
    registry.remove(17900);
    assert!(registry.lookup(17900).is_none());
    assert_eq!(registry.lookup(17901), Some(String::from("n2")));
}

#[test]
fn port_scan_walks_the_range_once() {
    let mut scan = PortScan::begin();
    let mut seen = Vec::new();
    while let Some(p) = scan.current() {
        seen.push(p);
        scan.advance();
    }
    assert_eq!(seen.first(), Some(&OAUTH_PORT_MIN));
    assert_eq!(seen.last(), Some(&OAUTH_PORT_MAX));
    assert_eq!(seen.len(), 100);
    for w in seen.windows(2) {
        assert_eq!(w[1], w[0] + 1);
    }
    assert!(scan.current().is_none());
}
