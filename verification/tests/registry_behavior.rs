use httpstun::net::IpAddress;
use httpstun::registry::Registry;

const ALICE: IpAddress = IpAddress::V4(0x0a0a0a02);
const BOB: IpAddress = IpAddress::V4(0x0a0a0a03);

#[test]
fn register_then_lookup_returns_the_handle() {
    let mut reg = Registry::new();
    assert_eq!(reg.lookup(ALICE), None);
    reg.register(ALICE, 7);
    assert_eq!(reg.lookup(ALICE), Some(7));
    reg.register(BOB, 9);
    assert_eq!(reg.lookup(ALICE), Some(7));
    assert_eq!(reg.lookup(BOB), Some(9));
    assert_eq!(reg.len(), 2);
}

#[test]
fn reregistering_replaces_the_entry() {
    let mut reg = Registry::new();
    reg.register(ALICE, 1);
    reg.register(ALICE, 2);
    assert_eq!(reg.lookup(ALICE), Some(2));
    assert_eq!(reg.len(), 1);
}

#[test]
fn stale_unregister_keeps_the_newer_session() {
    // A fast reconnect: the first session's teardown runs after the
    // second session has already replaced the entry.  Removal is
    // conditioned on the handle, so the newer entry survives.
    let mut reg = Registry::new();
    reg.register(ALICE, 1);
    reg.register(ALICE, 2);
    reg.unregister(ALICE, 1);
    assert_eq!(reg.lookup(ALICE), Some(2));
}

#[test]
fn matching_unregister_removes_the_entry() {
    let mut reg = Registry::new();
    reg.register(ALICE, 1);
    reg.register(BOB, 2);
    reg.unregister(ALICE, 1);
    assert_eq!(reg.lookup(ALICE), None);
    assert_eq!(reg.lookup(BOB), Some(2));
    assert_eq!(reg.len(), 1);
}

#[test]
fn unregister_of_absent_address_changes_nothing() {
    let mut reg = Registry::new();
    reg.register(BOB, 2);
    reg.unregister(ALICE, 1);
    assert_eq!(reg.lookup(BOB), Some(2));
    assert_eq!(reg.len(), 1);
}
