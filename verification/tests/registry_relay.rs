use headsup_chat::registry::Registry;
use headsup_chat::relay::{broadcast_targets, frame_line, relay_plan};

#[test]
fn register_and_lookup() {
    let mut reg: Registry<u32> = Registry::new();
    assert_eq!(reg.len(), 0);
    reg.register(7, 70);
    reg.register(8, 80);
    assert_eq!(reg.len(), 2);
    assert!(reg.contains(7));
    assert!(!reg.contains(9));
    assert_eq!(reg.get(7), Some(&70));
    assert_eq!(reg.get(9), None);
}

#[test]
fn register_same_identity_replaces_the_handle() {
    let mut reg: Registry<u32> = Registry::new();
    reg.register(7, 70);
    reg.register(7, 71);
    assert_eq!(reg.len(), 1);
    assert_eq!(reg.get(7), Some(&71));
}

#[test]
fn deregister_twice_is_a_no_op_the_second_time() {
    let mut reg: Registry<u32> = Registry::new();
    reg.register(1, 10);
    reg.register(2, 20);
    reg.deregister(1);
    assert_eq!(reg.len(), 1);
    assert!(!reg.contains(1));
    // Second deregistration of the same identity: no error, no panic,
    // nothing changes.
    reg.deregister(1);
    assert_eq!(reg.len(), 1);
    assert!(reg.contains(2));
    // Deregistering an identity that was never registered is a no-op too.
    reg.deregister(42);
    assert_eq!(reg.len(), 1);
}

#[test]
fn broadcast_excludes_exactly_the_sender() {
    let (a, b, c) = (1u64, 2u64, 3u64);
    let mut reg: Registry<u32> = Registry::new();
    reg.register(a, 10);
    reg.register(b, 20);
    reg.register(c, 30);
    let targets = broadcast_targets(&reg, a);
    assert_eq!(targets.len(), 2);
    assert!(targets.contains(&b));
    assert!(targets.contains(&c));
    assert!(!targets.contains(&a));
}

#[test]
fn broadcast_is_the_same_set_whatever_the_registration_order() {
    let mut one: Registry<u32> = Registry::new();
    one.register(1, 0);
    one.register(2, 0);
    one.register(3, 0);
    let mut other: Registry<u32> = Registry::new();
    other.register(3, 0);
    other.register(1, 0);
    other.register(2, 0);
    let mut t1 = broadcast_targets(&one, 1);
    let mut t2 = broadcast_targets(&other, 1);
    t1.sort();
    t2.sort();
    assert_eq!(t1, vec![2, 3]);
    assert_eq!(t2, vec![2, 3]);
}

#[test]
fn broadcast_to_a_lone_sender_reaches_nobody() {
    let mut reg: Registry<u32> = Registry::new();
    reg.register(5, 50);
    let targets = broadcast_targets(&reg, 5);
    assert!(targets.is_empty());
}

#[test]
fn relayed_line_is_tagged_with_the_sender() {
    assert_eq!(frame_line(7, "hi"), "Client<7>: hi");
    assert_eq!(frame_line(1234567890, ""), "Client<1234567890>: ");
}

#[test]
fn relay_plan_tags_and_targets() {
    let mut reg: Registry<u32> = Registry::new();
    reg.register(1, 10);
    reg.register(2, 20);
    let (line, targets) = relay_plan(&reg, 2, "yo");
    assert_eq!(line, "Client<2>: yo");
    assert_eq!(targets, vec![1]);
}
