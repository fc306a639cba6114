use braid_iroh::discovery::DiscoveryConfig;
use braid_iroh::identity::resolve_override;
use braid_iroh::spawn_node;
use braid_iroh::subscription::SubStatus;
use braid_iroh::util::to_hex;

#[test]
fn spawn_node_resolves_name_and_subscribes_demo_doc() {
    let (state, handle, join) =
        spawn_node("alice", None, None, DiscoveryConfig::empty()).unwrap();
    assert_eq!(handle, 0);
    assert_eq!(state.node_name, "alice");
    // The printable id is the hex of the public key derived from the
    // identity of "alice" (32 bytes of 1), not of the secret itself.
    let expected = iroh::SecretKey::from_bytes(&[1u8; 32]).public();
    assert_eq!(state.node_id, to_hex(expected.as_bytes()));
    assert_ne!(state.node_id, "01".repeat(32).into_bytes());
    let join = join.expect("a fresh node needs one join");
    assert_eq!(join.topic, blake3::hash("/demo-doc".as_bytes()).as_bytes().to_vec());
    assert!(join.bootstrap.is_empty());
    assert_eq!(state.peer.sub_count(), 1);
    assert_eq!(state.peer.sub_status(0), SubStatus::Joining);
}

#[test]
fn spawn_node_prefers_the_override() {
    let raw = [5u8; 32];
    let id = resolve_override(&raw);
    let (state, _, _) =
        spawn_node("alice", Some(9000), Some(id), DiscoveryConfig::empty()).unwrap();
    let expected = iroh::SecretKey::from_bytes(&raw).public();
    assert_eq!(state.node_id, to_hex(expected.as_bytes()));
}
