use braid_iroh::discovery::DiscoveryConfig;
use braid_iroh::errors::BraidError;
use braid_iroh::identity::resolve;
use braid_iroh::node::{BraidIrohConfig, BraidIrohNode};
use braid_iroh::subscription::SubStatus;

fn spawn_named(name: &str) -> BraidIrohNode {
    BraidIrohNode::spawn(BraidIrohConfig {
        discovery: DiscoveryConfig::empty(),
        secret_key: Some(resolve(name)),
        proxy_config: None,
    })
}

#[test]
fn subscribe_twice_is_idempotent() {
    let mut node = spawn_named("alice");
    let (h1, join1) = node.subscribe("/doc1".as_bytes(), vec![]).unwrap();
    let (h2, join2) = node.subscribe("/doc1".as_bytes(), vec![]).unwrap();
    assert_eq!(h1, h2);
    assert!(join1.is_some());
    assert!(join2.is_none());
    assert_eq!(node.sub_count(), 1);
}

#[test]
fn empty_path_is_rejected_without_transport_call() {
    let mut node = spawn_named("alice");
    let r = node.subscribe(&[], vec![]);
    assert!(matches!(r, Err(BraidError::InvalidPath)));
    assert_eq!(node.sub_count(), 0);
}

#[test]
fn topic_is_digest_of_path() {
    let mut node = spawn_named("alice");
    let (_, join) = node.subscribe("/doc1".as_bytes(), vec![]).unwrap();
    let join = join.unwrap();
    let expected = blake3::hash("/doc1".as_bytes());
    assert_eq!(join.topic, expected.as_bytes().to_vec());
}

#[test]
fn join_confirmation_activates() {
    let mut node = spawn_named("alice");
    let (h, _) = node.subscribe("/doc1".as_bytes(), vec![]).unwrap();
    assert_eq!(node.sub_status(h), SubStatus::Joining);
    node.confirm_join(h);
    assert_eq!(node.sub_status(h), SubStatus::Active);
}

#[test]
fn failed_join_closes() {
    let mut node = spawn_named("alice");
    let (h, _) = node.subscribe("/doc1".as_bytes(), vec![]).unwrap();
    node.fail_join(h);
    assert_eq!(node.sub_status(h), SubStatus::Closed);
    node.confirm_join(h);
    assert_eq!(node.sub_status(h), SubStatus::Closed);
}

#[test]
fn unsubscribe_ends_the_stream() {
    let mut alice = spawn_named("alice");
    let mut bob = spawn_named("bob");
    let (ha, _) = alice.subscribe("/doc1".as_bytes(), vec![]).unwrap();
    alice.confirm_join(ha);
    let (hb, _) = bob.subscribe("/doc1".as_bytes(), vec![]).unwrap();
    bob.confirm_join(hb);
    let bytes = bob.publish(hb, "late update".as_bytes()).unwrap();
    let left = alice.unsubscribe("/doc1".as_bytes()).unwrap();
    assert!(left.is_some());
    assert_eq!(alice.sub_status(ha), SubStatus::Closed);
    // The transport still holds bytes for the topic: nothing is delivered.
    assert!(alice.deliver(ha, &bytes).is_none());
}

#[test]
fn unsubscribe_unknown_path_changes_nothing() {
    let mut node = spawn_named("alice");
    let r = node.unsubscribe("/never-subscribed".as_bytes()).unwrap();
    assert!(r.is_none());
    let r2 = node.unsubscribe(&[]);
    assert!(matches!(r2, Err(BraidError::InvalidPath)));
}

#[test]
fn one_bad_frame_does_not_end_the_stream() {
    let mut alice = spawn_named("alice");
    let mut bob = spawn_named("bob");
    let (ha, _) = alice.subscribe("/doc1".as_bytes(), vec![]).unwrap();
    alice.confirm_join(ha);
    let (hb, _) = bob.subscribe("/doc1".as_bytes(), vec![]).unwrap();
    bob.confirm_join(hb);
    let good = bob.publish(hb, "fine".as_bytes()).unwrap();
    let mut truncated = good.clone();
    truncated.pop();
    assert!(alice.deliver(ha, &truncated).is_none());
    // The subscription survives the bad frame and still delivers.
    assert_eq!(alice.sub_status(ha), SubStatus::Active);
    assert!(alice.deliver(ha, &good).is_some());
}

#[test]
fn frames_for_another_topic_are_dropped() {
    let mut alice = spawn_named("alice");
    let mut bob = spawn_named("bob");
    let (ha, _) = alice.subscribe("/doc1".as_bytes(), vec![]).unwrap();
    alice.confirm_join(ha);
    let (hb, _) = bob.subscribe("/doc2".as_bytes(), vec![]).unwrap();
    bob.confirm_join(hb);
    let other = bob.publish(hb, "elsewhere".as_bytes()).unwrap();
    assert!(alice.deliver(ha, &other).is_none());
}

#[test]
fn publish_assigns_monotonic_tokens() {
    let mut alice = spawn_named("alice");
    let mut bob = spawn_named("bob");
    let (ha, _) = alice.subscribe("/doc1".as_bytes(), vec![]).unwrap();
    alice.confirm_join(ha);
    let (hb, _) = bob.subscribe("/doc1".as_bytes(), vec![]).unwrap();
    bob.confirm_join(hb);
    let first = bob.publish(hb, "one".as_bytes()).unwrap();
    let second = bob.publish(hb, "two".as_bytes()).unwrap();
    let f1 = alice.deliver(ha, &first).unwrap();
    let f2 = alice.deliver(ha, &second).unwrap();
    assert_eq!(f1.token, 0);
    assert_eq!(f2.token, 1);
    assert_eq!(f1.origin, f2.origin);
}

#[test]
fn publish_on_closed_subscription_fails() {
    let mut node = spawn_named("alice");
    let (h, _) = node.subscribe("/doc1".as_bytes(), vec![]).unwrap();
    node.fail_join(h);
    let r = node.publish(h, "x".as_bytes());
    assert!(matches!(r, Err(BraidError::JoinFailed)));
}

#[test]
fn subscribe_after_shutdown_fails() {
    let mut node = spawn_named("alice");
    node.shutdown();
    let r = node.subscribe("/doc1".as_bytes(), vec![]);
    assert!(matches!(r, Err(BraidError::JoinFailed)));
}

#[test]
fn two_nodes_exchange_one_update() {
    let mut alice = spawn_named("alice");
    let mut bob = spawn_named("bob");
    // Node A subscribes with no bootstrap peers.
    let (ha, join_a) = alice.subscribe("/doc1".as_bytes(), vec![]).unwrap();
    assert!(join_a.unwrap().bootstrap.is_empty());
    alice.confirm_join(ha);
    // Node B subscribes listing A's address as bootstrap.
    let a_addr = alice.public_id().to_vec();
    let (hb, join_b) = bob.subscribe("/doc1".as_bytes(), vec![a_addr.clone()]).unwrap();
    assert_eq!(join_b.unwrap().bootstrap, vec![a_addr]);
    bob.confirm_join(hb);
    // B publishes "hello"; A's stream yields exactly that one frame.
    let bytes = bob.publish(hb, "hello".as_bytes()).unwrap();
    let frame = alice.deliver(ha, &bytes).expect("the update must arrive");
    assert_eq!(frame.payload, "hello".as_bytes().to_vec());
    assert_eq!(frame.origin, bob.public_id().to_vec());
    assert_eq!(frame.path, "/doc1".as_bytes().to_vec());
}

#[test]
fn origin_is_the_derived_public_identifier() {
    let node = spawn_named("alice");
    // The address on the network is the ed25519 public key of the secret,
    // never the secret key material itself.
    assert_ne!(node.public_id(), node.identity().key_bytes());
    let expected = iroh::SecretKey::from_bytes(&[1u8; 32]).public();
    assert_eq!(node.public_id(), expected.as_bytes());
}

#[test]
fn shutdown_closes_all_subscriptions() {
    let mut node = spawn_named("alice");
    let (h1, _) = node.subscribe("/doc1".as_bytes(), vec![]).unwrap();
    let (h2, _) = node.subscribe("/doc2".as_bytes(), vec![]).unwrap();
    let (h3, _) = node.subscribe("/doc3".as_bytes(), vec![]).unwrap();
    node.confirm_join(h1);
    node.confirm_join(h2);
    // The third subscription already failed independently beforehand.
    node.fail_join(h3);
    let topics = node.shutdown();
    assert_eq!(topics.len(), 2);
    assert_eq!(node.sub_status(h1), SubStatus::Closed);
    assert_eq!(node.sub_status(h2), SubStatus::Closed);
    assert_eq!(node.sub_status(h3), SubStatus::Closed);
    // Shutdown is idempotent: a second call releases nothing further.
    let again = node.shutdown();
    assert!(again.is_empty());
    assert_eq!(node.sub_status(h1), SubStatus::Closed);
}
