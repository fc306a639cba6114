use braid_iroh::identity::{resolve, resolve_override};
use braid_iroh::util::to_hex;

#[test]
fn resolve_is_deterministic() {
    let a = resolve("some-peer-name");
    let b = resolve("some-peer-name");
    assert_eq!(a.key_bytes(), b.key_bytes());
}

#[test]
fn reserved_names_yield_fixed_keypairs() {
    let alice = resolve("alice");
    let bob = resolve("bob");
    assert_eq!(alice.key_bytes(), &[1u8; 32]);
    assert_eq!(bob.key_bytes(), &[2u8; 32]);
}

#[test]
fn reserved_names_stable_across_call_order() {
    let bob_first = resolve("bob");
    let alice = resolve("alice");
    let bob_again = resolve("bob");
    assert_eq!(bob_first.key_bytes(), bob_again.key_bytes());
    assert_eq!(alice.key_bytes(), &[1u8; 32]);
    assert_eq!(bob_first.key_bytes(), &[2u8; 32]);
}

#[test]
fn distinct_names_yield_distinct_keys() {
    let carol = resolve("carol");
    let dave = resolve("dave");
    assert_ne!(carol.key_bytes(), dave.key_bytes());
    assert_ne!(carol.key_bytes(), resolve("alice").key_bytes());
    assert_ne!(carol.key_bytes(), resolve("bob").key_bytes());
}

#[test]
fn unreserved_names_use_the_digest() {
    let charlie = resolve("charlie");
    let expected = blake3::hash("charlie".as_bytes());
    assert_eq!(charlie.key_bytes(), expected.as_bytes());
}

#[test]
fn override_adopts_raw_bytes() {
    let raw = [7u8; 32];
    let id = resolve_override(&raw);
    assert_eq!(id.key_bytes(), &raw);
}

#[test]
fn hex_rendering_is_two_digits_per_byte() {
    let bytes = [0u8, 1, 15, 16, 171, 255];
    let hex = to_hex(&bytes);
    assert_eq!(hex, "00010f10abff".as_bytes().to_vec());
}
