use anchor_lang::prelude::Pubkey as HostKey;
use social_ledger::address;
use social_ledger::address::{
    comment_address, follow_address, like_address, post_address, profile_address, same_key,
    tip_address, topic_address, username_address, verify_address,
};
use social_ledger::Pubkey;

const PROGRAM: Pubkey = [7u8; 32];
const ALICE: Pubkey = [1u8; 32];
const BOB: Pubkey = [2u8; 32];

fn host_address(seeds: &[&[u8]]) -> (Pubkey, u8) {
    let (address, bump) = HostKey::find_program_address(seeds, &HostKey::new_from_array(PROGRAM));
    (address.to_bytes(), bump)
}

#[test]
fn derive_is_what_the_host_derives() {
    let found = address::derive(&PROGRAM, b"profile", &[&ALICE]);
    assert_eq!(found, Some(host_address(&[b"profile", &ALICE])));
}

#[test]
fn derive_does_not_hand_a_seed_back() {
    let (address, _) = address::derive(&PROGRAM, b"profile", &[&ALICE]).unwrap();
    assert_ne!(address, ALICE);
    assert_ne!(address, PROGRAM);
}

#[test]
fn derive_twice_gives_the_same_address() {
    let parts: [&[u8]; 2] = [&ALICE, &BOB];
    let first = address::derive(&PROGRAM, b"follow", &parts);
    let second = address::derive(&PROGRAM, b"follow", &parts);
    assert!(first.is_some());
    assert_eq!(first, second);
}

#[test]
fn derived_address_is_proved_by_its_bump() {
    let (address, bump) = address::derive(&PROGRAM, b"username", &[b"alice"]).unwrap();
    let checked = HostKey::create_program_address(
        &[b"username", b"alice", &[bump]],
        &HostKey::new_from_array(PROGRAM),
    );
    assert_eq!(checked.map(|key| key.to_bytes()).ok(), Some(address));
    assert!(!HostKey::new_from_array(address).is_on_curve());
}

#[test]
fn namespaces_and_parts_tell_addresses_apart() {
    let profile = address::derive(&PROGRAM, b"profile", &[&ALICE]).unwrap().0;
    let username = address::derive(&PROGRAM, b"username", &[&ALICE]).unwrap().0;
    let other = address::derive(&PROGRAM, b"profile", &[&BOB]).unwrap().0;
    let elsewhere = address::derive(&[8u8; 32], b"profile", &[&ALICE]).unwrap().0;
    assert_ne!(profile, username);
    assert_ne!(profile, other);
    assert_ne!(profile, elsewhere);
}

#[test]
fn derive_finds_no_address_for_a_seed_that_is_too_long() {
    let long = [0u8; 33];
    assert_eq!(address::derive(&PROGRAM, b"profile", &[&long]), None);
}

#[test]
fn derive_finds_no_address_for_too_many_seeds() {
    let part: &[u8] = b"x";
    let parts = [part; 15];
    assert_eq!(address::derive(&PROGRAM, b"profile", &parts), None);
    assert!(address::derive(&PROGRAM, b"profile", &parts[..14]).is_some());
}

#[test]
fn verify_address_accepts_the_derived_address_only() {
    let (address, _) = address::derive(&PROGRAM, b"like", &[&ALICE, &BOB]).unwrap();
    assert!(verify_address(&PROGRAM, b"like", &[&ALICE, &BOB], &address));
    assert!(!verify_address(&PROGRAM, b"like", &[&BOB, &ALICE], &address));
    assert!(!verify_address(&PROGRAM, b"follow", &[&ALICE, &BOB], &address));
    assert!(!verify_address(&PROGRAM, b"like", &[&ALICE, &BOB], &ALICE));
    assert!(!verify_address(&PROGRAM, b"like", &[&[0u8; 33]], &address));
}

#[test]
fn same_key_compares_all_bytes() {
    let mut other = ALICE;
    assert!(same_key(&ALICE, &other));
    other[31] = 9;
    assert!(!same_key(&ALICE, &other));
    other = ALICE;
    other[0] = 9;
    assert!(!same_key(&ALICE, &other));
}

#[test]
fn profile_address_is_keyed_by_the_owner() {
    assert_eq!(profile_address(&PROGRAM, &ALICE), Some(host_address(&[b"profile", &ALICE]).0));
}

#[test]
fn username_address_is_keyed_by_the_name() {
    assert_eq!(
        username_address(&PROGRAM, "alice"),
        Some(host_address(&[b"username", b"alice"]).0)
    );
}

#[test]
fn follow_address_is_keyed_by_the_ordered_pair() {
    assert_eq!(
        follow_address(&PROGRAM, &ALICE, &BOB),
        Some(host_address(&[b"follow", &ALICE, &BOB]).0)
    );
    assert_ne!(follow_address(&PROGRAM, &ALICE, &BOB), follow_address(&PROGRAM, &BOB, &ALICE));
}

#[test]
fn post_address_is_keyed_by_author_and_id() {
    assert_eq!(
        post_address(&PROGRAM, &ALICE, 0x0102),
        Some(host_address(&[b"post", &ALICE, &[2, 1, 0, 0, 0, 0, 0, 0]]).0)
    );
}

#[test]
fn tip_address_is_keyed_by_sender_and_id() {
    assert_eq!(
        tip_address(&PROGRAM, &ALICE, 5),
        Some(host_address(&[b"tip", &ALICE, &5u64.to_le_bytes()]).0)
    );
}

#[test]
fn like_address_is_keyed_by_liker_author_and_post() {
    assert_eq!(
        like_address(&PROGRAM, &ALICE, &BOB, 9),
        Some(host_address(&[b"like", &ALICE, &BOB, &9u64.to_le_bytes()]).0)
    );
}

#[test]
fn comment_address_is_keyed_by_author_post_and_comment() {
    assert_eq!(
        comment_address(&PROGRAM, &ALICE, 9, 3),
        Some(host_address(&[b"comment", &ALICE, &9u64.to_le_bytes(), &3u64.to_le_bytes()]).0)
    );
}

#[test]
fn topic_address_is_keyed_by_topic_author_and_post() {
    assert_eq!(
        topic_address(&PROGRAM, "rust", &ALICE, 9),
        Some(host_address(&[b"topic", b"rust", &ALICE, &9u64.to_le_bytes()]).0)
    );
}
