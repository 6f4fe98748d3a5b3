use social_ledger::address::{
    comment_address, follow_address, like_address, post_address, profile_address, tip_address,
    topic_address, username_address,
};
use social_ledger::{
    create_comment, create_post_index, create_profile, follow, index_topic, like_post, tip,
    unfollow, unlike_post, update_profile, update_username, CommentCreated, CommentRecord,
    CreateComment, CreatePostIndex, CreateProfile, ErrorCode, Event, Follow, FollowEdge, Followed,
    IndexTopic, Ledger, LikePost, LikeRecord, PostIndex, PostIndexed, PostLiked, PostUnliked,
    ProfileCreated, ProfileUpdated, Pubkey, Record, Tip, TipRecord, Tipped, TopicIndex,
    TopicIndexed, Unfollow, Unfollowed, UnlikePost, UpdateProfile, UpdateUsername, UserProfile,
    UsernameRecord,
};

const PROGRAM: Pubkey = [7u8; 32];
const ALICE: Pubkey = [1u8; 32];
const BOB: Pubkey = [2u8; 32];

fn funded(rent_per_byte: u64) -> Ledger {
    let mut ledger = Ledger::new(PROGRAM, rent_per_byte);
    assert!(ledger.fund(&ALICE, 10_000));
    assert!(ledger.fund(&BOB, 10_000));
    ledger
}

fn text(s: &str) -> String {
    s.to_string()
}

fn alice_joins(ledger: &mut Ledger, now: i64) -> Result<(), ErrorCode> {
    create_profile(
        ledger,
        CreateProfile { authority: ALICE },
        text("alice"),
        text("Alice"),
        text("bio"),
        text("avatar"),
        now,
    )
}

#[test]
fn new_ledger_is_empty() {
    let ledger = Ledger::new(PROGRAM, 3);
    assert_eq!(ledger.program_id(), PROGRAM);
    assert_eq!(ledger.balance(&ALICE), 0);
    assert!(ledger.events().is_empty());
    assert_eq!(ledger.read(&profile_address(&PROGRAM, &ALICE).unwrap()), None);
}

#[test]
fn emit_appends_to_the_log() {
    let mut ledger = Ledger::new(PROGRAM, 0);
    let first = Event::Followed(Followed { follower: ALICE, following: BOB });
    let second = Event::Unfollowed(Unfollowed { follower: ALICE, following: BOB });
    ledger.emit(first.clone());
    ledger.emit(second.clone());
    assert_eq!(ledger.events(), &vec![first, second]);
}

#[test]
fn create_profile_writes_profile_and_lock() {
    let mut ledger = funded(1);
    assert_eq!(alice_joins(&mut ledger, 42), Ok(()));
    let profile_at = profile_address(&PROGRAM, &ALICE).unwrap();
    let name_at = username_address(&PROGRAM, "alice").unwrap();
    assert_eq!(
        ledger.read(&profile_at),
        Some(&Record::Profile(UserProfile {
            authority: ALICE,
            username: text("alice"),
            display_name: text("Alice"),
            bio_cid: text("bio"),
            avatar_cid: text("avatar"),
            created_at: 42,
            updated_at: 42,
        }))
    );
    assert_eq!(
        ledger.read(&name_at),
        Some(&Record::Username(UsernameRecord { authority: ALICE, username: text("alice") }))
    );
    // 408 bytes for the profile, 76 for the lock.
    assert_eq!(ledger.balance(&ALICE), 10_000 - 408 - 76);
    assert_eq!(
        ledger.events(),
        &vec![Event::ProfileCreated(ProfileCreated {
            authority: ALICE,
            username: text("alice"),
            display_name: text("Alice"),
            bio_cid: text("bio"),
            avatar_cid: text("avatar"),
        })]
    );
}

#[test]
fn create_profile_validates_before_it_writes() {
    let mut ledger = funded(1);
    let ctx = CreateProfile { authority: ALICE };
    assert_eq!(
        create_profile(&mut ledger, ctx, text(""), text(""), text(""), text(""), 1),
        Err(ErrorCode::InvalidUsername)
    );
    assert_eq!(
        create_profile(&mut ledger, ctx, text("alice"), text(""), text(""), text(""), 1),
        Err(ErrorCode::InvalidDisplayName)
    );
    assert_eq!(
        create_profile(&mut ledger, ctx, text("alice"), text("Alice"), text(""), text("a"), 1),
        Err(ErrorCode::InvalidCid)
    );
    assert_eq!(
        create_profile(&mut ledger, ctx, text("alice"), text("Alice"), text("b"), text(""), 1),
        Err(ErrorCode::InvalidCid)
    );
    assert_eq!(ledger.read(&profile_address(&PROGRAM, &ALICE).unwrap()), None);
    assert_eq!(ledger.read(&username_address(&PROGRAM, "alice").unwrap()), None);
    assert_eq!(ledger.balance(&ALICE), 10_000);
    assert!(ledger.events().is_empty());
}

#[test]
fn create_profile_accepts_a_username_of_32_bytes_and_refuses_33() {
    let mut ledger = funded(0);
    let long = "u".repeat(33);
    assert_eq!(
        create_profile(
            &mut ledger,
            CreateProfile { authority: ALICE },
            long,
            text("Alice"),
            text("b"),
            text("a"),
            1
        ),
        Err(ErrorCode::InvalidUsername)
    );
    let full = "u".repeat(32);
    assert_eq!(
        create_profile(
            &mut ledger,
            CreateProfile { authority: ALICE },
            full.clone(),
            text("Alice"),
            text("b"),
            text("a"),
            1
        ),
        Ok(())
    );
    assert!(ledger.read(&username_address(&PROGRAM, &full).unwrap()).is_some());
}

#[test]
fn create_profile_takes_the_profile_back_when_the_lock_cannot_be_paid() {
    let mut ledger = Ledger::new(PROGRAM, 1);
    // Enough for the profile (408), not for the lock as well (76).
    assert!(ledger.fund(&ALICE, 483));
    assert_eq!(alice_joins(&mut ledger, 1), Err(ErrorCode::InsufficientFunds));
    assert_eq!(ledger.balance(&ALICE), 483);
    assert_eq!(ledger.read(&profile_address(&PROGRAM, &ALICE).unwrap()), None);
    assert!(ledger.events().is_empty());
    assert!(ledger.fund(&ALICE, 1));
    assert_eq!(alice_joins(&mut ledger, 1), Ok(()));
    assert_eq!(ledger.balance(&ALICE), 0);
}

#[test]
fn update_profile_needs_a_profile() {
    let mut ledger = funded(0);
    assert_eq!(
        update_profile(
            &mut ledger,
            UpdateProfile { authority: ALICE },
            text("Alice"),
            text("b"),
            text("a"),
            1
        ),
        Err(ErrorCode::AddressNotFound)
    );
    assert!(ledger.events().is_empty());
}

#[test]
fn update_profile_validates_its_fields() {
    let mut ledger = funded(0);
    assert_eq!(alice_joins(&mut ledger, 1), Ok(()));
    let ctx = UpdateProfile { authority: ALICE };
    assert_eq!(
        update_profile(&mut ledger, ctx, "n".repeat(49), text("b"), text("a"), 2),
        Err(ErrorCode::InvalidDisplayName)
    );
    assert_eq!(
        update_profile(&mut ledger, ctx, text("n"), "c".repeat(129), text("a"), 2),
        Err(ErrorCode::InvalidCid)
    );
    assert_eq!(
        update_profile(&mut ledger, ctx, text("n"), text("b"), text(""), 2),
        Err(ErrorCode::InvalidCid)
    );
    assert_eq!(ledger.events().len(), 1);
}

#[test]
fn update_profile_at_another_owners_profile_is_unauthorized() {
    let mut ledger = funded(0);
    assert_eq!(alice_joins(&mut ledger, 1), Ok(()));
    let alices = profile_address(&PROGRAM, &ALICE);
    assert_eq!(
        ledger.update_profile_at(
            alices,
            UpdateProfile { authority: BOB },
            text("Bob"),
            text("b"),
            text("a"),
            2
        ),
        Err(ErrorCode::Unauthorized)
    );
    match ledger.read(&alices.unwrap()) {
        Some(Record::Profile(profile)) => assert_eq!(profile.display_name, "Alice"),
        other => panic!("no profile: {:?}", other),
    }
}

#[test]
fn update_username_needs_a_valid_name_and_a_profile() {
    let mut ledger = funded(0);
    let ctx = UpdateUsername { authority: ALICE };
    assert_eq!(update_username(&mut ledger, ctx, text(""), 1), Err(ErrorCode::InvalidUsername));
    assert_eq!(
        update_username(&mut ledger, ctx, text("alice2"), 1),
        Err(ErrorCode::AddressNotFound)
    );
}

#[test]
fn update_username_to_a_taken_name_changes_nothing() {
    let mut ledger = funded(1);
    assert_eq!(alice_joins(&mut ledger, 1), Ok(()));
    assert_eq!(
        create_profile(
            &mut ledger,
            CreateProfile { authority: BOB },
            text("bob"),
            text("Bob"),
            text("b"),
            text("a"),
            2
        ),
        Ok(())
    );
    let before = ledger.balance(&ALICE);
    assert_eq!(
        update_username(&mut ledger, UpdateUsername { authority: ALICE }, text("bob"), 3),
        Err(ErrorCode::AddressOccupied)
    );
    assert_eq!(ledger.balance(&ALICE), before);
    assert_eq!(
        ledger.read(&username_address(&PROGRAM, "alice").unwrap()),
        Some(&Record::Username(UsernameRecord { authority: ALICE, username: text("alice") }))
    );
    assert_eq!(
        ledger.read(&username_address(&PROGRAM, "bob").unwrap()),
        Some(&Record::Username(UsernameRecord { authority: BOB, username: text("bob") }))
    );
    match ledger.read(&profile_address(&PROGRAM, &ALICE).unwrap()) {
        Some(Record::Profile(profile)) => {
            assert_eq!(profile.username, "alice");
            assert_eq!(profile.updated_at, 1);
        },
        other => panic!("no profile: {:?}", other),
    }
    assert_eq!(ledger.events().len(), 2);
}

#[test]
fn update_username_to_the_same_name_keeps_the_lock() {
    let mut ledger = funded(1);
    assert_eq!(alice_joins(&mut ledger, 1), Ok(()));
    let before = ledger.balance(&ALICE);
    assert_eq!(
        update_username(&mut ledger, UpdateUsername { authority: ALICE }, text("alice"), 9),
        Ok(())
    );
    assert_eq!(ledger.balance(&ALICE), before);
    assert!(ledger.read(&username_address(&PROGRAM, "alice").unwrap()).is_some());
    match ledger.read(&profile_address(&PROGRAM, &ALICE).unwrap()) {
        Some(Record::Profile(profile)) => assert_eq!(profile.updated_at, 9),
        other => panic!("no profile: {:?}", other),
    }
}

#[test]
fn update_username_at_a_missing_lock_fails() {
    let mut ledger = funded(0);
    assert_eq!(alice_joins(&mut ledger, 1), Ok(()));
    let nowhere = username_address(&PROGRAM, "nobody");
    assert_eq!(
        ledger.update_username_at(
            profile_address(&PROGRAM, &ALICE),
            nowhere,
            username_address(&PROGRAM, "alice2"),
            UpdateUsername { authority: ALICE },
            text("alice2"),
            2
        ),
        Err(ErrorCode::AddressNotFound)
    );
    assert_eq!(ledger.read(&username_address(&PROGRAM, "alice2").unwrap()), None);
}

#[test]
fn follow_creates_the_edge() {
    let mut ledger = funded(1);
    assert_eq!(follow(&mut ledger, Follow { follower: ALICE, following: BOB }, 7), Ok(()));
    assert_eq!(
        ledger.read(&follow_address(&PROGRAM, &ALICE, &BOB).unwrap()),
        Some(&Record::Follow(FollowEdge { follower: ALICE, following: BOB, created_at: 7 }))
    );
    assert_eq!(ledger.read(&follow_address(&PROGRAM, &BOB, &ALICE).unwrap()), None);
    assert_eq!(ledger.balance(&ALICE), 10_000 - 80);
    assert_eq!(ledger.balance(&BOB), 10_000);
    assert_eq!(
        ledger.events(),
        &vec![Event::Followed(Followed { follower: ALICE, following: BOB })]
    );
}

#[test]
fn follow_of_oneself_is_accepted() {
    let mut ledger = funded(0);
    assert_eq!(follow(&mut ledger, Follow { follower: ALICE, following: ALICE }, 7), Ok(()));
    assert!(ledger.read(&follow_address(&PROGRAM, &ALICE, &ALICE).unwrap()).is_some());
}

#[test]
fn follow_without_funds_fails() {
    let mut ledger = Ledger::new(PROGRAM, 1);
    assert!(ledger.fund(&ALICE, 79));
    assert_eq!(
        follow(&mut ledger, Follow { follower: ALICE, following: BOB }, 7),
        Err(ErrorCode::InsufficientFunds)
    );
    assert_eq!(ledger.balance(&ALICE), 79);
    assert!(ledger.events().is_empty());
}

#[test]
fn follow_at_no_address_fails() {
    let mut ledger = funded(0);
    assert_eq!(
        ledger.follow_at(None, Follow { follower: ALICE, following: BOB }, 7),
        Err(ErrorCode::AddressSpaceExhausted)
    );
    assert!(ledger.events().is_empty());
}

#[test]
fn unfollow_without_an_edge_fails() {
    let mut ledger = funded(1);
    assert_eq!(
        unfollow(&mut ledger, Unfollow { follower: ALICE, following: BOB }),
        Err(ErrorCode::AddressNotFound)
    );
    assert_eq!(ledger.balance(&ALICE), 10_000);
    assert!(ledger.events().is_empty());
}

#[test]
fn unfollow_closes_the_edge_and_refunds_the_follower() {
    let mut ledger = funded(1);
    assert_eq!(follow(&mut ledger, Follow { follower: ALICE, following: BOB }, 7), Ok(()));
    assert_eq!(unfollow(&mut ledger, Unfollow { follower: ALICE, following: BOB }), Ok(()));
    assert_eq!(ledger.read(&follow_address(&PROGRAM, &ALICE, &BOB).unwrap()), None);
    assert_eq!(ledger.balance(&ALICE), 10_000);
    assert_eq!(
        ledger.events(),
        &vec![
            Event::Followed(Followed { follower: ALICE, following: BOB }),
            Event::Unfollowed(Unfollowed { follower: ALICE, following: BOB }),
        ]
    );
}

#[test]
fn unfollow_at_a_record_that_is_no_edge_fails() {
    let mut ledger = funded(0);
    assert_eq!(alice_joins(&mut ledger, 1), Ok(()));
    let profile_at = profile_address(&PROGRAM, &ALICE);
    assert_eq!(
        ledger.unfollow_at(profile_at, Unfollow { follower: ALICE, following: BOB }),
        Err(ErrorCode::AddressNotFound)
    );
    assert!(ledger.read(&profile_at.unwrap()).is_some());
}

#[test]
fn create_post_index_writes_the_entry() {
    let mut ledger = funded(1);
    assert_eq!(
        create_post_index(
            &mut ledger,
            CreatePostIndex { authority: ALICE },
            11,
            text("cid-of-post"),
            200,
            5
        ),
        Ok(())
    );
    assert_eq!(
        ledger.read(&post_address(&PROGRAM, &ALICE, 11).unwrap()),
        Some(&Record::Post(PostIndex {
            author: ALICE,
            post_id: 11,
            content_cid: text("cid-of-post"),
            visibility: 200,
            created_at: 5,
        }))
    );
    assert_eq!(ledger.balance(&ALICE), 10_000 - 189);
    assert_eq!(
        ledger.events(),
        &vec![Event::PostIndexed(PostIndexed {
            author: ALICE,
            post_id: 11,
            content_cid: text("cid-of-post"),
            visibility: 200,
        })]
    );
}

#[test]
fn create_post_index_refuses_a_bad_cid_and_a_used_id() {
    let mut ledger = funded(0);
    let ctx = CreatePostIndex { authority: ALICE };
    assert_eq!(
        create_post_index(&mut ledger, ctx, 11, text(""), 0, 5),
        Err(ErrorCode::InvalidCid)
    );
    assert_eq!(create_post_index(&mut ledger, ctx, 11, text("c"), 0, 5), Ok(()));
    assert_eq!(
        create_post_index(&mut ledger, ctx, 11, text("d"), 1, 6),
        Err(ErrorCode::AddressOccupied)
    );
    assert_eq!(create_post_index(&mut ledger, ctx, 12, text("d"), 1, 6), Ok(()));
    assert_eq!(
        create_post_index(&mut ledger, CreatePostIndex { authority: BOB }, 11, text("e"), 1, 6),
        Ok(())
    );
    assert_eq!(ledger.events().len(), 3);
}

#[test]
fn tip_moves_value_and_writes_the_receipt() {
    let mut ledger = funded(1);
    assert_eq!(tip(&mut ledger, Tip { from: ALICE, to: BOB }, 3, 250, 8), Ok(()));
    assert_eq!(ledger.balance(&ALICE), 10_000 - 250 - 96);
    assert_eq!(ledger.balance(&BOB), 10_250);
    assert_eq!(
        ledger.read(&tip_address(&PROGRAM, &ALICE, 3).unwrap()),
        Some(&Record::Tip(TipRecord {
            from: ALICE,
            to: BOB,
            tip_id: 3,
            amount_lamports: 250,
            created_at: 8,
        }))
    );
    assert_eq!(
        ledger.events(),
        &vec![Event::Tipped(Tipped { from: ALICE, to: BOB, tip_id: 3, amount_lamports: 250 })]
    );
}

#[test]
fn tip_of_nothing_is_accepted() {
    let mut ledger = funded(0);
    assert_eq!(tip(&mut ledger, Tip { from: ALICE, to: BOB }, 3, 0, 8), Ok(()));
    assert_eq!(ledger.balance(&ALICE), 10_000);
    assert_eq!(ledger.balance(&BOB), 10_000);
    assert!(ledger.read(&tip_address(&PROGRAM, &ALICE, 3).unwrap()).is_some());
}

#[test]
fn tip_of_more_than_is_held_fails() {
    let mut ledger = funded(0);
    assert_eq!(
        tip(&mut ledger, Tip { from: ALICE, to: BOB }, 3, 10_001, 8),
        Err(ErrorCode::InsufficientFunds)
    );
    assert_eq!(ledger.balance(&ALICE), 10_000);
    assert_eq!(ledger.balance(&BOB), 10_000);
    assert_eq!(ledger.read(&tip_address(&PROGRAM, &ALICE, 3).unwrap()), None);
    assert!(ledger.events().is_empty());
}

#[test]
fn tip_with_a_used_id_moves_nothing() {
    let mut ledger = funded(0);
    assert_eq!(tip(&mut ledger, Tip { from: ALICE, to: BOB }, 3, 10, 8), Ok(()));
    assert_eq!(
        tip(&mut ledger, Tip { from: ALICE, to: BOB }, 3, 20, 9),
        Err(ErrorCode::AddressOccupied)
    );
    assert_eq!(ledger.balance(&ALICE), 9_990);
    assert_eq!(ledger.balance(&BOB), 10_010);
    assert_eq!(ledger.events().len(), 1);
}

#[test]
fn like_post_writes_the_like() {
    let mut ledger = funded(1);
    assert_eq!(like_post(&mut ledger, LikePost { liker: ALICE, post_author: BOB }, 4, 6), Ok(()));
    assert_eq!(
        ledger.read(&like_address(&PROGRAM, &ALICE, &BOB, 4).unwrap()),
        Some(&Record::Like(LikeRecord {
            liker: ALICE,
            post_author: BOB,
            post_id: 4,
            created_at: 6,
        }))
    );
    assert_eq!(ledger.balance(&ALICE), 10_000 - 88);
    assert_eq!(
        ledger.events(),
        &vec![Event::PostLiked(PostLiked { liker: ALICE, post_author: BOB, post_id: 4 })]
    );
}

#[test]
fn like_post_twice_is_refused() {
    let mut ledger = funded(1);
    let ctx = LikePost { liker: ALICE, post_author: BOB };
    assert_eq!(like_post(&mut ledger, ctx, 4, 6), Ok(()));
    assert_eq!(like_post(&mut ledger, ctx, 4, 7), Err(ErrorCode::AddressOccupied));
    assert_eq!(like_post(&mut ledger, ctx, 5, 7), Ok(()));
    assert_eq!(ledger.balance(&ALICE), 10_000 - 2 * 88);
}

#[test]
fn unlike_post_closes_the_like() {
    let mut ledger = funded(1);
    assert_eq!(like_post(&mut ledger, LikePost { liker: ALICE, post_author: BOB }, 4, 6), Ok(()));
    let like = like_address(&PROGRAM, &ALICE, &BOB, 4).unwrap();
    assert_eq!(
        unlike_post(&mut ledger, UnlikePost { liker: ALICE, post_author: BOB, like }),
        Ok(())
    );
    assert_eq!(ledger.read(&like), None);
    assert_eq!(ledger.balance(&ALICE), 10_000);
    assert_eq!(
        ledger.events().last(),
        Some(&Event::PostUnliked(PostUnliked { liker: ALICE, post_author: BOB, post_id: 4 }))
    );
    assert_eq!(like_post(&mut ledger, LikePost { liker: ALICE, post_author: BOB }, 4, 9), Ok(()));
}

#[test]
fn unlike_post_of_a_missing_like_fails() {
    let mut ledger = funded(1);
    let like = like_address(&PROGRAM, &ALICE, &BOB, 4).unwrap();
    assert_eq!(
        unlike_post(&mut ledger, UnlikePost { liker: ALICE, post_author: BOB, like }),
        Err(ErrorCode::AddressNotFound)
    );
}

#[test]
fn unlike_post_of_a_record_that_is_no_like_fails() {
    let mut ledger = funded(1);
    assert_eq!(follow(&mut ledger, Follow { follower: ALICE, following: BOB }, 7), Ok(()));
    let edge = follow_address(&PROGRAM, &ALICE, &BOB).unwrap();
    assert_eq!(
        unlike_post(&mut ledger, UnlikePost { liker: ALICE, post_author: BOB, like: edge }),
        Err(ErrorCode::AddressNotFound)
    );
    assert!(ledger.read(&edge).is_some());
}

#[test]
fn unlike_post_by_another_identity_is_unauthorized() {
    let mut ledger = funded(1);
    assert_eq!(like_post(&mut ledger, LikePost { liker: ALICE, post_author: BOB }, 4, 6), Ok(()));
    let like = like_address(&PROGRAM, &ALICE, &BOB, 4).unwrap();
    assert_eq!(
        unlike_post(&mut ledger, UnlikePost { liker: BOB, post_author: BOB, like }),
        Err(ErrorCode::Unauthorized)
    );
    assert_eq!(
        unlike_post(&mut ledger, UnlikePost { liker: ALICE, post_author: ALICE, like }),
        Err(ErrorCode::Unauthorized)
    );
    assert!(ledger.read(&like).is_some());
    assert_eq!(ledger.balance(&BOB), 10_000);
    assert_eq!(ledger.events().len(), 1);
}

#[test]
fn create_comment_writes_the_comment() {
    let mut ledger = funded(1);
    assert_eq!(
        create_comment(
            &mut ledger,
            CreateComment { author: ALICE, post_author: BOB },
            4,
            1,
            text("cid-of-comment"),
            6
        ),
        Ok(())
    );
    assert_eq!(
        ledger.read(&comment_address(&PROGRAM, &ALICE, 4, 1).unwrap()),
        Some(&Record::Comment(CommentRecord {
            author: ALICE,
            post_author: BOB,
            post_id: 4,
            comment_id: 1,
            content_cid: text("cid-of-comment"),
            created_at: 6,
        }))
    );
    assert_eq!(ledger.balance(&ALICE), 10_000 - 228);
    assert_eq!(
        ledger.events(),
        &vec![Event::CommentCreated(CommentCreated {
            author: ALICE,
            post_author: BOB,
            post_id: 4,
            comment_id: 1,
            content_cid: text("cid-of-comment"),
        })]
    );
}

#[test]
fn create_comment_refuses_a_bad_cid_and_a_used_id() {
    let mut ledger = funded(0);
    let ctx = CreateComment { author: ALICE, post_author: BOB };
    assert_eq!(
        create_comment(&mut ledger, ctx, 4, 1, "c".repeat(129), 6),
        Err(ErrorCode::InvalidCid)
    );
    assert_eq!(create_comment(&mut ledger, ctx, 4, 1, "c".repeat(128), 6), Ok(()));
    assert_eq!(
        create_comment(&mut ledger, ctx, 4, 1, text("d"), 7),
        Err(ErrorCode::AddressOccupied)
    );
    assert_eq!(create_comment(&mut ledger, ctx, 4, 2, text("d"), 7), Ok(()));
}

#[test]
fn index_topic_writes_the_entry() {
    let mut ledger = funded(1);
    assert_eq!(
        index_topic(&mut ledger, IndexTopic { author: ALICE }, 4, text("rust"), 6),
        Ok(())
    );
    assert_eq!(
        ledger.read(&topic_address(&PROGRAM, "rust", &ALICE, 4).unwrap()),
        Some(&Record::Topic(TopicIndex {
            topic: text("rust"),
            author: ALICE,
            post_id: 4,
            created_at: 6,
        }))
    );
    assert_eq!(ledger.balance(&ALICE), 10_000 - 92);
    assert_eq!(
        ledger.events(),
        &vec![Event::TopicIndexed(TopicIndexed { topic: text("rust"), author: ALICE, post_id: 4 })]
    );
}

#[test]
fn index_topic_refuses_a_bad_topic_and_a_second_entry() {
    let mut ledger = funded(0);
    let ctx = IndexTopic { author: ALICE };
    assert_eq!(index_topic(&mut ledger, ctx, 4, text(""), 6), Err(ErrorCode::InvalidTopic));
    assert_eq!(
        index_topic(&mut ledger, ctx, 4, "t".repeat(33), 6),
        Err(ErrorCode::InvalidTopic)
    );
    assert_eq!(index_topic(&mut ledger, ctx, 4, text("rust"), 6), Ok(()));
    assert_eq!(
        index_topic(&mut ledger, ctx, 4, text("rust"), 7),
        Err(ErrorCode::AddressOccupied)
    );
    assert_eq!(index_topic(&mut ledger, ctx, 4, text("verus"), 7), Ok(()));
}

#[test]
fn profile_update_event_carries_the_new_fields() {
    let mut ledger = funded(0);
    assert_eq!(alice_joins(&mut ledger, 1), Ok(()));
    assert_eq!(
        update_profile(
            &mut ledger,
            UpdateProfile { authority: ALICE },
            text("Alicia"),
            text("bio2"),
            text("avatar2"),
            2
        ),
        Ok(())
    );
    assert_eq!(
        ledger.events().last(),
        Some(&Event::ProfileUpdated(ProfileUpdated {
            authority: ALICE,
            username: text("alice"),
            display_name: text("Alicia"),
            bio_cid: text("bio2"),
            avatar_cid: text("avatar2"),
        }))
    );
}
