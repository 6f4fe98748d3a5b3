use vstd::prelude::*;
use crate::address::{
    spec_derive, spec_follow_address, spec_like_address, spec_profile_address, spec_tip_address,
    spec_username_address,
};
use crate::error::ErrorCode;
use crate::model::{Call, LedgerView};
use crate::records::{RecordKind, RecordView};
use crate::store::StoreView;
use crate::validation::{valid_cid, valid_display_name, valid_topic, valid_username};

verus! {

/// Derivation is a function of its inputs: the same program, namespace and
/// key parts always give the same address and the same bump seed.
pub proof fn derive_is_deterministic(
    program_a: Seq<u8>,
    namespace_a: Seq<u8>,
    parts_a: Seq<Seq<u8>>,
    program_b: Seq<u8>,
    namespace_b: Seq<u8>,
    parts_b: Seq<Seq<u8>>,
)
    requires
        program_a =~= program_b,
        namespace_a =~= namespace_b,
        parts_a =~~= parts_b,
    ensures
        spec_derive(program_a, namespace_a, parts_a) == spec_derive(
            program_b,
            namespace_b,
            parts_b,
        ),
{
}

/// One profile per owner: once an identity has created its profile, any
/// further `create_profile` by that identity with fields within bounds
/// fails with `AddressOccupied`, whatever username it asks for.
pub proof fn profile_is_unique_per_owner(
    ledger: LedgerView,
    owner: Seq<u8>,
    username: Seq<char>,
    display_name: Seq<char>,
    bio_cid: Seq<char>,
    avatar_cid: Seq<char>,
    now: i64,
    other_username: Seq<char>,
    other_display_name: Seq<char>,
    other_bio_cid: Seq<char>,
    other_avatar_cid: Seq<char>,
    later: i64,
)
    requires
        ledger.wf(),
        ledger.create_profile(owner, username, display_name, bio_cid, avatar_cid, now) is Ok,
        valid_username(other_username),
        valid_display_name(other_display_name),
        valid_cid(other_bio_cid),
        valid_cid(other_avatar_cid),
    ensures
        ledger.create_profile(
            owner,
            username,
            display_name,
            bio_cid,
            avatar_cid,
            now,
        )->Ok_0.create_profile(
            owner,
            other_username,
            other_display_name,
            other_bio_cid,
            other_avatar_cid,
            later,
        ) == Err::<LedgerView, ErrorCode>(ErrorCode::AddressOccupied),
{
}

/// One owner per username: once a profile has been created under a
/// username, `create_profile` by an identity that has no profile yet and
/// can pay for one, with the same username and fields within bounds, fails
/// with `AddressOccupied`.
pub proof fn username_is_unique(
    ledger: LedgerView,
    owner: Seq<u8>,
    username: Seq<char>,
    display_name: Seq<char>,
    bio_cid: Seq<char>,
    avatar_cid: Seq<char>,
    now: i64,
    other_owner: Seq<u8>,
    other_display_name: Seq<char>,
    other_bio_cid: Seq<char>,
    other_avatar_cid: Seq<char>,
    later: i64,
)
    requires
        ledger.wf(),
        ledger.create_profile(owner, username, display_name, bio_cid, avatar_cid, now) is Ok,
        valid_display_name(other_display_name),
        valid_cid(other_bio_cid),
        valid_cid(other_avatar_cid),
        ({
            let after = ledger.create_profile(
                owner,
                username,
                display_name,
                bio_cid,
                avatar_cid,
                now,
            )->Ok_0;
            &&& spec_profile_address(after.program_id, other_owner) matches Some(profile_at)
            &&& !after.store.records.contains_key(profile_at)
            &&& after.store.balance(other_owner) >= after.store.cost(RecordKind::Profile)
        }),
    ensures
        ledger.create_profile(
            owner,
            username,
            display_name,
            bio_cid,
            avatar_cid,
            now,
        )->Ok_0.create_profile(
            other_owner,
            username,
            other_display_name,
            other_bio_cid,
            other_avatar_cid,
            later,
        ) == Err::<LedgerView, ErrorCode>(ErrorCode::AddressOccupied),
{
}

/// A rename moves the lock: after `update_username` the new name's address
/// holds the owner's lock, the profile carries the new name, nobody's
/// balance has changed, and, where the two names have different addresses,
/// the old name's address is free, so that creating a record there no
/// longer fails with `AddressOccupied`.
pub proof fn rename_moves_the_lock(
    ledger: LedgerView,
    owner: Seq<u8>,
    new_username: Seq<char>,
    now: i64,
    record: RecordView,
    payer: Seq<u8>,
)
    requires
        ledger.wf(),
        ledger.update_username(owner, new_username, now) is Ok,
    ensures
        ({
            let after = ledger.update_username(owner, new_username, now)->Ok_0;
            let profile_at = spec_profile_address(ledger.program_id, owner)->Some_0;
            let old_username = ledger.store.records[profile_at]->Profile_username;
            let old_at = spec_username_address(ledger.program_id, old_username)->Some_0;
            let new_at = spec_username_address(ledger.program_id, new_username)->Some_0;
            &&& ledger.store.records.contains_key(old_at)
            &&& ledger.store.records[old_at] is Username
            &&& after.store.records.contains_key(new_at)
            &&& after.store.records[new_at] == (RecordView::Username {
                authority: owner,
                username: new_username,
            })
            &&& after.store.records.dom() == ledger.store.records.dom().remove(old_at).insert(
                new_at,
            )
            &&& after.store.records.contains_key(profile_at)
            &&& after.store.records[profile_at] is Profile
            &&& after.store.records[profile_at]->Profile_username == new_username
            &&& after.store.records[profile_at]->Profile_authority == owner
            &&& after.store.balances == ledger.store.balances
            &&& old_at != new_at ==> {
                &&& !after.store.records.contains_key(old_at)
                &&& after.store.create(old_at, record, payer) != Err::<StoreView, ErrorCode>(
                    ErrorCode::AddressOccupied,
                )
            }
        }),
{
    let profile_at = spec_profile_address(ledger.program_id, owner)->Some_0;
    let old_username = ledger.store.records[profile_at]->Profile_username;
    let old_at = spec_username_address(ledger.program_id, old_username)->Some_0;
    let new_at = spec_username_address(ledger.program_id, new_username)->Some_0;
    let after = ledger.update_username(owner, new_username, now)->Ok_0;
    assert(after.store.records.dom() =~= ledger.store.records.dom().remove(old_at).insert(new_at));
    assert(after.store.balances =~= ledger.store.balances);
}

/// Following is not idempotent: once the edge exists, following again
/// fails with `AddressOccupied`.
pub proof fn follow_twice_is_refused(
    ledger: LedgerView,
    follower: Seq<u8>,
    following: Seq<u8>,
    now: i64,
    later: i64,
)
    requires
        ledger.wf(),
        ledger.follow(follower, following, now) is Ok,
    ensures
        ledger.follow(follower, following, now)->Ok_0.follow(follower, following, later) == Err::<
            LedgerView,
            ErrorCode,
        >(ErrorCode::AddressOccupied),
{
}

/// An edge can be closed and created again: after `follow`, `unfollow`
/// succeeds and gives back the store as it was before the edge existed,
/// and `follow` then succeeds again.
pub proof fn follow_again_after_unfollow(
    ledger: LedgerView,
    follower: Seq<u8>,
    following: Seq<u8>,
    now: i64,
    later: i64,
)
    requires
        ledger.wf(),
        ledger.follow(follower, following, now) is Ok,
    ensures
        ledger.follow(follower, following, now)->Ok_0.unfollow(follower, following) is Ok,
        ledger.follow(follower, following, now)->Ok_0.unfollow(follower, following)->Ok_0.store
            == ledger.store,
        ledger.follow(follower, following, now)->Ok_0.unfollow(
            follower,
            following,
        )->Ok_0.follow(follower, following, later) is Ok,
{
    let edge_at = spec_follow_address(ledger.program_id, follower, following)->Some_0;
    let followed = ledger.follow(follower, following, now)->Ok_0;
    let undone = followed.unfollow(follower, following)->Ok_0;
    assert(undone.store.records =~= ledger.store.records);
    assert(undone.store.balances =~= ledger.store.balances);
    assert(undone.store =~= ledger.store);
}

/// A post id is used once per author: once an author has indexed a post
/// under an id, indexing again under that id, with a content pointer within
/// bounds, fails with `AddressOccupied`.
pub proof fn post_id_is_unique_per_author(
    ledger: LedgerView,
    author: Seq<u8>,
    post_id: u64,
    content_cid: Seq<char>,
    visibility: u8,
    now: i64,
    other_cid: Seq<char>,
    other_visibility: u8,
    later: i64,
)
    requires
        ledger.wf(),
        ledger.create_post_index(author, post_id, content_cid, visibility, now) is Ok,
        valid_cid(other_cid),
    ensures
        ledger.create_post_index(
            author,
            post_id,
            content_cid,
            visibility,
            now,
        )->Ok_0.create_post_index(author, post_id, other_cid, other_visibility, later) == Err::<
            LedgerView,
            ErrorCode,
        >(ErrorCode::AddressOccupied),
{
}

/// A comment id is used once per author and post: once an author has
/// commented on a post under an id, commenting again on that post under
/// that id, with a content pointer within bounds, fails with
/// `AddressOccupied`, whoever is named as the post's author.
pub proof fn comment_id_is_unique_per_author_and_post(
    ledger: LedgerView,
    author: Seq<u8>,
    post_author: Seq<u8>,
    post_id: u64,
    comment_id: u64,
    content_cid: Seq<char>,
    now: i64,
    other_post_author: Seq<u8>,
    other_cid: Seq<char>,
    later: i64,
)
    requires
        ledger.wf(),
        ledger.create_comment(author, post_author, post_id, comment_id, content_cid, now) is Ok,
        valid_cid(other_cid),
    ensures
        ledger.create_comment(
            author,
            post_author,
            post_id,
            comment_id,
            content_cid,
            now,
        )->Ok_0.create_comment(author, other_post_author, post_id, comment_id, other_cid, later)
            == Err::<LedgerView, ErrorCode>(ErrorCode::AddressOccupied),
{
}

/// A post is filed once under a topic: filing it again under that topic
/// fails with `AddressOccupied`.
pub proof fn topic_entry_is_unique(
    ledger: LedgerView,
    author: Seq<u8>,
    post_id: u64,
    topic: Seq<char>,
    now: i64,
    later: i64,
)
    requires
        ledger.wf(),
        ledger.index_topic(author, post_id, topic, now) is Ok,
    ensures
        valid_topic(topic),
        ledger.index_topic(author, post_id, topic, now)->Ok_0.index_topic(
            author,
            post_id,
            topic,
            later,
        ) == Err::<LedgerView, ErrorCode>(ErrorCode::AddressOccupied),
{
}

/// A tip id is used once per sender: once a sender has tipped under an id,
/// a further tip under that id fails and moves nothing; it fails with
/// `AddressOccupied` where the sender holds the amount.
pub proof fn tip_id_is_unique_per_sender(
    ledger: LedgerView,
    from: Seq<u8>,
    to: Seq<u8>,
    tip_id: u64,
    amount_lamports: u64,
    now: i64,
    other_to: Seq<u8>,
    other_amount: u64,
    later: i64,
)
    requires
        ledger.wf(),
        ledger.tip(from, to, tip_id, amount_lamports, now) is Ok,
    ensures
        ({
            let after = ledger.tip(from, to, tip_id, amount_lamports, now)->Ok_0;
            let again = after.tip(from, other_to, tip_id, other_amount, later);
            &&& again is Err
            &&& after.store.balance(from) >= other_amount ==> again == Err::<
                LedgerView,
                ErrorCode,
            >(ErrorCode::AddressOccupied)
        }),
{
}

/// A tip and its receipt go together: where `tip` succeeds, the receipt
/// lives at the tip's address, which was free before, the sender has paid
/// the amount and the deposit of the receipt, and the recipient has
/// received the amount. Where it fails there is no new ledger at all.
pub proof fn tip_and_receipt_go_together(
    ledger: LedgerView,
    from: Seq<u8>,
    to: Seq<u8>,
    tip_id: u64,
    amount_lamports: u64,
    now: i64,
)
    requires
        ledger.wf(),
        ledger.tip(from, to, tip_id, amount_lamports, now) is Ok,
    ensures
        ({
            let after = ledger.tip(from, to, tip_id, amount_lamports, now)->Ok_0;
            let tip_at = spec_tip_address(ledger.program_id, from, tip_id)->Some_0;
            let deposit = ledger.store.cost(RecordKind::Tip);
            &&& !ledger.store.records.contains_key(tip_at)
            &&& after.store.records.contains_key(tip_at)
            &&& after.store.records[tip_at] == (RecordView::Tip {
                from,
                to,
                tip_id,
                amount_lamports,
                created_at: now,
            })
            &&& from != to ==> {
                &&& after.store.balance(from) + amount_lamports + deposit == ledger.store.balance(
                    from,
                )
                &&& after.store.balance(to) == ledger.store.balance(to) + amount_lamports
            }
            &&& from == to ==> after.store.balance(from) + deposit == ledger.store.balance(from)
            &&& after.events == ledger.events.push(
                crate::events::EventView::Tipped { from, to, tip_id, amount_lamports },
            )
        }),
{
}

/// Liking is not idempotent: once the like exists, liking the same post
/// again fails with `AddressOccupied`.
pub proof fn like_twice_is_refused(
    ledger: LedgerView,
    liker: Seq<u8>,
    post_author: Seq<u8>,
    post_id: u64,
    now: i64,
    later: i64,
)
    requires
        ledger.wf(),
        ledger.like_post(liker, post_author, post_id, now) is Ok,
    ensures
        ledger.like_post(liker, post_author, post_id, now)->Ok_0.like_post(
            liker,
            post_author,
            post_id,
            later,
        ) == Err::<LedgerView, ErrorCode>(ErrorCode::AddressOccupied),
{
}

/// A like can be closed and given again: after `like_post`, `unlike_post`
/// on the like's address succeeds and gives back the store as it was
/// before, and `like_post` then succeeds again.
pub proof fn like_again_after_unlike(
    ledger: LedgerView,
    liker: Seq<u8>,
    post_author: Seq<u8>,
    post_id: u64,
    now: i64,
    later: i64,
)
    requires
        ledger.wf(),
        ledger.like_post(liker, post_author, post_id, now) is Ok,
    ensures
        ({
            let like_at = spec_like_address(ledger.program_id, liker, post_author, post_id)->Some_0;
            let liked = ledger.like_post(liker, post_author, post_id, now)->Ok_0;
            let unliked = liked.unlike_post(liker, post_author, like_at);
            &&& unliked is Ok
            &&& unliked->Ok_0.store == ledger.store
            &&& unliked->Ok_0.like_post(liker, post_author, post_id, later) is Ok
        }),
{
    let like_at = spec_like_address(ledger.program_id, liker, post_author, post_id)->Some_0;
    let liked = ledger.like_post(liker, post_author, post_id, now)->Ok_0;
    let unliked = liked.unlike_post(liker, post_author, like_at)->Ok_0;
    assert(unliked.store.records =~= ledger.store.records);
    assert(unliked.store.balances =~= ledger.store.balances);
    assert(unliked.store =~= ledger.store);
}

/// A committed transition, whichever it is, keeps the ledger well formed,
/// keeps the program and the rent, leaves the events logged before it as
/// they were, and logs exactly one event of its own.
pub proof fn every_transition_logs_one_event(ledger: LedgerView, call: Call, now: i64)
    requires
        ledger.wf(),
        ledger.apply(call, now) is Ok,
    ensures
        ledger.apply(call, now)->Ok_0.wf(),
        ledger.apply(call, now)->Ok_0.program_id == ledger.program_id,
        ledger.apply(call, now)->Ok_0.store.rent_per_byte == ledger.store.rent_per_byte,
        ledger.apply(call, now)->Ok_0.events.len() == ledger.events.len() + 1,
        ledger.apply(call, now)->Ok_0.events.drop_last() == ledger.events,
{
    let after = ledger.apply(call, now)->Ok_0;
    assert(after.events.drop_last() =~= ledger.events);
}

/// No transition but `tip` changes what anybody but its signer holds, and
/// `tip` changes only what sender and recipient hold.
pub proof fn only_the_signer_pays(ledger: LedgerView, call: Call, now: i64, other: Seq<u8>)
    requires
        ledger.wf(),
        ledger.apply(call, now) is Ok,
        other != LedgerView::signer(call),
        call matches Call::Tip { to, .. } ==> other != to,
    ensures
        ledger.apply(call, now)->Ok_0.store.balance(other) == ledger.store.balance(other),
{
}

} // verus!
