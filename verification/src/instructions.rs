use vstd::prelude::*;
use vstd::string::*;
use crate::accounts::{
    CreateComment, CreatePostIndex, CreateProfile, Follow, IndexTopic, LikePost, Tip, Unfollow,
    UnlikePost, UpdateProfile, UpdateUsername,
};
use crate::address::{
    comment_address, follow_address, like_address, post_address, profile_address, tip_address,
    topic_address, username_address,
};
use crate::error::ErrorCode;
use crate::ledger::Ledger;
use crate::records::Record;
use crate::store::follows;

verus! {

/// Creates the profile of `ctx.authority` and the lock on `username`, both
/// paid for by the authority, stamps the profile with `now`, and logs
/// `ProfileCreated`.
///
/// Fails, leaving the ledger as it was, with the validation error of the
/// first field out of bounds; else with `AddressOccupied` where the
/// authority already has a profile or the username is taken, or with
/// `InsufficientFunds` where the authority cannot pay both deposits.
pub fn create_profile(
    ledger: &mut Ledger,
    ctx: CreateProfile,
    username: String,
    display_name: String,
    bio_cid: String,
    avatar_cid: String,
    now: i64,
) -> (res: Result<(), ErrorCode>)
    requires
        old(ledger).wf(),
    ensures
        final(ledger).wf(),
        follows(
            old(ledger)@,
            old(ledger)@.create_profile(
                ctx.authority@,
                username@,
                display_name@,
                bio_cid@,
                avatar_cid@,
                now,
            ),
            res,
            final(ledger)@,
        ),
        final(ledger).supply() == old(ledger).supply(),
{
    let program_id = ledger.program_id();
    let profile_at = profile_address(&program_id, &ctx.authority);
    let name_at = username_address(&program_id, username.as_str());
    ledger.create_profile_at(
        profile_at,
        name_at,
        ctx,
        username,
        display_name,
        bio_cid,
        avatar_cid,
        now,
    )
}

/// Replaces display name, bio and avatar of the profile of `ctx.authority`,
/// stamps it with `now`, and logs `ProfileUpdated`. The username stays.
///
/// Fails, leaving the ledger as it was, with the validation error of the
/// first field out of bounds; else with `AddressNotFound` where the
/// authority has no profile, or with `Unauthorized` where the profile at
/// its address belongs to another identity.
pub fn update_profile(
    ledger: &mut Ledger,
    ctx: UpdateProfile,
    display_name: String,
    bio_cid: String,
    avatar_cid: String,
    now: i64,
) -> (res: Result<(), ErrorCode>)
    requires
        old(ledger).wf(),
    ensures
        final(ledger).wf(),
        follows(
            old(ledger)@,
            old(ledger)@.update_profile(ctx.authority@, display_name@, bio_cid@, avatar_cid@, now),
            res,
            final(ledger)@,
        ),
        final(ledger).supply() == old(ledger).supply(),
{
    let program_id = ledger.program_id();
    let profile_at = profile_address(&program_id, &ctx.authority);
    ledger.update_profile_at(profile_at, ctx, display_name, bio_cid, avatar_cid, now)
}

/// Gives the profile of `ctx.authority` the name `new_username`: closes the
/// lock on the old name, refunding the authority, creates the lock on the
/// new name, writes the name and `now` into the profile, and logs
/// `ProfileUpdated`.
///
/// Fails, leaving the ledger as it was, with `InvalidUsername`; else with
/// `AddressNotFound` where the authority has no profile or the old name has
/// no lock, with `Unauthorized` where the profile belongs to another
/// identity, with `AddressOccupied` where the new name is taken, or with
/// `InsufficientFunds` where the authority cannot pay for the new lock.
pub fn update_username(
    ledger: &mut Ledger,
    ctx: UpdateUsername,
    new_username: String,
    now: i64,
) -> (res: Result<(), ErrorCode>)
    requires
        old(ledger).wf(),
    ensures
        final(ledger).wf(),
        follows(
            old(ledger)@,
            old(ledger)@.update_username(ctx.authority@, new_username@, now),
            res,
            final(ledger)@,
        ),
        final(ledger).supply() == old(ledger).supply(),
{
    let program_id = ledger.program_id();
    let profile_at = profile_address(&program_id, &ctx.authority);
    let old_at = match profile_at {
        Some(at) => match ledger.read(&at) {
            Some(Record::Profile(profile)) => username_address(
                &program_id,
                profile.username.as_str(),
            ),
            _ => None,
        },
        None => None,
    };
    let new_at = username_address(&program_id, new_username.as_str());
    ledger.update_username_at(profile_at, old_at, new_at, ctx, new_username, now)
}

/// Creates the edge from `ctx.follower` to `ctx.following`, paid for by the
/// follower, and logs `Followed`. Nothing keeps an identity from following
/// itself.
///
/// Fails, leaving the ledger as it was, with `AddressOccupied` where the
/// edge exists already, or with `InsufficientFunds` where the follower
/// cannot pay the deposit.
pub fn follow(ledger: &mut Ledger, ctx: Follow, now: i64) -> (res: Result<(), ErrorCode>)
    requires
        old(ledger).wf(),
    ensures
        final(ledger).wf(),
        follows(
            old(ledger)@,
            old(ledger)@.follow(ctx.follower@, ctx.following@, now),
            res,
            final(ledger)@,
        ),
        final(ledger).supply() == old(ledger).supply(),
{
    let program_id = ledger.program_id();
    let edge_at = follow_address(&program_id, &ctx.follower, &ctx.following);
    ledger.follow_at(edge_at, ctx, now)
}

/// Closes the edge from `ctx.follower` to `ctx.following`, refunds the
/// follower, and logs `Unfollowed`.
///
/// Fails, leaving the ledger as it was, with `AddressNotFound` where there
/// is no such edge.
pub fn unfollow(ledger: &mut Ledger, ctx: Unfollow) -> (res: Result<(), ErrorCode>)
    requires
        old(ledger).wf(),
    ensures
        final(ledger).wf(),
        follows(
            old(ledger)@,
            old(ledger)@.unfollow(ctx.follower@, ctx.following@),
            res,
            final(ledger)@,
        ),
        final(ledger).supply() == old(ledger).supply(),
{
    let program_id = ledger.program_id();
    let edge_at = follow_address(&program_id, &ctx.follower, &ctx.following);
    ledger.unfollow_at(edge_at, ctx)
}

/// Creates the index entry of post `post_id` by `ctx.authority`, paid for
/// by the author, and logs `PostIndexed`. `visibility` is stored as given.
///
/// Fails, leaving the ledger as it was, with `InvalidCid`; else with
/// `AddressOccupied` where the author has used `post_id` already, or with
/// `InsufficientFunds` where the author cannot pay the deposit.
pub fn create_post_index(
    ledger: &mut Ledger,
    ctx: CreatePostIndex,
    post_id: u64,
    content_cid: String,
    visibility: u8,
    now: i64,
) -> (res: Result<(), ErrorCode>)
    requires
        old(ledger).wf(),
    ensures
        final(ledger).wf(),
        follows(
            old(ledger)@,
            old(ledger)@.create_post_index(ctx.authority@, post_id, content_cid@, visibility, now),
            res,
            final(ledger)@,
        ),
        final(ledger).supply() == old(ledger).supply(),
{
    let program_id = ledger.program_id();
    let post_at = post_address(&program_id, &ctx.authority, post_id);
    ledger.create_post_index_at(post_at, ctx, post_id, content_cid, visibility, now)
}

/// Moves `amount_lamports` from `ctx.from` to `ctx.to`, writes the receipt,
/// paid for by the sender, and logs `Tipped`. An amount of zero is moved
/// like any other. Transfer and receipt happen both or not at all.
///
/// Fails, leaving the ledger as it was, with `InsufficientFunds` where the
/// sender holds less than the amount, or cannot pay the deposit after
/// sending it; with `AddressOccupied` where the sender has used `tip_id`
/// already.
pub fn tip(ledger: &mut Ledger, ctx: Tip, tip_id: u64, amount_lamports: u64, now: i64) -> (res:
    Result<(), ErrorCode>)
    requires
        old(ledger).wf(),
    ensures
        final(ledger).wf(),
        follows(
            old(ledger)@,
            old(ledger)@.tip(ctx.from@, ctx.to@, tip_id, amount_lamports, now),
            res,
            final(ledger)@,
        ),
        final(ledger).supply() == old(ledger).supply(),
{
    let program_id = ledger.program_id();
    let tip_at = tip_address(&program_id, &ctx.from, tip_id);
    ledger.tip_at(tip_at, ctx, tip_id, amount_lamports, now)
}

/// Records that `ctx.liker` likes post `post_id` of `ctx.post_author`, paid
/// for by the liker, and logs `PostLiked`.
///
/// Fails, leaving the ledger as it was, with `AddressOccupied` where the
/// liker likes that post already, or with `InsufficientFunds` where the
/// liker cannot pay the deposit.
pub fn like_post(ledger: &mut Ledger, ctx: LikePost, post_id: u64, now: i64) -> (res: Result<
    (),
    ErrorCode,
>)
    requires
        old(ledger).wf(),
    ensures
        final(ledger).wf(),
        follows(
            old(ledger)@,
            old(ledger)@.like_post(ctx.liker@, ctx.post_author@, post_id, now),
            res,
            final(ledger)@,
        ),
        final(ledger).supply() == old(ledger).supply(),
{
    let program_id = ledger.program_id();
    let like_at = like_address(&program_id, &ctx.liker, &ctx.post_author, post_id);
    ledger.like_post_at(like_at, ctx, post_id, now)
}

/// Closes the like at `ctx.like`, refunds the liker, and logs
/// `PostUnliked`. The post id is read from the like itself.
///
/// Fails, leaving the ledger as it was, with `AddressNotFound` where no
/// like lives at `ctx.like`, or with `Unauthorized` where `ctx.like` is not
/// the address derived for the liker, the post author and that post id.
pub fn unlike_post(ledger: &mut Ledger, ctx: UnlikePost) -> (res: Result<(), ErrorCode>)
    requires
        old(ledger).wf(),
    ensures
        final(ledger).wf(),
        follows(
            old(ledger)@,
            old(ledger)@.unlike_post(ctx.liker@, ctx.post_author@, ctx.like@),
            res,
            final(ledger)@,
        ),
        final(ledger).supply() == old(ledger).supply(),
{
    let program_id = ledger.program_id();
    let derived = match ledger.read(&ctx.like) {
        Some(Record::Like(like)) => like_address(
            &program_id,
            &ctx.liker,
            &ctx.post_author,
            like.post_id,
        ),
        _ => None,
    };
    ledger.unlike_post_at(derived, ctx)
}

/// Creates comment `comment_id` of `ctx.author` on post `post_id` of
/// `ctx.post_author`, paid for by the author, and logs `CommentCreated`.
///
/// Fails, leaving the ledger as it was, with `InvalidCid`; else with
/// `AddressOccupied` where the author has used `comment_id` on that post
/// already, or with `InsufficientFunds` where the author cannot pay the
/// deposit.
pub fn create_comment(
    ledger: &mut Ledger,
    ctx: CreateComment,
    post_id: u64,
    comment_id: u64,
    content_cid: String,
    now: i64,
) -> (res: Result<(), ErrorCode>)
    requires
        old(ledger).wf(),
    ensures
        final(ledger).wf(),
        follows(
            old(ledger)@,
            old(ledger)@.create_comment(
                ctx.author@,
                ctx.post_author@,
                post_id,
                comment_id,
                content_cid@,
                now,
            ),
            res,
            final(ledger)@,
        ),
        final(ledger).supply() == old(ledger).supply(),
{
    let program_id = ledger.program_id();
    let comment_at = comment_address(&program_id, &ctx.author, post_id, comment_id);
    ledger.create_comment_at(comment_at, ctx, post_id, comment_id, content_cid, now)
}

/// Files post `post_id` of `ctx.author` under `topic`, paid for by the
/// author, and logs `TopicIndexed`.
///
/// Fails, leaving the ledger as it was, with `InvalidTopic`; else with
/// `AddressOccupied` where that post is filed under that topic already, or
/// with `InsufficientFunds` where the author cannot pay the deposit.
pub fn index_topic(ledger: &mut Ledger, ctx: IndexTopic, post_id: u64, topic: String, now: i64) -> (res:
    Result<(), ErrorCode>)
    requires
        old(ledger).wf(),
    ensures
        final(ledger).wf(),
        follows(
            old(ledger)@,
            old(ledger)@.index_topic(ctx.author@, post_id, topic@, now),
            res,
            final(ledger)@,
        ),
        final(ledger).supply() == old(ledger).supply(),
{
    let program_id = ledger.program_id();
    let topic_at = topic_address(&program_id, topic.as_str(), &ctx.author, post_id);
    ledger.index_topic_at(topic_at, ctx, post_id, topic, now)
}

} // verus!
