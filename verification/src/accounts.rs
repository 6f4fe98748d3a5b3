use vstd::prelude::*;
use crate::address::Pubkey;

verus! {

/// Who takes part in `create_profile`: the identity that signs and pays,
/// and that will own the profile.
#[derive(Clone, Copy, Debug, PartialEq, Eq)]
pub struct CreateProfile {
    pub authority: Pubkey,
}

/// Who takes part in `update_profile`: the owner of the profile.
#[derive(Clone, Copy, Debug, PartialEq, Eq)]
pub struct UpdateProfile {
    pub authority: Pubkey,
}

/// Who takes part in `update_username`: the owner of the profile, who pays
/// for the new lock and receives the deposit of the old one.
#[derive(Clone, Copy, Debug, PartialEq, Eq)]
pub struct UpdateUsername {
    pub authority: Pubkey,
}

/// Who takes part in `follow`: the follower signs and pays; the followed
/// identity is only named.
#[derive(Clone, Copy, Debug, PartialEq, Eq)]
pub struct Follow {
    pub follower: Pubkey,
    pub following: Pubkey,
}

/// Who takes part in `unfollow`: the follower receives the deposit.
#[derive(Clone, Copy, Debug, PartialEq, Eq)]
pub struct Unfollow {
    pub follower: Pubkey,
    pub following: Pubkey,
}

/// Who takes part in `create_post_index`: the author signs and pays.
#[derive(Clone, Copy, Debug, PartialEq, Eq)]
pub struct CreatePostIndex {
    pub authority: Pubkey,
}

/// Who takes part in `tip`: the sender signs and pays for the receipt; the
/// recipient is only named.
#[derive(Clone, Copy, Debug, PartialEq, Eq)]
pub struct Tip {
    pub from: Pubkey,
    pub to: Pubkey,
}

/// Who takes part in `like_post`: the liker signs and pays.
#[derive(Clone, Copy, Debug, PartialEq, Eq)]
pub struct LikePost {
    pub liker: Pubkey,
    pub post_author: Pubkey,
}

/// Who takes part in `unlike_post`, and the address of the like to close.
/// The liker receives the deposit.
#[derive(Clone, Copy, Debug, PartialEq, Eq)]
pub struct UnlikePost {
    pub liker: Pubkey,
    pub post_author: Pubkey,
    pub like: Pubkey,
}

/// Who takes part in `create_comment`: the author signs and pays.
#[derive(Clone, Copy, Debug, PartialEq, Eq)]
pub struct CreateComment {
    pub author: Pubkey,
    pub post_author: Pubkey,
}

/// Who takes part in `index_topic`: the author signs and pays.
#[derive(Clone, Copy, Debug, PartialEq, Eq)]
pub struct IndexTopic {
    pub author: Pubkey,
}

} // verus!
