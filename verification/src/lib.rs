//! A social-graph ledger: uniquely addressed records (profiles, usernames,
//! follow edges, posts, tips, likes, comments, topic tags) kept in a store
//! whose addresses are derived from the records' logical keys.
//!
//! - `address` derives the address of a record from its namespace and key.
//! - `validation` bounds the length of every text field.
//! - `store` is the record store: create, read, update and close, with the
//!   deposit of each record charged to a payer and handed back on close.
//! - `model` states each transition as a function on mathematical ledgers.
//! - `ledger` runs the transitions on addresses that are given, and
//!   `instructions` derives the addresses and runs them.
//! - `laws` proves what holds across several transitions.

pub mod accounts;
pub mod address;
pub mod error;
pub mod events;
pub mod instructions;
pub mod laws;
pub mod ledger;
pub mod model;
pub mod records;
pub mod store;
pub mod validation;

pub use crate::accounts::{
    CreateComment, CreatePostIndex, CreateProfile, Follow, IndexTopic, LikePost, Tip, Unfollow,
    UnlikePost, UpdateProfile, UpdateUsername,
};
pub use crate::address::Pubkey;
pub use crate::error::ErrorCode;
pub use crate::events::{
    CommentCreated, Event, Followed, PostIndexed, PostLiked, PostUnliked, ProfileCreated,
    ProfileUpdated, Tipped, TopicIndexed, Unfollowed,
};
pub use crate::instructions::{
    create_comment, create_post_index, create_profile, follow, index_topic, like_post, tip,
    unfollow, unlike_post, update_profile, update_username,
};
pub use crate::ledger::Ledger;
pub use crate::records::{
    CommentRecord, FollowEdge, LikeRecord, PostIndex, Record, RecordKind, TipRecord, TopicIndex,
    UserProfile, UsernameRecord,
};
pub use crate::store::RecordStore;
