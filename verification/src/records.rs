use vstd::prelude::*;
use crate::address::Pubkey;
use crate::validation::{MAX_CID_LEN, MAX_DISPLAY_NAME_LEN, MAX_TOPIC_LEN, MAX_USERNAME_LEN};

verus! {

/// Bytes that the store adds in front of every record.
pub const RECORD_HEADER_LEN: usize = 8;

/// The profile of one identity. There is at most one per `authority`.
#[derive(Clone, Debug, PartialEq, Eq)]
pub struct UserProfile {
    pub authority: Pubkey,
    pub username: String,
    pub display_name: String,
    pub bio_cid: String,
    pub avatar_cid: String,
    pub created_at: i64,
    pub updated_at: i64,
}

/// The lock on one username: while it lives, nobody else can take the name.
#[derive(Clone, Debug, PartialEq, Eq)]
pub struct UsernameRecord {
    pub authority: Pubkey,
    pub username: String,
}

/// One directed edge of the follow graph.
#[derive(Clone, Copy, Debug, PartialEq, Eq)]
pub struct FollowEdge {
    pub follower: Pubkey,
    pub following: Pubkey,
    pub created_at: i64,
}

/// The index entry of one post.
#[derive(Clone, Debug, PartialEq, Eq)]
pub struct PostIndex {
    pub author: Pubkey,
    pub post_id: u64,
    pub content_cid: String,
    pub visibility: u8,
    pub created_at: i64,
}

/// The receipt of one tip.
#[derive(Clone, Copy, Debug, PartialEq, Eq)]
pub struct TipRecord {
    pub from: Pubkey,
    pub to: Pubkey,
    pub tip_id: u64,
    pub amount_lamports: u64,
    pub created_at: i64,
}

/// One like of one post by one identity.
#[derive(Clone, Copy, Debug, PartialEq, Eq)]
pub struct LikeRecord {
    pub liker: Pubkey,
    pub post_author: Pubkey,
    pub post_id: u64,
    pub created_at: i64,
}

/// One comment on a post.
#[derive(Clone, Debug, PartialEq, Eq)]
pub struct CommentRecord {
    pub author: Pubkey,
    pub post_author: Pubkey,
    pub post_id: u64,
    pub comment_id: u64,
    pub content_cid: String,
    pub created_at: i64,
}

/// The entry of one post under one topic.
#[derive(Clone, Debug, PartialEq, Eq)]
pub struct TopicIndex {
    pub topic: String,
    pub author: Pubkey,
    pub post_id: u64,
    pub created_at: i64,
}

impl UserProfile {
    pub const SIZE: usize = 32 + 4 + MAX_USERNAME_LEN + 4 + MAX_DISPLAY_NAME_LEN + 4 + MAX_CID_LEN
        + 4 + MAX_CID_LEN + 8 + 8;
}

impl UsernameRecord {
    pub const SIZE: usize = 32 + 4 + MAX_USERNAME_LEN;
}

impl FollowEdge {
    pub const SIZE: usize = 32 + 32 + 8;
}

impl PostIndex {
    pub const SIZE: usize = 32 + 8 + 4 + MAX_CID_LEN + 1 + 8;
}

impl TipRecord {
    pub const SIZE: usize = 32 + 32 + 8 + 8 + 8;
}

impl LikeRecord {
    pub const SIZE: usize = 32 + 32 + 8 + 8;
}

impl CommentRecord {
    pub const SIZE: usize = 32 + 32 + 8 + 8 + 4 + MAX_CID_LEN + 8;
}

impl TopicIndex {
    pub const SIZE: usize = 4 + MAX_TOPIC_LEN + 32 + 8 + 8;
}

/// The shape of a record. A record keeps its shape for as long as it lives.
#[derive(Clone, Copy, Debug, PartialEq, Eq, Structural)]
pub enum RecordKind {
    Profile,
    Username,
    Follow,
    Post,
    Tip,
    Like,
    Comment,
    Topic,
}

impl RecordKind {
    /// Bytes that a record of this shape occupies in the store, header included.
    pub open spec fn spec_space(self) -> nat {
        (RECORD_HEADER_LEN + match self {
            RecordKind::Profile => UserProfile::SIZE,
            RecordKind::Username => UsernameRecord::SIZE,
            RecordKind::Follow => FollowEdge::SIZE,
            RecordKind::Post => PostIndex::SIZE,
            RecordKind::Tip => TipRecord::SIZE,
            RecordKind::Like => LikeRecord::SIZE,
            RecordKind::Comment => CommentRecord::SIZE,
            RecordKind::Topic => TopicIndex::SIZE,
        }) as nat
    }

    pub fn space(self) -> (bytes: usize)
        ensures
            bytes == self.spec_space(),
    {
        let body: usize = match self {
            RecordKind::Profile => UserProfile::SIZE,
            RecordKind::Username => UsernameRecord::SIZE,
            RecordKind::Follow => FollowEdge::SIZE,
            RecordKind::Post => PostIndex::SIZE,
            RecordKind::Tip => TipRecord::SIZE,
            RecordKind::Like => LikeRecord::SIZE,
            RecordKind::Comment => CommentRecord::SIZE,
            RecordKind::Topic => TopicIndex::SIZE,
        };
        RECORD_HEADER_LEN + body
    }
}

/// What a record holds, as mathematical values: keys as byte sequences,
/// text as character sequences.
pub enum RecordView {
    Profile {
        authority: Seq<u8>,
        username: Seq<char>,
        display_name: Seq<char>,
        bio_cid: Seq<char>,
        avatar_cid: Seq<char>,
        created_at: i64,
        updated_at: i64,
    },
    Username { authority: Seq<u8>, username: Seq<char> },
    Follow { follower: Seq<u8>, following: Seq<u8>, created_at: i64 },
    Post { author: Seq<u8>, post_id: u64, content_cid: Seq<char>, visibility: u8, created_at: i64 },
    Tip { from: Seq<u8>, to: Seq<u8>, tip_id: u64, amount_lamports: u64, created_at: i64 },
    Like { liker: Seq<u8>, post_author: Seq<u8>, post_id: u64, created_at: i64 },
    Comment {
        author: Seq<u8>,
        post_author: Seq<u8>,
        post_id: u64,
        comment_id: u64,
        content_cid: Seq<char>,
        created_at: i64,
    },
    Topic { topic: Seq<char>, author: Seq<u8>, post_id: u64, created_at: i64 },
}

impl RecordView {
    pub open spec fn kind(self) -> RecordKind {
        match self {
            RecordView::Profile { .. } => RecordKind::Profile,
            RecordView::Username { .. } => RecordKind::Username,
            RecordView::Follow { .. } => RecordKind::Follow,
            RecordView::Post { .. } => RecordKind::Post,
            RecordView::Tip { .. } => RecordKind::Tip,
            RecordView::Like { .. } => RecordKind::Like,
            RecordView::Comment { .. } => RecordKind::Comment,
            RecordView::Topic { .. } => RecordKind::Topic,
        }
    }

    /// The identity that authorized the record's creation, and the only one
    /// that may change it.
    pub open spec fn owner(self) -> Seq<u8> {
        match self {
            RecordView::Profile { authority, .. } => authority,
            RecordView::Username { authority, .. } => authority,
            RecordView::Follow { follower, .. } => follower,
            RecordView::Post { author, .. } => author,
            RecordView::Tip { from, .. } => from,
            RecordView::Like { liker, .. } => liker,
            RecordView::Comment { author, .. } => author,
            RecordView::Topic { author, .. } => author,
        }
    }
}

impl View for UserProfile {
    type V = RecordView;

    open spec fn view(&self) -> RecordView {
        RecordView::Profile {
            authority: self.authority@,
            username: self.username@,
            display_name: self.display_name@,
            bio_cid: self.bio_cid@,
            avatar_cid: self.avatar_cid@,
            created_at: self.created_at,
            updated_at: self.updated_at,
        }
    }
}

impl View for UsernameRecord {
    type V = RecordView;

    open spec fn view(&self) -> RecordView {
        RecordView::Username { authority: self.authority@, username: self.username@ }
    }
}

impl View for FollowEdge {
    type V = RecordView;

    open spec fn view(&self) -> RecordView {
        RecordView::Follow {
            follower: self.follower@,
            following: self.following@,
            created_at: self.created_at,
        }
    }
}

impl View for PostIndex {
    type V = RecordView;

    open spec fn view(&self) -> RecordView {
        RecordView::Post {
            author: self.author@,
            post_id: self.post_id,
            content_cid: self.content_cid@,
            visibility: self.visibility,
            created_at: self.created_at,
        }
    }
}

impl View for TipRecord {
    type V = RecordView;

    open spec fn view(&self) -> RecordView {
        RecordView::Tip {
            from: self.from@,
            to: self.to@,
            tip_id: self.tip_id,
            amount_lamports: self.amount_lamports,
            created_at: self.created_at,
        }
    }
}

impl View for LikeRecord {
    type V = RecordView;

    open spec fn view(&self) -> RecordView {
        RecordView::Like {
            liker: self.liker@,
            post_author: self.post_author@,
            post_id: self.post_id,
            created_at: self.created_at,
        }
    }
}

impl View for CommentRecord {
    type V = RecordView;

    open spec fn view(&self) -> RecordView {
        RecordView::Comment {
            author: self.author@,
            post_author: self.post_author@,
            post_id: self.post_id,
            comment_id: self.comment_id,
            content_cid: self.content_cid@,
            created_at: self.created_at,
        }
    }
}

impl View for TopicIndex {
    type V = RecordView;

    open spec fn view(&self) -> RecordView {
        RecordView::Topic {
            topic: self.topic@,
            author: self.author@,
            post_id: self.post_id,
            created_at: self.created_at,
        }
    }
}

/// A record of any of the eight shapes.
#[derive(Clone, Debug, PartialEq, Eq)]
pub enum Record {
    Profile(UserProfile),
    Username(UsernameRecord),
    Follow(FollowEdge),
    Post(PostIndex),
    Tip(TipRecord),
    Like(LikeRecord),
    Comment(CommentRecord),
    Topic(TopicIndex),
}

impl View for Record {
    type V = RecordView;

    open spec fn view(&self) -> RecordView {
        match self {
            Record::Profile(r) => r@,
            Record::Username(r) => r@,
            Record::Follow(r) => r@,
            Record::Post(r) => r@,
            Record::Tip(r) => r@,
            Record::Like(r) => r@,
            Record::Comment(r) => r@,
            Record::Topic(r) => r@,
        }
    }
}

impl Record {
    pub fn kind(&self) -> (kind: RecordKind)
        ensures
            kind == self@.kind(),
    {
        match self {
            Record::Profile(_) => RecordKind::Profile,
            Record::Username(_) => RecordKind::Username,
            Record::Follow(_) => RecordKind::Follow,
            Record::Post(_) => RecordKind::Post,
            Record::Tip(_) => RecordKind::Tip,
            Record::Like(_) => RecordKind::Like,
            Record::Comment(_) => RecordKind::Comment,
            Record::Topic(_) => RecordKind::Topic,
        }
    }

    pub fn owner(&self) -> (owner: Pubkey)
        ensures
            owner@ == self@.owner(),
    {
        match self {
            Record::Profile(r) => r.authority,
            Record::Username(r) => r.authority,
            Record::Follow(r) => r.follower,
            Record::Post(r) => r.author,
            Record::Tip(r) => r.from,
            Record::Like(r) => r.liker,
            Record::Comment(r) => r.author,
            Record::Topic(r) => r.author,
        }
    }
}

} // verus!
