use vstd::prelude::*;
use crate::address::Pubkey;

verus! {

/// A profile and its username lock were created.
#[derive(Clone, Debug, PartialEq, Eq)]
pub struct ProfileCreated {
    pub authority: Pubkey,
    pub username: String,
    pub display_name: String,
    pub bio_cid: String,
    pub avatar_cid: String,
}

/// A profile changed; the fields are those of the profile after the change.
#[derive(Clone, Debug, PartialEq, Eq)]
pub struct ProfileUpdated {
    pub authority: Pubkey,
    pub username: String,
    pub display_name: String,
    pub bio_cid: String,
    pub avatar_cid: String,
}

#[derive(Clone, Copy, Debug, PartialEq, Eq)]
pub struct Followed {
    pub follower: Pubkey,
    pub following: Pubkey,
}

#[derive(Clone, Copy, Debug, PartialEq, Eq)]
pub struct Unfollowed {
    pub follower: Pubkey,
    pub following: Pubkey,
}

#[derive(Clone, Debug, PartialEq, Eq)]
pub struct PostIndexed {
    pub author: Pubkey,
    pub post_id: u64,
    pub content_cid: String,
    pub visibility: u8,
}

#[derive(Clone, Copy, Debug, PartialEq, Eq)]
pub struct Tipped {
    pub from: Pubkey,
    pub to: Pubkey,
    pub tip_id: u64,
    pub amount_lamports: u64,
}

#[derive(Clone, Copy, Debug, PartialEq, Eq)]
pub struct PostLiked {
    pub liker: Pubkey,
    pub post_author: Pubkey,
    pub post_id: u64,
}

#[derive(Clone, Copy, Debug, PartialEq, Eq)]
pub struct PostUnliked {
    pub liker: Pubkey,
    pub post_author: Pubkey,
    pub post_id: u64,
}

#[derive(Clone, Debug, PartialEq, Eq)]
pub struct CommentCreated {
    pub author: Pubkey,
    pub post_author: Pubkey,
    pub post_id: u64,
    pub comment_id: u64,
    pub content_cid: String,
}

#[derive(Clone, Debug, PartialEq, Eq)]
pub struct TopicIndexed {
    pub topic: String,
    pub author: Pubkey,
    pub post_id: u64,
}

/// What an event carries, as mathematical values.
pub enum EventView {
    ProfileCreated {
        authority: Seq<u8>,
        username: Seq<char>,
        display_name: Seq<char>,
        bio_cid: Seq<char>,
        avatar_cid: Seq<char>,
    },
    ProfileUpdated {
        authority: Seq<u8>,
        username: Seq<char>,
        display_name: Seq<char>,
        bio_cid: Seq<char>,
        avatar_cid: Seq<char>,
    },
    Followed { follower: Seq<u8>, following: Seq<u8> },
    Unfollowed { follower: Seq<u8>, following: Seq<u8> },
    PostIndexed { author: Seq<u8>, post_id: u64, content_cid: Seq<char>, visibility: u8 },
    Tipped { from: Seq<u8>, to: Seq<u8>, tip_id: u64, amount_lamports: u64 },
    PostLiked { liker: Seq<u8>, post_author: Seq<u8>, post_id: u64 },
    PostUnliked { liker: Seq<u8>, post_author: Seq<u8>, post_id: u64 },
    CommentCreated {
        author: Seq<u8>,
        post_author: Seq<u8>,
        post_id: u64,
        comment_id: u64,
        content_cid: Seq<char>,
    },
    TopicIndexed { topic: Seq<char>, author: Seq<u8>, post_id: u64 },
}

impl View for ProfileCreated {
    type V = EventView;

    open spec fn view(&self) -> EventView {
        EventView::ProfileCreated {
            authority: self.authority@,
            username: self.username@,
            display_name: self.display_name@,
            bio_cid: self.bio_cid@,
            avatar_cid: self.avatar_cid@,
        }
    }
}

impl View for ProfileUpdated {
    type V = EventView;

    open spec fn view(&self) -> EventView {
        EventView::ProfileUpdated {
            authority: self.authority@,
            username: self.username@,
            display_name: self.display_name@,
            bio_cid: self.bio_cid@,
            avatar_cid: self.avatar_cid@,
        }
    }
}

impl View for Followed {
    type V = EventView;

    open spec fn view(&self) -> EventView {
        EventView::Followed { follower: self.follower@, following: self.following@ }
    }
}

impl View for Unfollowed {
    type V = EventView;

    open spec fn view(&self) -> EventView {
        EventView::Unfollowed { follower: self.follower@, following: self.following@ }
    }
}

impl View for PostIndexed {
    type V = EventView;

    open spec fn view(&self) -> EventView {
        EventView::PostIndexed {
            author: self.author@,
            post_id: self.post_id,
            content_cid: self.content_cid@,
            visibility: self.visibility,
        }
    }
}

impl View for Tipped {
    type V = EventView;

    open spec fn view(&self) -> EventView {
        EventView::Tipped {
            from: self.from@,
            to: self.to@,
            tip_id: self.tip_id,
            amount_lamports: self.amount_lamports,
        }
    }
}

impl View for PostLiked {
    type V = EventView;

    open spec fn view(&self) -> EventView {
        EventView::PostLiked {
            liker: self.liker@,
            post_author: self.post_author@,
            post_id: self.post_id,
        }
    }
}

impl View for PostUnliked {
    type V = EventView;

    open spec fn view(&self) -> EventView {
        EventView::PostUnliked {
            liker: self.liker@,
            post_author: self.post_author@,
            post_id: self.post_id,
        }
    }
}

impl View for CommentCreated {
    type V = EventView;

    open spec fn view(&self) -> EventView {
        EventView::CommentCreated {
            author: self.author@,
            post_author: self.post_author@,
            post_id: self.post_id,
            comment_id: self.comment_id,
            content_cid: self.content_cid@,
        }
    }
}

impl View for TopicIndexed {
    type V = EventView;

    open spec fn view(&self) -> EventView {
        EventView::TopicIndexed { topic: self.topic@, author: self.author@, post_id: self.post_id }
    }
}

/// One entry of the event log: what a committed transition announced.
#[derive(Clone, Debug, PartialEq, Eq)]
pub enum Event {
    ProfileCreated(ProfileCreated),
    ProfileUpdated(ProfileUpdated),
    Followed(Followed),
    Unfollowed(Unfollowed),
    PostIndexed(PostIndexed),
    Tipped(Tipped),
    PostLiked(PostLiked),
    PostUnliked(PostUnliked),
    CommentCreated(CommentCreated),
    TopicIndexed(TopicIndexed),
}

impl View for Event {
    type V = EventView;

    open spec fn view(&self) -> EventView {
        match self {
            Event::ProfileCreated(e) => e@,
            Event::ProfileUpdated(e) => e@,
            Event::Followed(e) => e@,
            Event::Unfollowed(e) => e@,
            Event::PostIndexed(e) => e@,
            Event::Tipped(e) => e@,
            Event::PostLiked(e) => e@,
            Event::PostUnliked(e) => e@,
            Event::CommentCreated(e) => e@,
            Event::TopicIndexed(e) => e@,
        }
    }
}

} // verus!
