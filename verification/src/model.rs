use vstd::prelude::*;
use crate::address::{
    spec_comment_address, spec_follow_address, spec_like_address, spec_post_address,
    spec_profile_address, spec_tip_address, spec_topic_address, spec_username_address,
};
use crate::error::ErrorCode;
use crate::events::EventView;
use crate::records::{RecordKind, RecordView};
use crate::store::StoreView;
use crate::validation::{valid_cid, valid_display_name, valid_topic, valid_username};

verus! {

/// The ledger as a mathematical value: the program under which addresses
/// are derived, the record store, and the log of events emitted so far.
#[verifier::ext_equal]
pub struct LedgerView {
    pub program_id: Seq<u8>,
    pub store: StoreView,
    pub events: Seq<EventView>,
}

impl LedgerView {
    /// A ledger is well formed when its store is.
    pub open spec fn wf(self) -> bool {
        self.store.wf()
    }

    /// The ledger with an empty store and an empty log.
    pub open spec fn empty(program_id: Seq<u8>, rent_per_byte: nat) -> LedgerView {
        LedgerView { program_id, store: StoreView::empty(rent_per_byte), events: Seq::empty() }
    }

    /// The ledger with `event` appended to the log.
    pub open spec fn emit(self, event: EventView) -> LedgerView {
        LedgerView { events: self.events.push(event), ..self }
    }

    /// Ends a transition: where the store operations came to `step`, the
    /// ledger takes the new store and logs `event`; where they failed,
    /// so does the transition.
    pub open spec fn commit(self, step: Result<StoreView, ErrorCode>, event: EventView) -> Result<
        LedgerView,
        ErrorCode,
    > {
        match step {
            Ok(store) => Ok(LedgerView { store, ..self }.emit(event)),
            Err(e) => Err(e),
        }
    }

    /// Closes the record at `address`, which must be of shape `kind`, and
    /// hands its deposit to `beneficiary`.
    pub open spec fn close_record(
        self,
        address: Seq<u8>,
        kind: RecordKind,
        beneficiary: Seq<u8>,
    ) -> Result<StoreView, ErrorCode> {
        match self.store.read(address) {
            Some(record) if record.kind() == kind => self.store.close(address, beneficiary),
            _ => Err(ErrorCode::AddressNotFound),
        }
    }

    /// `create_profile` with the two addresses given: `profile_at` for the
    /// profile, `name_at` for the lock on the username.
    pub open spec fn create_profile_at(
        self,
        profile_at: Option<Seq<u8>>,
        name_at: Option<Seq<u8>>,
        authority: Seq<u8>,
        username: Seq<char>,
        display_name: Seq<char>,
        bio_cid: Seq<char>,
        avatar_cid: Seq<char>,
        now: i64,
    ) -> Result<LedgerView, ErrorCode> {
        if !valid_username(username) {
            Err(ErrorCode::InvalidUsername)
        } else if !valid_display_name(display_name) {
            Err(ErrorCode::InvalidDisplayName)
        } else if !valid_cid(bio_cid) || !valid_cid(avatar_cid) {
            Err(ErrorCode::InvalidCid)
        } else {
            match profile_at {
                None => Err(ErrorCode::AddressSpaceExhausted),
                Some(profile_at) => match self.store.create(
                    profile_at,
                    RecordView::Profile {
                        authority,
                        username,
                        display_name,
                        bio_cid,
                        avatar_cid,
                        created_at: now,
                        updated_at: now,
                    },
                    authority,
                ) {
                    Err(e) => Err(e),
                    Ok(with_profile) => match name_at {
                        None => Err(ErrorCode::AddressSpaceExhausted),
                        Some(name_at) => self.commit(
                            with_profile.create(
                                name_at,
                                RecordView::Username { authority, username },
                                authority,
                            ),
                            EventView::ProfileCreated {
                                authority,
                                username,
                                display_name,
                                bio_cid,
                                avatar_cid,
                            },
                        ),
                    },
                },
            }
        }
    }

    /// Creates the profile of `authority` and locks its username.
    pub open spec fn create_profile(
        self,
        authority: Seq<u8>,
        username: Seq<char>,
        display_name: Seq<char>,
        bio_cid: Seq<char>,
        avatar_cid: Seq<char>,
        now: i64,
    ) -> Result<LedgerView, ErrorCode> {
        self.create_profile_at(
            spec_profile_address(self.program_id, authority),
            spec_username_address(self.program_id, username),
            authority,
            username,
            display_name,
            bio_cid,
            avatar_cid,
            now,
        )
    }

    /// `update_profile` with the profile's address given.
    pub open spec fn update_profile_at(
        self,
        profile_at: Option<Seq<u8>>,
        authority: Seq<u8>,
        display_name: Seq<char>,
        bio_cid: Seq<char>,
        avatar_cid: Seq<char>,
        now: i64,
    ) -> Result<LedgerView, ErrorCode> {
        if !valid_display_name(display_name) {
            Err(ErrorCode::InvalidDisplayName)
        } else if !valid_cid(bio_cid) || !valid_cid(avatar_cid) {
            Err(ErrorCode::InvalidCid)
        } else {
            match profile_at {
                None => Err(ErrorCode::AddressSpaceExhausted),
                Some(profile_at) => match self.store.read(profile_at) {
                    Some(RecordView::Profile { authority: owner, username, created_at, .. }) => {
                        self.commit(
                            self.store.update(
                                profile_at,
                                RecordView::Profile {
                                    authority: owner,
                                    username,
                                    display_name,
                                    bio_cid,
                                    avatar_cid,
                                    created_at,
                                    updated_at: now,
                                },
                                authority,
                            ),
                            EventView::ProfileUpdated {
                                authority: owner,
                                username,
                                display_name,
                                bio_cid,
                                avatar_cid,
                            },
                        )
                    },
                    _ => Err(ErrorCode::AddressNotFound),
                },
            }
        }
    }

    /// Replaces display name, bio and avatar of the profile of `authority`.
    pub open spec fn update_profile(
        self,
        authority: Seq<u8>,
        display_name: Seq<char>,
        bio_cid: Seq<char>,
        avatar_cid: Seq<char>,
        now: i64,
    ) -> Result<LedgerView, ErrorCode> {
        self.update_profile_at(
            spec_profile_address(self.program_id, authority),
            authority,
            display_name,
            bio_cid,
            avatar_cid,
            now,
        )
    }

    /// `update_username` with the three addresses given: `profile_at` for
    /// the profile, `old_at` for the lock on the name that the profile
    /// carries, `new_at` for the lock on `new_username`.
    pub open spec fn update_username_at(
        self,
        profile_at: Option<Seq<u8>>,
        old_at: Option<Seq<u8>>,
        new_at: Option<Seq<u8>>,
        authority: Seq<u8>,
        new_username: Seq<char>,
        now: i64,
    ) -> Result<LedgerView, ErrorCode> {
        if !valid_username(new_username) {
            Err(ErrorCode::InvalidUsername)
        } else {
            match profile_at {
                None => Err(ErrorCode::AddressSpaceExhausted),
                Some(profile_at) => match self.store.read(profile_at) {
                    Some(
                        RecordView::Profile {
                            authority: owner,
                            display_name,
                            bio_cid,
                            avatar_cid,
                            created_at,
                            ..
                        },
                    ) => {
                        if owner != authority {
                            Err(ErrorCode::Unauthorized)
                        } else {
                            self.move_lock(
                                profile_at,
                                old_at,
                                new_at,
                                RecordView::Profile {
                                    authority,
                                    username: new_username,
                                    display_name,
                                    bio_cid,
                                    avatar_cid,
                                    created_at,
                                    updated_at: now,
                                },
                            )
                        }
                    },
                    _ => Err(ErrorCode::AddressNotFound),
                },
            }
        }
    }

    /// The second half of `update_username_at`: closes the lock at
    /// `old_at`, creates the lock on the name of `renamed` at `new_at`, and
    /// writes `renamed` over the profile at `profile_at`.
    pub open spec fn move_lock(
        self,
        profile_at: Seq<u8>,
        old_at: Option<Seq<u8>>,
        new_at: Option<Seq<u8>>,
        renamed: RecordView,
    ) -> Result<LedgerView, ErrorCode>
        recommends
            renamed is Profile,
    {
        let authority = renamed->Profile_authority;
        let new_username = renamed->Profile_username;
        match old_at {
            None => Err(ErrorCode::AddressSpaceExhausted),
            Some(old_at) => match self.close_record(old_at, RecordKind::Username, authority) {
                Err(e) => Err(e),
                Ok(closed) => match new_at {
                    None => Err(ErrorCode::AddressSpaceExhausted),
                    Some(new_at) => match closed.create(
                        new_at,
                        RecordView::Username { authority, username: new_username },
                        authority,
                    ) {
                        Err(e) => Err(e),
                        Ok(locked) => self.commit(
                            locked.update(profile_at, renamed, authority),
                            EventView::ProfileUpdated {
                                authority,
                                username: new_username,
                                display_name: renamed->Profile_display_name,
                                bio_cid: renamed->Profile_bio_cid,
                                avatar_cid: renamed->Profile_avatar_cid,
                            },
                        ),
                    },
                },
            },
        }
    }

    /// The address of the lock on the name that the profile at `profile_at`
    /// carries.
    pub open spec fn old_lock_address(self, profile_at: Option<Seq<u8>>) -> Option<Seq<u8>> {
        match profile_at {
            Some(profile_at) => match self.store.read(profile_at) {
                Some(RecordView::Profile { username, .. }) => spec_username_address(
                    self.program_id,
                    username,
                ),
                _ => None,
            },
            None => None,
        }
    }

    /// Gives the profile of `authority` the name `new_username`: the lock on
    /// the old name is closed, a lock on the new one is created.
    pub open spec fn update_username(
        self,
        authority: Seq<u8>,
        new_username: Seq<char>,
        now: i64,
    ) -> Result<LedgerView, ErrorCode> {
        self.update_username_at(
            spec_profile_address(self.program_id, authority),
            self.old_lock_address(spec_profile_address(self.program_id, authority)),
            spec_username_address(self.program_id, new_username),
            authority,
            new_username,
            now,
        )
    }

    /// Creates `record` at `address`, paid for by `payer`, and logs `event`.
    pub open spec fn create_at(
        self,
        address: Option<Seq<u8>>,
        record: RecordView,
        payer: Seq<u8>,
        event: EventView,
    ) -> Result<LedgerView, ErrorCode> {
        match address {
            None => Err(ErrorCode::AddressSpaceExhausted),
            Some(at) => self.commit(self.store.create(at, record, payer), event),
        }
    }

    /// `follow` with the edge's address given.
    pub open spec fn follow_at(
        self,
        edge_at: Option<Seq<u8>>,
        follower: Seq<u8>,
        following: Seq<u8>,
        now: i64,
    ) -> Result<LedgerView, ErrorCode> {
        self.create_at(
            edge_at,
            RecordView::Follow { follower, following, created_at: now },
            follower,
            EventView::Followed { follower, following },
        )
    }

    /// Creates the edge from `follower` to `following`.
    pub open spec fn follow(self, follower: Seq<u8>, following: Seq<u8>, now: i64) -> Result<
        LedgerView,
        ErrorCode,
    > {
        self.follow_at(
            spec_follow_address(self.program_id, follower, following),
            follower,
            following,
            now,
        )
    }

    /// `unfollow` with the edge's address given.
    pub open spec fn unfollow_at(
        self,
        edge_at: Option<Seq<u8>>,
        follower: Seq<u8>,
        following: Seq<u8>,
    ) -> Result<LedgerView, ErrorCode> {
        match edge_at {
            None => Err(ErrorCode::AddressSpaceExhausted),
            Some(edge_at) => self.commit(
                self.close_record(edge_at, RecordKind::Follow, follower),
                EventView::Unfollowed { follower, following },
            ),
        }
    }

    /// Closes the edge from `follower` to `following`.
    pub open spec fn unfollow(self, follower: Seq<u8>, following: Seq<u8>) -> Result<
        LedgerView,
        ErrorCode,
    > {
        self.unfollow_at(
            spec_follow_address(self.program_id, follower, following),
            follower,
            following,
        )
    }

    /// `create_post_index` with the entry's address given.
    pub open spec fn create_post_index_at(
        self,
        post_at: Option<Seq<u8>>,
        author: Seq<u8>,
        post_id: u64,
        content_cid: Seq<char>,
        visibility: u8,
        now: i64,
    ) -> Result<LedgerView, ErrorCode> {
        if !valid_cid(content_cid) {
            Err(ErrorCode::InvalidCid)
        } else {
            self.create_at(
                post_at,
                RecordView::Post { author, post_id, content_cid, visibility, created_at: now },
                author,
                EventView::PostIndexed { author, post_id, content_cid, visibility },
            )
        }
    }

    /// Creates the index entry of post `post_id` by `author`.
    pub open spec fn create_post_index(
        self,
        author: Seq<u8>,
        post_id: u64,
        content_cid: Seq<char>,
        visibility: u8,
        now: i64,
    ) -> Result<LedgerView, ErrorCode> {
        self.create_post_index_at(
            spec_post_address(self.program_id, author, post_id),
            author,
            post_id,
            content_cid,
            visibility,
            now,
        )
    }

    /// `tip` with the receipt's address given.
    pub open spec fn tip_at(
        self,
        tip_at: Option<Seq<u8>>,
        from: Seq<u8>,
        to: Seq<u8>,
        tip_id: u64,
        amount_lamports: u64,
        now: i64,
    ) -> Result<LedgerView, ErrorCode> {
        match tip_at {
            None => Err(ErrorCode::AddressSpaceExhausted),
            Some(tip_at) => self.commit(
                self.store.transfer_then_record(
                    from,
                    to,
                    amount_lamports as nat,
                    tip_at,
                    RecordView::Tip { from, to, tip_id, amount_lamports, created_at: now },
                    from,
                ),
                EventView::Tipped { from, to, tip_id, amount_lamports },
            ),
        }
    }

    /// Moves `amount_lamports` from `from` to `to` and writes the receipt.
    pub open spec fn tip(
        self,
        from: Seq<u8>,
        to: Seq<u8>,
        tip_id: u64,
        amount_lamports: u64,
        now: i64,
    ) -> Result<LedgerView, ErrorCode> {
        self.tip_at(
            spec_tip_address(self.program_id, from, tip_id),
            from,
            to,
            tip_id,
            amount_lamports,
            now,
        )
    }

    /// `like_post` with the like's address given.
    pub open spec fn like_post_at(
        self,
        like_at: Option<Seq<u8>>,
        liker: Seq<u8>,
        post_author: Seq<u8>,
        post_id: u64,
        now: i64,
    ) -> Result<LedgerView, ErrorCode> {
        self.create_at(
            like_at,
            RecordView::Like { liker, post_author, post_id, created_at: now },
            liker,
            EventView::PostLiked { liker, post_author, post_id },
        )
    }

    /// Records that `liker` likes post `post_id` of `post_author`.
    pub open spec fn like_post(
        self,
        liker: Seq<u8>,
        post_author: Seq<u8>,
        post_id: u64,
        now: i64,
    ) -> Result<LedgerView, ErrorCode> {
        self.like_post_at(
            spec_like_address(self.program_id, liker, post_author, post_id),
            liker,
            post_author,
            post_id,
            now,
        )
    }

    /// `unlike_post` with `derived` given: the address derived for the
    /// liker, the post author and the post id that the like at `like_at`
    /// carries. The caller is authorized when `derived` is `like_at`.
    pub open spec fn unlike_post_at(
        self,
        derived: Option<Seq<u8>>,
        liker: Seq<u8>,
        post_author: Seq<u8>,
        like_at: Seq<u8>,
    ) -> Result<LedgerView, ErrorCode> {
        match self.store.read(like_at) {
            Some(RecordView::Like { post_id, .. }) => {
                if derived != Some(like_at) {
                    Err(ErrorCode::Unauthorized)
                } else {
                    self.commit(
                        self.store.close(like_at, liker),
                        EventView::PostUnliked { liker, post_author, post_id },
                    )
                }
            },
            _ => Err(ErrorCode::AddressNotFound),
        }
    }

    /// The address derived for `liker`, `post_author` and the post id that
    /// the like at `like_at` carries.
    pub open spec fn liked_address(self, liker: Seq<u8>, post_author: Seq<u8>, like_at: Seq<u8>) -> Option<
        Seq<u8>,
    > {
        match self.store.read(like_at) {
            Some(RecordView::Like { post_id, .. }) => spec_like_address(
                self.program_id,
                liker,
                post_author,
                post_id,
            ),
            _ => None,
        }
    }

    /// Closes the like at `like_at`. The post id is read from the record;
    /// the caller is authorized when `like_at` is the address derived for
    /// `liker`, `post_author` and that post id.
    pub open spec fn unlike_post(self, liker: Seq<u8>, post_author: Seq<u8>, like_at: Seq<u8>) -> Result<
        LedgerView,
        ErrorCode,
    > {
        self.unlike_post_at(
            self.liked_address(liker, post_author, like_at),
            liker,
            post_author,
            like_at,
        )
    }

    /// `create_comment` with the comment's address given.
    pub open spec fn create_comment_at(
        self,
        comment_at: Option<Seq<u8>>,
        author: Seq<u8>,
        post_author: Seq<u8>,
        post_id: u64,
        comment_id: u64,
        content_cid: Seq<char>,
        now: i64,
    ) -> Result<LedgerView, ErrorCode> {
        if !valid_cid(content_cid) {
            Err(ErrorCode::InvalidCid)
        } else {
            self.create_at(
                comment_at,
                RecordView::Comment {
                    author,
                    post_author,
                    post_id,
                    comment_id,
                    content_cid,
                    created_at: now,
                },
                author,
                EventView::CommentCreated { author, post_author, post_id, comment_id, content_cid },
            )
        }
    }

    /// Creates comment `comment_id` of `author` on post `post_id`.
    pub open spec fn create_comment(
        self,
        author: Seq<u8>,
        post_author: Seq<u8>,
        post_id: u64,
        comment_id: u64,
        content_cid: Seq<char>,
        now: i64,
    ) -> Result<LedgerView, ErrorCode> {
        self.create_comment_at(
            spec_comment_address(self.program_id, author, post_id, comment_id),
            author,
            post_author,
            post_id,
            comment_id,
            content_cid,
            now,
        )
    }

    /// `index_topic` with the entry's address given.
    pub open spec fn index_topic_at(
        self,
        topic_at: Option<Seq<u8>>,
        author: Seq<u8>,
        post_id: u64,
        topic: Seq<char>,
        now: i64,
    ) -> Result<LedgerView, ErrorCode> {
        if !valid_topic(topic) {
            Err(ErrorCode::InvalidTopic)
        } else {
            self.create_at(
                topic_at,
                RecordView::Topic { topic, author, post_id, created_at: now },
                author,
                EventView::TopicIndexed { topic, author, post_id },
            )
        }
    }

    /// Files post `post_id` of `author` under `topic`.
    pub open spec fn index_topic(self, author: Seq<u8>, post_id: u64, topic: Seq<char>, now: i64) -> Result<
        LedgerView,
        ErrorCode,
    > {
        self.index_topic_at(
            spec_topic_address(self.program_id, topic, author, post_id),
            author,
            post_id,
            topic,
            now,
        )
    }
}

/// A call of one of the eleven transitions, with its arguments.
pub enum Call {
    CreateProfile {
        authority: Seq<u8>,
        username: Seq<char>,
        display_name: Seq<char>,
        bio_cid: Seq<char>,
        avatar_cid: Seq<char>,
    },
    UpdateProfile {
        authority: Seq<u8>,
        display_name: Seq<char>,
        bio_cid: Seq<char>,
        avatar_cid: Seq<char>,
    },
    UpdateUsername { authority: Seq<u8>, new_username: Seq<char> },
    Follow { follower: Seq<u8>, following: Seq<u8> },
    Unfollow { follower: Seq<u8>, following: Seq<u8> },
    CreatePostIndex { author: Seq<u8>, post_id: u64, content_cid: Seq<char>, visibility: u8 },
    Tip { from: Seq<u8>, to: Seq<u8>, tip_id: u64, amount_lamports: u64 },
    LikePost { liker: Seq<u8>, post_author: Seq<u8>, post_id: u64 },
    UnlikePost { liker: Seq<u8>, post_author: Seq<u8>, like_at: Seq<u8> },
    CreateComment {
        author: Seq<u8>,
        post_author: Seq<u8>,
        post_id: u64,
        comment_id: u64,
        content_cid: Seq<char>,
    },
    IndexTopic { author: Seq<u8>, post_id: u64, topic: Seq<char> },
}

impl LedgerView {
    /// The outcome of `call` at the time `now`.
    pub open spec fn apply(self, call: Call, now: i64) -> Result<LedgerView, ErrorCode> {
        match call {
            Call::CreateProfile { authority, username, display_name, bio_cid, avatar_cid } => {
                self.create_profile(authority, username, display_name, bio_cid, avatar_cid, now)
            },
            Call::UpdateProfile { authority, display_name, bio_cid, avatar_cid } => {
                self.update_profile(authority, display_name, bio_cid, avatar_cid, now)
            },
            Call::UpdateUsername { authority, new_username } => self.update_username(
                authority,
                new_username,
                now,
            ),
            Call::Follow { follower, following } => self.follow(follower, following, now),
            Call::Unfollow { follower, following } => self.unfollow(follower, following),
            Call::CreatePostIndex { author, post_id, content_cid, visibility } => {
                self.create_post_index(author, post_id, content_cid, visibility, now)
            },
            Call::Tip { from, to, tip_id, amount_lamports } => self.tip(
                from,
                to,
                tip_id,
                amount_lamports,
                now,
            ),
            Call::LikePost { liker, post_author, post_id } => self.like_post(
                liker,
                post_author,
                post_id,
                now,
            ),
            Call::UnlikePost { liker, post_author, like_at } => self.unlike_post(
                liker,
                post_author,
                like_at,
            ),
            Call::CreateComment { author, post_author, post_id, comment_id, content_cid } => {
                self.create_comment(author, post_author, post_id, comment_id, content_cid, now)
            },
            Call::IndexTopic { author, post_id, topic } => self.index_topic(
                author,
                post_id,
                topic,
                now,
            ),
        }
    }

    /// The identity that signs `call`, pays for what it creates and
    /// receives what it closes.
    pub open spec fn signer(call: Call) -> Seq<u8> {
        match call {
            Call::CreateProfile { authority, .. } => authority,
            Call::UpdateProfile { authority, .. } => authority,
            Call::UpdateUsername { authority, .. } => authority,
            Call::Follow { follower, .. } => follower,
            Call::Unfollow { follower, .. } => follower,
            Call::CreatePostIndex { author, .. } => author,
            Call::Tip { from, .. } => from,
            Call::LikePost { liker, .. } => liker,
            Call::UnlikePost { liker, .. } => liker,
            Call::CreateComment { author, .. } => author,
            Call::IndexTopic { author, .. } => author,
        }
    }
}

} // verus!
