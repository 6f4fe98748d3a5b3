use vstd::prelude::*;
use vstd::string::*;
use crate::accounts::{
    CreateComment, CreatePostIndex, CreateProfile, Follow, IndexTopic, LikePost, Tip, Unfollow,
    UnlikePost, UpdateProfile, UpdateUsername,
};
use crate::address::{key_view, same_key, Pubkey};
use crate::error::ErrorCode;
use crate::events::{
    CommentCreated, Event, EventView, Followed, PostIndexed, PostLiked, PostUnliked,
    ProfileCreated, ProfileUpdated, Tipped, TopicIndexed, Unfollowed,
};
use crate::model::LedgerView;
use crate::records::{
    CommentRecord, FollowEdge, LikeRecord, PostIndex, Record, RecordKind, TipRecord, TopicIndex,
    UserProfile, UsernameRecord,
};
use crate::store::{follows, record_view, RecordStore};
use crate::validation::{validate_cid, validate_display_name, validate_topic, validate_username};

verus! {

/// The events of a log as mathematical values.
pub open spec fn event_views(events: Seq<Event>) -> Seq<EventView> {
    Seq::new(events.len(), |i: int| events[i]@)
}

/// The ledger: a record store, the program under which its addresses are
/// derived, and the append-only log of the events of committed transitions.
pub struct Ledger {
    program_id: Pubkey,
    store: RecordStore,
    events: Vec<Event>,
}

impl View for Ledger {
    type V = LedgerView;

    closed spec fn view(&self) -> LedgerView {
        LedgerView {
            program_id: self.program_id@,
            store: self.store@,
            events: event_views(self.events@),
        }
    }
}

impl Ledger {
    /// The ledger's invariant: its view is well formed, and so is its store.
    pub open spec fn wf(&self) -> bool {
        self@.wf() && self.inv()
    }

    /// The store's own invariant.
    pub closed spec fn inv(&self) -> bool {
        self.store.wf()
    }

    /// All native value in the ledger, deposits included.
    pub closed spec fn supply(&self) -> nat {
        self.store.supply()
    }

    /// Nobody holds more than the supply.
    pub proof fn balance_within_supply(&self, key: Seq<u8>)
        requires
            self.wf(),
        ensures
            self@.store.balance(key) <= self.supply(),
    {
        self.store.balance_within_supply(key);
    }

    /// An empty ledger for the program `program_id`, whose store charges
    /// `rent_per_byte` for each byte of a record.
    pub fn new(program_id: Pubkey, rent_per_byte: u64) -> (ledger: Ledger)
        ensures
            ledger.wf(),
            ledger@ == LedgerView::empty(program_id@, rent_per_byte as nat),
            ledger.supply() == 0,
    {
        let ledger = Ledger { program_id, store: RecordStore::new(rent_per_byte), events: Vec::new() };
        assert(event_views(ledger.events@) =~= Seq::empty());
        ledger
    }

    pub fn program_id(&self) -> (id: Pubkey)
        ensures
            id@ == self@.program_id,
    {
        self.program_id
    }

    /// The record that lives at `address`, if one does.
    pub fn read(&self, address: &Pubkey) -> (found: Option<&Record>)
        requires
            self.wf(),
        ensures
            record_view(found) == self@.store.read(address@),
    {
        self.store.read(address)
    }

    /// What `key` holds.
    pub fn balance(&self, key: &Pubkey) -> (lamports: u64)
        requires
            self.wf(),
        ensures
            lamports == self@.store.balance(key@),
    {
        self.store.balance(key)
    }

    /// Adds `lamports` of new native value to what `key` holds, unless the
    /// supply would no longer fit in 64 bits; says whether it did.
    pub fn fund(&mut self, key: &Pubkey, lamports: u64) -> (funded: bool)
        requires
            old(self).wf(),
        ensures
            final(self).wf(),
            funded == (old(self).supply() + lamports <= u64::MAX),
            funded ==> final(self)@ == (LedgerView {
                store: old(self)@.store.credit(key@, lamports as nat),
                ..old(self)@
            }) && final(self).supply() == old(self).supply() + lamports,
            !funded ==> final(self)@ == old(self)@ && final(self).supply() == old(self).supply(),
    {
        self.store.fund(key, lamports)
    }

    /// The log: the events of all committed transitions, oldest first.
    pub fn events(&self) -> (log: &Vec<Event>)
        ensures
            event_views(log@) == self@.events,
    {
        &self.events
    }

    /// Appends `event` to the log.
    pub fn emit(&mut self, event: Event)
        requires
            old(self).wf(),
        ensures
            final(self).wf(),
            final(self)@ == old(self)@.emit(event@),
            final(self).supply() == old(self).supply(),
    {
        self.events.push(event);
        assert(event_views(self.events@) =~= event_views(old(self).events@).push(event@));
    }

    /// Closes the record at `address` if it is of shape `kind`, hands its
    /// deposit to `beneficiary` and returns it.
    fn close_record(&mut self, address: &Pubkey, kind: RecordKind, beneficiary: &Pubkey) -> (res:
        Result<Record, ErrorCode>)
        requires
            old(self).wf(),
        ensures
            final(self).wf(),
            final(self).supply() == old(self).supply(),
            match old(self)@.close_record(address@, kind, beneficiary@) {
                Ok(next) => res matches Ok(record) && record@ == old(self)@.store.records[address@]
                    && final(self)@ == (LedgerView { store: next, ..old(self)@ }),
                Err(e) => res matches Err(x) && x == e && final(self)@ == old(self)@,
            },
    {
        match self.store.read(address) {
            Some(record) => {
                if record.kind() != kind {
                    return Err(ErrorCode::AddressNotFound);
                }
            },
            None => {
                return Err(ErrorCode::AddressNotFound);
            },
        }
        self.store.close(address, beneficiary)
    }

    /// Creates `record` at `address`, paid for by `payer`, and logs `event`;
    /// fails with `AddressSpaceExhausted` where there is no address.
    fn create_at(&mut self, address: Option<Pubkey>, record: Record, payer: &Pubkey, event: Event) -> (res:
        Result<(), ErrorCode>)
        requires
            old(self).wf(),
        ensures
            final(self).wf(),
            follows(
                old(self)@,
                old(self)@.create_at(key_view(address), record@, payer@, event@),
                res,
                final(self)@,
            ),
            final(self).supply() == old(self).supply(),
    {
        let at = match address {
            Some(at) => at,
            None => {
                return Err(ErrorCode::AddressSpaceExhausted);
            },
        };
        match self.store.create(&at, record, payer) {
            Ok(()) => {
                self.emit(event);
                Ok(())
            },
            Err(e) => Err(e),
        }
    }

    /// `create_profile` on given addresses: creates the profile of
    /// `ctx.authority` at `profile_at` and the lock on `username` at
    /// `name_at`, both paid for by the authority, and logs `ProfileCreated`.
    /// An address that is `None` could not be derived.
    ///
    /// Fails, leaving the ledger as it was, with the validation error of
    /// the first field out of bounds; else with `AddressSpaceExhausted`,
    /// `AddressOccupied` or `InsufficientFunds` from the profile, else the
    /// same from the lock.
    pub fn create_profile_at(
        &mut self,
        profile_at: Option<Pubkey>,
        name_at: Option<Pubkey>,
        ctx: CreateProfile,
        username: String,
        display_name: String,
        bio_cid: String,
        avatar_cid: String,
        now: i64,
    ) -> (res: Result<(), ErrorCode>)
        requires
            old(self).wf(),
        ensures
            final(self).wf(),
            follows(
                old(self)@,
                old(self)@.create_profile_at(
                    key_view(profile_at),
                    key_view(name_at),
                    ctx.authority@,
                    username@,
                    display_name@,
                    bio_cid@,
                    avatar_cid@,
                    now,
                ),
                res,
                final(self)@,
            ),
            final(self).supply() == old(self).supply(),
    {
        match validate_username(username.as_str()) {
            Ok(()) => {},
            Err(e) => {
                return Err(e);
            },
        }
        match validate_display_name(display_name.as_str()) {
            Ok(()) => {},
            Err(e) => {
                return Err(e);
            },
        }
        match validate_cid(bio_cid.as_str()) {
            Ok(()) => {},
            Err(e) => {
                return Err(e);
            },
        }
        match validate_cid(avatar_cid.as_str()) {
            Ok(()) => {},
            Err(e) => {
                return Err(e);
            },
        }
        let authority = ctx.authority;
        let profile_at = match profile_at {
            Some(address) => address,
            None => {
                return Err(ErrorCode::AddressSpaceExhausted);
            },
        };
        let profile = UserProfile {
            authority,
            username: username.clone(),
            display_name: display_name.clone(),
            bio_cid: bio_cid.clone(),
            avatar_cid: avatar_cid.clone(),
            created_at: now,
            updated_at: now,
        };
        match self.store.create(&profile_at, Record::Profile(profile), &authority) {
            Ok(()) => {},
            Err(e) => {
                return Err(e);
            },
        }
        let lock = UsernameRecord { authority, username: username.clone() };
        let locked = match name_at {
            Some(name_at) => self.store.create(&name_at, Record::Username(lock), &authority),
            None => Err(ErrorCode::AddressSpaceExhausted),
        };
        match locked {
            Ok(()) => {
                self.emit(
                    Event::ProfileCreated(
                        ProfileCreated { authority, username, display_name, bio_cid, avatar_cid },
                    ),
                );
                Ok(())
            },
            Err(e) => {
                // The lock could not be written: take the profile back.
                let undone = self.store.close(&profile_at, &authority);
                proof {
                    assert(undone is Ok);
                    assert(self.store@ =~= old(self).store@);
                }
                Err(e)
            },
        }
    }

    /// `update_profile` on a given address: replaces display name, bio and
    /// avatar of the profile at `profile_at`, stamps it with `now`, and
    /// logs `ProfileUpdated`. The username stays.
    ///
    /// Fails, leaving the ledger as it was, with the validation error of
    /// the first field out of bounds; else with `AddressSpaceExhausted`
    /// where `profile_at` is `None`, with `AddressNotFound` where no
    /// profile lives there, or with `Unauthorized` where the profile
    /// belongs to another identity than `ctx.authority`.
    pub fn update_profile_at(
        &mut self,
        profile_at: Option<Pubkey>,
        ctx: UpdateProfile,
        display_name: String,
        bio_cid: String,
        avatar_cid: String,
        now: i64,
    ) -> (res: Result<(), ErrorCode>)
        requires
            old(self).wf(),
        ensures
            final(self).wf(),
            follows(
                old(self)@,
                old(self)@.update_profile_at(
                    key_view(profile_at),
                    ctx.authority@,
                    display_name@,
                    bio_cid@,
                    avatar_cid@,
                    now,
                ),
                res,
                final(self)@,
            ),
            final(self).supply() == old(self).supply(),
    {
        match validate_display_name(display_name.as_str()) {
            Ok(()) => {},
            Err(e) => {
                return Err(e);
            },
        }
        match validate_cid(bio_cid.as_str()) {
            Ok(()) => {},
            Err(e) => {
                return Err(e);
            },
        }
        match validate_cid(avatar_cid.as_str()) {
            Ok(()) => {},
            Err(e) => {
                return Err(e);
            },
        }
        let authority = ctx.authority;
        let profile_at = match profile_at {
            Some(address) => address,
            None => {
                return Err(ErrorCode::AddressSpaceExhausted);
            },
        };
        let (owner, username, created_at) = match self.store.read(&profile_at) {
            Some(Record::Profile(profile)) => (
                profile.authority,
                profile.username.clone(),
                profile.created_at,
            ),
            _ => {
                return Err(ErrorCode::AddressNotFound);
            },
        };
        let updated = UserProfile {
            authority: owner,
            username: username.clone(),
            display_name: display_name.clone(),
            bio_cid: bio_cid.clone(),
            avatar_cid: avatar_cid.clone(),
            created_at,
            updated_at: now,
        };
        match self.store.update(&profile_at, Record::Profile(updated), &authority) {
            Ok(()) => {
                self.emit(
                    Event::ProfileUpdated(
                        ProfileUpdated {
                            authority: owner,
                            username,
                            display_name,
                            bio_cid,
                            avatar_cid,
                        },
                    ),
                );
                Ok(())
            },
            Err(e) => Err(e),
        }
    }

    /// `update_username` on given addresses: closes the lock at `old_at`,
    /// refunding `ctx.authority`, creates the lock on `new_username` at
    /// `new_at`, writes the name and `now` into the profile at
    /// `profile_at`, and logs `ProfileUpdated`.
    ///
    /// Fails, leaving the ledger as it was, with `InvalidUsername`; else
    /// with `AddressNotFound` where no profile lives at `profile_at` or no
    /// lock at `old_at`, with `Unauthorized` where the profile belongs to
    /// another identity, with `AddressOccupied` where a record lives at
    /// `new_at` once the old lock is closed, with `InsufficientFunds` where
    /// the authority cannot pay for the new lock, or with
    /// `AddressSpaceExhausted` where an address that is needed is `None`.
    pub fn update_username_at(
        &mut self,
        profile_at: Option<Pubkey>,
        old_at: Option<Pubkey>,
        new_at: Option<Pubkey>,
        ctx: UpdateUsername,
        new_username: String,
        now: i64,
    ) -> (res: Result<(), ErrorCode>)
        requires
            old(self).wf(),
        ensures
            final(self).wf(),
            follows(
                old(self)@,
                old(self)@.update_username_at(
                    key_view(profile_at),
                    key_view(old_at),
                    key_view(new_at),
                    ctx.authority@,
                    new_username@,
                    now,
                ),
                res,
                final(self)@,
            ),
            final(self).supply() == old(self).supply(),
    {
        match validate_username(new_username.as_str()) {
            Ok(()) => {},
            Err(e) => {
                return Err(e);
            },
        }
        let authority = ctx.authority;
        let profile_at = match profile_at {
            Some(address) => address,
            None => {
                return Err(ErrorCode::AddressSpaceExhausted);
            },
        };
        let renamed = match self.store.read(&profile_at) {
            Some(Record::Profile(profile)) => {
                if !same_key(&profile.authority, &authority) {
                    return Err(ErrorCode::Unauthorized);
                }
                UserProfile {
                    authority,
                    username: new_username.clone(),
                    display_name: profile.display_name.clone(),
                    bio_cid: profile.bio_cid.clone(),
                    avatar_cid: profile.avatar_cid.clone(),
                    created_at: profile.created_at,
                    updated_at: now,
                }
            },
            _ => {
                return Err(ErrorCode::AddressNotFound);
            },
        };
        let old_at = match old_at {
            Some(address) => address,
            None => {
                return Err(ErrorCode::AddressSpaceExhausted);
            },
        };
        let old_lock = match self.close_record(&old_at, RecordKind::Username, &authority) {
            Ok(record) => record,
            Err(e) => {
                return Err(e);
            },
        };
        let lock = UsernameRecord { authority, username: new_username.clone() };
        let locked = match new_at {
            Some(new_at) => self.store.create(&new_at, Record::Username(lock), &authority),
            None => Err(ErrorCode::AddressSpaceExhausted),
        };
        match locked {
            Ok(()) => {
                let event = ProfileUpdated {
                    authority,
                    username: new_username,
                    display_name: renamed.display_name.clone(),
                    bio_cid: renamed.bio_cid.clone(),
                    avatar_cid: renamed.avatar_cid.clone(),
                };
                // The profile is still where it was read, of the same shape
                // and owner: writing it cannot fail.
                let written = self.store.update(&profile_at, Record::Profile(renamed), &authority);
                proof {
                    assert(written is Ok);
                }
                self.emit(Event::ProfileUpdated(event));
                Ok(())
            },
            Err(e) => {
                // The new lock could not be written: put the old one back.
                let undone = self.store.create(&old_at, old_lock, &authority);
                proof {
                    assert(undone is Ok);
                    assert(self.store@ =~= old(self).store@);
                }
                Err(e)
            },
        }
    }

    /// `follow` on a given address: creates the edge from `ctx.follower` to
    /// `ctx.following` at `edge_at`, paid for by the follower, and logs
    /// `Followed`. Nothing keeps an identity from following itself.
    ///
    /// Fails, leaving the ledger as it was, with `AddressSpaceExhausted`
    /// where `edge_at` is `None`, with `AddressOccupied` where a record
    /// lives there, or with `InsufficientFunds` where the follower cannot
    /// pay the deposit.
    pub fn follow_at(&mut self, edge_at: Option<Pubkey>, ctx: Follow, now: i64) -> (res: Result<
        (),
        ErrorCode,
    >)
        requires
            old(self).wf(),
        ensures
            final(self).wf(),
            follows(
                old(self)@,
                old(self)@.follow_at(key_view(edge_at), ctx.follower@, ctx.following@, now),
                res,
                final(self)@,
            ),
            final(self).supply() == old(self).supply(),
    {
        let edge = FollowEdge { follower: ctx.follower, following: ctx.following, created_at: now };
        let event = Followed { follower: ctx.follower, following: ctx.following };
        self.create_at(edge_at, Record::Follow(edge), &ctx.follower, Event::Followed(event))
    }

    /// `unfollow` on a given address: closes the edge at `edge_at`, refunds
    /// `ctx.follower`, and logs `Unfollowed`.
    ///
    /// Fails, leaving the ledger as it was, with `AddressSpaceExhausted`
    /// where `edge_at` is `None`, or with `AddressNotFound` where no edge
    /// lives there.
    pub fn unfollow_at(&mut self, edge_at: Option<Pubkey>, ctx: Unfollow) -> (res: Result<
        (),
        ErrorCode,
    >)
        requires
            old(self).wf(),
        ensures
            final(self).wf(),
            follows(
                old(self)@,
                old(self)@.unfollow_at(key_view(edge_at), ctx.follower@, ctx.following@),
                res,
                final(self)@,
            ),
            final(self).supply() == old(self).supply(),
    {
        let edge_at = match edge_at {
            Some(address) => address,
            None => {
                return Err(ErrorCode::AddressSpaceExhausted);
            },
        };
        match self.close_record(&edge_at, RecordKind::Follow, &ctx.follower) {
            Ok(_) => {
                self.emit(
                    Event::Unfollowed(
                        Unfollowed { follower: ctx.follower, following: ctx.following },
                    ),
                );
                Ok(())
            },
            Err(e) => Err(e),
        }
    }

    /// `create_post_index` on a given address: creates the index entry of
    /// post `post_id` by `ctx.authority` at `post_at`, paid for by the
    /// author, and logs `PostIndexed`. `visibility` is stored as given.
    ///
    /// Fails, leaving the ledger as it was, with `InvalidCid`; else with
    /// `AddressSpaceExhausted` where `post_at` is `None`, with
    /// `AddressOccupied` where a record lives there, or with
    /// `InsufficientFunds` where the author cannot pay the deposit.
    pub fn create_post_index_at(
        &mut self,
        post_at: Option<Pubkey>,
        ctx: CreatePostIndex,
        post_id: u64,
        content_cid: String,
        visibility: u8,
        now: i64,
    ) -> (res: Result<(), ErrorCode>)
        requires
            old(self).wf(),
        ensures
            final(self).wf(),
            follows(
                old(self)@,
                old(self)@.create_post_index_at(
                    key_view(post_at),
                    ctx.authority@,
                    post_id,
                    content_cid@,
                    visibility,
                    now,
                ),
                res,
                final(self)@,
            ),
            final(self).supply() == old(self).supply(),
    {
        match validate_cid(content_cid.as_str()) {
            Ok(()) => {},
            Err(e) => {
                return Err(e);
            },
        }
        let author = ctx.authority;
        let post = PostIndex {
            author,
            post_id,
            content_cid: content_cid.clone(),
            visibility,
            created_at: now,
        };
        let event = PostIndexed { author, post_id, content_cid, visibility };
        self.create_at(post_at, Record::Post(post), &author, Event::PostIndexed(event))
    }

    /// `tip` on a given address: moves `amount_lamports` from `ctx.from` to
    /// `ctx.to`, writes the receipt at `tip_at`, paid for by the sender, and
    /// logs `Tipped`. An amount of zero is moved like any other.
    ///
    /// Fails, leaving the ledger as it was, with `AddressSpaceExhausted`
    /// where `tip_at` is `None`; with `InsufficientFunds` where the sender
    /// holds less than the amount, or cannot pay the deposit after sending
    /// it; with `AddressOccupied` where a record lives at `tip_at`.
    pub fn tip_at(
        &mut self,
        tip_at: Option<Pubkey>,
        ctx: Tip,
        tip_id: u64,
        amount_lamports: u64,
        now: i64,
    ) -> (res: Result<(), ErrorCode>)
        requires
            old(self).wf(),
        ensures
            final(self).wf(),
            follows(
                old(self)@,
                old(self)@.tip_at(
                    key_view(tip_at),
                    ctx.from@,
                    ctx.to@,
                    tip_id,
                    amount_lamports,
                    now,
                ),
                res,
                final(self)@,
            ),
            final(self).supply() == old(self).supply(),
    {
        let tip_at = match tip_at {
            Some(address) => address,
            None => {
                return Err(ErrorCode::AddressSpaceExhausted);
            },
        };
        let receipt = TipRecord {
            from: ctx.from,
            to: ctx.to,
            tip_id,
            amount_lamports,
            created_at: now,
        };
        match self.store.transfer_then_record(
            &ctx.from,
            &ctx.to,
            amount_lamports,
            &tip_at,
            Record::Tip(receipt),
            &ctx.from,
        ) {
            Ok(()) => {
                self.emit(
                    Event::Tipped(Tipped { from: ctx.from, to: ctx.to, tip_id, amount_lamports }),
                );
                Ok(())
            },
            Err(e) => Err(e),
        }
    }

    /// `like_post` on a given address: records at `like_at` that
    /// `ctx.liker` likes post `post_id` of `ctx.post_author`, paid for by
    /// the liker, and logs `PostLiked`.
    ///
    /// Fails, leaving the ledger as it was, with `AddressSpaceExhausted`
    /// where `like_at` is `None`, with `AddressOccupied` where a record
    /// lives there, or with `InsufficientFunds` where the liker cannot pay
    /// the deposit.
    pub fn like_post_at(&mut self, like_at: Option<Pubkey>, ctx: LikePost, post_id: u64, now: i64) -> (res:
        Result<(), ErrorCode>)
        requires
            old(self).wf(),
        ensures
            final(self).wf(),
            follows(
                old(self)@,
                old(self)@.like_post_at(
                    key_view(like_at),
                    ctx.liker@,
                    ctx.post_author@,
                    post_id,
                    now,
                ),
                res,
                final(self)@,
            ),
            final(self).supply() == old(self).supply(),
    {
        let like = LikeRecord {
            liker: ctx.liker,
            post_author: ctx.post_author,
            post_id,
            created_at: now,
        };
        let event = PostLiked { liker: ctx.liker, post_author: ctx.post_author, post_id };
        self.create_at(like_at, Record::Like(like), &ctx.liker, Event::PostLiked(event))
    }

    /// `unlike_post` with the derived address given: closes the like at
    /// `ctx.like`, refunds the liker, and logs `PostUnliked` with the post
    /// id that the like carries. `derived` is the address that belongs to
    /// the liker, the post author and that post id.
    ///
    /// Fails, leaving the ledger as it was, with `AddressNotFound` where no
    /// like lives at `ctx.like`, or with `Unauthorized` where `derived` is
    /// not `ctx.like`.
    pub fn unlike_post_at(&mut self, derived: Option<Pubkey>, ctx: UnlikePost) -> (res: Result<
        (),
        ErrorCode,
    >)
        requires
            old(self).wf(),
        ensures
            final(self).wf(),
            follows(
                old(self)@,
                old(self)@.unlike_post_at(
                    key_view(derived),
                    ctx.liker@,
                    ctx.post_author@,
                    ctx.like@,
                ),
                res,
                final(self)@,
            ),
            final(self).supply() == old(self).supply(),
    {
        let post_id = match self.store.read(&ctx.like) {
            Some(Record::Like(like)) => like.post_id,
            _ => {
                return Err(ErrorCode::AddressNotFound);
            },
        };
        let genuine = match derived {
            Some(derived) => same_key(&derived, &ctx.like),
            None => false,
        };
        if !genuine {
            return Err(ErrorCode::Unauthorized);
        }
        match self.store.close(&ctx.like, &ctx.liker) {
            Ok(_) => {
                self.emit(
                    Event::PostUnliked(
                        PostUnliked { liker: ctx.liker, post_author: ctx.post_author, post_id },
                    ),
                );
                Ok(())
            },
            Err(e) => Err(e),
        }
    }

    /// `create_comment` on a given address: creates comment `comment_id` of
    /// `ctx.author` on post `post_id` of `ctx.post_author` at `comment_at`,
    /// paid for by the author, and logs `CommentCreated`.
    ///
    /// Fails, leaving the ledger as it was, with `InvalidCid`; else with
    /// `AddressSpaceExhausted` where `comment_at` is `None`, with
    /// `AddressOccupied` where a record lives there, or with
    /// `InsufficientFunds` where the author cannot pay the deposit.
    pub fn create_comment_at(
        &mut self,
        comment_at: Option<Pubkey>,
        ctx: CreateComment,
        post_id: u64,
        comment_id: u64,
        content_cid: String,
        now: i64,
    ) -> (res: Result<(), ErrorCode>)
        requires
            old(self).wf(),
        ensures
            final(self).wf(),
            follows(
                old(self)@,
                old(self)@.create_comment_at(
                    key_view(comment_at),
                    ctx.author@,
                    ctx.post_author@,
                    post_id,
                    comment_id,
                    content_cid@,
                    now,
                ),
                res,
                final(self)@,
            ),
            final(self).supply() == old(self).supply(),
    {
        match validate_cid(content_cid.as_str()) {
            Ok(()) => {},
            Err(e) => {
                return Err(e);
            },
        }
        let comment = CommentRecord {
            author: ctx.author,
            post_author: ctx.post_author,
            post_id,
            comment_id,
            content_cid: content_cid.clone(),
            created_at: now,
        };
        let event = CommentCreated {
            author: ctx.author,
            post_author: ctx.post_author,
            post_id,
            comment_id,
            content_cid,
        };
        self.create_at(
            comment_at,
            Record::Comment(comment),
            &ctx.author,
            Event::CommentCreated(event),
        )
    }

    /// `index_topic` on a given address: files post `post_id` of
    /// `ctx.author` under `topic` at `topic_at`, paid for by the author,
    /// and logs `TopicIndexed`.
    ///
    /// Fails, leaving the ledger as it was, with `InvalidTopic`; else with
    /// `AddressSpaceExhausted` where `topic_at` is `None`, with
    /// `AddressOccupied` where a record lives there, or with
    /// `InsufficientFunds` where the author cannot pay the deposit.
    pub fn index_topic_at(
        &mut self,
        topic_at: Option<Pubkey>,
        ctx: IndexTopic,
        post_id: u64,
        topic: String,
        now: i64,
    ) -> (res: Result<(), ErrorCode>)
        requires
            old(self).wf(),
        ensures
            final(self).wf(),
            follows(
                old(self)@,
                old(self)@.index_topic_at(key_view(topic_at), ctx.author@, post_id, topic@, now),
                res,
                final(self)@,
            ),
            final(self).supply() == old(self).supply(),
    {
        match validate_topic(topic.as_str()) {
            Ok(()) => {},
            Err(e) => {
                return Err(e);
            },
        }
        let entry = TopicIndex {
            topic: topic.clone(),
            author: ctx.author,
            post_id,
            created_at: now,
        };
        let event = TopicIndexed { topic, author: ctx.author, post_id };
        self.create_at(topic_at, Record::Topic(entry), &ctx.author, Event::TopicIndexed(event))
    }
}

} // verus!
