use vstd::prelude::*;
use vstd::bytes::{spec_u64_to_le_bytes, u64_to_le_bytes};
use vstd::slice::*;
use vstd::string::*;

verus! {

/// A 32-byte key: the identity of a caller, or the address of a record.
pub type Pubkey = [u8; 32];

/// Namespace of profiles, keyed by the owning identity.
pub const PROFILE: &'static str = "profile";

/// Namespace of username locks, keyed by the username's bytes.
pub const USERNAME: &'static str = "username";

/// Namespace of follow edges, keyed by follower and followed identity.
pub const FOLLOW: &'static str = "follow";

/// Namespace of post index entries, keyed by author and post id.
pub const POST: &'static str = "post";

/// Namespace of tip receipts, keyed by sender and tip id.
pub const TIP: &'static str = "tip";

/// Namespace of likes, keyed by liker, post author and post id.
pub const LIKE: &'static str = "like";

/// Namespace of comments, keyed by author, post id and comment id.
pub const COMMENT: &'static str = "comment";

/// Namespace of topic entries, keyed by topic, author and post id.
pub const TOPIC: &'static str = "topic";

/// Whether two keys hold the same bytes.
pub fn same_key(a: &Pubkey, b: &Pubkey) -> (same: bool)
    ensures
        same == (a@ == b@),
{
    let mut i: usize = 0;
    while i < 32
        invariant
            i <= 32,
            forall|j: int| 0 <= j < i ==> a@[j] == b@[j],
        decreases 32 - i,
    {
        if a[i] != b[i] {
            return false;
        }
        i = i + 1;
    }
    assert(a@ =~= b@);
    true
}

/// The byte strings that a list of seeds stands for.
pub open spec fn seed_bytes(seeds: Seq<&[u8]>) -> Seq<Seq<u8>> {
    Seq::new(seeds.len(), |i: int| seeds[i]@)
}

/// The address and bump seed that the host derives for `seeds` under the
/// program `program_id`; `None` where it derives none.
pub uninterp spec fn program_address(seeds: Seq<Seq<u8>>, program_id: Seq<u8>) -> Option<
    (Seq<u8>, u8),
>;

/// A derived address and its bump seed, the address as a byte sequence.
pub open spec fn found_view(found: Option<(Pubkey, u8)>) -> Option<(Seq<u8>, u8)> {
    match found {
        Some((address, bump)) => Some((address@, bump)),
        None => None,
    }
}

/// Calls `Pubkey::try_find_program_address` of `anchor_lang`, which searches
/// the bump seeds from 255 downwards for the first one that, hashed with the
/// seeds and the program id, gives an address off the curve. What it returns
/// depends on the seeds and the program id alone; the contract gives that
/// result the name `program_address` and claims nothing else of it.
#[verifier::external_body]
fn find_program_address(seeds: &[&[u8]], program_id: &Pubkey) -> (found: Option<(Pubkey, u8)>)
    ensures
        found_view(found) == program_address(seed_bytes(seeds@), program_id@),
{
    let id = anchor_lang::prelude::Pubkey::new_from_array(*program_id);
    match anchor_lang::prelude::Pubkey::try_find_program_address(seeds, &id) {
        Some((address, bump)) => Some((address.to_bytes(), bump)),
        None => None,
    }
}

/// The address derived for `parts` in `namespace`, with the bump seed that
/// proves the derivation. The namespace is always the first seed.
pub open spec fn spec_derive(program_id: Seq<u8>, namespace: Seq<u8>, parts: Seq<Seq<u8>>) -> Option<
    (Seq<u8>, u8),
> {
    program_address(seq![namespace] + parts, program_id)
}

/// The address alone.
pub open spec fn spec_address(program_id: Seq<u8>, namespace: Seq<u8>, parts: Seq<Seq<u8>>) -> Option<
    Seq<u8>,
> {
    match spec_derive(program_id, namespace, parts) {
        Some((address, _)) => Some(address),
        None => None,
    }
}

/// Derives the address of the record with key `parts` in `namespace`, and
/// the bump seed with which the derivation can be checked. `None` means
/// that no valid address exists for these inputs.
pub fn derive(program_id: &Pubkey, namespace: &[u8], parts: &[&[u8]]) -> (found: Option<
    (Pubkey, u8),
>)
    ensures
        found_view(found) == spec_derive(program_id@, namespace@, seed_bytes(parts@)),
{
    let mut seeds: Vec<&[u8]> = Vec::new();
    seeds.push(namespace);
    let mut i: usize = 0;
    while i < parts.len()
        invariant
            i <= parts.len(),
            seeds@.len() == i + 1,
            seeds@[0]@ == namespace@,
            forall|j: int| 0 <= j < i ==> seeds@[j + 1]@ == parts@[j]@,
        decreases parts.len() - i,
    {
        seeds.push(parts[i]);
        i = i + 1;
    }
    assert(seed_bytes(seeds@) =~= seq![namespace@] + seed_bytes(parts@));
    find_program_address(seeds.as_slice(), program_id)
}

/// Derives the address again and compares: whether `address` is the one
/// that belongs to `parts` in `namespace`.
pub fn verify_address(
    program_id: &Pubkey,
    namespace: &[u8],
    parts: &[&[u8]],
    address: &Pubkey,
) -> (genuine: bool)
    ensures
        genuine == (spec_address(program_id@, namespace@, seed_bytes(parts@)) == Some(address@)),
{
    match derive(program_id, namespace, parts) {
        Some((derived, _)) => same_key(&derived, address),
        None => false,
    }
}

fn address_of(program_id: &Pubkey, namespace: &str, parts: &[&[u8]]) -> (found: Option<Pubkey>)
    ensures
        key_view(found) == spec_address(program_id@, namespace.spec_bytes(), seed_bytes(parts@)),
{
    match derive(program_id, namespace.as_bytes(), parts) {
        Some((address, _)) => Some(address),
        None => None,
    }
}

/// An optional key as an optional byte sequence.
pub open spec fn key_view(key: Option<Pubkey>) -> Option<Seq<u8>> {
    match key {
        Some(k) => Some(k@),
        None => None,
    }
}

pub open spec fn spec_profile_address(program_id: Seq<u8>, authority: Seq<u8>) -> Option<Seq<u8>> {
    spec_address(program_id, PROFILE.spec_bytes(), seq![authority])
}

pub open spec fn spec_username_address(program_id: Seq<u8>, username: Seq<char>) -> Option<
    Seq<u8>,
> {
    spec_address(program_id, USERNAME.spec_bytes(), seq![vstd::utf8::encode_utf8(username)])
}

pub open spec fn spec_follow_address(
    program_id: Seq<u8>,
    follower: Seq<u8>,
    following: Seq<u8>,
) -> Option<Seq<u8>> {
    spec_address(program_id, FOLLOW.spec_bytes(), seq![follower, following])
}

pub open spec fn spec_post_address(program_id: Seq<u8>, author: Seq<u8>, post_id: u64) -> Option<
    Seq<u8>,
> {
    spec_address(program_id, POST.spec_bytes(), seq![author, spec_u64_to_le_bytes(post_id)])
}

pub open spec fn spec_tip_address(program_id: Seq<u8>, from: Seq<u8>, tip_id: u64) -> Option<
    Seq<u8>,
> {
    spec_address(program_id, TIP.spec_bytes(), seq![from, spec_u64_to_le_bytes(tip_id)])
}

pub open spec fn spec_like_address(
    program_id: Seq<u8>,
    liker: Seq<u8>,
    post_author: Seq<u8>,
    post_id: u64,
) -> Option<Seq<u8>> {
    spec_address(
        program_id,
        LIKE.spec_bytes(),
        seq![liker, post_author, spec_u64_to_le_bytes(post_id)],
    )
}

pub open spec fn spec_comment_address(
    program_id: Seq<u8>,
    author: Seq<u8>,
    post_id: u64,
    comment_id: u64,
) -> Option<Seq<u8>> {
    spec_address(
        program_id,
        COMMENT.spec_bytes(),
        seq![author, spec_u64_to_le_bytes(post_id), spec_u64_to_le_bytes(comment_id)],
    )
}

pub open spec fn spec_topic_address(
    program_id: Seq<u8>,
    topic: Seq<char>,
    author: Seq<u8>,
    post_id: u64,
) -> Option<Seq<u8>> {
    spec_address(
        program_id,
        TOPIC.spec_bytes(),
        seq![vstd::utf8::encode_utf8(topic), author, spec_u64_to_le_bytes(post_id)],
    )
}

/// Address of the profile of `authority`.
pub fn profile_address(program_id: &Pubkey, authority: &Pubkey) -> (found: Option<Pubkey>)
    ensures
        key_view(found) == spec_profile_address(program_id@, authority@),
{
    let parts: [&[u8]; 1] = [authority.as_slice()];
    assert(seed_bytes(parts@) =~= seq![authority@]);
    address_of(program_id, PROFILE, parts.as_slice())
}

/// Address of the lock on `username`.
pub fn username_address(program_id: &Pubkey, username: &str) -> (found: Option<Pubkey>)
    ensures
        key_view(found) == spec_username_address(program_id@, username@),
{
    let parts: [&[u8]; 1] = [username.as_bytes()];
    assert(seed_bytes(parts@) =~= seq![username.spec_bytes()]);
    address_of(program_id, USERNAME, parts.as_slice())
}

/// Address of the edge from `follower` to `following`.
pub fn follow_address(program_id: &Pubkey, follower: &Pubkey, following: &Pubkey) -> (found:
    Option<Pubkey>)
    ensures
        key_view(found) == spec_follow_address(program_id@, follower@, following@),
{
    let parts: [&[u8]; 2] = [follower.as_slice(), following.as_slice()];
    assert(seed_bytes(parts@) =~= seq![follower@, following@]);
    address_of(program_id, FOLLOW, parts.as_slice())
}

/// Address of the index entry of post `post_id` by `author`.
pub fn post_address(program_id: &Pubkey, author: &Pubkey, post_id: u64) -> (found: Option<Pubkey>)
    ensures
        key_view(found) == spec_post_address(program_id@, author@, post_id),
{
    let id = u64_to_le_bytes(post_id);
    let parts: [&[u8]; 2] = [author.as_slice(), id.as_slice()];
    assert(seed_bytes(parts@) =~= seq![author@, spec_u64_to_le_bytes(post_id)]);
    address_of(program_id, POST, parts.as_slice())
}

/// Address of the receipt of tip `tip_id` sent by `from`.
pub fn tip_address(program_id: &Pubkey, from: &Pubkey, tip_id: u64) -> (found: Option<Pubkey>)
    ensures
        key_view(found) == spec_tip_address(program_id@, from@, tip_id),
{
    let id = u64_to_le_bytes(tip_id);
    let parts: [&[u8]; 2] = [from.as_slice(), id.as_slice()];
    assert(seed_bytes(parts@) =~= seq![from@, spec_u64_to_le_bytes(tip_id)]);
    address_of(program_id, TIP, parts.as_slice())
}

/// Address of the like that `liker` gave to post `post_id` of `post_author`.
pub fn like_address(
    program_id: &Pubkey,
    liker: &Pubkey,
    post_author: &Pubkey,
    post_id: u64,
) -> (found: Option<Pubkey>)
    ensures
        key_view(found) == spec_like_address(program_id@, liker@, post_author@, post_id),
{
    let id = u64_to_le_bytes(post_id);
    let parts: [&[u8]; 3] = [liker.as_slice(), post_author.as_slice(), id.as_slice()];
    assert(seed_bytes(parts@) =~= seq![liker@, post_author@, spec_u64_to_le_bytes(post_id)]);
    address_of(program_id, LIKE, parts.as_slice())
}

/// Address of comment `comment_id` that `author` made on post `post_id`.
pub fn comment_address(
    program_id: &Pubkey,
    author: &Pubkey,
    post_id: u64,
    comment_id: u64,
) -> (found: Option<Pubkey>)
    ensures
        key_view(found) == spec_comment_address(program_id@, author@, post_id, comment_id),
{
    let post = u64_to_le_bytes(post_id);
    let comment = u64_to_le_bytes(comment_id);
    let parts: [&[u8]; 3] = [author.as_slice(), post.as_slice(), comment.as_slice()];
    assert(seed_bytes(parts@) =~= seq![
        author@,
        spec_u64_to_le_bytes(post_id),
        spec_u64_to_le_bytes(comment_id),
    ]);
    address_of(program_id, COMMENT, parts.as_slice())
}

/// Address of the entry of post `post_id` by `author` under `topic`.
pub fn topic_address(program_id: &Pubkey, topic: &str, author: &Pubkey, post_id: u64) -> (found:
    Option<Pubkey>)
    ensures
        key_view(found) == spec_topic_address(program_id@, topic@, author@, post_id),
{
    let id = u64_to_le_bytes(post_id);
    let parts: [&[u8]; 3] = [topic.as_bytes(), author.as_slice(), id.as_slice()];
    assert(seed_bytes(parts@) =~= seq![
        topic.spec_bytes(),
        author@,
        spec_u64_to_le_bytes(post_id),
    ]);
    address_of(program_id, TOPIC, parts.as_slice())
}

} // verus!
