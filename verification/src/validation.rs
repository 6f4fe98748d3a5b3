use vstd::prelude::*;
use vstd::string::*;
use vstd::utf8::*;
use crate::error::ErrorCode;

verus! {

/// Longest username, in bytes.
pub const MAX_USERNAME_LEN: usize = 32;

/// Longest display name, in bytes.
pub const MAX_DISPLAY_NAME_LEN: usize = 48;

/// Longest content pointer (post, comment, bio or avatar), in bytes.
pub const MAX_CID_LEN: usize = 128;

/// Longest topic, in bytes.
pub const MAX_TOPIC_LEN: usize = 32;

/// Number of bytes that `text` occupies in its UTF-8 encoding.
pub open spec fn byte_len(text: Seq<char>) -> nat {
    encode_utf8(text).len()
}

/// A field is within bounds when it is not empty and at most `max` bytes long.
pub open spec fn within(text: Seq<char>, max: int) -> bool {
    1 <= byte_len(text) <= max
}

pub open spec fn valid_username(username: Seq<char>) -> bool {
    within(username, MAX_USERNAME_LEN as int)
}

pub open spec fn valid_display_name(name: Seq<char>) -> bool {
    within(name, MAX_DISPLAY_NAME_LEN as int)
}

pub open spec fn valid_cid(cid: Seq<char>) -> bool {
    within(cid, MAX_CID_LEN as int)
}

pub open spec fn valid_topic(topic: Seq<char>) -> bool {
    within(topic, MAX_TOPIC_LEN as int)
}

/// Accepts a username of 1 to 32 bytes.
pub fn validate_username(username: &str) -> (res: Result<(), ErrorCode>)
    ensures
        valid_username(username@) ==> res == Ok::<(), ErrorCode>(()),
        !valid_username(username@) ==> res == Err::<(), ErrorCode>(ErrorCode::InvalidUsername),
{
    let n: usize = username.as_bytes().len();
    if n == 0 || n > MAX_USERNAME_LEN {
        return Err(ErrorCode::InvalidUsername);
    }
    Ok(())
}

/// Accepts a display name of 1 to 48 bytes.
pub fn validate_display_name(name: &str) -> (res: Result<(), ErrorCode>)
    ensures
        valid_display_name(name@) ==> res == Ok::<(), ErrorCode>(()),
        !valid_display_name(name@) ==> res == Err::<(), ErrorCode>(ErrorCode::InvalidDisplayName),
{
    let n: usize = name.as_bytes().len();
    if n == 0 || n > MAX_DISPLAY_NAME_LEN {
        return Err(ErrorCode::InvalidDisplayName);
    }
    Ok(())
}

/// Accepts a content pointer of 1 to 128 bytes.
pub fn validate_cid(cid: &str) -> (res: Result<(), ErrorCode>)
    ensures
        valid_cid(cid@) ==> res == Ok::<(), ErrorCode>(()),
        !valid_cid(cid@) ==> res == Err::<(), ErrorCode>(ErrorCode::InvalidCid),
{
    let n: usize = cid.as_bytes().len();
    if n == 0 || n > MAX_CID_LEN {
        return Err(ErrorCode::InvalidCid);
    }
    Ok(())
}

/// Accepts a topic of 1 to 32 bytes.
pub fn validate_topic(topic: &str) -> (res: Result<(), ErrorCode>)
    ensures
        valid_topic(topic@) ==> res == Ok::<(), ErrorCode>(()),
        !valid_topic(topic@) ==> res == Err::<(), ErrorCode>(ErrorCode::InvalidTopic),
{
    let n: usize = topic.as_bytes().len();
    if n == 0 || n > MAX_TOPIC_LEN {
        return Err(ErrorCode::InvalidTopic);
    }
    Ok(())
}

} // verus!
