//! What is said to the service and what is made of its replies: the
//! addresses that requests go to, and the handling of a reply that says the
//! caller is too fast.

use crate::error::Error;
use crate::text::{chars_of, decimal, has_phrase, holds_phrase, push_decimal};
use vstd::prelude::*;
use vstd::string::*;

verus! {

/// How many messages a fetch asks for where the caller names no limit.
pub const DEFAULT_LIMIT: i32 = 1;

/// How long to wait before a fetch that was refused for its rate is made
/// again, in seconds.
pub const RETRY_DELAY_SECS: u64 = 1;

/// How often a fetch that was refused for its rate is made again.
pub const MAX_RETRIES: u32 = 1;

/// The words by which the service says that requests come too fast.
pub open spec fn rate_limit_phrase() -> Seq<char> {
    "rate limited"@
}

/// The reply says that requests come too fast.
pub open spec fn is_rate_limit_reply(body: Seq<char>) -> bool {
    holds_phrase(body, rate_limit_phrase())
}

/// The limit a fetch asks for.
pub open spec fn limit_asked(limit: Option<i32>) -> int {
    match limit {
        Some(n) => n as int,
        None => DEFAULT_LIMIT as int,
    }
}

/// The part of the address that names the message after which to read.
pub open spec fn after_part(after: Option<Seq<char>>) -> Seq<char> {
    match after {
        Some(id) => "after="@ + id + "&"@,
        None => Seq::empty(),
    }
}

/// The address from which a page of a channel's messages is fetched.
pub open spec fn messages_address(
    base_url: Seq<char>,
    channel_id: Seq<char>,
    after: Option<Seq<char>>,
    limit: Option<i32>,
) -> Seq<char> {
    base_url + "/channels/"@ + channel_id + "/messages?"@ + after_part(after) + "limit="@
        + decimal(limit_asked(limit))
}

/// The address to which a message for a channel is posted.
pub open spec fn post_address(base_url: Seq<char>, channel_id: Seq<char>) -> Seq<char> {
    base_url + "/channels/"@ + channel_id + "/messages"@
}

/// What to do with the reply to a fetch.
#[derive(Clone, Copy, Debug, PartialEq, Eq, Structural)]
pub enum ReplyAction {
    /// The reply is a page: read the messages out of it.
    Read,
    /// The fetch was refused for its rate: wait `RETRY_DELAY_SECS` and make
    /// it again.
    Retry,
    /// The fetch was refused for its rate once too often: fail with
    /// `Error::RateLimited`.
    GiveUp,
}

/// What to do with a reply, given how often the fetch has been made again
/// already.
pub open spec fn action_for(body: Seq<char>, retries: u32) -> ReplyAction {
    if !is_rate_limit_reply(body) {
        ReplyAction::Read
    } else if retries < MAX_RETRIES {
        ReplyAction::Retry
    } else {
        ReplyAction::GiveUp
    }
}

/// Builds the address from which a page of a channel's messages is fetched.
pub fn messages_url(base_url: &str, channel_id: &str, after: &Option<String>, limit: Option<i32>)
    -> (url: String)
    ensures
        url@ == messages_address(base_url@, channel_id@, after.deep_view(), limit),
{
    let asked = match limit {
        Some(n) => n,
        None => DEFAULT_LIMIT,
    };
    let mut url = base_url.to_owned();
    url.append("/channels/");
    url.append(channel_id);
    url.append("/messages?");
    let ghost stem = url@;
    match after {
        Some(id) => {
            url.append("after=");
            url.append(id.as_str());
            url.append("&");
            assert(url@ =~= stem + after_part(after.deep_view()));
        },
        None => {
            assert(url@ =~= stem + after_part(after.deep_view()));
        },
    }
    url.append("limit=");
    push_decimal(&mut url, asked);
    assert(url@ =~= messages_address(base_url@, channel_id@, after.deep_view(), limit));
    url
}

/// Builds the address to which a message for a channel is posted.
pub fn post_url(base_url: &str, channel_id: &str) -> (url: String)
    ensures
        url@ == post_address(base_url@, channel_id@),
{
    let mut url = base_url.to_owned();
    url.append("/channels/");
    url.append(channel_id);
    url.append("/messages");
    assert(url@ =~= post_address(base_url@, channel_id@));
    url
}

/// Whether the reply says that requests come too fast.
pub fn is_rate_limited(body: &str) -> (refused: bool)
    ensures
        refused == is_rate_limit_reply(body@),
{
    let text = chars_of(body);
    let phrase = chars_of("rate limited");
    has_phrase(&text, &phrase)
}

/// Decides what to do with the reply to a fetch that has been made again
/// `retries` times already.
pub fn after_reply(body: &str, retries: u32) -> (action: ReplyAction)
    ensures
        action == action_for(body@, retries),
{
    if !is_rate_limited(body) {
        ReplyAction::Read
    } else if retries < MAX_RETRIES {
        ReplyAction::Retry
    } else {
        ReplyAction::GiveUp
    }
}

/// The failure of a fetch that was given up.
pub fn rate_limit_error() -> (e: Error)
    ensures
        e.is_rate_limit(),
{
    Error::RateLimited
}

} // verus!
