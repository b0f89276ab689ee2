use vstd::prelude::*;

verus! {

/// What the program is told at its start: where the service is, which
/// channels to read and to write, how to sign requests, and which reaction
/// counts as an upvote.
#[derive(Debug)]
pub struct Config {
    pub token: String,
    pub client_id: String,
    pub base_url: String,
    pub in_channel_id: String,
    pub out_channel_id: String,
    pub upvote_emoji: String,
}

} // verus!
