//! Picks a channel's best memes of a month.
//!
//! The library walks a channel's history page by page until a calendar month
//! is covered, keeps the messages of that month, ranks those that carry an
//! attachment by the number of upvote reactions, and prepares the post that
//! announces the first three.  Fetching and posting are left to the caller
//! through the traits [`GetMsgs`](discord_api::messages::GetMsgs) and
//! [`SendMsgs`](discord_api::messages::SendMsgs).

pub mod discord_api;
pub mod error;
pub mod harvest;
pub mod models;
pub mod ranking;
pub mod sorting;
pub mod text;
pub mod time;
pub mod utils;
pub mod winners;

pub use error::Error;
pub use ranking::sort_messages_by_upvote;
