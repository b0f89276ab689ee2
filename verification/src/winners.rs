//! The post that announces a month's winners.

use crate::models::discord::{Embed, EmbedView, Message, MessageBody, MessageView};
use crate::ranking::{is_meme, meme_means_counted, upvote_count, upvotes};
use crate::text::{decimal, push_decimal};
use crate::utils::message_body_builder::{
    built, picture_embed, MessageBodyBuilder, MessageBodyBuilderView,
};
use vstd::prelude::*;
use vstd::string::*;

verus! {

/// How many winners are announced at most.
pub const PLACES: usize = 3;

/// The text above the winners.
pub open spec fn announcement() -> Seq<char> {
    "This month top three memes were:"@
}

/// The title of a place: its number, counted from one, and a full stop.
pub open spec fn place_title(place: int) -> Seq<char> {
    if place == 0 {
        "1."@
    } else if place == 1 {
        "2."@
    } else {
        "3."@
    }
}

/// What is said of a winner: who posted the meme and how many upvotes it
/// drew.
pub open spec fn winner_text(author_id: Seq<char>, upvotes: int) -> Seq<char> {
    "MeMe von <@"@ + author_id + ">\nMit "@ + decimal(upvotes) + " upvotes"@
}

/// The embed that shows a winner: under the place, the author and the
/// upvotes, and the picture of the message's first attachment.
pub open spec fn winner_embed(place: Seq<char>, message: MessageView, emoji: Seq<char>)
    -> EmbedView {
    picture_embed(
        place,
        winner_text(message.author.id, upvotes(message, emoji)),
        message.attachments[0].url,
    )
}

/// The embeds of the first `PLACES` messages of a ranking, or of all where
/// there are fewer.
pub open spec fn podium(ranking: Seq<MessageView>, emoji: Seq<char>) -> Seq<EmbedView> {
    Seq::new(
        if ranking.len() < PLACES { ranking.len() } else { PLACES as nat },
        |i: int| winner_embed(place_title(i), ranking[i], emoji),
    )
}

/// Whether the message takes part in the ranking.
pub fn qualifies(message: &Message, upvote_emoji: &str) -> (b: bool)
    ensures
        b == is_meme(message@, upvote_emoji@),
{
    proof {
        meme_means_counted(message@, upvote_emoji@);
    }
    message.attachments.len() > 0 && upvote_count(message, upvote_emoji) > 0
}

/// Builds the embed that shows a winner under the given place.
pub fn create_winner_embed(place: &str, first_msg: &Message, upvote_emoji: &str) -> (embed: Embed)
    requires
        is_meme(first_msg@, upvote_emoji@),
    ensures
        embed@ == winner_embed(place@, first_msg@, upvote_emoji@),
{
    let upvotes = upvote_count(first_msg, upvote_emoji);
    let mut text = "MeMe von <@".to_owned();
    text.append(first_msg.author.id.as_str());
    text.append(">\nMit ");
    push_decimal(&mut text, upvotes);
    text.append(" upvotes");
    assert(text@ =~= winner_text(first_msg@.author.id, upvotes as int));
    Embed::new(place, text.as_str(), first_msg.attachments[0].url.as_str())
}

/// The title of a place.
fn place_name(place: usize) -> (title: &'static str)
    ensures
        title@ == place_title(place as int),
{
    if place == 0 {
        "1."
    } else if place == 1 {
        "2."
    } else {
        "3."
    }
}

/// Builds the post that announces the winners of a ranking: the first
/// three, or as many as there are.  Where the ranking is empty there is
/// nothing to announce, and no post.
pub fn winners_post(ranking: &Vec<Message>, upvote_emoji: &str) -> (post: Option<MessageBody>)
    requires
        forall|i: int|
            0 <= i < ranking.len() && i < PLACES ==> is_meme(#[trigger] ranking[i]@, upvote_emoji@),
    ensures
        ranking.len() == 0 ==> post is None,
        ranking.len() > 0 ==> post.deep_view() == Some(
            built(
                MessageBodyBuilderView {
                    content: announcement(),
                    embeds: Some(podium(ranking.deep_view(), upvote_emoji@)),
                },
            ),
        ),
{
    if ranking.len() == 0 {
        return None;
    }
    let shown: usize = if ranking.len() < PLACES {
        ranking.len()
    } else {
        PLACES
    };
    let mut embeds: Vec<Embed> = Vec::new();
    let mut i: usize = 0;
    while i < shown
        invariant
            i <= shown,
            shown <= ranking.len(),
            shown <= PLACES,
            embeds.len() == i,
            forall|j: int|
                0 <= j < ranking.len() && j < PLACES ==> is_meme(
                    #[trigger] ranking[j]@,
                    upvote_emoji@,
                ),
            forall|j: int|
                0 <= j < i ==> (#[trigger] embeds[j])@ == winner_embed(
                    place_title(j),
                    ranking[j]@,
                    upvote_emoji@,
                ),
        decreases shown - i,
    {
        embeds.push(create_winner_embed(place_name(i), &ranking[i], upvote_emoji));
        i += 1;
    }
    assert(embeds.deep_view() =~= podium(ranking.deep_view(), upvote_emoji@));
    let builder = MessageBodyBuilder::new("This month top three memes were:").embeds(embeds);
    let body = builder.build();
    Some(body)
}

} // verus!
