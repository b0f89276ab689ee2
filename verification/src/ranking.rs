//! Ranking a month's messages by their upvotes.
//!
//! A message is a meme where it carries an attachment and has drawn the
//! upvote reaction at least once.  Memes are ranked by the count of that
//! reaction, the highest first; among memes with one count the one that came
//! later in the input stands first.

use crate::models::discord::{Message, MessageView, ReactionView};
use crate::sorting::{
    descending, sorted_refs, stable_sorted, stable_sorted_is_ordered,
    stable_sorted_is_permutation, stable_sorted_keeps_all,
};
use vstd::prelude::*;
use vstd::seq_lib::*;
use vstd::string::*;

verus! {

/// The reaction is the upvote, given at least once.
pub open spec fn is_upvote(reaction: ReactionView, emoji: Seq<char>) -> bool {
    reaction.emoji.name == emoji && reaction.count > 0
}

/// The count of the first reaction in the list that is the upvote; 0 where
/// none is.
pub open spec fn upvotes_among(reactions: Seq<ReactionView>, emoji: Seq<char>) -> int
    decreases reactions.len(),
{
    if reactions.len() == 0 {
        0
    } else if is_upvote(reactions[0], emoji) {
        reactions[0].count as int
    } else {
        upvotes_among(reactions.drop_first(), emoji)
    }
}

/// How many upvotes the message has drawn: the count of its first reaction
/// that is the upvote, 0 where it has none.
pub open spec fn upvotes(message: MessageView, emoji: Seq<char>) -> int {
    match message.reactions {
        Some(reactions) => upvotes_among(reactions, emoji),
        None => 0,
    }
}

/// The message has a list of reactions, and one of them is the upvote.
pub open spec fn has_upvote(message: MessageView, emoji: Seq<char>) -> bool {
    message.reactions matches Some(reactions) && exists|i: int|
        0 <= i < reactions.len() && is_upvote(#[trigger] reactions[i], emoji)
}

/// The message takes part in the ranking: it carries an attachment and has
/// been upvoted.
pub open spec fn is_meme(message: MessageView, emoji: Seq<char>) -> bool {
    message.attachments.len() > 0 && has_upvote(message, emoji)
}

/// The test that picks the memes.
pub open spec fn memes(emoji: Seq<char>) -> spec_fn(MessageView) -> bool {
    |m: MessageView| is_meme(m, emoji)
}

/// The key by which memes are ranked.
pub open spec fn by_upvotes(emoji: Seq<char>) -> spec_fn(MessageView) -> int {
    |m: MessageView| upvotes(m, emoji)
}

/// The ranking: the memes among the messages, sorted by upvotes with ties in
/// the order of arrival, and then turned round, so that the most upvoted meme
/// comes first.
pub open spec fn ranked(messages: Seq<MessageView>, emoji: Seq<char>) -> Seq<MessageView> {
    stable_sorted(messages.filter(memes(emoji)), by_upvotes(emoji)).reverse()
}

/// A list of reactions holds the upvote exactly where its upvote count is
/// above zero.
pub proof fn upvoted_means_counted(reactions: Seq<ReactionView>, emoji: Seq<char>)
    ensures
        upvotes_among(reactions, emoji) >= 0,
        upvotes_among(reactions, emoji) > 0 <==> exists|i: int|
            0 <= i < reactions.len() && is_upvote(#[trigger] reactions[i], emoji),
    decreases reactions.len(),
{
    if reactions.len() > 0 {
        let rest = reactions.drop_first();
        upvoted_means_counted(rest, emoji);
        if is_upvote(reactions[0], emoji) {
        } else {
            if upvotes_among(rest, emoji) > 0 {
                let i = choose|i: int| 0 <= i < rest.len() && is_upvote(#[trigger] rest[i], emoji);
                assert(is_upvote(reactions[i + 1], emoji));
            }
            if exists|i: int| 0 <= i < reactions.len() && is_upvote(#[trigger] reactions[i], emoji) {
                let i = choose|i: int|
                    0 <= i < reactions.len() && is_upvote(#[trigger] reactions[i], emoji);
                assert(is_upvote(rest[i - 1], emoji));
            }
        }
    }
}

/// A message is a meme exactly where it carries an attachment and its upvote
/// count is above zero.
pub proof fn meme_means_counted(message: MessageView, emoji: Seq<char>)
    ensures
        upvotes(message, emoji) >= 0,
        is_meme(message, emoji) <==> message.attachments.len() > 0 && upvotes(message, emoji) > 0,
{
    if let Some(reactions) = message.reactions {
        upvoted_means_counted(reactions, emoji);
    }
}

/// The ranking holds memes only: every message in it carries an attachment
/// and has drawn the upvote.
pub proof fn ranked_holds_only_memes(messages: Seq<MessageView>, emoji: Seq<char>, i: int)
    requires
        0 <= i < ranked(messages, emoji).len(),
    ensures
        ranked(messages, emoji)[i].attachments.len() > 0,
        has_upvote(ranked(messages, emoji)[i], emoji),
{
    let chosen = messages.filter(memes(emoji));
    let sorted = stable_sorted(chosen, by_upvotes(emoji));
    assert forall|j: int| 0 <= j < chosen.len() implies memes(emoji)(#[trigger] chosen[j]) by {
        messages.lemma_filter_pred(memes(emoji), j);
    }
    stable_sorted_keeps_all(chosen, by_upvotes(emoji), memes(emoji));
    assert(memes(emoji)(sorted[sorted.len() - 1 - i]));
}

/// The ranking runs from the most upvoted meme to the least: of two memes
/// with different counts, the one with the greater count stands first.
pub proof fn ranked_is_highest_first(messages: Seq<MessageView>, emoji: Seq<char>)
    ensures
        descending(ranked(messages, emoji), by_upvotes(emoji)),
{
    let sorted = stable_sorted(messages.filter(memes(emoji)), by_upvotes(emoji));
    stable_sorted_is_ordered(messages.filter(memes(emoji)), by_upvotes(emoji));
    assert forall|a: int, b: int| 0 <= a < b < sorted.reverse().len() implies by_upvotes(emoji)(
        sorted.reverse()[a],
    ) >= by_upvotes(emoji)(sorted.reverse()[b]) by {
        assert(sorted.reverse()[a] == sorted[sorted.len() - 1 - a]);
        assert(sorted.reverse()[b] == sorted[sorted.len() - 1 - b]);
    }
}

/// The ranking holds every meme among the messages, each as often as the
/// messages hold it.
pub proof fn ranked_holds_every_meme(messages: Seq<MessageView>, emoji: Seq<char>)
    ensures
        ranked(messages, emoji).len() == messages.filter(memes(emoji)).len(),
        ranked(messages, emoji).to_multiset() == messages.filter(memes(emoji)).to_multiset(),
{
    let chosen = messages.filter(memes(emoji));
    let sorted = stable_sorted(chosen, by_upvotes(emoji));
    stable_sorted_is_permutation(chosen, by_upvotes(emoji));
    sorted.lemma_reverse_to_multiset();
}

/// Counts the upvotes of a message.
pub fn upvote_count(message: &Message, upvote_emoji: &str) -> (count: i32)
    ensures
        count == upvotes(message@, upvote_emoji@),
{
    let emoji: String = upvote_emoji.to_owned();
    match &message.reactions {
        None => 0,
        Some(reactions) => {
            let mut i: usize = 0;
            assert(reactions.deep_view().skip(0) =~= reactions.deep_view());
            while i < reactions.len()
                invariant
                    i <= reactions.len(),
                    emoji@ == upvote_emoji@,
                    upvotes(message@, upvote_emoji@) == upvotes_among(
                        reactions.deep_view().skip(i as int),
                        upvote_emoji@,
                    ),
                decreases reactions.len() - i,
            {
                let ghost rest = reactions.deep_view().skip(i as int);
                assert(rest[0] == reactions[i as int]@);
                assert(rest.drop_first() =~= reactions.deep_view().skip(i + 1));
                if reactions[i].count > 0 && reactions[i].emoji.name == emoji {
                    assert(is_upvote(rest[0], upvote_emoji@));
                    return reactions[i].count;
                }
                assert(!is_upvote(rest[0], upvote_emoji@));
                i += 1;
            }
            0
        },
    }
}

/// Ranks the memes among the messages by their upvotes, the most upvoted
/// first.
///
/// Messages without an attachment are left out, and so are messages that
/// have not drawn the upvote.  Of two memes the one with more upvotes comes
/// first; of two with the same count, the one that stands later in `msgs`.
pub fn sort_messages_by_upvote(msgs: Vec<&Message>, upvote_emoji: &str) -> (ranking: Vec<Message>)
    ensures
        ranking.deep_view() == ranked(msgs.deep_view(), upvote_emoji@),
        forall|i: int| 0 <= i < ranking.len() ==> (#[trigger] ranking[i])@.attachments.len() > 0,
        forall|i: int| 0 <= i < ranking.len() ==> has_upvote(#[trigger] ranking[i]@, upvote_emoji@),
        descending(ranking.deep_view(), by_upvotes(upvote_emoji@)),
{
    let ghost emoji = upvote_emoji@;
    let ghost all = msgs.deep_view();
    let mut chosen: Vec<&Message> = Vec::new();
    let mut counts: Vec<i128> = Vec::new();
    let mut i: usize = 0;
    proof {
        assert(all.take(0) =~= Seq::<MessageView>::empty());
        assert(Seq::<MessageView>::empty().filter(memes(emoji)) =~= Seq::<MessageView>::empty()) by {
            reveal(Seq::filter);
        }
        assert(chosen.deep_view() =~= Seq::<MessageView>::empty());
    }
    while i < msgs.len()
        invariant
            i <= msgs.len(),
            emoji == upvote_emoji@,
            all == msgs.deep_view(),
            counts.len() == chosen.len(),
            chosen.deep_view() == all.take(i as int).filter(memes(emoji)),
            forall|j: int|
                0 <= j < chosen.len() ==> counts[j] as int == by_upvotes(emoji)(
                    #[trigger] chosen[j].deep_view(),
                ),
        decreases msgs.len() - i,
    {
        let message: &Message = msgs[i];
        let ghost before = chosen.deep_view();
        proof {
            assert(message@ == all[i as int]);
            all.take(i as int).lemma_filter_push(message@, memes(emoji));
            assert(all.take(i as int).push(message@) =~= all.take(i + 1));
            meme_means_counted(message@, emoji);
        }
        if message.attachments.len() > 0 {
            let count = upvote_count(message, upvote_emoji);
            if count > 0 {
                chosen.push(message);
                counts.push(count as i128);
                assert(chosen.deep_view() =~= before.push(message@));
            }
        }
        i += 1;
    }
    assert(all.take(msgs.len() as int) =~= all);
    let ordered = sorted_refs(&chosen, &counts, Ghost(by_upvotes(emoji)));
    let ghost sorted = ordered.deep_view();
    let mut ranking: Vec<Message> = Vec::new();
    let mut left: usize = ordered.len();
    while left > 0
        invariant
            left <= ordered.len(),
            ranking.len() == ordered.len() - left,
            sorted == ordered.deep_view(),
            forall|j: int|
                0 <= j < ranking.len() ==> (#[trigger] ranking[j])@ == sorted[ordered.len() - 1 - j],
        decreases left,
    {
        left -= 1;
        ranking.push(ordered[left].clone());
    }
    proof {
        assert(ranking.deep_view() =~= sorted.reverse());
        ranked_is_highest_first(all, emoji);
        assert forall|j: int| 0 <= j < ranking.len() implies (#[trigger] ranking[j])@.attachments.len()
            > 0 && has_upvote(ranking[j]@, emoji) by {
            assert(ranking[j]@ == ranking.deep_view()[j]);
            ranked_holds_only_memes(all, emoji, j);
        }
    }
    ranking
}

} // verus!
