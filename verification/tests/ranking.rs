use monthly_memes::models::discord::{
    Attachment, CountDetails, Emoji, Message, Reaction, User,
};
use monthly_memes::ranking::upvote_count;
use monthly_memes::sort_messages_by_upvote;
use monthly_memes::time::Timestamp;
use monthly_memes::winners::{create_winner_embed, qualifies, winners_post, PLACES};

const UP: &str = "👍";

fn author(id: &str) -> User {
    User {
        id: id.to_string(),
        username: format!("user-{}", id),
        avatar: None,
        discriminator: "0".to_string(),
        public_flags: 0,
        flags: 0,
        banner: None,
        accent_color: None,
        global_name: None,
        avatar_decoration_data: None,
        banner_color: None,
        bot: None,
    }
}

fn picture(url: &str) -> Attachment {
    Attachment {
        id: "1".to_string(),
        filename: "meme.png".to_string(),
        size: 1,
        url: url.to_string(),
        proxy_url: url.to_string(),
        width: None,
        height: None,
        content_type: "image/png".to_string(),
        placeholder: None,
        placeholder_version: None,
    }
}

fn reaction(name: &str, count: i32) -> Reaction {
    Reaction {
        emoji: Emoji { id: None, name: name.to_string() },
        count,
        count_details: CountDetails { burst: 0, normal: count },
        burst_colors: vec![],
        me_burst: false,
        burst_me: false,
        me: false,
        burst_count: 0,
    }
}

fn message(id: &str, pictures: usize, reactions: Option<Vec<Reaction>>) -> Message {
    Message {
        id: id.to_string(),
        _type: 0,
        content: String::new(),
        channel_id: "7".to_string(),
        author: author("42"),
        attachments: (0..pictures).map(|n| picture(&format!("https://cdn.example/{}-{}.png", id, n))).collect(),
        mentions: vec![],
        mention_roles: vec![],
        pinned: false,
        mention_everyone: false,
        tts: false,
        timestamp: Timestamp { secs: 1_709_467_200, nanos: 0 },
        edited_timestamp: None,
        flags: 0,
        components: vec![],
        interaction: None,
        webhook_id: None,
        reactions,
    }
}

fn meme(id: &str, upvotes: i32) -> Message {
    message(id, 1, Some(vec![reaction(UP, upvotes)]))
}

fn ids(messages: &[Message]) -> Vec<String> {
    messages.iter().map(|m| m.id.clone()).collect()
}

fn rank(messages: &[Message]) -> Vec<Message> {
    sort_messages_by_upvote(messages.iter().collect(), UP)
}

fn fixture() -> Vec<Message> {
    vec![
        message("1213400000000000001", 0, Some(vec![reaction(UP, 9)])),
        message("1215354063861055520", 1, Some(vec![reaction("🎉", 2), reaction(UP, 3)])),
        message("1213500000000000002", 1, None),
        message("1213768968272085042", 2, Some(vec![reaction(UP, 7)])),
        message("1214000000000000004", 0, None),
    ]
}

#[test]
fn test_sort_messages_by_upvote() {
    let all_msgs = fixture();

    let sorted_msgs = sort_messages_by_upvote(all_msgs.iter().collect(), UP);

    assert_eq!(sorted_msgs.len(), 2);
    assert_eq!(sorted_msgs[0].id, "1213768968272085042");
    assert_eq!(sorted_msgs[1].id, "1215354063861055520");
}

#[test]
fn ranking_puts_the_most_upvoted_first() {
    let ranking = rank(&[meme("three", 3), meme("seven", 7), meme("one", 1), meme("five", 5)]);
    assert_eq!(ids(&ranking), vec!["seven", "five", "three", "one"]);
    let counts: Vec<i32> = ranking.iter().map(|m| upvote_count(m, UP)).collect();
    assert_eq!(counts, vec![7, 5, 3, 1]);
}

#[test]
fn ranking_puts_the_later_of_two_equals_first() {
    let ranking = rank(&[meme("a", 4), meme("b", 9), meme("c", 4), meme("d", 4)]);
    assert_eq!(ids(&ranking), vec!["b", "d", "c", "a"]);
}

#[test]
fn ranking_leaves_out_messages_without_attachment() {
    let ranking = rank(&[message("text only", 0, Some(vec![reaction(UP, 50)])), meme("meme", 1)]);
    assert_eq!(ids(&ranking), vec!["meme"]);
    assert!(ranking.iter().all(|m| !m.attachments.is_empty()));
}

#[test]
fn ranking_leaves_out_messages_without_the_upvote() {
    let ranking = rank(&[
        message("no reactions", 1, None),
        message("empty reactions", 1, Some(vec![])),
        message("other emoji", 1, Some(vec![reaction("🎉", 8)])),
        message("zero upvotes", 1, Some(vec![reaction(UP, 0)])),
        message("negative upvotes", 1, Some(vec![reaction(UP, -2)])),
        meme("meme", 2),
    ]);
    assert_eq!(ids(&ranking), vec!["meme"]);
}

#[test]
fn ranking_of_nothing_is_empty() {
    assert!(rank(&[]).is_empty());
    assert!(rank(&[message("plain", 0, None)]).is_empty());
}

#[test]
fn ranking_leaves_its_input_alone() {
    let messages = vec![meme("low", 1), meme("high", 2)];
    let ranking = rank(&messages);
    assert_eq!(ids(&messages), vec!["low", "high"]);
    assert_eq!(ids(&ranking), vec!["high", "low"]);
    assert_eq!(ranking[0].attachments[0].url, messages[1].attachments[0].url);
    assert_eq!(ranking[0].author.id, "42");
}

#[test]
fn ranking_uses_the_emoji_it_is_told() {
    let messages = vec![
        message("party", 1, Some(vec![reaction("🎉", 5), reaction(UP, 1)])),
        message("thumbs", 1, Some(vec![reaction(UP, 3)])),
    ];
    assert_eq!(ids(&sort_messages_by_upvote(messages.iter().collect(), "🎉")), vec!["party"]);
    assert_eq!(ids(&sort_messages_by_upvote(messages.iter().collect(), UP)), vec!["thumbs", "party"]);
    assert!(sort_messages_by_upvote(messages.iter().collect(), "").is_empty());
}

#[test]
fn upvote_count_is_that_of_the_first_upvote_given() {
    assert_eq!(upvote_count(&message("m", 1, None), UP), 0);
    assert_eq!(upvote_count(&message("m", 1, Some(vec![])), UP), 0);
    assert_eq!(upvote_count(&message("m", 0, Some(vec![reaction(UP, 6)])), UP), 6);
    assert_eq!(upvote_count(&message("m", 1, Some(vec![reaction(UP, 0), reaction(UP, 4), reaction(UP, 9)])), UP), 4);
    assert_eq!(upvote_count(&message("m", 1, Some(vec![reaction("👍🏽", 5)])), UP), 0);
    assert_eq!(upvote_count(&message("m", 1, Some(vec![reaction(UP, i32::MAX)])), UP), i32::MAX);
}

#[test]
fn qualifies_asks_for_attachment_and_upvote() {
    assert!(qualifies(&meme("m", 1), UP));
    assert!(!qualifies(&message("m", 0, Some(vec![reaction(UP, 1)])), UP));
    assert!(!qualifies(&message("m", 1, Some(vec![reaction(UP, 0)])), UP));
    assert!(!qualifies(&message("m", 1, None), UP));
    assert!(!qualifies(&meme("m", 1), "🎉"));
}

#[test]
fn winner_embed_names_author_upvotes_and_picture() {
    let winner = message("w", 2, Some(vec![reaction(UP, 12)]));
    assert!(qualifies(&winner, UP));
    let embed = create_winner_embed("1.", &winner, UP);
    assert_eq!(embed.title, "1.");
    assert_eq!(embed.description, "MeMe von <@42>\nMit 12 upvotes");
    assert_eq!(embed.image.unwrap().url, "https://cdn.example/w-0.png");
    assert_eq!(embed.thumbnail.unwrap().String, "https://cdn.example/w-0.png");
    assert!(embed.color.is_none());
    assert!(embed.author.is_none());
    assert!(embed.fields.is_none());
    assert!(embed.footer.is_none());
}

#[test]
fn winners_post_shows_at_most_three() {
    assert_eq!(PLACES, 3);
    let ranking = rank(&[meme("a", 1), meme("b", 2), meme("c", 3), meme("d", 4)]);
    let post = winners_post(&ranking, UP).unwrap();
    assert_eq!(post.content, "This month top three memes were:");
    assert_eq!(post.tts, Some(false));
    assert!(post.sticker_ids.is_none());
    assert!(post.payload_json.is_none());
    assert!(post.flags.is_none());
    let embeds = post.embeds.unwrap();
    let titles: Vec<&str> = embeds.iter().map(|e| e.title.as_str()).collect();
    assert_eq!(titles, vec!["1.", "2.", "3."]);
    let texts: Vec<&str> = embeds.iter().map(|e| e.description.as_str()).collect();
    assert_eq!(
        texts,
        vec![
            "MeMe von <@42>\nMit 4 upvotes",
            "MeMe von <@42>\nMit 3 upvotes",
            "MeMe von <@42>\nMit 2 upvotes",
        ]
    );
    assert_eq!(embeds[0].image.as_ref().unwrap().url, "https://cdn.example/d-0.png");
}

#[test]
fn winners_post_shows_fewer_where_there_are_fewer() {
    let two = rank(&[meme("a", 1), meme("b", 2)]);
    assert_eq!(winners_post(&two, UP).unwrap().embeds.unwrap().len(), 2);
    let one = rank(&[meme("a", 1)]);
    let embeds = winners_post(&one, UP).unwrap().embeds.unwrap();
    assert_eq!(embeds.len(), 1);
    assert_eq!(embeds[0].title, "1.");
}

#[test]
fn winners_post_of_an_empty_ranking_is_none() {
    assert!(winners_post(&vec![], UP).is_none());
}
