use chrono::{Datelike, TimeZone, Utc};
use monthly_memes::discord_api::request::{
    after_reply, is_rate_limited, messages_url, post_url, rate_limit_error, ReplyAction,
    DEFAULT_LIMIT, MAX_RETRIES, RETRY_DELAY_SECS,
};
use monthly_memes::models::discord::{Embed, EmbedAuthor, EmbedField, EmbedFooter};
use monthly_memes::text::{chars_of, has_phrase, push_decimal, push_digits};
use monthly_memes::time::{last_month_date, MonthWindow, Timestamp, MONTHS_BACK};
use monthly_memes::utils::config::Config;
use monthly_memes::utils::message_body_builder::MessageBodyBuilder;
use monthly_memes::Error;

fn decimal(n: i32) -> String {
    let mut text = String::new();
    push_decimal(&mut text, n);
    text
}

fn instant(year: i32, month: u32, day: u32, hour: u32, minute: u32, second: u32) -> Timestamp {
    let t = Utc.with_ymd_and_hms(year, month, day, hour, minute, second).unwrap();
    Timestamp { secs: t.timestamp(), nanos: 0 }
}

fn found(text: &str, phrase: &str) -> bool {
    has_phrase(&chars_of(text), &chars_of(phrase))
}

#[test]
fn decimal_writes_integers_as_std_does() {
    for n in [0, 1, 9, 10, 11, 99, 100, 101, 12345, i32::MAX, -1, -9, -10, -2024, i32::MIN] {
        assert_eq!(decimal(n), n.to_string());
    }
    assert_eq!(decimal(0), "0");
    assert_eq!(decimal(-2147483648), "-2147483648");
}

#[test]
fn digits_are_written_behind_what_is_there() {
    let mut text = "n=".to_string();
    push_digits(&mut text, 1070);
    assert_eq!(text, "n=1070");
    push_digits(&mut text, u64::MAX);
    assert_eq!(text, "n=107018446744073709551615");
}

#[test]
fn chars_of_gives_every_character() {
    assert_eq!(chars_of(""), Vec::<char>::new());
    assert_eq!(chars_of("aß👍"), vec!['a', 'ß', '👍']);
}

#[test]
fn has_phrase_finds_a_phrase_where_it_stands() {
    assert!(found("rate limited", "rate limited"));
    assert!(found("You are being rate limited.", "rate limited"));
    assert!(found("abc", ""));
    assert!(found("", ""));
    assert!(found("ääb", "äb"));
    assert!(!found("", "a"));
    assert!(!found("rate limite", "rate limited"));
    assert!(!found("rate  limited", "rate limited"));
    assert!(!found("Rate Limited", "rate limited"));
    assert!(found("aab", "ab"));
}

#[test]
fn rate_limit_is_read_off_the_reply() {
    assert!(is_rate_limited("{\"message\": \"You are being rate limited.\", \"retry_after\": 0.5}"));
    assert!(!is_rate_limited("[]"));
    assert!(!is_rate_limited(""));
}

#[test]
fn a_refused_fetch_is_made_again_once() {
    let refused = "You are being rate limited.";
    assert_eq!(MAX_RETRIES, 1);
    assert_eq!(RETRY_DELAY_SECS, 1);
    assert_eq!(after_reply("[]", 0), ReplyAction::Read);
    assert_eq!(after_reply("[]", 5), ReplyAction::Read);
    assert_eq!(after_reply(refused, 0), ReplyAction::Retry);
    assert_eq!(after_reply(refused, 1), ReplyAction::GiveUp);
    assert_eq!(after_reply(refused, u32::MAX), ReplyAction::GiveUp);
    assert!(matches!(rate_limit_error(), Error::RateLimited));
    assert!(rate_limit_error().rate_limited());
    assert!(!Error::Parse("x".to_string()).rate_limited());
}

#[test]
fn messages_url_names_channel_cursor_and_limit() {
    assert_eq!(DEFAULT_LIMIT, 1);
    assert_eq!(
        messages_url("https://discord.com/api/v10", "77", &None, Some(10)),
        "https://discord.com/api/v10/channels/77/messages?limit=10"
    );
    assert_eq!(
        messages_url("https://discord.com/api/v10", "77", &Some("1213768968272085042".to_string()), Some(10)),
        "https://discord.com/api/v10/channels/77/messages?after=1213768968272085042&limit=10"
    );
    assert_eq!(messages_url("b", "c", &None, None), "b/channels/c/messages?limit=1");
    assert_eq!(messages_url("", "", &Some(String::new()), Some(-5)), "/channels//messages?after=&limit=-5");
}

#[test]
fn post_url_names_the_channel() {
    assert_eq!(post_url("https://discord.com/api/v10", "88"), "https://discord.com/api/v10/channels/88/messages");
}

#[test]
fn sort_key_grows_with_time() {
    let a = Timestamp { secs: 5, nanos: 999_999_999 };
    let b = Timestamp { secs: 6, nanos: 0 };
    let c = Timestamp { secs: 6, nanos: 1 };
    assert!(a.sort_key() < b.sort_key());
    assert!(b.sort_key() < c.sort_key());
    assert_eq!(Timestamp { secs: 1, nanos: 2 }.sort_key(), 4_294_967_298);
    assert_eq!(Timestamp { secs: -1, nanos: 0 }.sort_key(), -4_294_967_296);
    assert_eq!(Timestamp { secs: i64::MIN, nanos: 0 }.sort_key(), (i64::MIN as i128) << 32);
    assert_eq!(Timestamp { secs: i64::MAX, nanos: u32::MAX }.sort_key(), ((i64::MAX as i128) << 32) + u32::MAX as i128);
}

#[test]
fn window_is_read_off_the_calendar() {
    assert_eq!(MonthWindow::containing(&Timestamp { secs: 0, nanos: 0 }), Some(MonthWindow { year: 1970, month: 1 }));
    assert_eq!(MonthWindow::containing(&Timestamp { secs: -1, nanos: 0 }), Some(MonthWindow { year: 1969, month: 12 }));
    assert_eq!(
        MonthWindow::containing(&instant(2024, 2, 29, 23, 59, 59)),
        Some(MonthWindow { year: 2024, month: 2 })
    );
    assert_eq!(MonthWindow::containing(&Timestamp { secs: 1_709_251_200, nanos: 0 }), Some(MonthWindow { year: 2024, month: 3 }));
    assert_eq!(MonthWindow::containing(&Timestamp { secs: i64::MAX, nanos: 0 }), None);
    assert_eq!(MonthWindow::containing(&Timestamp { secs: 0, nanos: u32::MAX }), None);
}

#[test]
fn window_holds_its_month_only() {
    let march = MonthWindow { year: 2024, month: 3 };
    assert!(march.contains(&instant(2024, 3, 1, 0, 0, 0)));
    assert!(march.contains(&instant(2024, 3, 31, 23, 59, 59)));
    assert!(!march.contains(&instant(2024, 2, 29, 23, 59, 59)));
    assert!(!march.contains(&instant(2024, 4, 1, 0, 0, 0)));
    assert!(!march.contains(&instant(2023, 3, 15, 0, 0, 0)));
    assert!(!march.contains(&Timestamp { secs: i64::MIN, nanos: 0 }));
    assert!(march.matches(Some(2024), Some(3)));
    assert!(!march.matches(Some(2024), None));
    assert!(!march.matches(None, Some(3)));
    assert!(!march.matches(Some(2025), Some(3)));
}

#[test]
fn window_is_passed_by_earlier_years_and_greater_months() {
    let march = MonthWindow { year: 2024, month: 3 };
    assert!(march.passed_by(&instant(2023, 12, 31, 0, 0, 0)));
    assert!(march.passed_by(&instant(2023, 1, 1, 0, 0, 0)));
    assert!(march.passed_by(&instant(2024, 4, 1, 0, 0, 0)));
    assert!(!march.passed_by(&instant(2024, 3, 1, 0, 0, 0)));
    assert!(!march.passed_by(&instant(2024, 2, 1, 0, 0, 0)));
    assert!(!march.passed_by(&instant(2025, 1, 1, 0, 0, 0)));
    assert!(!march.passed_by(&Timestamp { secs: i64::MAX, nanos: 0 }));
    assert!(march.passed(Some(2024), Some(12)));
    assert!(!march.passed(Some(2024), Some(3)));
    assert!(!march.passed(None, None));
    assert!(!march.passed(Some(2000), None));
}

#[test]
fn months_before_steps_back_on_the_calendar() {
    let end_of_march = instant(2024, 3, 31, 12, 30, 15);
    assert_eq!(end_of_march.months_before(0), Some(end_of_march));
    assert_eq!(end_of_march.months_before(1), Some(instant(2024, 2, 29, 12, 30, 15)));
    assert_eq!(end_of_march.months_before(3), Some(instant(2023, 12, 31, 12, 30, 15)));
    assert_eq!(end_of_march.months_before(13), Some(instant(2023, 2, 28, 12, 30, 15)));
    assert_eq!(end_of_march.months_before(u32::MAX), None);
    assert_eq!(Timestamp { secs: i64::MAX, nanos: 0 }.months_before(0), None);
}

#[test]
fn last_month_date_is_today_stepped_back() {
    assert_eq!(MONTHS_BACK, 0);
    let before = Utc::now();
    let date = last_month_date().expect("???");
    let after = Utc::now();
    assert!(before.timestamp() <= date.secs && date.secs <= after.timestamp());
    let window = MonthWindow::containing(&date).unwrap();
    assert!(window == MonthWindow { year: before.year(), month: before.month() }
        || window == MonthWindow { year: after.year(), month: after.month() });
}

#[test]
fn builder_collects_text_and_embeds() {
    let plain = MessageBodyBuilder::new("hello").build();
    assert_eq!(plain.content, "hello");
    assert_eq!(plain.tts, Some(false));
    assert!(plain.embeds.is_none());
    assert!(plain.sticker_ids.is_none());
    assert!(plain.payload_json.is_none());
    assert!(plain.flags.is_none());

    let one = MessageBodyBuilder::new("x").add_embed(Embed::new("a", "b", "c")).build();
    assert_eq!(one.embeds.as_ref().unwrap().len(), 1);
    assert_eq!(one.embeds.as_ref().unwrap()[0].title, "a");

    let two = MessageBodyBuilder::new("x")
        .add_embed(Embed::new("first", "", ""))
        .add_embed(Embed::new("second", "", ""))
        .build();
    let titles: Vec<String> = two.embeds.unwrap().into_iter().map(|e| e.title).collect();
    assert_eq!(titles, vec!["first", "second"]);

    let replaced = MessageBodyBuilder::new("x")
        .add_embed(Embed::new("gone", "", ""))
        .embeds(vec![Embed::new("kept", "", "")])
        .add_embed(Embed::new("added", "", ""))
        .build();
    let titles: Vec<String> = replaced.embeds.unwrap().into_iter().map(|e| e.title).collect();
    assert_eq!(titles, vec!["kept", "added"]);

    let none = MessageBodyBuilder::new("x").embeds(vec![]).build();
    assert_eq!(none.embeds.unwrap().len(), 0);
}

#[test]
fn embed_new_shows_the_picture_twice() {
    let embed = Embed::new("title", "description", "https://cdn.example/p.png");
    assert_eq!(embed.title, "title");
    assert_eq!(embed.description, "description");
    assert_eq!(embed.image.unwrap().url, "https://cdn.example/p.png");
    assert_eq!(embed.thumbnail.unwrap().String, "https://cdn.example/p.png");
    assert!(embed.color.is_none() && embed.author.is_none() && embed.fields.is_none() && embed.footer.is_none());
}

#[test]
fn defaults_are_blank() {
    let embed = Embed::default();
    assert_eq!(embed.title, "");
    assert_eq!(embed.description, "");
    assert!(embed.color.is_none() && embed.author.is_none() && embed.fields.is_none());
    assert!(embed.thumbnail.is_none() && embed.image.is_none() && embed.footer.is_none());
    let field = EmbedField::default();
    assert_eq!((field.title.as_str(), field.value.as_str(), field.inline), ("", "", false));
    let author = EmbedAuthor::default();
    assert_eq!(author.name, "");
    assert!(author.String.is_none() && author.icon_String.is_none());
    let footer = EmbedFooter::default();
    assert_eq!(footer.text, "");
    assert!(footer.icon_String.is_none());
}

#[test]
fn config_holds_what_it_is_given() {
    let config = Config {
        token: "t".to_string(),
        client_id: "c".to_string(),
        base_url: "b".to_string(),
        in_channel_id: "i".to_string(),
        out_channel_id: "o".to_string(),
        upvote_emoji: "👍".to_string(),
    };
    assert_eq!(messages_url(&config.base_url, &config.in_channel_id, &None, Some(10)), "b/channels/i/messages?limit=10");
    assert_eq!(post_url(&config.base_url, &config.out_channel_id), "b/channels/o/messages");
}
