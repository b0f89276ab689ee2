//! The records that travel between the library and the chat service, each
//! with its view: the same record with every string and list taken as a
//! sequence.  Contracts speak of the views.

use crate::time::Timestamp;
use vstd::prelude::*;

verus! {

/// A channel of a guild, as the service describes it.
#[derive(Debug)]
pub struct Channel {
    pub id: String,
    pub _type: i32,
    pub guild_id: Option<String>,
    pub position: Option<i32>,
    pub name: Option<String>,
    pub topic: Option<String>,
    pub nsfw: bool,
    pub last_message_id: Option<String>,
    pub bitrate: Option<i32>,
    pub user_limit: Option<i32>,
    pub rate_limit_per_user: Option<i32>,
    pub icon: Option<String>,
    pub owner_id: Option<String>,
    pub managed: Option<bool>,
    pub parent_id: Option<String>,
    pub last_pin_timestamp: Option<String>,
    pub rtc_region: Option<String>,
    pub video_quality_mode: Option<i32>,
    pub message_count: Option<i32>,
    pub member_count: Option<i32>,
    pub default_auto_archive_duration: Option<i32>,
    pub permissions: Option<String>,
    pub flags: Option<i32>,
    pub total_message_sent: Option<i32>,
    pub applied_tags: Option<Vec<String>>,
    pub default_thread_rate_limit_per_user: Option<i32>,
    pub default_sort_order: Option<i32>,
    pub default_forum_layout: Option<i32>,
}

/// The view of a `Channel`.
pub struct ChannelView {
    pub id: Seq<char>,
    pub _type: i32,
    pub guild_id: Option<Seq<char>>,
    pub position: Option<i32>,
    pub name: Option<Seq<char>>,
    pub topic: Option<Seq<char>>,
    pub nsfw: bool,
    pub last_message_id: Option<Seq<char>>,
    pub bitrate: Option<i32>,
    pub user_limit: Option<i32>,
    pub rate_limit_per_user: Option<i32>,
    pub icon: Option<Seq<char>>,
    pub owner_id: Option<Seq<char>>,
    pub managed: Option<bool>,
    pub parent_id: Option<Seq<char>>,
    pub last_pin_timestamp: Option<Seq<char>>,
    pub rtc_region: Option<Seq<char>>,
    pub video_quality_mode: Option<i32>,
    pub message_count: Option<i32>,
    pub member_count: Option<i32>,
    pub default_auto_archive_duration: Option<i32>,
    pub permissions: Option<Seq<char>>,
    pub flags: Option<i32>,
    pub total_message_sent: Option<i32>,
    pub applied_tags: Option<Seq<Seq<char>>>,
    pub default_thread_rate_limit_per_user: Option<i32>,
    pub default_sort_order: Option<i32>,
    pub default_forum_layout: Option<i32>,
}

impl View for Channel {
    type V = ChannelView;

    open spec fn view(&self) -> ChannelView {
        ChannelView {
            id: self.id@,
            _type: self._type,
            guild_id: self.guild_id.deep_view(),
            position: self.position,
            name: self.name.deep_view(),
            topic: self.topic.deep_view(),
            nsfw: self.nsfw,
            last_message_id: self.last_message_id.deep_view(),
            bitrate: self.bitrate,
            user_limit: self.user_limit,
            rate_limit_per_user: self.rate_limit_per_user,
            icon: self.icon.deep_view(),
            owner_id: self.owner_id.deep_view(),
            managed: self.managed,
            parent_id: self.parent_id.deep_view(),
            last_pin_timestamp: self.last_pin_timestamp.deep_view(),
            rtc_region: self.rtc_region.deep_view(),
            video_quality_mode: self.video_quality_mode,
            message_count: self.message_count,
            member_count: self.member_count,
            default_auto_archive_duration: self.default_auto_archive_duration,
            permissions: self.permissions.deep_view(),
            flags: self.flags,
            total_message_sent: self.total_message_sent,
            applied_tags: self.applied_tags.deep_view(),
            default_thread_rate_limit_per_user: self.default_thread_rate_limit_per_user,
            default_sort_order: self.default_sort_order,
            default_forum_layout: self.default_forum_layout,
        }
    }
}

impl DeepView for Channel {
    type V = ChannelView;

    open spec fn deep_view(&self) -> ChannelView {
        self@
    }
}

/// A message of a channel.
#[derive(Debug)]
pub struct Message {
    /// The identifier by which the service finds the message again.
    pub id: String,
    pub _type: i32,
    pub content: String,
    pub channel_id: String,
    pub author: User,
    /// The files that came with the message; a meme has at least one.
    pub attachments: Vec<Attachment>,
    pub mentions: Vec<User>,
    pub mention_roles: Vec<String>,
    pub pinned: bool,
    pub mention_everyone: bool,
    pub tts: bool,
    /// When the message was written.
    pub timestamp: Timestamp,
    pub edited_timestamp: Option<String>,
    pub flags: i32,
    pub components: Vec<String>,
    pub interaction: Option<Interaction>,
    pub webhook_id: Option<String>,
    /// The reactions the message has drawn, if it has drawn any.
    pub reactions: Option<Vec<Reaction>>,
}

/// The view of a `Message`.
pub struct MessageView {
    pub id: Seq<char>,
    pub _type: i32,
    pub content: Seq<char>,
    pub channel_id: Seq<char>,
    pub author: UserView,
    pub attachments: Seq<AttachmentView>,
    pub mentions: Seq<UserView>,
    pub mention_roles: Seq<Seq<char>>,
    pub pinned: bool,
    pub mention_everyone: bool,
    pub tts: bool,
    pub timestamp: Timestamp,
    pub edited_timestamp: Option<Seq<char>>,
    pub flags: i32,
    pub components: Seq<Seq<char>>,
    pub interaction: Option<InteractionView>,
    pub webhook_id: Option<Seq<char>>,
    pub reactions: Option<Seq<ReactionView>>,
}

impl View for Message {
    type V = MessageView;

    open spec fn view(&self) -> MessageView {
        MessageView {
            id: self.id@,
            _type: self._type,
            content: self.content@,
            channel_id: self.channel_id@,
            author: self.author@,
            attachments: self.attachments.deep_view(),
            mentions: self.mentions.deep_view(),
            mention_roles: self.mention_roles.deep_view(),
            pinned: self.pinned,
            mention_everyone: self.mention_everyone,
            tts: self.tts,
            timestamp: self.timestamp,
            edited_timestamp: self.edited_timestamp.deep_view(),
            flags: self.flags,
            components: self.components.deep_view(),
            interaction: self.interaction.deep_view(),
            webhook_id: self.webhook_id.deep_view(),
            reactions: self.reactions.deep_view(),
        }
    }
}

impl DeepView for Message {
    type V = MessageView;

    open spec fn deep_view(&self) -> MessageView {
        self@
    }
}

#[derive(Debug)]
pub struct Interaction {
    pub id: String,
    pub _type: i32,
    pub name: String,
    pub user: User,
}

/// The view of an `Interaction`.
pub struct InteractionView {
    pub id: Seq<char>,
    pub _type: i32,
    pub name: Seq<char>,
    pub user: UserView,
}

impl View for Interaction {
    type V = InteractionView;

    open spec fn view(&self) -> InteractionView {
        InteractionView {
            id: self.id@,
            _type: self._type,
            name: self.name@,
            user: self.user@,
        }
    }
}

impl DeepView for Interaction {
    type V = InteractionView;

    open spec fn deep_view(&self) -> InteractionView {
        self@
    }
}

#[derive(Debug)]
pub struct User {
    pub id: String,
    pub username: String,
    pub avatar: Option<String>,
    pub discriminator: String,
    pub public_flags: i32,
    pub flags: i32,
    pub banner: Option<String>,
    pub accent_color: Option<String>,
    pub global_name: Option<String>,
    pub avatar_decoration_data: Option<String>,
    pub banner_color: Option<String>,
    pub bot: Option<bool>,
}

/// The view of an `User`.
pub struct UserView {
    pub id: Seq<char>,
    pub username: Seq<char>,
    pub avatar: Option<Seq<char>>,
    pub discriminator: Seq<char>,
    pub public_flags: i32,
    pub flags: i32,
    pub banner: Option<Seq<char>>,
    pub accent_color: Option<Seq<char>>,
    pub global_name: Option<Seq<char>>,
    pub avatar_decoration_data: Option<Seq<char>>,
    pub banner_color: Option<Seq<char>>,
    pub bot: Option<bool>,
}

impl View for User {
    type V = UserView;

    open spec fn view(&self) -> UserView {
        UserView {
            id: self.id@,
            username: self.username@,
            avatar: self.avatar.deep_view(),
            discriminator: self.discriminator@,
            public_flags: self.public_flags,
            flags: self.flags,
            banner: self.banner.deep_view(),
            accent_color: self.accent_color.deep_view(),
            global_name: self.global_name.deep_view(),
            avatar_decoration_data: self.avatar_decoration_data.deep_view(),
            banner_color: self.banner_color.deep_view(),
            bot: self.bot,
        }
    }
}

impl DeepView for User {
    type V = UserView;

    open spec fn deep_view(&self) -> UserView {
        self@
    }
}

#[derive(Debug)]
pub struct Attachment {
    pub id: String,
    pub filename: String,
    pub size: i32,
    pub url: String,
    pub proxy_url: String,
    pub width: Option<i32>,
    pub height: Option<i32>,
    pub content_type: String,
    pub placeholder: Option<String>,
    pub placeholder_version: Option<i32>,
}

/// The view of an `Attachment`.
pub struct AttachmentView {
    pub id: Seq<char>,
    pub filename: Seq<char>,
    pub size: i32,
    pub url: Seq<char>,
    pub proxy_url: Seq<char>,
    pub width: Option<i32>,
    pub height: Option<i32>,
    pub content_type: Seq<char>,
    pub placeholder: Option<Seq<char>>,
    pub placeholder_version: Option<i32>,
}

impl View for Attachment {
    type V = AttachmentView;

    open spec fn view(&self) -> AttachmentView {
        AttachmentView {
            id: self.id@,
            filename: self.filename@,
            size: self.size,
            url: self.url@,
            proxy_url: self.proxy_url@,
            width: self.width,
            height: self.height,
            content_type: self.content_type@,
            placeholder: self.placeholder.deep_view(),
            placeholder_version: self.placeholder_version,
        }
    }
}

impl DeepView for Attachment {
    type V = AttachmentView;

    open spec fn deep_view(&self) -> AttachmentView {
        self@
    }
}

/// One kind of reaction under a message, and how often it was given.
#[derive(Debug)]
pub struct Reaction {
    pub emoji: Emoji,
    pub count: i32,
    pub count_details: CountDetails,
    pub burst_colors: Vec<String>,
    pub me_burst: bool,
    pub burst_me: bool,
    pub me: bool,
    pub burst_count: i32,
}

/// The view of a `Reaction`.
pub struct ReactionView {
    pub emoji: EmojiView,
    pub count: i32,
    pub count_details: CountDetailsView,
    pub burst_colors: Seq<Seq<char>>,
    pub me_burst: bool,
    pub burst_me: bool,
    pub me: bool,
    pub burst_count: i32,
}

impl View for Reaction {
    type V = ReactionView;

    open spec fn view(&self) -> ReactionView {
        ReactionView {
            emoji: self.emoji@,
            count: self.count,
            count_details: self.count_details@,
            burst_colors: self.burst_colors.deep_view(),
            me_burst: self.me_burst,
            burst_me: self.burst_me,
            me: self.me,
            burst_count: self.burst_count,
        }
    }
}

impl DeepView for Reaction {
    type V = ReactionView;

    open spec fn deep_view(&self) -> ReactionView {
        self@
    }
}

#[derive(Debug)]
pub struct Emoji {
    pub id: Option<String>,
    pub name: String,
}

/// The view of an `Emoji`.
pub struct EmojiView {
    pub id: Option<Seq<char>>,
    pub name: Seq<char>,
}

impl View for Emoji {
    type V = EmojiView;

    open spec fn view(&self) -> EmojiView {
        EmojiView {
            id: self.id.deep_view(),
            name: self.name@,
        }
    }
}

impl DeepView for Emoji {
    type V = EmojiView;

    open spec fn deep_view(&self) -> EmojiView {
        self@
    }
}

#[derive(Debug)]
pub struct CountDetails {
    pub burst: i32,
    pub normal: i32,
}

/// The view of a `CountDetails`.
pub struct CountDetailsView {
    pub burst: i32,
    pub normal: i32,
}

impl View for CountDetails {
    type V = CountDetailsView;

    open spec fn view(&self) -> CountDetailsView {
        CountDetailsView {
            burst: self.burst,
            normal: self.normal,
        }
    }
}

impl DeepView for CountDetails {
    type V = CountDetailsView;

    open spec fn deep_view(&self) -> CountDetailsView {
        self@
    }
}

/// What is posted to a channel.
#[derive(Debug)]
pub struct MessageBody {
    pub content: String,
    pub tts: Option<bool>,
    pub embeds: Option<Vec<Embed>>,
    pub sticker_ids: Option<Vec<String>>,
    pub payload_json: Option<String>,
    pub flags: Option<i32>,
}

/// The view of a `MessageBody`.
pub struct MessageBodyView {
    pub content: Seq<char>,
    pub tts: Option<bool>,
    pub embeds: Option<Seq<EmbedView>>,
    pub sticker_ids: Option<Seq<Seq<char>>>,
    pub payload_json: Option<Seq<char>>,
    pub flags: Option<i32>,
}

impl View for MessageBody {
    type V = MessageBodyView;

    open spec fn view(&self) -> MessageBodyView {
        MessageBodyView {
            content: self.content@,
            tts: self.tts,
            embeds: self.embeds.deep_view(),
            sticker_ids: self.sticker_ids.deep_view(),
            payload_json: self.payload_json.deep_view(),
            flags: self.flags,
        }
    }
}

impl DeepView for MessageBody {
    type V = MessageBodyView;

    open spec fn deep_view(&self) -> MessageBodyView {
        self@
    }
}

/// Describes a field that can be used inside a message embed
#[derive(Debug)]
pub struct EmbedField {
    /// Field title
    pub title: String,
    /// Field value
    pub value: String,
    /// If true, the field will be displayed on the same line as the last
    pub inline: bool,
}

/// The view of an `EmbedField`.
pub struct EmbedFieldView {
    pub title: Seq<char>,
    pub value: Seq<char>,
    pub inline: bool,
}

impl View for EmbedField {
    type V = EmbedFieldView;

    open spec fn view(&self) -> EmbedFieldView {
        EmbedFieldView {
            title: self.title@,
            value: self.value@,
            inline: self.inline,
        }
    }
}

impl DeepView for EmbedField {
    type V = EmbedFieldView;

    open spec fn deep_view(&self) -> EmbedFieldView {
        self@
    }
}

/// Describes an embed author
#[derive(Debug)]
pub struct EmbedAuthor {
    /// Author name
    pub name: String,
    /// String of the author
    pub String: Option<String>,
    /// Avatar String for the author
    pub icon_String: Option<String>,
}

/// The view of an `EmbedAuthor`.
pub struct EmbedAuthorView {
    pub name: Seq<char>,
    pub String: Option<Seq<char>>,
    pub icon_String: Option<Seq<char>>,
}

impl View for EmbedAuthor {
    type V = EmbedAuthorView;

    open spec fn view(&self) -> EmbedAuthorView {
        EmbedAuthorView {
            name: self.name@,
            String: self.String.deep_view(),
            icon_String: self.icon_String.deep_view(),
        }
    }
}

impl DeepView for EmbedAuthor {
    type V = EmbedAuthorView;

    open spec fn deep_view(&self) -> EmbedAuthorView {
        self@
    }
}

/// Describes an embed thumbnail
#[derive(Debug)]
pub struct EmbedThumbnail {
    /// Thumbnail String
    pub String: String,
}

/// The view of an `EmbedThumbnail`.
pub struct EmbedThumbnailView {
    pub String: Seq<char>,
}

impl View for EmbedThumbnail {
    type V = EmbedThumbnailView;

    open spec fn view(&self) -> EmbedThumbnailView {
        EmbedThumbnailView {
            String: self.String@,
        }
    }
}

impl DeepView for EmbedThumbnail {
    type V = EmbedThumbnailView;

    open spec fn deep_view(&self) -> EmbedThumbnailView {
        self@
    }
}

/// Describes an embed image
#[derive(Debug)]
pub struct EmbedImage {
    /// Image String
    pub url: String,
}

/// The view of an `EmbedImage`.
pub struct EmbedImageView {
    pub url: Seq<char>,
}

impl View for EmbedImage {
    type V = EmbedImageView;

    open spec fn view(&self) -> EmbedImageView {
        EmbedImageView {
            url: self.url@,
        }
    }
}

impl DeepView for EmbedImage {
    type V = EmbedImageView;

    open spec fn deep_view(&self) -> EmbedImageView {
        self@
    }
}

/// Describes an embed footer
#[derive(Debug)]
pub struct EmbedFooter {
    /// Footer text
    pub text: String,
    /// Footer icon String
    pub icon_String: Option<String>,
}

/// The view of an `EmbedFooter`.
pub struct EmbedFooterView {
    pub text: Seq<char>,
    pub icon_String: Option<Seq<char>>,
}

impl View for EmbedFooter {
    type V = EmbedFooterView;

    open spec fn view(&self) -> EmbedFooterView {
        EmbedFooterView {
            text: self.text@,
            icon_String: self.icon_String.deep_view(),
        }
    }
}

impl DeepView for EmbedFooter {
    type V = EmbedFooterView;

    open spec fn deep_view(&self) -> EmbedFooterView {
        self@
    }
}

/// Describes an embed
#[derive(Debug)]
pub struct Embed {
    /// The title of the embed
    pub title: String,
    /// The description of the embed
    pub description: String,
    /// The color of the embed
    pub color: Option<u32>,
    /// The embed author
    pub author: Option<EmbedAuthor>,
    /// Possible fields
    pub fields: Option<Vec<EmbedField>>,
    /// The thumbnail of the embed
    pub thumbnail: Option<EmbedThumbnail>,
    /// The image of the embed
    pub image: Option<EmbedImage>,
    /// The footer of the embed
    pub footer: Option<EmbedFooter>,
}

/// The view of an `Embed`.
pub struct EmbedView {
    pub title: Seq<char>,
    pub description: Seq<char>,
    pub color: Option<u32>,
    pub author: Option<EmbedAuthorView>,
    pub fields: Option<Seq<EmbedFieldView>>,
    pub thumbnail: Option<EmbedThumbnailView>,
    pub image: Option<EmbedImageView>,
    pub footer: Option<EmbedFooterView>,
}

impl View for Embed {
    type V = EmbedView;

    open spec fn view(&self) -> EmbedView {
        EmbedView {
            title: self.title@,
            description: self.description@,
            color: self.color,
            author: self.author.deep_view(),
            fields: self.fields.deep_view(),
            thumbnail: self.thumbnail.deep_view(),
            image: self.image.deep_view(),
            footer: self.footer.deep_view(),
        }
    }
}

impl DeepView for Embed {
    type V = EmbedView;

    open spec fn deep_view(&self) -> EmbedView {
        self@
    }
}

impl Clone for Channel {
    /// A copy with the same view.
    fn clone(&self) -> (copy: Self)
        ensures
            copy@ == self@,
    {
        Channel {
            id: self.id.clone(),
            _type: self._type,
            guild_id: self.guild_id.clone(),
            position: self.position,
            name: self.name.clone(),
            topic: self.topic.clone(),
            nsfw: self.nsfw,
            last_message_id: self.last_message_id.clone(),
            bitrate: self.bitrate,
            user_limit: self.user_limit,
            rate_limit_per_user: self.rate_limit_per_user,
            icon: self.icon.clone(),
            owner_id: self.owner_id.clone(),
            managed: self.managed,
            parent_id: self.parent_id.clone(),
            last_pin_timestamp: self.last_pin_timestamp.clone(),
            rtc_region: self.rtc_region.clone(),
            video_quality_mode: self.video_quality_mode,
            message_count: self.message_count,
            member_count: self.member_count,
            default_auto_archive_duration: self.default_auto_archive_duration,
            permissions: self.permissions.clone(),
            flags: self.flags,
            total_message_sent: self.total_message_sent,
            applied_tags: match &self.applied_tags {
                Some(list) => Some(clone_strings(list)),
                None => None,
            },
            default_thread_rate_limit_per_user: self.default_thread_rate_limit_per_user,
            default_sort_order: self.default_sort_order,
            default_forum_layout: self.default_forum_layout,
        }
    }
}

impl Clone for Message {
    /// A copy with the same view.
    fn clone(&self) -> (copy: Self)
        ensures
            copy@ == self@,
    {
        Message {
            id: self.id.clone(),
            _type: self._type,
            content: self.content.clone(),
            channel_id: self.channel_id.clone(),
            author: self.author.clone(),
            attachments: clone_list(&self.attachments),
            mentions: clone_list(&self.mentions),
            mention_roles: clone_strings(&self.mention_roles),
            pinned: self.pinned,
            mention_everyone: self.mention_everyone,
            tts: self.tts,
            timestamp: self.timestamp,
            edited_timestamp: self.edited_timestamp.clone(),
            flags: self.flags,
            components: clone_strings(&self.components),
            interaction: match &self.interaction {
                Some(inner) => Some(inner.clone()),
                None => None,
            },
            webhook_id: self.webhook_id.clone(),
            reactions: match &self.reactions {
                Some(list) => Some(clone_list(list)),
                None => None,
            },
        }
    }
}

impl Clone for Interaction {
    /// A copy with the same view.
    fn clone(&self) -> (copy: Self)
        ensures
            copy@ == self@,
    {
        Interaction {
            id: self.id.clone(),
            _type: self._type,
            name: self.name.clone(),
            user: self.user.clone(),
        }
    }
}

impl Clone for User {
    /// A copy with the same view.
    fn clone(&self) -> (copy: Self)
        ensures
            copy@ == self@,
    {
        User {
            id: self.id.clone(),
            username: self.username.clone(),
            avatar: self.avatar.clone(),
            discriminator: self.discriminator.clone(),
            public_flags: self.public_flags,
            flags: self.flags,
            banner: self.banner.clone(),
            accent_color: self.accent_color.clone(),
            global_name: self.global_name.clone(),
            avatar_decoration_data: self.avatar_decoration_data.clone(),
            banner_color: self.banner_color.clone(),
            bot: self.bot,
        }
    }
}

impl Clone for Attachment {
    /// A copy with the same view.
    fn clone(&self) -> (copy: Self)
        ensures
            copy@ == self@,
    {
        Attachment {
            id: self.id.clone(),
            filename: self.filename.clone(),
            size: self.size,
            url: self.url.clone(),
            proxy_url: self.proxy_url.clone(),
            width: self.width,
            height: self.height,
            content_type: self.content_type.clone(),
            placeholder: self.placeholder.clone(),
            placeholder_version: self.placeholder_version,
        }
    }
}

impl Clone for Reaction {
    /// A copy with the same view.
    fn clone(&self) -> (copy: Self)
        ensures
            copy@ == self@,
    {
        Reaction {
            emoji: self.emoji.clone(),
            count: self.count,
            count_details: self.count_details.clone(),
            burst_colors: clone_strings(&self.burst_colors),
            me_burst: self.me_burst,
            burst_me: self.burst_me,
            me: self.me,
            burst_count: self.burst_count,
        }
    }
}

impl Clone for Emoji {
    /// A copy with the same view.
    fn clone(&self) -> (copy: Self)
        ensures
            copy@ == self@,
    {
        Emoji {
            id: self.id.clone(),
            name: self.name.clone(),
        }
    }
}

impl Clone for CountDetails {
    /// A copy with the same view.
    fn clone(&self) -> (copy: Self)
        ensures
            copy@ == self@,
    {
        CountDetails {
            burst: self.burst,
            normal: self.normal,
        }
    }
}

impl Default for EmbedField {
    /// Every text empty, every flag off, every optional part absent.
    fn default() -> (blank: Self)
        ensures
            blank@ == (EmbedFieldView {
                title: Seq::empty(),
                value: Seq::empty(),
                inline: false,
            }),
    {
        EmbedField {
            title: String::new(),
            value: String::new(),
            inline: false,
        }
    }
}

impl Default for EmbedAuthor {
    /// Every text empty, every flag off, every optional part absent.
    fn default() -> (blank: Self)
        ensures
            blank@ == (EmbedAuthorView {
                name: Seq::empty(),
                String: None,
                icon_String: None,
            }),
    {
        EmbedAuthor {
            name: String::new(),
            String: None,
            icon_String: None,
        }
    }
}

impl Default for EmbedFooter {
    /// Every text empty, every flag off, every optional part absent.
    fn default() -> (blank: Self)
        ensures
            blank@ == (EmbedFooterView {
                text: Seq::empty(),
                icon_String: None,
            }),
    {
        EmbedFooter {
            text: String::new(),
            icon_String: None,
        }
    }
}

impl Default for Embed {
    /// Every text empty, every flag off, every optional part absent.
    fn default() -> (blank: Self)
        ensures
            blank@ == (EmbedView {
                title: Seq::empty(),
                description: Seq::empty(),
                color: None,
                author: None,
                fields: None,
                thumbnail: None,
                image: None,
                footer: None,
            }),
    {
        Embed {
            title: String::new(),
            description: String::new(),
            color: None,
            author: None,
            fields: None,
            thumbnail: None,
            image: None,
            footer: None,
        }
    }
}

/// Copies a list of strings.
fn clone_strings(list: &Vec<String>) -> (copy: Vec<String>)
    ensures
        copy.deep_view() == list.deep_view(),
{
    let mut copy: Vec<String> = Vec::new();
    let mut i: usize = 0;
    while i < list.len()
        invariant
            i <= list.len(),
            copy.len() == i,
            forall|j: int| 0 <= j < i ==> copy[j]@ == list[j]@,
        decreases list.len() - i,
    {
        copy.push(list[i].clone());
        i += 1;
    }
    assert(copy.deep_view() =~= list.deep_view());
    copy
}

/// Copies a list of records whose copies keep their view.
fn clone_list<T: Clone + DeepView>(list: &Vec<T>) -> (copy: Vec<T>)
    requires
        forall|a: T, b: T| cloned::<T>(a, b) ==> a.deep_view() == b.deep_view(),
    ensures
        copy.deep_view() == list.deep_view(),
{
    let mut copy: Vec<T> = Vec::new();
    let mut i: usize = 0;
    while i < list.len()
        invariant
            i <= list.len(),
            copy.len() == i,
            forall|a: T, b: T| cloned::<T>(a, b) ==> a.deep_view() == b.deep_view(),
            forall|j: int| 0 <= j < i ==> copy[j].deep_view() == list[j].deep_view(),
        decreases list.len() - i,
    {
        let item = list[i].clone();
        assert(cloned::<T>(list[i as int], item));
        copy.push(item);
        i += 1;
    }
    assert(copy.deep_view() =~= list.deep_view());
    copy
}

} // verus!
