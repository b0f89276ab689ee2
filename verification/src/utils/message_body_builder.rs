use crate::models::discord::{
    Embed, EmbedImage, EmbedImageView, EmbedThumbnail, EmbedThumbnailView, EmbedView, MessageBody,
    MessageBodyView,
};
use vstd::prelude::*;
use vstd::string::*;

verus! {

/// Collects the text and the embeds of a post.
pub struct MessageBodyBuilder {
    content: String,
    embeds: Option<Vec<Embed>>,
}

/// The view of a `MessageBodyBuilder`: the text, and the embeds if any were
/// given.
pub struct MessageBodyBuilderView {
    pub content: Seq<char>,
    pub embeds: Option<Seq<EmbedView>>,
}

impl View for MessageBodyBuilder {
    type V = MessageBodyBuilderView;

    closed spec fn view(&self) -> MessageBodyBuilderView {
        MessageBodyBuilderView { content: self.content@, embeds: self.embeds.deep_view() }
    }
}

/// The embeds with one more at the end; a list of that one where there were
/// none.
pub open spec fn with_embed(embeds: Option<Seq<EmbedView>>, embed: EmbedView) -> Option<
    Seq<EmbedView>,
> {
    match embeds {
        Some(list) => Some(list.push(embed)),
        None => Some(seq![embed]),
    }
}

/// The embed that shows a picture under a title: the picture's address is
/// both its image and its thumbnail, and it has no colour, author, fields or
/// footer.
pub open spec fn picture_embed(title: Seq<char>, description: Seq<char>, url: Seq<char>)
    -> EmbedView {
    EmbedView {
        title,
        description,
        color: None,
        author: None,
        fields: None,
        thumbnail: Some(EmbedThumbnailView { String: url }),
        image: Some(EmbedImageView { url }),
        footer: None,
    }
}

/// The post that a builder with this view builds.
pub open spec fn built(builder: MessageBodyBuilderView) -> MessageBodyView {
    MessageBodyView {
        content: builder.content,
        tts: Some(false),
        embeds: builder.embeds,
        sticker_ids: None,
        payload_json: None,
        flags: None,
    }
}

impl MessageBodyBuilder {
    /// A builder for a post with the given text and, so far, no embeds.
    pub fn new(content: &str) -> (builder: Self)
        ensures
            builder@ == (MessageBodyBuilderView { content: content@, embeds: None }),
    {
        MessageBodyBuilder { content: content.to_owned(), embeds: None }
    }

    /// Replaces whatever embeds were given by the given list.
    pub fn embeds(self, embeds: Vec<Embed>) -> (builder: Self)
        ensures
            builder@ == (MessageBodyBuilderView {
                content: self@.content,
                embeds: Some(embeds.deep_view()),
            }),
    {
        MessageBodyBuilder { content: self.content, embeds: Some(embeds) }
    }

    /// Adds one embed behind those already given.
    pub fn add_embed(self, embed: Embed) -> (builder: Self)
        ensures
            builder@ == (MessageBodyBuilderView {
                content: self@.content,
                embeds: with_embed(self@.embeds, embed@),
            }),
    {
        let mut list = match self.embeds {
            Some(list) => list,
            None => {
                let list: Vec<Embed> = Vec::new();
                assert(list.deep_view() =~= Seq::<EmbedView>::empty());
                list
            },
        };
        let ghost before = list.deep_view();
        list.push(embed);
        assert(list.deep_view() =~= before.push(embed@));
        assert(Seq::<EmbedView>::empty().push(embed@) =~= seq![embed@]);
        MessageBodyBuilder { content: self.content, embeds: Some(list) }
    }

    /// The post: the text and the embeds as given, to be read out by no
    /// one, and nothing else set.
    pub fn build(self) -> (body: MessageBody)
        ensures
            body@ == built(self@),
    {
        MessageBody {
            content: self.content,
            tts: Some(false),
            embeds: self.embeds,
            sticker_ids: None,
            payload_json: None,
            flags: None,
        }
    }
}

impl Embed {
    /// An embed that shows the picture at `url` under a title and a
    /// description.
    pub fn new(title: &str, description: &str, url: &str) -> (embed: Embed)
        ensures
            embed@ == picture_embed(title@, description@, url@),
    {
        Embed {
            title: title.to_owned(),
            description: description.to_owned(),
            fields: None,
            author: None,
            footer: None,
            color: None,
            image: Some(EmbedImage { url: url.to_owned() }),
            thumbnail: Some(EmbedThumbnail { String: url.to_owned() }),
        }
    }
}

} // verus!
