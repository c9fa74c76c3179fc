//! The payload of a Discord webhook: a message with embeds.

use vstd::prelude::*;

use crate::text::{ends_with, push_str_chars};
use crate::webhooks::utils::{NOTIFIER_NAME, NOTIFIER_REPO};

verus! {

/// The current time in RFC 3339, from `chrono::Utc::now` and
/// `chrono::DateTime::to_rfc3339`. The text is the clock's reading: all
/// that is stated of it is that it ends with the offset `+00:00`, which
/// `to_rfc3339` writes for UTC (with colons, and never as `Z`).
#[verifier::external_body]
pub(crate) fn utc_now_rfc3339() -> (res: String)
    ensures
        ends_with(res@, "+00:00"@),
{
    chrono::Utc::now().to_rfc3339()
}

/// A copy of `s`.
pub(crate) fn owned(s: &str) -> (res: String)
    ensures
        res@ == s@,
{
    let mut res = String::new();
    push_str_chars(&mut res, s);
    res
}

/// The characters of an optional text.
pub open spec fn opt_view(o: Option<String>) -> Option<Seq<char>> {
    match o {
        Some(s) => Some(s@),
        None => None,
    }
}

/// A webhook message.
#[derive(Debug, Clone, PartialEq)]
pub struct Webhook {
    pub content: Option<String>,
    pub embeds: Vec<WebhookEmbed>,
}

/// An embed of a webhook message.
#[derive(Debug, Clone, PartialEq)]
pub struct WebhookEmbed {
    pub title: Option<String>,
    pub description: Option<String>,
    pub url: Option<String>,
    pub timestamp: Option<String>,
    pub color: Option<u32>,
    pub footer: Option<EmbedFooter>,
    pub image: Option<EmbedImage>,
    pub thumbnail: Option<EmbedImage>,
    pub author: Option<EmbedAuthor>,
    pub fields: Option<Vec<EmbedField>>,
}

/// An image of an embed.
#[derive(Debug, Clone, PartialEq)]
pub struct EmbedImage {
    pub url: String,
}

/// The author line of an embed.
#[derive(Debug, Clone, PartialEq)]
pub struct EmbedAuthor {
    pub name: String,
    pub url: Option<String>,
    pub icon_url: Option<String>,
}

/// The footer of an embed.
#[derive(Debug, Clone, PartialEq)]
pub struct EmbedFooter {
    pub text: String,
    pub icon_url: Option<String>,
}

/// A named value shown in an embed.
#[derive(Debug, Clone, PartialEq)]
pub struct EmbedField {
    pub name: String,
    pub value: String,
    pub inline: bool,
}

/// The mathematical value of an `EmbedImage`: its URL.
impl View for EmbedImage {
    type V = Seq<char>;

    open spec fn view(&self) -> Seq<char> {
        self.url@
    }
}

/// The mathematical value of an `EmbedAuthor`.
pub struct AuthorModel {
    pub name: Seq<char>,
    pub url: Option<Seq<char>>,
    pub icon_url: Option<Seq<char>>,
}

impl View for EmbedAuthor {
    type V = AuthorModel;

    open spec fn view(&self) -> AuthorModel {
        AuthorModel { name: self.name@, url: opt_view(self.url), icon_url: opt_view(self.icon_url) }
    }
}

/// The mathematical value of an `EmbedFooter`.
pub struct FooterModel {
    pub text: Seq<char>,
    pub icon_url: Option<Seq<char>>,
}

impl View for EmbedFooter {
    type V = FooterModel;

    open spec fn view(&self) -> FooterModel {
        FooterModel { text: self.text@, icon_url: opt_view(self.icon_url) }
    }
}

/// The mathematical value of an `EmbedField`.
pub struct FieldModel {
    pub name: Seq<char>,
    pub value: Seq<char>,
    pub inline: bool,
}

impl View for EmbedField {
    type V = FieldModel;

    open spec fn view(&self) -> FieldModel {
        FieldModel { name: self.name@, value: self.value@, inline: self.inline }
    }
}

/// The fields of an optional list, each by its value.
pub open spec fn opt_fields_view(o: Option<Vec<EmbedField>>) -> Option<Seq<FieldModel>> {
    match o {
        Some(v) => Some(v@.map_values(|f: EmbedField| f@)),
        None => None,
    }
}

/// An optional image by its URL.
pub open spec fn opt_image_view(o: Option<EmbedImage>) -> Option<Seq<char>> {
    match o {
        Some(i) => Some(i@),
        None => None,
    }
}

/// The mathematical value of a `WebhookEmbed`.
pub struct EmbedModel {
    pub title: Option<Seq<char>>,
    pub description: Option<Seq<char>>,
    pub url: Option<Seq<char>>,
    pub timestamp: Option<Seq<char>>,
    pub color: Option<u32>,
    pub footer: Option<FooterModel>,
    pub image: Option<Seq<char>>,
    pub thumbnail: Option<Seq<char>>,
    pub author: Option<AuthorModel>,
    pub fields: Option<Seq<FieldModel>>,
}

impl View for WebhookEmbed {
    type V = EmbedModel;

    open spec fn view(&self) -> EmbedModel {
        EmbedModel {
            title: opt_view(self.title),
            description: opt_view(self.description),
            url: opt_view(self.url),
            timestamp: opt_view(self.timestamp),
            color: self.color,
            footer: match self.footer {
                Some(f) => Some(f@),
                None => None,
            },
            image: opt_image_view(self.image),
            thumbnail: opt_image_view(self.thumbnail),
            author: match self.author {
                Some(a) => Some(a@),
                None => None,
            },
            fields: opt_fields_view(self.fields),
        }
    }
}

/// The mathematical value of a `Webhook`.
pub struct WebhookModel {
    pub content: Option<Seq<char>>,
    pub embeds: Seq<EmbedModel>,
}

impl View for Webhook {
    type V = WebhookModel;

    open spec fn view(&self) -> WebhookModel {
        WebhookModel {
            content: opt_view(self.content),
            embeds: self.embeds@.map_values(|e: WebhookEmbed| e@),
        }
    }
}

/// The embed that `WebhookEmbed::new` makes: authored by the notifier with
/// a link to its repository, footed with its name, with the color, the
/// thumbnail if one is given, and the time stamp; nothing else set.
pub open spec fn spec_new_embed(
    thumbnail: Option<Seq<char>>,
    color: Option<u32>,
    timestamp: Seq<char>,
) -> EmbedModel {
    EmbedModel {
        title: None,
        description: None,
        url: None,
        timestamp: Some(timestamp),
        color: color,
        footer: Some(FooterModel { text: NOTIFIER_NAME@, icon_url: None }),
        image: None,
        thumbnail: thumbnail,
        author: Some(AuthorModel { name: NOTIFIER_NAME@, url: Some(NOTIFIER_REPO@), icon_url: None }),
        fields: None,
    }
}

impl Default for Webhook {
    fn default() -> (res: Self)
        ensures
            res@ == (WebhookModel { content: None, embeds: seq![] }),
    {
        let res = Webhook { content: None, embeds: Vec::new() };
        assert(res@.embeds =~= seq![]);
        res
    }
}

impl Default for WebhookEmbed {
    fn default() -> (res: Self)
        ensures
            res@ == (EmbedModel {
                title: None,
                description: None,
                url: None,
                timestamp: None,
                color: None,
                footer: None,
                image: None,
                thumbnail: None,
                author: None,
                fields: None,
            }),
    {
        WebhookEmbed {
            title: None,
            description: None,
            url: None,
            timestamp: None,
            color: None,
            footer: None,
            image: None,
            thumbnail: None,
            author: None,
            fields: None,
        }
    }
}

impl WebhookEmbed {
    /// The notifier's embed with the given thumbnail, color and time stamp.
    pub fn new_at(thumbnail: Option<&str>, color: Option<u32>, timestamp: String) -> (res: Self)
        ensures
            res@ == spec_new_embed(
                match thumbnail {
                    Some(t) => Some(t@),
                    None => None,
                },
                color,
                timestamp@,
            ),
    {
        let mut embed = WebhookEmbed::default();
        embed.author = Some(EmbedAuthor::new_with_url(NOTIFIER_NAME, NOTIFIER_REPO));
        embed.color = color;
        if let Some(thumbnail) = thumbnail {
            embed.thumbnail = Some(EmbedImage::new(thumbnail));
        }
        embed.timestamp = Some(timestamp);
        embed.footer = Some(EmbedFooter::new(NOTIFIER_NAME));
        embed
    }

    /// The notifier's embed with the given thumbnail and color, stamped
    /// with the current time in UTC.
    pub fn new(thumbnail: Option<&str>, color: u32) -> (res: Self)
        ensures
            res.timestamp is Some,
            ends_with(res.timestamp->0@, "+00:00"@),
            res@ == spec_new_embed(
                match thumbnail {
                    Some(t) => Some(t@),
                    None => None,
                },
                Some(color),
                res.timestamp->0@,
            ),
    {
        WebhookEmbed::new_at(thumbnail, Some(color), utc_now_rfc3339())
    }
}

impl EmbedImage {
    /// An image with the given URL.
    pub fn new(url: &str) -> (res: Self)
        ensures
            res.url@ == url@,
    {
        EmbedImage { url: owned(url) }
    }
}

impl EmbedAuthor {
    /// An author with a name only.
    pub fn new(name: &str) -> (res: Self)
        ensures
            res@ == (AuthorModel { name: name@, url: None, icon_url: None }),
    {
        EmbedAuthor { name: owned(name), url: None, icon_url: None }
    }

    /// An author with a name and a link.
    pub fn new_with_url(name: &str, url: &str) -> (res: Self)
        ensures
            res@ == (AuthorModel { name: name@, url: Some(url@), icon_url: None }),
    {
        EmbedAuthor { name: owned(name), url: Some(owned(url)), icon_url: None }
    }

    /// An author with a name and an icon.
    pub fn new_with_icon(name: &str, icon_url: &str) -> (res: Self)
        ensures
            res@ == (AuthorModel { name: name@, url: None, icon_url: Some(icon_url@) }),
    {
        EmbedAuthor { name: owned(name), url: None, icon_url: Some(owned(icon_url)) }
    }

    /// An author with a name, a link and an icon.
    pub fn new_with_url_and_icon(name: &str, url: &str, icon_url: &str) -> (res: Self)
        ensures
            res@ == (AuthorModel { name: name@, url: Some(url@), icon_url: Some(icon_url@) }),
    {
        EmbedAuthor { name: owned(name), url: Some(owned(url)), icon_url: Some(owned(icon_url)) }
    }
}

impl EmbedFooter {
    /// A footer with a text only.
    pub fn new(text: &str) -> (res: Self)
        ensures
            res@ == (FooterModel { text: text@, icon_url: None }),
    {
        EmbedFooter { text: owned(text), icon_url: None }
    }

    /// A footer with a text and an icon.
    pub fn new_with_icon(text: &str, icon_url: &str) -> (res: Self)
        ensures
            res@ == (FooterModel { text: text@, icon_url: Some(icon_url@) }),
    {
        EmbedFooter { text: owned(text), icon_url: Some(owned(icon_url)) }
    }
}

impl EmbedField {
    /// A field on a line of its own.
    pub fn new(name: &str, value: &str) -> (res: Self)
        ensures
            res@ == (FieldModel { name: name@, value: value@, inline: false }),
    {
        EmbedField { name: owned(name), value: owned(value), inline: false }
    }

    /// A field that may share its line with its neighbours.
    pub fn new_inline(name: &str, value: &str) -> (res: Self)
        ensures
            res@ == (FieldModel { name: name@, value: value@, inline: true }),
    {
        EmbedField { name: owned(name), value: owned(value), inline: true }
    }
}

} // verus!
