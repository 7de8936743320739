//! Conversion of feed documents into the channel and item records of the
//! `rss` crate, which serializes them.

use vstd::prelude::*;
use vstd::string::*;
use crate::feed::{
    item_views, namespace_views, FeedDocument, FeedDocumentView, FeedItem, FeedItemView, ItunesChannel,
    ItunesChannelView, ItunesItem, ItunesItemView, Namespace, NamespaceView,
};
use crate::model::{Logo, LogoView};
use crate::pretty::{format_xml, formatted, parsed, text_result, FormatError};
use vstd::utf8::encode_utf8;

verus! {

#[verifier::external_type_specification]
#[verifier::external_body]
pub struct ExGuid(rss::Guid);

#[verifier::external_type_specification]
#[verifier::external_body]
pub struct ExEnclosure(rss::Enclosure);

#[verifier::external_type_specification]
#[verifier::external_body]
pub struct ExItunesItemExtension(rss::extension::itunes::ITunesItemExtension);

#[verifier::external_type_specification]
#[verifier::external_body]
pub struct ExExtension(rss::extension::Extension);

#[verifier::external_type_specification]
#[verifier::external_body]
pub struct ExItem(rss::Item);

#[verifier::external_type_specification]
#[verifier::external_body]
pub struct ExImage(rss::Image);

#[verifier::external_type_specification]
#[verifier::external_body]
pub struct ExItunesChannelExtension(rss::extension::itunes::ITunesChannelExtension);

#[verifier::external_type_specification]
#[verifier::external_body]
pub struct ExChannel(rss::Channel);

/// The character sequences of a list of pairs of strings.
pub open spec fn pair_texts(pairs: Seq<(String, String)>) -> Seq<(Seq<char>, Seq<char>)> {
    pairs.map_values(|pair: (String, String)| (pair.0@, pair.1@))
}

/// The identifier record with the given value and permalink flag.
pub uninterp spec fn guid_record(value: Seq<char>, permalink: bool) -> rss::Guid;

/// The enclosure record with the given address, MIME type and length.
pub uninterp spec fn enclosure_record(url: Seq<char>, mime_type: Seq<char>, length: nat) -> rss::Enclosure;

/// The directory record of an item with the given texts.
pub uninterp spec fn itunes_item_record(block: ItunesItemView) -> rss::extension::itunes::ITunesItemExtension;

/// The extension map that holds, under `prefix` and then `key`, one
/// extension element with the given name and attributes.
pub uninterp spec fn extension_record(
    prefix: Seq<char>,
    key: Seq<char>,
    name: Seq<char>,
    attrs: Seq<(Seq<char>, Seq<char>)>,
) -> std::collections::BTreeMap<
    String,
    std::collections::BTreeMap<String, Vec<rss::extension::Extension>>,
>;

/// The item record with the given texts and parts, and no extension map.
pub uninterp spec fn item_record(
    title: Seq<char>,
    link: Seq<char>,
    description: Seq<char>,
    author: Seq<char>,
    pub_date: Seq<char>,
    guid: rss::Guid,
    enclosure: rss::Enclosure,
    itunes: rss::extension::itunes::ITunesItemExtension,
) -> rss::Item;

/// An item record with its extension map replaced.
pub uninterp spec fn extended_record(
    item: rss::Item,
    extensions: std::collections::BTreeMap<
        String,
        std::collections::BTreeMap<String, Vec<rss::extension::Extension>>,
    >,
) -> rss::Item;

/// The image record of a logo.
pub uninterp spec fn image_record(logo: LogoView) -> rss::Image;

/// The directory record of a channel with the given texts, one category and
/// an owner.
pub uninterp spec fn itunes_channel_record(block: ItunesChannelView) -> rss::extension::itunes::ITunesChannelExtension;

/// The channel record with the texts of `document` and the given parts,
/// without namespaces and items.
pub uninterp spec fn channel_record(
    document: FeedDocumentView,
    image: rss::Image,
    itunes: rss::extension::itunes::ITunesChannelExtension,
) -> rss::Channel;

/// A channel record with its namespaces and items replaced.
pub uninterp spec fn filled_record(
    channel: rss::Channel,
    namespaces: Seq<NamespaceView>,
    items: Seq<rss::Item>,
) -> rss::Channel;

/// Builds an identifier with `rss::GuidBuilder`. Trusted: the record depends
/// on the two values alone.
#[verifier::external_body]
fn guid(value: &str, permalink: bool) -> (record: rss::Guid)
    ensures
        record == guid_record(value@, permalink),
{
    rss::GuidBuilder::default().value(value).permalink(permalink).build()
}

/// Builds an enclosure with `rss::EnclosureBuilder`; the length goes in as
/// its decimal text. Trusted: the record depends on the three values alone.
#[verifier::external_body]
fn enclosure(url: &str, mime_type: &str, length: usize) -> (record: rss::Enclosure)
    ensures
        record == enclosure_record(url@, mime_type@, length as nat),
{
    rss::EnclosureBuilder::default().url(url).mime_type(mime_type).length(length.to_string()).build()
}

/// Builds an item's directory record with
/// `rss::extension::itunes::ITunesItemExtensionBuilder`. Trusted: the record
/// depends on the seven texts alone.
#[verifier::external_body]
fn itunes_item(block: &ItunesItem) -> (record: rss::extension::itunes::ITunesItemExtension)
    ensures
        record == itunes_item_record(block@),
{
    rss::extension::itunes::ITunesItemExtensionBuilder::default()
        .author(block.author.clone())
        .image(block.image.clone())
        .duration(block.duration.clone())
        .explicit(block.explicit.clone())
        .summary(block.summary.clone())
        .subtitle(block.subtitle.clone())
        .keywords(block.keywords.clone())
        .build()
}

/// Builds one extension element with `rss::extension::ExtensionBuilder` and
/// puts it into a fresh extension map under `prefix` and `key`. Trusted: the
/// map depends on the four values alone.
#[verifier::external_body]
fn extensions(prefix: &str, key: &str, name: &str, attrs: &Vec<(String, String)>) -> (record:
    std::collections::BTreeMap<String, std::collections::BTreeMap<String, Vec<rss::extension::Extension>>>)
    ensures
        record == extension_record(prefix@, key@, name@, pair_texts(attrs@)),
{
    let element = rss::extension::ExtensionBuilder::default()
        .name(name)
        .attrs(attrs.iter().cloned().collect::<std::collections::BTreeMap<String, String>>())
        .build();
    let mut children = std::collections::BTreeMap::new();
    children.insert(key.to_string(), vec![element]);
    let mut record = rss::extension::ExtensionMap::default();
    record.insert(prefix.to_string(), children);
    record
}

/// Builds an item with `rss::ItemBuilder`. Trusted: the record depends on
/// the five texts of `source` and the three parts alone.
#[verifier::external_body]
fn item(
    source: &FeedItem,
    guid: rss::Guid,
    enclosure: rss::Enclosure,
    itunes: rss::extension::itunes::ITunesItemExtension,
) -> (record: rss::Item)
    ensures
        record == item_record(
            source.title@,
            source.link@,
            source.description@,
            source.author@,
            source.pub_date@,
            guid,
            enclosure,
            itunes,
        ),
{
    rss::ItemBuilder::default()
        .title(source.title.clone())
        .link(source.link.clone())
        .description(source.description.clone())
        .author(source.author.clone())
        .pub_date(source.pub_date.clone())
        .guid(guid)
        .enclosure(enclosure)
        .itunes_ext(itunes)
        .build()
}

/// Replaces an item's extension map with `rss::Item::set_extensions`.
/// Trusted: the record depends on the item and the map alone.
#[verifier::external_body]
fn with_extensions(
    item: rss::Item,
    extensions: std::collections::BTreeMap<
        String,
        std::collections::BTreeMap<String, Vec<rss::extension::Extension>>,
    >,
) -> (record: rss::Item)
    ensures
        record == extended_record(item, extensions),
{
    let mut record = item;
    record.set_extensions(extensions);
    record
}

/// Builds an image with `rss::ImageBuilder`. Trusted: the record depends on
/// the three texts alone.
#[verifier::external_body]
fn image(logo: &Logo) -> (record: rss::Image)
    ensures
        record == image_record(logo@),
{
    rss::ImageBuilder::default()
        .url(logo.url.clone())
        .title(logo.title.clone())
        .link(logo.link.clone())
        .build()
}

/// Builds a channel's directory record with
/// `rss::extension::itunes::ITunesChannelExtensionBuilder`, its category
/// with `ITunesCategoryBuilder` and its owner with `ITunesOwnerBuilder`.
/// Trusted: the record depends on the texts of `block` alone.
#[verifier::external_body]
fn itunes_channel(block: &ItunesChannel) -> (record: rss::extension::itunes::ITunesChannelExtension)
    ensures
        record == itunes_channel_record(block@),
{
    let category = rss::extension::itunes::ITunesCategoryBuilder::default().text(block.category.text.clone()).build();
    let owner = rss::extension::itunes::ITunesOwnerBuilder::default()
        .name(block.owner.name.clone())
        .email(block.owner.email.clone())
        .build();
    rss::extension::itunes::ITunesChannelExtensionBuilder::default()
        .author(block.author.clone())
        .categories(vec![category])
        .image(block.image.clone())
        .explicit(block.explicit.clone())
        .owner(owner)
        .subtitle(block.subtitle.clone())
        .summary(block.summary.clone())
        .keywords(block.keywords.clone())
        .build()
}

/// Builds a channel with `rss::ChannelBuilder`. Trusted: the record depends
/// on the texts of `document` and the two parts alone.
#[verifier::external_body]
fn channel(
    document: &FeedDocument,
    image: rss::Image,
    itunes: rss::extension::itunes::ITunesChannelExtension,
) -> (record: rss::Channel)
    ensures
        record == channel_record(document@, image, itunes),
{
    rss::ChannelBuilder::default()
        .title(document.title.clone())
        .link(document.link.clone())
        .description(document.description.clone())
        .language(document.language.clone())
        .copyright(document.copyright.clone())
        .managing_editor(document.managing_editor.clone())
        .webmaster(document.webmaster.clone())
        .pub_date(document.pub_date.clone())
        .last_build_date(document.last_build_date.clone())
        .generator(document.generator.clone())
        .image(image)
        .itunes_ext(itunes)
        .build()
}

/// Replaces a channel's namespaces with `rss::Channel::set_namespaces` and
/// its items with `rss::Channel::set_items`. Trusted: the record depends on
/// the channel, the namespaces and the items alone.
#[verifier::external_body]
fn with_contents(channel: rss::Channel, namespaces: &Vec<Namespace>, items: Vec<rss::Item>) -> (record:
    rss::Channel)
    ensures
        record == filled_record(channel, namespace_views(namespaces@), items@),
{
    let mut record = channel;
    record.set_namespaces(
        namespaces.iter().map(|n| (n.prefix.clone(), n.uri.clone())).collect::<std::collections::BTreeMap<_, _>>(),
    );
    record.set_items(items);
    record
}

/// The XML text that the `rss` crate writes for a channel.
pub uninterp spec fn serialized(channel: rss::Channel) -> Seq<char>;

/// Serializes a channel with its `to_string`, which writes it with
/// `rss::Channel::write_to`. Trusted: the text depends on the channel alone.
#[verifier::external_body]
fn channel_text(channel: &rss::Channel) -> (text: String)
    ensures
        text@ == serialized(*channel),
{
    channel.to_string()
}

/// The attributes of a transcript element.
pub open spec fn transcript_attrs(url: Seq<char>, kind: Seq<char>) -> Seq<(Seq<char>, Seq<char>)> {
    seq![("url"@, url), ("type"@, kind)]
}

/// The record that stands for an item: its texts, identifier, enclosure and
/// directory record, and, where it has a transcript, a `podcast:transcript`
/// element with the transcript's address and MIME type.
pub open spec fn item_encoding(v: FeedItemView) -> rss::Item {
    let plain = item_record(
        v.title,
        v.link,
        v.description,
        v.author,
        v.pub_date,
        guid_record(v.guid.value, v.guid.permalink),
        enclosure_record(v.enclosure.url, v.enclosure.mime_type, v.enclosure.length),
        itunes_item_record(v.itunes),
    );
    match v.transcript {
        None => plain,
        Some(t) => extended_record(
            plain,
            extension_record(
                "podcast"@,
                "ext:name"@,
                "podcast:transcript"@,
                transcript_attrs(t.url, t.kind),
            ),
        ),
    }
}

/// The record that stands for a document: its channel texts, image,
/// directory record and namespaces, with the records of its items in order.
pub open spec fn channel_encoding(v: FeedDocumentView) -> rss::Channel {
    filled_record(
        channel_record(v, image_record(v.image), itunes_channel_record(v.itunes)),
        v.namespaces,
        v.items.map_values(|item: FeedItemView| item_encoding(item)),
    )
}

impl FeedItem {
    /// Converts the item into the record that the `rss` crate serializes.
    pub fn to_item(&self) -> (record: rss::Item)
        ensures
            record == item_encoding(self@),
    {
        let plain = item(
            self,
            guid(self.guid.value.as_str(), self.guid.permalink),
            enclosure(
                self.enclosure.url.as_str(),
                self.enclosure.mime_type.as_str(),
                self.enclosure.length,
            ),
            itunes_item(&self.itunes),
        );
        match &self.transcript {
            None => plain,
            Some(transcript) => {
                let mut attrs: Vec<(String, String)> = Vec::new();
                attrs.push((String::from_str("url"), transcript.url.clone()));
                attrs.push((String::from_str("type"), transcript.kind.clone()));
                proof {
                    assert(pair_texts(attrs@) =~= transcript_attrs(transcript.url@, transcript.kind@));
                }
                with_extensions(
                    plain,
                    extensions("podcast", "ext:name", "podcast:transcript", &attrs),
                )
            },
        }
    }
}

impl FeedDocument {
    /// Converts the document into the channel that the `rss` crate
    /// serializes.
    pub fn to_channel(&self) -> (record: rss::Channel)
        ensures
            record == channel_encoding(self@),
    {
        let mut items: Vec<rss::Item> = Vec::new();
        let mut i: usize = 0;
        while i < self.items.len()
            invariant
                i <= self.items.len(),
                items@ == item_views(self.items@).take(i as int).map_values(
                    |item: FeedItemView| item_encoding(item),
                ),
            decreases self.items.len() - i,
        {
            let record = self.items[i].to_item();
            items.push(record);
            i = i + 1;
            proof {
                assert(items@ =~= item_views(self.items@).take(i as int).map_values(
                    |item: FeedItemView| item_encoding(item),
                ));
            }
        }
        proof {
            assert(item_views(self.items@).take(i as int) =~= item_views(self.items@));
        }
        let record = channel(self, image(&self.image), itunes_channel(&self.itunes));
        with_contents(record, &self.namespaces, items)
    }

    /// Serializes the document's channel and pretty-prints the XML.
    pub fn to_xml(&self) -> (r: Result<String, FormatError>)
        ensures
            text_result(r) == formatted(
                parsed(encode_utf8(serialized(channel_encoding(self@))), true, false),
            ),
    {
        let raw = channel_text(&self.to_channel());
        format_xml(raw.as_str().as_bytes())
    }
}

} // verus!
