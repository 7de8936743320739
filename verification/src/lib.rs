//! Podcast feed generation: turns a podcast description into one feed
//! document per media format, converts each into a channel of the `rss`
//! crate, and pretty-prints serialized XML.

pub mod encode;
pub mod feed;
pub mod frontmatter;
pub mod laws;
pub mod metadata;
pub mod model;
pub mod pretty;
pub mod synth;
pub mod text;

pub use feed::{
    Diagnostic, FeedDocument, FeedEnclosure, FeedGuid, FeedItem, Feeds, ItunesChannel, ItunesItem,
    Namespace, SynthesisError, Transcript,
};
pub use frontmatter::{split_front_matter, FrontMatter};
pub use metadata::Metadata;
pub use model::{Episode, ItunesCategory, ItunesOwner, Logo, Podcast};
pub use pretty::{format_xml, write_events, FormatError};
pub use synth::generate_xmls;
