//! The feed documents that synthesis produces, one per format tag, and the
//! diagnostics and errors that come with them.

use vstd::prelude::*;
use vstd::string::*;
use crate::model::{ItunesCategory, ItunesCategoryView, ItunesOwner, ItunesOwnerView, Logo, LogoView};

verus! {

/// The downloadable media file of an item.
#[derive(Debug, Clone, PartialEq, Eq)]
pub struct FeedEnclosure {
    pub url: String,
    pub mime_type: String,
    pub length: usize,
}

pub struct FeedEnclosureView {
    pub url: Seq<char>,
    pub mime_type: Seq<char>,
    pub length: nat,
}

impl View for FeedEnclosure {
    type V = FeedEnclosureView;

    open spec fn view(&self) -> FeedEnclosureView {
        FeedEnclosureView { url: self.url@, mime_type: self.mime_type@, length: self.length as nat }
    }
}

/// The permanent identifier of an item.
#[derive(Debug, Clone, PartialEq, Eq)]
pub struct FeedGuid {
    pub value: String,
    pub permalink: bool,
}

pub struct FeedGuidView {
    pub value: Seq<char>,
    pub permalink: bool,
}

impl View for FeedGuid {
    type V = FeedGuidView;

    open spec fn view(&self) -> FeedGuidView {
        FeedGuidView { value: self.value@, permalink: self.permalink }
    }
}

/// A pointer to the transcript of an item, with its MIME type.
#[derive(Debug, Clone, PartialEq, Eq)]
pub struct Transcript {
    pub url: String,
    pub kind: String,
}

pub struct TranscriptView {
    pub url: Seq<char>,
    pub kind: Seq<char>,
}

impl View for Transcript {
    type V = TranscriptView;

    open spec fn view(&self) -> TranscriptView {
        TranscriptView { url: self.url@, kind: self.kind@ }
    }
}

/// The directory metadata of one item.
#[derive(Debug, Clone, PartialEq, Eq)]
pub struct ItunesItem {
    pub author: String,
    pub image: String,
    pub duration: String,
    pub explicit: String,
    pub summary: String,
    pub subtitle: String,
    pub keywords: String,
}

pub struct ItunesItemView {
    pub author: Seq<char>,
    pub image: Seq<char>,
    pub duration: Seq<char>,
    pub explicit: Seq<char>,
    pub summary: Seq<char>,
    pub subtitle: Seq<char>,
    pub keywords: Seq<char>,
}

impl View for ItunesItem {
    type V = ItunesItemView;

    open spec fn view(&self) -> ItunesItemView {
        ItunesItemView {
            author: self.author@,
            image: self.image@,
            duration: self.duration@,
            explicit: self.explicit@,
            summary: self.summary@,
            subtitle: self.subtitle@,
            keywords: self.keywords@,
        }
    }
}

/// One entry of a feed: an episode in one media format.
#[derive(Debug, Clone, PartialEq, Eq)]
pub struct FeedItem {
    pub title: String,
    pub link: String,
    pub description: String,
    pub author: String,
    pub pub_date: String,
    pub guid: FeedGuid,
    pub enclosure: FeedEnclosure,
    pub itunes: ItunesItem,
    pub transcript: Option<Transcript>,
}

pub struct FeedItemView {
    pub title: Seq<char>,
    pub link: Seq<char>,
    pub description: Seq<char>,
    pub author: Seq<char>,
    pub pub_date: Seq<char>,
    pub guid: FeedGuidView,
    pub enclosure: FeedEnclosureView,
    pub itunes: ItunesItemView,
    pub transcript: Option<TranscriptView>,
}

impl View for FeedItem {
    type V = FeedItemView;

    open spec fn view(&self) -> FeedItemView {
        FeedItemView {
            title: self.title@,
            link: self.link@,
            description: self.description@,
            author: self.author@,
            pub_date: self.pub_date@,
            guid: self.guid@,
            enclosure: self.enclosure@,
            itunes: self.itunes@,
            transcript: match self.transcript {
                Some(t) => Some(t@),
                None => None,
            },
        }
    }
}

/// The directory metadata of a channel.
#[derive(Debug, Clone, PartialEq, Eq)]
pub struct ItunesChannel {
    pub author: String,
    pub category: ItunesCategory,
    pub image: String,
    pub explicit: String,
    pub owner: ItunesOwner,
    pub subtitle: String,
    pub summary: String,
    pub keywords: String,
}

pub struct ItunesChannelView {
    pub author: Seq<char>,
    pub category: ItunesCategoryView,
    pub image: Seq<char>,
    pub explicit: Seq<char>,
    pub owner: ItunesOwnerView,
    pub subtitle: Seq<char>,
    pub summary: Seq<char>,
    pub keywords: Seq<char>,
}

impl View for ItunesChannel {
    type V = ItunesChannelView;

    open spec fn view(&self) -> ItunesChannelView {
        ItunesChannelView {
            author: self.author@,
            category: self.category@,
            image: self.image@,
            explicit: self.explicit@,
            owner: self.owner@,
            subtitle: self.subtitle@,
            summary: self.summary@,
            keywords: self.keywords@,
        }
    }
}

/// An XML namespace that a feed declares.
#[derive(Debug, Clone, PartialEq, Eq)]
pub struct Namespace {
    pub prefix: String,
    pub uri: String,
}

pub struct NamespaceView {
    pub prefix: Seq<char>,
    pub uri: Seq<char>,
}

impl View for Namespace {
    type V = NamespaceView;

    open spec fn view(&self) -> NamespaceView {
        NamespaceView { prefix: self.prefix@, uri: self.uri@ }
    }
}

/// The views of a list of namespaces.
pub open spec fn namespace_views(namespaces: Seq<Namespace>) -> Seq<NamespaceView> {
    namespaces.map_values(|n: Namespace| n@)
}

/// The views of a list of items.
pub open spec fn item_views(items: Seq<FeedItem>) -> Seq<FeedItemView> {
    items.map_values(|i: FeedItem| i@)
}

/// One complete channel for a single media format.
#[derive(Debug, Clone, PartialEq, Eq)]
pub struct FeedDocument {
    pub format: String,
    pub title: String,
    pub link: String,
    pub description: String,
    pub language: String,
    pub copyright: String,
    pub managing_editor: String,
    pub webmaster: String,
    pub pub_date: String,
    pub last_build_date: String,
    pub generator: String,
    pub image: Logo,
    pub itunes: ItunesChannel,
    pub namespaces: Vec<Namespace>,
    pub items: Vec<FeedItem>,
}

pub struct FeedDocumentView {
    pub format: Seq<char>,
    pub title: Seq<char>,
    pub link: Seq<char>,
    pub description: Seq<char>,
    pub language: Seq<char>,
    pub copyright: Seq<char>,
    pub managing_editor: Seq<char>,
    pub webmaster: Seq<char>,
    pub pub_date: Seq<char>,
    pub last_build_date: Seq<char>,
    pub generator: Seq<char>,
    pub image: LogoView,
    pub itunes: ItunesChannelView,
    pub namespaces: Seq<NamespaceView>,
    pub items: Seq<FeedItemView>,
}

impl View for FeedDocument {
    type V = FeedDocumentView;

    open spec fn view(&self) -> FeedDocumentView {
        FeedDocumentView {
            format: self.format@,
            title: self.title@,
            link: self.link@,
            description: self.description@,
            language: self.language@,
            copyright: self.copyright@,
            managing_editor: self.managing_editor@,
            webmaster: self.webmaster@,
            pub_date: self.pub_date@,
            last_build_date: self.last_build_date@,
            generator: self.generator@,
            image: self.image@,
            itunes: self.itunes@,
            namespaces: namespace_views(self.namespaces@),
            items: item_views(self.items@),
        }
    }
}

/// The views of a list of documents.
pub open spec fn document_views(documents: Seq<FeedDocument>) -> Seq<FeedDocumentView> {
    documents.map_values(|d: FeedDocument| d@)
}

/// A file that synthesis left out of every feed, and why.
#[derive(Debug, Clone, PartialEq, Eq)]
pub enum Diagnostic {
    /// The file's extension is not among the podcast's formats.
    UnlistedFormat { extension: String, file: String, episode: String },
    /// An earlier file of the same episode has the same extension.
    DuplicateFormat { extension: String, file: String, episode: String },
}

pub enum DiagnosticView {
    UnlistedFormat { extension: Seq<char>, file: Seq<char>, episode: Seq<char> },
    DuplicateFormat { extension: Seq<char>, file: Seq<char>, episode: Seq<char> },
}

impl View for Diagnostic {
    type V = DiagnosticView;

    open spec fn view(&self) -> DiagnosticView {
        match self {
            Diagnostic::UnlistedFormat { extension, file, episode } => DiagnosticView::UnlistedFormat {
                extension: extension@,
                file: file@,
                episode: episode@,
            },
            Diagnostic::DuplicateFormat { extension, file, episode } => DiagnosticView::DuplicateFormat {
                extension: extension@,
                file: file@,
                episode: episode@,
            },
        }
    }
}

/// The words of a diagnostic.
pub open spec fn message_of(diagnostic: DiagnosticView) -> Seq<char> {
    match diagnostic {
        DiagnosticView::UnlistedFormat { extension, file, episode } => {
            "This podcast does not have '"@ + extension + "' in the listed 'formats'! Skipping '"@
                + file + "' in episode '"@ + episode + "'."@
        },
        DiagnosticView::DuplicateFormat { extension, file, episode } => {
            "We've already added a file of format '"@ + extension + "' for episode '"@ + episode
                + "'. Skipping file '"@ + file + "' with duplicate format."@
        },
    }
}

impl Diagnostic {
    /// Returns the diagnostic in words, for a log.
    pub fn message(&self) -> (text: String)
        ensures
            text@ == message_of(self@),
    {
        match self {
            Diagnostic::UnlistedFormat { extension, file, episode } => {
                let mut text = String::from_str("This podcast does not have '");
                text.append(extension.as_str());
                text.append("' in the listed 'formats'! Skipping '");
                text.append(file.as_str());
                text.append("' in episode '");
                text.append(episode.as_str());
                text.append("'.");
                text
            },
            Diagnostic::DuplicateFormat { extension, file, episode } => {
                let mut text = String::from_str("We've already added a file of format '");
                text.append(extension.as_str());
                text.append("' for episode '");
                text.append(episode.as_str());
                text.append("'. Skipping file '");
                text.append(file.as_str());
                text.append("' with duplicate format.");
                text
            },
        }
    }
}

/// The views of a list of diagnostics.
pub open spec fn diagnostic_views(diagnostics: Seq<Diagnostic>) -> Seq<DiagnosticView> {
    diagnostics.map_values(|d: Diagnostic| d@)
}

/// What synthesis gives: the documents, in the order in which their formats
/// first occur among the episodes' files, and the files it left out.
#[derive(Debug, Clone, PartialEq, Eq)]
pub struct Feeds {
    pub documents: Vec<FeedDocument>,
    pub diagnostics: Vec<Diagnostic>,
}

pub struct FeedsView {
    pub documents: Seq<FeedDocumentView>,
    pub diagnostics: Seq<DiagnosticView>,
}

impl View for Feeds {
    type V = FeedsView;

    open spec fn view(&self) -> FeedsView {
        FeedsView {
            documents: document_views(self.documents@),
            diagnostics: diagnostic_views(self.diagnostics@),
        }
    }
}

/// Why synthesis gave no feeds.
#[derive(Debug, Clone, PartialEq, Eq)]
pub enum SynthesisError {
    /// The episode at index `episode` has a transcript whose extension is
    /// none of the supported ones.
    UnsupportedTranscriptFormat { episode: usize, extension: String },
}

pub enum SynthesisErrorView {
    UnsupportedTranscriptFormat { episode: nat, extension: Seq<char> },
}

impl View for SynthesisError {
    type V = SynthesisErrorView;

    open spec fn view(&self) -> SynthesisErrorView {
        match self {
            SynthesisError::UnsupportedTranscriptFormat { episode, extension } => {
                SynthesisErrorView::UnsupportedTranscriptFormat {
                    episode: *episode as nat,
                    extension: extension@,
                }
            },
        }
    }
}

} // verus!
