//! The podcast description that feed synthesis consumes.

use vstd::prelude::*;
use crate::text::texts;

verus! {

/// An image with its title and the page it links to.
#[derive(Debug, Clone, PartialEq, Eq)]
pub struct Logo {
    pub url: String,
    pub title: String,
    pub link: String,
}

pub struct LogoView {
    pub url: Seq<char>,
    pub title: Seq<char>,
    pub link: Seq<char>,
}

impl View for Logo {
    type V = LogoView;

    open spec fn view(&self) -> LogoView {
        LogoView { url: self.url@, title: self.title@, link: self.link@ }
    }
}

/// The contact that a podcast directory shows as the owner of a feed.
#[derive(Debug, Clone, PartialEq, Eq)]
pub struct ItunesOwner {
    pub name: String,
    pub email: String,
}

pub struct ItunesOwnerView {
    pub name: Seq<char>,
    pub email: Seq<char>,
}

impl View for ItunesOwner {
    type V = ItunesOwnerView;

    open spec fn view(&self) -> ItunesOwnerView {
        ItunesOwnerView { name: self.name@, email: self.email@ }
    }
}

/// A directory category.
#[derive(Debug, Clone, PartialEq, Eq)]
pub struct ItunesCategory {
    pub text: String,
    pub itunesu_category: String,
}

pub struct ItunesCategoryView {
    pub text: Seq<char>,
    pub itunesu_category: Seq<char>,
}

impl View for ItunesCategory {
    type V = ItunesCategoryView;

    open spec fn view(&self) -> ItunesCategoryView {
        ItunesCategoryView { text: self.text@, itunesu_category: self.itunesu_category@ }
    }
}

/// One episode: its texts, and the media files that carry it, each path
/// relative to the podcast's hosting base.
#[derive(Debug, Clone, PartialEq, Eq)]
pub struct Episode {
    pub title: String,
    pub url: String,
    pub description: String,
    pub subtitle: String,
    pub files: Vec<String>,
    pub duration: String,
    pub publish_date: String,
    pub keywords: Vec<String>,
    pub length_bytes: usize,
    pub transcript_url: Option<String>,
}

pub struct EpisodeView {
    pub title: Seq<char>,
    pub url: Seq<char>,
    pub description: Seq<char>,
    pub subtitle: Seq<char>,
    pub files: Seq<Seq<char>>,
    pub duration: Seq<char>,
    pub publish_date: Seq<char>,
    pub keywords: Seq<Seq<char>>,
    pub length_bytes: nat,
    pub transcript_url: Option<Seq<char>>,
}

impl View for Episode {
    type V = EpisodeView;

    open spec fn view(&self) -> EpisodeView {
        EpisodeView {
            title: self.title@,
            url: self.url@,
            description: self.description@,
            subtitle: self.subtitle@,
            files: texts(self.files@),
            duration: self.duration@,
            publish_date: self.publish_date@,
            keywords: texts(self.keywords@),
            length_bytes: self.length_bytes as nat,
            transcript_url: match self.transcript_url {
                Some(url) => Some(url@),
                None => None,
            },
        }
    }
}

/// A podcast: the channel's texts, the format tags it publishes feeds for,
/// and its episodes in the order in which the feeds list them.
#[derive(Debug, Clone, PartialEq, Eq)]
pub struct Podcast {
    pub title: String,
    pub description: String,
    pub subtitle: String,
    pub author: String,
    pub author_email: String,
    pub website: String,
    pub language: String,
    pub copyright: String,
    pub webmaster: String,
    pub managing_editor: String,
    pub formats: Vec<String>,
    pub hosting_base_url: String,
    pub keywords: Vec<String>,
    pub explicit: bool,
    pub logo: Logo,
    pub category: String,
    pub episodes: Vec<Episode>,
}

pub struct PodcastView {
    pub title: Seq<char>,
    pub description: Seq<char>,
    pub subtitle: Seq<char>,
    pub author: Seq<char>,
    pub author_email: Seq<char>,
    pub website: Seq<char>,
    pub language: Seq<char>,
    pub copyright: Seq<char>,
    pub webmaster: Seq<char>,
    pub managing_editor: Seq<char>,
    pub formats: Set<Seq<char>>,
    pub hosting_base_url: Seq<char>,
    pub keywords: Seq<Seq<char>>,
    pub explicit: bool,
    pub logo: LogoView,
    pub category: Seq<char>,
    pub episodes: Seq<EpisodeView>,
}

/// The views of a list of episodes.
pub open spec fn episode_views(episodes: Seq<Episode>) -> Seq<EpisodeView> {
    episodes.map_values(|e: Episode| e@)
}

impl View for Podcast {
    type V = PodcastView;

    open spec fn view(&self) -> PodcastView {
        PodcastView {
            title: self.title@,
            description: self.description@,
            subtitle: self.subtitle@,
            author: self.author@,
            author_email: self.author_email@,
            website: self.website@,
            language: self.language@,
            copyright: self.copyright@,
            webmaster: self.webmaster@,
            managing_editor: self.managing_editor@,
            formats: texts(self.formats@).to_set(),
            hosting_base_url: self.hosting_base_url@,
            keywords: texts(self.keywords@),
            explicit: self.explicit,
            logo: self.logo@,
            category: self.category@,
            episodes: episode_views(self.episodes@),
        }
    }
}

} // verus!
