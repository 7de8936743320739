//! The front matter of an episode page, and the episode that it describes.

use vstd::prelude::*;
use vstd::string::*;
use crate::model::{Episode, EpisodeView};
use crate::text::{decimal, decimal_of, followed_by, texts};

verus! {

/// What the front matter of an episode page says of the episode.
#[derive(Debug, Clone, PartialEq, Eq)]
pub struct Metadata {
    pub episode: u32,
    pub title: String,
    pub date: String,
    pub description: String,
    pub keywords: Vec<String>,
    pub transcript: Option<String>,
}

pub struct MetadataView {
    pub episode: nat,
    pub title: Seq<char>,
    pub date: Seq<char>,
    pub description: Seq<char>,
    pub keywords: Seq<Seq<char>>,
    pub transcript: Option<Seq<char>>,
}

impl View for Metadata {
    type V = MetadataView;

    open spec fn view(&self) -> MetadataView {
        MetadataView {
            episode: self.episode as nat,
            title: self.title@,
            date: self.date@,
            description: self.description@,
            keywords: texts(self.keywords@),
            transcript: match self.transcript {
                Some(text) => Some(text@),
                None => None,
            },
        }
    }
}

/// The address of an episode's page below `base_url`.
pub open spec fn episode_url(base_url: Seq<char>, number: nat) -> Seq<char> {
    base_url + "/episodes/"@ + decimal_of(number)
}

/// The episode that a page's front matter describes: one MP3 file named by
/// the episode's number, and a text transcript beside the episode's page.
pub open spec fn episode_of(m: MetadataView, base_url: Seq<char>) -> EpisodeView {
    EpisodeView {
        title: m.title,
        url: episode_url(base_url, m.episode),
        description: m.description,
        subtitle: "episode subtitle"@,
        files: seq!["audio/DC"@ + decimal_of(m.episode) + ".mp3"@],
        duration: "1"@,
        publish_date: m.date,
        keywords: seq!["technology"@],
        length_bytes: 0,
        transcript_url: Some(episode_url(base_url, m.episode) + ".txt"@),
    }
}

impl Metadata {
    /// Returns the episode that the front matter describes, with its page
    /// below `base_url`.
    pub fn episode(&self, base_url: &str) -> (episode: Episode)
        ensures
            episode@ == episode_of(self@, base_url@),
    {
        let number = decimal(self.episode);
        let url = followed_by(followed_by(base_url, "/episodes/").as_str(), number.as_str());
        let mut files: Vec<String> = Vec::new();
        files.push(followed_by(followed_by("audio/DC", number.as_str()).as_str(), ".mp3"));
        let mut keywords: Vec<String> = Vec::new();
        keywords.push(String::from_str("technology"));
        let transcript_url = followed_by(url.as_str(), ".txt");
        proof {
            assert(texts(files@) =~= seq!["audio/DC"@ + decimal_of(self.episode as nat) + ".mp3"@]);
            assert(texts(keywords@) =~= seq!["technology"@]);
        }
        Episode {
            title: self.title.clone(),
            url,
            description: self.description.clone(),
            subtitle: String::from_str("episode subtitle"),
            files,
            duration: String::from_str("1"),
            publish_date: self.date.clone(),
            keywords,
            length_bytes: 0,
            transcript_url: Some(transcript_url),
        }
    }

    /// Returns the path of the episode's page on the site.
    pub fn url(&self) -> (path: String)
        ensures
            path@ == "/episode/"@ + decimal_of(self.episode as nat),
    {
        followed_by("/episode/", decimal(self.episode).as_str())
    }
}

} // verus!
