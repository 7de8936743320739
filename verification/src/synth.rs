//! Feed synthesis: from a podcast description to one feed document per
//! format tag that at least one episode file carries.

use vstd::prelude::*;
use vstd::string::*;
use crate::feed::{
    diagnostic_views, document_views, item_views, namespace_views, Diagnostic, DiagnosticView,
    FeedEnclosure, FeedEnclosureView, FeedDocument, FeedDocumentView, FeedItem, FeedItemView, Feeds,
    FeedsView, FeedGuid, FeedGuidView, ItunesChannel, ItunesChannelView, ItunesItem, ItunesItemView,
    Namespace, NamespaceView, SynthesisError, SynthesisErrorView, Transcript, TranscriptView,
};
use crate::model::{
    Episode, EpisodeView, ItunesCategory, ItunesCategoryView, ItunesOwner, ItunesOwnerView, Logo,
    LogoView, Podcast, PodcastView,
};
use crate::text::{
    audio_mime, audio_mime_of, contains_text, extension_of, file_extension, followed_by, join, joined,
    lowercase_of, lowercased, same_text, texts, transcript_mime, transcript_mime_of,
};

verus! {

/// The text that a feed carries for a yes/no flag.
pub open spec fn flag_text(flag: bool) -> Seq<char> {
    if flag {
        "true"@
    } else {
        "false"@
    }
}

/// The public address of an episode file.
pub open spec fn file_url(p: PodcastView, file: Seq<char>) -> Seq<char> {
    p.hosting_base_url + "/"@ + file
}

/// Tells whether one of the first `upto` files has the extension `tag`.
pub open spec fn has_extension(files: Seq<Seq<char>>, upto: int, tag: Seq<char>) -> bool {
    exists|g: int| 0 <= g < upto && g < files.len() && extension_of(#[trigger] files[g]) == tag
}

/// A file is accepted when its extension is one of the podcast's formats and
/// no earlier file of the same episode has that extension.
pub open spec fn accepted(formats: Set<Seq<char>>, files: Seq<Seq<char>>, f: int) -> bool {
    &&& 0 <= f < files.len()
    &&& formats.contains(extension_of(files[f]))
    &&& !has_extension(files, f, extension_of(files[f]))
}

/// Tells whether the episode names a transcript whose extension is none of
/// the supported ones.
pub open spec fn transcript_unsupported(ep: EpisodeView) -> bool {
    ep.transcript_url is Some && transcript_mime_of(extension_of(ep.transcript_url->0)) is None
}

/// The transcript pointer of an episode's items.
pub open spec fn transcript_of(ep: EpisodeView) -> Option<TranscriptView> {
    match ep.transcript_url {
        Some(url) => match transcript_mime_of(extension_of(url)) {
            Some(kind) => Some(TranscriptView { url, kind }),
            None => None,
        },
        None => None,
    }
}

/// The item that stands for `file` of episode `ep` in the feed of its format,
/// with the given transcript pointer.
pub open spec fn item_with(
    p: PodcastView,
    ep: EpisodeView,
    file: Seq<char>,
    transcript: Option<TranscriptView>,
) -> FeedItemView {
    FeedItemView {
        title: ep.title,
        link: ep.url,
        description: ep.description,
        author: p.author_email,
        pub_date: ep.publish_date,
        guid: FeedGuidView { value: file_url(p, file), permalink: true },
        enclosure: FeedEnclosureView {
            url: file_url(p, file),
            mime_type: audio_mime_of(lowercase_of(extension_of(file))),
            length: ep.length_bytes,
        },
        itunes: ItunesItemView {
            author: p.author,
            image: p.logo.url,
            duration: ep.duration,
            explicit: flag_text(p.explicit),
            summary: ep.description,
            subtitle: ep.subtitle,
            keywords: joined(ep.keywords, ", "@),
        },
        transcript,
    }
}

/// The item that stands for `file` of episode `ep` in the feed of its format.
pub open spec fn item_of(p: PodcastView, ep: EpisodeView, file: Seq<char>) -> FeedItemView {
    item_with(p, ep, file, transcript_of(ep))
}

/// The items that the first `upto` files of an episode add to the feed of
/// `tag`: one for each accepted file with that extension, in file order.
pub open spec fn episode_items(p: PodcastView, ep: EpisodeView, tag: Seq<char>, upto: int) -> Seq<
    FeedItemView,
>
    decreases upto,
{
    if upto <= 0 {
        Seq::empty()
    } else {
        let before = episode_items(p, ep, tag, upto - 1);
        if accepted(p.formats, ep.files, upto - 1) && extension_of(ep.files[upto - 1]) == tag {
            before.push(item_of(p, ep, ep.files[upto - 1]))
        } else {
            before
        }
    }
}

/// The items that the first `upto` episodes add to the feed of `tag`, in
/// episode order.
pub open spec fn feed_items(p: PodcastView, tag: Seq<char>, upto: int) -> Seq<FeedItemView>
    decreases upto,
{
    if upto <= 0 {
        Seq::empty()
    } else {
        let ep = p.episodes[upto - 1];
        feed_items(p, tag, upto - 1) + episode_items(p, ep, tag, ep.files.len() as int)
    }
}

/// `seen`, followed by each format that occurs as the extension of one of
/// the first `upto` files and was not there before, in file order.
pub open spec fn episode_tags(
    formats: Set<Seq<char>>,
    files: Seq<Seq<char>>,
    upto: int,
    seen: Seq<Seq<char>>,
) -> Seq<Seq<char>>
    decreases upto,
{
    if upto <= 0 {
        seen
    } else {
        let before = episode_tags(formats, files, upto - 1, seen);
        let tag = extension_of(files[upto - 1]);
        if formats.contains(tag) && !before.contains(tag) {
            before.push(tag)
        } else {
            before
        }
    }
}

/// The format tags that the files of the first `upto` episodes carry, each
/// once, in the order in which they first occur.
pub open spec fn feed_tags(p: PodcastView, upto: int) -> Seq<Seq<char>>
    decreases upto,
{
    if upto <= 0 {
        Seq::empty()
    } else {
        let ep = p.episodes[upto - 1];
        episode_tags(p.formats, ep.files, ep.files.len() as int, feed_tags(p, upto - 1))
    }
}

/// The diagnostics for the first `upto` files of an episode, in file order:
/// one for each file that is not accepted.
pub open spec fn episode_diagnostics(p: PodcastView, ep: EpisodeView, upto: int) -> Seq<
    DiagnosticView,
>
    decreases upto,
{
    if upto <= 0 {
        Seq::empty()
    } else {
        let before = episode_diagnostics(p, ep, upto - 1);
        let file = ep.files[upto - 1];
        let extension = extension_of(file);
        if !p.formats.contains(extension) {
            before.push(DiagnosticView::UnlistedFormat { extension, file, episode: ep.title })
        } else if has_extension(ep.files, upto - 1, extension) {
            before.push(DiagnosticView::DuplicateFormat { extension, file, episode: ep.title })
        } else {
            before
        }
    }
}

/// The diagnostics for the first `upto` episodes, in episode order.
pub open spec fn feed_diagnostics(p: PodcastView, upto: int) -> Seq<DiagnosticView>
    decreases upto,
{
    if upto <= 0 {
        Seq::empty()
    } else {
        let ep = p.episodes[upto - 1];
        feed_diagnostics(p, upto - 1) + episode_diagnostics(p, ep, ep.files.len() as int)
    }
}

/// The namespaces that every feed declares.
pub open spec fn feed_namespaces() -> Seq<NamespaceView> {
    seq![
        NamespaceView { prefix: "atom"@, uri: "http://www.w3.org/2005/Atom"@ },
        NamespaceView { prefix: "itunes"@, uri: "http://www.itunes.com/dtds/podcast-1.0.dtd"@ },
        NamespaceView { prefix: "podcast"@, uri: "https://podcastindex.org/namespace/1.0"@ },
    ]
}

/// The document of the feed of `tag` with the given items: the podcast's
/// channel metadata, the same for every format.
pub open spec fn document_with(p: PodcastView, tag: Seq<char>, items: Seq<FeedItemView>) -> FeedDocumentView {
    FeedDocumentView {
        format: tag,
        title: p.title,
        link: p.website,
        description: p.description,
        language: p.language,
        copyright: p.copyright,
        managing_editor: p.managing_editor,
        webmaster: p.webmaster,
        pub_date: ""@,
        last_build_date: ""@,
        generator: "pfg-rs"@,
        image: LogoView { url: p.logo.url, title: p.title + " Logo"@, link: p.website },
        itunes: ItunesChannelView {
            author: p.author,
            category: ItunesCategoryView { text: p.category, itunesu_category: ""@ },
            image: p.logo.url,
            explicit: flag_text(p.explicit),
            owner: ItunesOwnerView { name: p.author, email: p.author_email },
            subtitle: p.subtitle,
            summary: p.description,
            keywords: joined(p.keywords, ", "@),
        },
        namespaces: feed_namespaces(),
        items,
    }
}

/// The document of the feed of `tag`.
pub open spec fn document_of(p: PodcastView, tag: Seq<char>) -> FeedDocumentView {
    document_with(p, tag, feed_items(p, tag, p.episodes.len() as int))
}

/// An episode makes synthesis fail when one of its files is in one of the
/// podcast's formats and its transcript has an unsupported extension.
pub open spec fn episode_fails(p: PodcastView, ep: EpisodeView) -> bool {
    &&& transcript_unsupported(ep)
    &&& exists|f: int| 0 <= f < ep.files.len() && p.formats.contains(extension_of(#[trigger] ep.files[f]))
}

/// Tells whether synthesis fails on a podcast.
pub open spec fn fails(p: PodcastView) -> bool {
    exists|e: int| 0 <= e < p.episodes.len() && episode_fails(p, #[trigger] p.episodes[e])
}

/// What synthesis gives for a podcast on which it does not fail.
pub open spec fn synthesis(p: PodcastView) -> FeedsView {
    FeedsView {
        documents: feed_tags(p, p.episodes.len() as int).map_values(|tag: Seq<char>| document_of(p, tag)),
        diagnostics: feed_diagnostics(p, p.episodes.len() as int),
    }
}

/// The view of an optional transcript pointer.
pub open spec fn transcript_view(transcript: Option<Transcript>) -> Option<TranscriptView> {
    match transcript {
        Some(t) => Some(t@),
        None => None,
    }
}

/// Returns the text that a feed carries for a yes/no flag.
pub fn flag(explicit: bool) -> (text: String)
    ensures
        text@ == flag_text(explicit),
{
    if explicit {
        String::from_str("true")
    } else {
        String::from_str("false")
    }
}

/// Tells whether one of the first `upto` files has the extension `tag`.
pub fn seen_before(files: &Vec<String>, upto: usize, tag: &str) -> (seen: bool)
    ensures
        seen == has_extension(texts(files@), upto as int, tag@),
{
    let mut g: usize = 0;
    while g < upto && g < files.len()
        invariant
            g <= upto,
            g <= files.len(),
            !has_extension(texts(files@), g as int, tag@),
        decreases files.len() - g,
    {
        let other = file_extension(files[g].as_str());
        if same_text(other.as_str(), tag) {
            proof {
                assert(extension_of(texts(files@)[g as int]) == tag@);
            }
            return true;
        }
        g = g + 1;
    }
    false
}

/// Resolves the transcript pointer of an episode: `Ok` with the pointer, or
/// with `None` where the episode names no transcript; `Err` with the
/// transcript's extension where that is not supported.
pub fn resolve_transcript(ep: &Episode) -> (r: Result<Option<Transcript>, String>)
    ensures
        match r {
            Ok(t) => !transcript_unsupported(ep@) && transcript_view(t) == transcript_of(ep@),
            Err(extension) => transcript_unsupported(ep@) && extension@ == extension_of(
                ep@.transcript_url->0,
            ),
        },
{
    match &ep.transcript_url {
        None => Ok(None),
        Some(url) => {
            let extension = file_extension(url.as_str());
            match transcript_mime(extension.as_str()) {
                Some(kind) => Ok(Some(Transcript { url: url.clone(), kind })),
                None => Err(extension),
            }
        },
    }
}

/// Builds the item that stands for `file` of episode `ep`, with the given
/// transcript pointer.
pub fn build_item(pod: &Podcast, ep: &Episode, file: &String, transcript: Option<Transcript>) -> (item:
    FeedItem)
    ensures
        item@ == item_with(pod@, ep@, file@, transcript_view(transcript)),
{
    let url = followed_by(followed_by(pod.hosting_base_url.as_str(), "/").as_str(), file.as_str());
    let extension = file_extension(file.as_str());
    let mime_type = audio_mime(lowercased(extension.as_str()).as_str());
    FeedItem {
        title: ep.title.clone(),
        link: ep.url.clone(),
        description: ep.description.clone(),
        author: pod.author_email.clone(),
        pub_date: ep.publish_date.clone(),
        guid: FeedGuid { value: url.clone(), permalink: true },
        enclosure: FeedEnclosure { url, mime_type, length: ep.length_bytes },
        itunes: ItunesItem {
            author: pod.author.clone(),
            image: pod.logo.url.clone(),
            duration: ep.duration.clone(),
            explicit: flag(pod.explicit),
            summary: ep.description.clone(),
            subtitle: ep.subtitle.clone(),
            keywords: join(&ep.keywords, ", "),
        },
        transcript,
    }
}

/// Returns the namespaces that every feed declares.
pub fn namespaces() -> (list: Vec<Namespace>)
    ensures
        namespace_views(list@) == feed_namespaces(),
{
    let mut list: Vec<Namespace> = Vec::new();
    list.push(
        Namespace {
            prefix: String::from_str("atom"),
            uri: String::from_str("http://www.w3.org/2005/Atom"),
        },
    );
    list.push(
        Namespace {
            prefix: String::from_str("itunes"),
            uri: String::from_str("http://www.itunes.com/dtds/podcast-1.0.dtd"),
        },
    );
    list.push(
        Namespace {
            prefix: String::from_str("podcast"),
            uri: String::from_str("https://podcastindex.org/namespace/1.0"),
        },
    );
    proof {
        assert(namespace_views(list@) =~= feed_namespaces());
    }
    list
}

/// Builds the document of the feed of `tag` with the given items.
pub fn new_document(pod: &Podcast, tag: String, items: Vec<FeedItem>) -> (doc: FeedDocument)
    ensures
        doc@ == document_with(pod@, tag@, item_views(items@)),
{
    FeedDocument {
        format: tag,
        title: pod.title.clone(),
        link: pod.website.clone(),
        description: pod.description.clone(),
        language: pod.language.clone(),
        copyright: pod.copyright.clone(),
        managing_editor: pod.managing_editor.clone(),
        webmaster: pod.webmaster.clone(),
        pub_date: String::from_str(""),
        last_build_date: String::from_str(""),
        generator: String::from_str("pfg-rs"),
        image: Logo {
            url: pod.logo.url.clone(),
            title: followed_by(pod.title.as_str(), " Logo"),
            link: pod.website.clone(),
        },
        itunes: ItunesChannel {
            author: pod.author.clone(),
            category: ItunesCategory { text: pod.category.clone(), itunesu_category: String::from_str("") },
            image: pod.logo.url.clone(),
            explicit: flag(pod.explicit),
            owner: ItunesOwner { name: pod.author.clone(), email: pod.author_email.clone() },
            subtitle: pod.subtitle.clone(),
            summary: pod.description.clone(),
            keywords: join(&pod.keywords, ", "),
        },
        namespaces: namespaces(),
        items,
    }
}

/// The format tags of a list of documents.
pub open spec fn document_tags(documents: Seq<FeedDocument>) -> Seq<Seq<char>> {
    documents.map_values(|d: FeedDocument| d.format@)
}

/// Finds the document of the feed of `tag`.
pub fn position(documents: &Vec<FeedDocument>, tag: &str) -> (at: Option<usize>)
    ensures
        match at {
            Some(k) => k < documents.len() && documents[k as int].format@ == tag@,
            None => !document_tags(documents@).contains(tag@),
        },
{
    let mut k: usize = 0;
    while k < documents.len()
        invariant
            k <= documents.len(),
            forall|j: int| 0 <= j < k ==> document_tags(documents@)[j] != tag@,
        decreases documents.len() - k,
    {
        if same_text(documents[k].format.as_str(), tag) {
            return Some(k);
        }
        k = k + 1;
    }
    None
}

/// Walking more files keeps the tags that were there, in place, and adds no
/// tag twice.
pub proof fn lemma_episode_tags_extend(
    formats: Set<Seq<char>>,
    files: Seq<Seq<char>>,
    upto: int,
    seen: Seq<Seq<char>>,
)
    ensures
        seen.len() <= episode_tags(formats, files, upto, seen).len(),
        forall|k: int| 0 <= k < seen.len() ==> episode_tags(formats, files, upto, seen)[k] == seen[k],
        seen.no_duplicates() ==> episode_tags(formats, files, upto, seen).no_duplicates(),
    decreases upto,
{
    if upto > 0 {
        lemma_episode_tags_extend(formats, files, upto - 1, seen);
    }
}

/// The extension of a walked file that is one of the formats is among the
/// tags.
pub proof fn lemma_listed_is_tagged(
    formats: Set<Seq<char>>,
    files: Seq<Seq<char>>,
    upto: int,
    seen: Seq<Seq<char>>,
    g: int,
)
    requires
        0 <= g < upto,
        formats.contains(extension_of(files[g])),
    ensures
        episode_tags(formats, files, upto, seen).contains(extension_of(files[g])),
    decreases upto,
{
    let before = episode_tags(formats, files, upto - 1, seen);
    let after = episode_tags(formats, files, upto, seen);
    let tag = extension_of(files[g]);
    if g < upto - 1 {
        lemma_listed_is_tagged(formats, files, upto - 1, seen, g);
        let k = choose|k: int| 0 <= k < before.len() && before[k] == tag;
        assert(after[k] == tag);
    } else if !before.contains(tag) {
        assert(after[before.len() as int] == tag);
    }
}

/// A tag that is absent after a walk was absent before it.
pub proof fn lemma_absent_tag(
    formats: Set<Seq<char>>,
    files: Seq<Seq<char>>,
    upto: int,
    seen: Seq<Seq<char>>,
    tag: Seq<char>,
)
    requires
        !episode_tags(formats, files, upto, seen).contains(tag),
    ensures
        !seen.contains(tag),
        upto > 0 ==> !episode_tags(formats, files, upto - 1, seen).contains(tag),
{
    lemma_episode_tags_extend(formats, files, upto, seen);
    if seen.contains(tag) {
        let k = choose|k: int| 0 <= k < seen.len() && seen[k] == tag;
        assert(episode_tags(formats, files, upto, seen)[k] == tag);
    }
    if upto > 0 {
        let before = episode_tags(formats, files, upto - 1, seen);
        if before.contains(tag) {
            let k = choose|k: int| 0 <= k < before.len() && before[k] == tag;
            assert(episode_tags(formats, files, upto, seen)[k] == tag);
        }
    }
}

/// An episode adds no item to the feed of a tag that is absent after its
/// files were walked.
pub proof fn lemma_untagged_episode_items(
    p: PodcastView,
    ep: EpisodeView,
    tag: Seq<char>,
    upto: int,
    seen: Seq<Seq<char>>,
)
    requires
        upto <= ep.files.len(),
        !episode_tags(p.formats, ep.files, upto, seen).contains(tag),
    ensures
        episode_items(p, ep, tag, upto) == Seq::<FeedItemView>::empty(),
    decreases upto,
{
    if upto > 0 {
        lemma_absent_tag(p.formats, ep.files, upto, seen, tag);
        lemma_untagged_episode_items(p, ep, tag, upto - 1, seen);
        if p.formats.contains(extension_of(ep.files[upto - 1])) {
            lemma_listed_is_tagged(p.formats, ep.files, upto, seen, upto - 1);
        }
    }
}

/// The feed of a tag that is absent after the first `upto` episodes has no
/// item from them.
pub proof fn lemma_untagged_feed_items(p: PodcastView, tag: Seq<char>, upto: int)
    requires
        upto <= p.episodes.len(),
        !feed_tags(p, upto).contains(tag),
    ensures
        feed_items(p, tag, upto) == Seq::<FeedItemView>::empty(),
    decreases upto,
{
    if upto > 0 {
        let ep = p.episodes[upto - 1];
        let n = ep.files.len() as int;
        lemma_absent_tag(p.formats, ep.files, n, feed_tags(p, upto - 1), tag);
        lemma_untagged_feed_items(p, tag, upto - 1);
        lemma_untagged_episode_items(p, ep, tag, n, feed_tags(p, upto - 1));
    }
}

/// Copies a transcript pointer.
pub fn clone_transcript(transcript: &Option<Transcript>) -> (copy: Option<Transcript>)
    ensures
        transcript_view(copy) == transcript_view(*transcript),
{
    match transcript {
        Some(t) => Some(Transcript { url: t.url.clone(), kind: t.kind.clone() }),
        None => None,
    }
}

/// A tag that is absent while the first `f` files of episode `e` have been
/// walked has no item yet.
pub proof fn lemma_untagged_feed_items_at(p: PodcastView, ep: EpisodeView, tag: Seq<char>, e: int, f: int)
    requires
        0 <= e < p.episodes.len(),
        ep == p.episodes[e],
        0 <= f <= ep.files.len(),
        !episode_tags(p.formats, ep.files, f, feed_tags(p, e)).contains(tag),
    ensures
        feed_items(p, tag, e) == Seq::<FeedItemView>::empty(),
        episode_items(p, ep, tag, f) == Seq::<FeedItemView>::empty(),
{
    lemma_absent_tag(p.formats, ep.files, f, feed_tags(p, e), tag);
    lemma_untagged_feed_items(p, tag, e);
    lemma_untagged_episode_items(p, ep, tag, f, feed_tags(p, e));
}

/// What synthesis owes for a podcast: the feeds where no episode fails, and
/// otherwise the error of the first episode that does.
pub open spec fn synthesized(p: PodcastView, r: Result<FeedsView, SynthesisErrorView>) -> bool {
    match r {
        Ok(feeds) => !fails(p) && feeds == synthesis(p),
        Err(SynthesisErrorView::UnsupportedTranscriptFormat { episode, extension }) => {
            &&& episode < p.episodes.len()
            &&& episode_fails(p, p.episodes[episode as int])
            &&& forall|d: int| 0 <= d < episode ==> !episode_fails(p, #[trigger] p.episodes[d])
            &&& extension == extension_of(p.episodes[episode as int].transcript_url->0)
        },
    }
}

/// The view of a synthesis result.
pub open spec fn result_view(r: Result<Feeds, SynthesisError>) -> Result<FeedsView, SynthesisErrorView> {
    match r {
        Ok(feeds) => Ok(feeds@),
        Err(error) => Err(error@),
    }
}

/// The documents so far, while the first `f` files of episode `e` have been
/// walked: their tags in order of first occurrence, each once, and each
/// document with the items of its format.
pub open spec fn documents_at(p: PodcastView, documents: Seq<FeedDocument>, e: int, f: int) -> bool {
    let ep = p.episodes[e];
    &&& document_tags(documents) == episode_tags(p.formats, ep.files, f, feed_tags(p, e))
    &&& document_tags(documents).no_duplicates()
    &&& forall|k: int|
        0 <= k < documents.len() ==> (#[trigger] documents[k])@ == document_with(
            p,
            documents[k].format@,
            feed_items(p, documents[k].format@, e) + episode_items(p, ep, documents[k].format@, f),
        )
}

/// Synthesizes the feeds of a podcast: one document per format tag that at
/// least one accepted file carries, in the order in which the tags first
/// occur, each with one item per accepted file of that format in episode
/// order; and a diagnostic for each file that was left out. Fails where an
/// episode with a file in one of the formats names a transcript whose
/// extension is not supported.
pub fn generate_xmls(pod: Podcast) -> (r: Result<Feeds, SynthesisError>)
    ensures
        synthesized(pod@, result_view(r)),
{
    let ghost p = pod@;
    let mut documents: Vec<FeedDocument> = Vec::new();
    let mut diagnostics: Vec<Diagnostic> = Vec::new();
    let mut e: usize = 0;
    proof {
        assert(document_tags(documents@) =~= feed_tags(p, 0));
        assert(diagnostic_views(diagnostics@) =~= feed_diagnostics(p, 0));
    }
    while e < pod.episodes.len()
        invariant
            p == pod@,
            e <= pod.episodes.len(),
            e < pod.episodes.len() ==> documents_at(p, documents@, e as int, 0),
            e == pod.episodes.len() ==> {
                &&& document_tags(documents@) == feed_tags(p, e as int)
                &&& forall|k: int|
                    0 <= k < documents.len() ==> (#[trigger] documents[k])@ == document_of(
                        p,
                        documents[k].format@,
                    )
            },
            diagnostic_views(diagnostics@) == feed_diagnostics(p, e as int),
            forall|d: int| 0 <= d < e ==> !episode_fails(p, #[trigger] p.episodes[d]),
        decreases pod.episodes.len() - e,
    {
        let episode = &pod.episodes[e];
        let ghost ep = p.episodes[e as int];
        assert(ep == episode@);
        let transcript = resolve_transcript(episode);
        let mut f: usize = 0;
        proof {
            assert(diagnostic_views(diagnostics@) =~= feed_diagnostics(p, e as int)
                + episode_diagnostics(p, ep, 0));
        }
        while f < episode.files.len()
            invariant
                p == pod@,
                e < pod.episodes.len(),
                episode == &pod.episodes[e as int],
                ep == p.episodes[e as int],
                ep == episode@,
                f <= episode.files.len(),
                forall|d: int| 0 <= d < e ==> !episode_fails(p, #[trigger] p.episodes[d]),
                documents_at(p, documents@, e as int, f as int),
                diagnostic_views(diagnostics@) == feed_diagnostics(p, e as int) + episode_diagnostics(
                    p,
                    ep,
                    f as int,
                ),
                match transcript {
                    Ok(t) => !transcript_unsupported(ep) && transcript_view(t) == transcript_of(ep),
                    Err(extension) => {
                        &&& transcript_unsupported(ep)
                        &&& extension@ == extension_of(ep.transcript_url->0)
                        &&& forall|g: int|
                            0 <= g < f ==> !p.formats.contains(extension_of(#[trigger] ep.files[g]))
                    },
                },
            decreases episode.files.len() - f,
        {
            let file = &episode.files[f];
            let extension = file_extension(file.as_str());
            let ghost tags = document_tags(documents@);
            let ghost old_documents = documents@;
            let ghost old_diagnostics = diagnostic_views(diagnostics@);
            proof {
                assert(ep.files[f as int] == file@);
                assert(p.formats.contains(extension@) <==> texts(pod.formats@).contains(extension@));
            }
            if !contains_text(&pod.formats, extension.as_str()) {
                diagnostics.push(
                    Diagnostic::UnlistedFormat {
                        extension,
                        file: file.clone(),
                        episode: episode.title.clone(),
                    },
                );
                proof {
                    assert(diagnostic_views(diagnostics@) =~= old_diagnostics.push(
                        diagnostics@.last()@,
                    ));
                    assert(feed_diagnostics(p, e as int) + episode_diagnostics(p, ep, f + 1)
                        =~= old_diagnostics.push(diagnostics@.last()@));
                }
            } else if seen_before(&episode.files, f, extension.as_str()) {
                proof {
                    let g = choose|g: int|
                        0 <= g < f && g < ep.files.len() && extension_of(#[trigger] ep.files[g])
                            == extension@;
                    lemma_listed_is_tagged(p.formats, ep.files, f as int, feed_tags(p, e as int), g);
                }
                diagnostics.push(
                    Diagnostic::DuplicateFormat {
                        extension,
                        file: file.clone(),
                        episode: episode.title.clone(),
                    },
                );
                proof {
                    assert(diagnostic_views(diagnostics@) =~= old_diagnostics.push(
                        diagnostics@.last()@,
                    ));
                    assert(feed_diagnostics(p, e as int) + episode_diagnostics(p, ep, f + 1)
                        =~= old_diagnostics.push(diagnostics@.last()@));
                }
            } else {
                proof {
                    assert(accepted(p.formats, ep.files, f as int));
                }
                match &transcript {
                    Err(unsupported) => {
                        proof {
                            assert(p.formats.contains(extension_of(ep.files[f as int])));
                            assert(episode_fails(p, ep));
                        }
                        return Err(
                            SynthesisError::UnsupportedTranscriptFormat {
                                episode: e,
                                extension: unsupported.clone(),
                            },
                        );
                    },
                    Ok(pointer) => {
                        let item = build_item(&pod, episode, file, clone_transcript(pointer));
                        match position(&documents, extension.as_str()) {
                            Some(k) => {
                                let mut document = documents.remove(k);
                                let ghost before = document;
                                document.items.push(item);
                                proof {
                                    assert(item_views(document.items@) =~= item_views(
                                        before.items@,
                                    ).push(item@));
                                    assert(item_views(document.items@) =~= feed_items(
                                        p,
                                        extension@,
                                        e as int,
                                    ) + episode_items(p, ep, extension@, f + 1));
                                }
                                documents.insert(k, document);
                                proof {
                                    assert(document_tags(documents@) =~= tags);
                                    assert(tags[k as int] == extension@);
                                    assert forall|j: int| 0 <= j < documents.len() implies (
                                    #[trigger] documents[j])@ == document_with(
                                        p,
                                        documents[j].format@,
                                        feed_items(p, documents[j].format@, e as int) + episode_items(
                                            p,
                                            ep,
                                            documents[j].format@,
                                            f + 1,
                                        ),
                                    ) by {
                                        if j != k {
                                            assert(documents[j] == old_documents[j]);
                                            assert(tags[j] == documents[j].format@);
                                        }
                                    }
                                }
                            },
                            None => {
                                let mut items: Vec<FeedItem> = Vec::new();
                                items.push(item);
                                proof {
                                    lemma_untagged_feed_items_at(p, ep, extension@, e as int, f as int);
                                    assert(item_views(items@) =~= feed_items(p, extension@, e as int)
                                        + episode_items(p, ep, extension@, f + 1));
                                }
                                let document = new_document(&pod, extension, items);
                                documents.push(document);
                                proof {
                                    assert(document_tags(documents@) =~= tags.push(extension@));
                                    assert forall|j: int| 0 <= j < documents.len() implies (
                                    #[trigger] documents[j])@ == document_with(
                                        p,
                                        documents[j].format@,
                                        feed_items(p, documents[j].format@, e as int) + episode_items(
                                            p,
                                            ep,
                                            documents[j].format@,
                                            f + 1,
                                        ),
                                    ) by {
                                        if j < old_documents.len() {
                                            assert(documents[j] == old_documents[j]);
                                            assert(tags[j] == documents[j].format@);
                                        }
                                    }
                                }
                            },
                        }
                    },
                }
            }
            f = f + 1;
        }
        e = e + 1;
        proof {
            assert(!episode_fails(p, ep));
            if e < pod.episodes.len() {
                assert(documents_at(p, documents@, e as int, 0));
            } else {
                assert forall|k: int| 0 <= k < documents.len() implies (#[trigger] documents[k])@
                    == document_of(p, documents[k].format@) by {}
            }
        }
    }
    proof {
        let n = p.episodes.len() as int;
        assert(document_views(documents@) =~= feed_tags(p, n).map_values(
            |tag: Seq<char>| document_of(p, tag),
        )) by {
            assert forall|k: int| 0 <= k < documents.len() implies document_views(documents@)[k]
                == document_of(p, feed_tags(p, n)[k]) by {
                assert(document_tags(documents@)[k] == documents[k].format@);
            }
        }
    }
    Ok(Feeds { documents, diagnostics })
}

} // verus!
