//! Laws of feed synthesis: which files the feeds hold, which feeds exist, and
//! that the result is determined by the podcast.

use vstd::prelude::*;
use crate::feed::{FeedItemView, FeedsView, SynthesisErrorView};
use crate::model::PodcastView;
use crate::synth::{
    accepted, document_of, episode_fails, episode_items, episode_tags, feed_items, feed_tags, has_extension,
    item_of, lemma_absent_tag, lemma_episode_tags_extend, lemma_listed_is_tagged, synthesis,
    synthesized,
};
use crate::text::extension_of;

verus! {

/// The positions, as (episode, file), of the accepted files with extension
/// `tag` among the first `upto` files of episode `e`, in file order.
pub open spec fn episode_sources(p: PodcastView, e: int, tag: Seq<char>, upto: int) -> Seq<(int, int)>
    decreases upto,
{
    if upto <= 0 {
        Seq::empty()
    } else {
        let before = episode_sources(p, e, tag, upto - 1);
        let files = p.episodes[e].files;
        if accepted(p.formats, files, upto - 1) && extension_of(files[upto - 1]) == tag {
            before.push((e, upto - 1))
        } else {
            before
        }
    }
}

/// The positions of the accepted files with extension `tag` among the first
/// `upto` episodes, in episode order.
pub open spec fn feed_sources(p: PodcastView, tag: Seq<char>, upto: int) -> Seq<(int, int)>
    decreases upto,
{
    if upto <= 0 {
        Seq::empty()
    } else {
        feed_sources(p, tag, upto - 1) + episode_sources(
            p,
            upto - 1,
            tag,
            p.episodes[upto - 1].files.len() as int,
        )
    }
}

/// The item that stands for the file at a position.
pub open spec fn item_at(p: PodcastView, at: (int, int)) -> FeedItemView {
    item_of(p, p.episodes[at.0], p.episodes[at.0].files[at.1])
}

/// Tells whether the file at a position is accepted.
pub open spec fn accepted_at(p: PodcastView, at: (int, int)) -> bool {
    0 <= at.0 < p.episodes.len() && accepted(p.formats, p.episodes[at.0].files, at.1)
}

/// The extension of the file at a position.
pub open spec fn extension_at(p: PodcastView, at: (int, int)) -> Seq<char> {
    extension_of(p.episodes[at.0].files[at.1])
}

proof fn lemma_episode_sources(p: PodcastView, e: int, tag: Seq<char>, upto: int)
    ensures
        episode_items(p, p.episodes[e], tag, upto) == episode_sources(p, e, tag, upto).map_values(
            |at: (int, int)| item_at(p, at),
        ),
        episode_sources(p, e, tag, upto).len() <= 1,
        forall|at: (int, int)|
            #[trigger] episode_sources(p, e, tag, upto).contains(at) <==> at.0 == e && 0 <= at.1 < upto && accepted(
                p.formats,
                p.episodes[e].files,
                at.1,
            ) && extension_of(p.episodes[e].files[at.1]) == tag,
    decreases upto,
{
    let sources = episode_sources(p, e, tag, upto);
    let files = p.episodes[e].files;
    if upto > 0 {
        lemma_episode_sources(p, e, tag, upto - 1);
        let before = episode_sources(p, e, tag, upto - 1);
        if accepted(p.formats, files, upto - 1) && extension_of(files[upto - 1]) == tag {
            if before.len() > 0 {
                assert(before.contains(before[0]));
                assert(extension_of(files[before[0].1]) == tag);
                assert(has_extension(files, upto - 1, tag));
            }
            assert(sources[before.len() as int] == (e, upto - 1));
            assert forall|at: (int, int)| #[trigger] sources.contains(at) implies at.0 == e && 0
                <= at.1 < upto && accepted(p.formats, files, at.1) && extension_of(files[at.1])
                == tag by {
                let k = choose|k: int| 0 <= k < sources.len() && sources[k] == at;
                if k < before.len() {
                    assert(before[k] == at);
                    assert(before.contains(at));
                }
            }
        }
        assert forall|at: (int, int)|
            at.0 == e && 0 <= at.1 < upto && accepted(p.formats, files, at.1) && extension_of(
                files[at.1],
            ) == tag implies #[trigger] sources.contains(at) by {
            if at.1 < upto - 1 {
                assert(before.contains(at));
                let k = choose|k: int| 0 <= k < before.len() && before[k] == at;
                assert(sources[k] == at);
            } else {
                assert(sources[before.len() as int] == at);
            }
        }
    }
    assert(episode_items(p, p.episodes[e], tag, upto) =~= sources.map_values(
        |at: (int, int)| item_at(p, at),
    ));
}

proof fn lemma_feed_sources(p: PodcastView, tag: Seq<char>, upto: int)
    requires
        upto <= p.episodes.len(),
    ensures
        feed_items(p, tag, upto) == feed_sources(p, tag, upto).map_values(
            |at: (int, int)| item_at(p, at),
        ),
        forall|at: (int, int)|
            #[trigger] feed_sources(p, tag, upto).contains(at) <==> at.0 < upto && accepted_at(p, at)
                && extension_at(p, at) == tag,
        forall|i: int, j: int|
            0 <= i < j < feed_sources(p, tag, upto).len() ==> feed_sources(p, tag, upto)[i].0
                < feed_sources(p, tag, upto)[j].0,
    decreases upto,
{
    let sources = feed_sources(p, tag, upto);
    if upto > 0 {
        let e = upto - 1;
        let n = p.episodes[e].files.len() as int;
        lemma_feed_sources(p, tag, e);
        lemma_episode_sources(p, e, tag, n);
        let before = feed_sources(p, tag, e);
        let last = episode_sources(p, e, tag, n);
        assert forall|at: (int, int)| #[trigger] sources.contains(at) implies at.0 < upto
            && accepted_at(p, at) && extension_at(p, at) == tag by {
            let k = choose|k: int| 0 <= k < sources.len() && sources[k] == at;
            if k < before.len() {
                assert(before[k] == at);
                assert(before.contains(at));
            } else {
                assert(last[k - before.len()] == at);
                assert(last.contains(at));
            }
        }
        assert forall|at: (int, int)|
            at.0 < upto && accepted_at(p, at) && extension_at(p, at) == tag implies #[trigger] sources.contains(
            at,
        ) by {
            if at.0 < e {
                assert(before.contains(at));
                let k = choose|k: int| 0 <= k < before.len() && before[k] == at;
                assert(sources[k] == at);
            } else {
                assert(last.contains(at));
                let k = choose|k: int| 0 <= k < last.len() && last[k] == at;
                assert(sources[before.len() + k] == at);
            }
        }
        assert forall|i: int, j: int| 0 <= i < j < sources.len() implies sources[i].0
            < sources[j].0 by {
            if j < before.len() {
                assert(sources[i] == before[i] && sources[j] == before[j]);
            } else {
                assert(sources[j] == last[j - before.len()]);
                assert(last.contains(last[j - before.len()]));
                assert(i < before.len());
                assert(sources[i] == before[i]);
                assert(before.contains(before[i]));
            }
        }
    }
    assert(feed_items(p, tag, upto) =~= sources.map_values(|at: (int, int)| item_at(p, at)));
}

/// The feed of a format holds, in episode order, exactly one item for each
/// accepted file with that extension, and no episode gives it two.
pub proof fn law_feed_items(p: PodcastView, tag: Seq<char>)
    ensures
        ({
            let n = p.episodes.len() as int;
            let sources = feed_sources(p, tag, n);
            &&& feed_items(p, tag, n) == sources.map_values(|at: (int, int)| item_at(p, at))
            &&& forall|at: (int, int)|
                #[trigger] sources.contains(at) <==> accepted_at(p, at) && extension_at(p, at) == tag
            &&& forall|i: int, j: int| 0 <= i < j < sources.len() ==> sources[i].0 < sources[j].0
        }),
{
    lemma_feed_sources(p, tag, p.episodes.len() as int);
}

proof fn lemma_episode_tags_exact(
    formats: Set<Seq<char>>,
    files: Seq<Seq<char>>,
    upto: int,
    seen: Seq<Seq<char>>,
    tag: Seq<char>,
)
    requires
        upto <= files.len(),
    ensures
        episode_tags(formats, files, upto, seen).contains(tag) <==> seen.contains(tag) || (
        formats.contains(tag) && has_extension(files, upto, tag)),
    decreases upto,
{
    let after = episode_tags(formats, files, upto, seen);
    if upto > 0 {
        let before = episode_tags(formats, files, upto - 1, seen);
        lemma_episode_tags_exact(formats, files, upto - 1, seen, tag);
        if after.contains(tag) {
            let k = choose|k: int| 0 <= k < after.len() && after[k] == tag;
            if k < before.len() {
                assert(before[k] == tag);
                if !seen.contains(tag) {
                    let g = choose|g: int|
                        0 <= g < upto - 1 && g < files.len() && extension_of(#[trigger] files[g])
                            == tag;
                    assert(has_extension(files, upto, tag));
                }
            } else {
                assert(extension_of(files[upto - 1]) == tag);
            }
        } else {
            lemma_absent_tag(formats, files, upto, seen, tag);
            if formats.contains(tag) && has_extension(files, upto, tag) {
                let g = choose|g: int|
                    0 <= g < upto && g < files.len() && extension_of(#[trigger] files[g]) == tag;
                lemma_listed_is_tagged(formats, files, upto, seen, g);
            }
        }
    }
}

/// Tells whether a file of one of the first `upto` episodes has the
/// extension `tag`.
pub open spec fn occurs(p: PodcastView, tag: Seq<char>, upto: int) -> bool {
    exists|e: int|
        0 <= e < upto && e < p.episodes.len() && has_extension(
            (#[trigger] p.episodes[e]).files,
            p.episodes[e].files.len() as int,
            tag,
        )
}

proof fn lemma_feed_tags(p: PodcastView, tag: Seq<char>, upto: int)
    requires
        upto <= p.episodes.len(),
    ensures
        feed_tags(p, upto).contains(tag) <==> p.formats.contains(tag) && occurs(p, tag, upto),
        feed_tags(p, upto).no_duplicates(),
    decreases upto,
{
    if upto > 0 {
        let ep = p.episodes[upto - 1];
        let n = ep.files.len() as int;
        lemma_feed_tags(p, tag, upto - 1);
        lemma_episode_tags_exact(p.formats, ep.files, n, feed_tags(p, upto - 1), tag);
        lemma_episode_tags_extend(p.formats, ep.files, n, feed_tags(p, upto - 1));
        if occurs(p, tag, upto) {
            let e = choose|e: int|
                0 <= e < upto && e < p.episodes.len() && has_extension(
                    (#[trigger] p.episodes[e]).files,
                    p.episodes[e].files.len() as int,
                    tag,
                );
            if e < upto - 1 {
                assert(occurs(p, tag, upto - 1));
            }
        }
        if occurs(p, tag, upto - 1) {
            let e = choose|e: int|
                0 <= e < upto - 1 && e < p.episodes.len() && has_extension(
                    (#[trigger] p.episodes[e]).files,
                    p.episodes[e].files.len() as int,
                    tag,
                );
            assert(occurs(p, tag, upto));
        }
        if has_extension(ep.files, n, tag) {
            assert(occurs(p, tag, upto));
        }
    }
}

/// A format has a feed exactly when it is one of the podcast's formats and
/// the extension of at least one episode file. No format has two feeds, and
/// no feed is without items.
pub proof fn law_feed_tags(p: PodcastView, tag: Seq<char>)
    ensures
        ({
            let n = p.episodes.len() as int;
            &&& feed_tags(p, n).contains(tag) <==> p.formats.contains(tag) && occurs(p, tag, n)
            &&& feed_tags(p, n).no_duplicates()
            &&& feed_tags(p, n).contains(tag) ==> document_of(p, tag).items.len() > 0
        }),
{
    let n = p.episodes.len() as int;
    lemma_feed_tags(p, tag, n);
    if feed_tags(p, n).contains(tag) {
        let e = choose|e: int|
            0 <= e < n && e < p.episodes.len() && has_extension(
                (#[trigger] p.episodes[e]).files,
                p.episodes[e].files.len() as int,
                tag,
            );
        let files = p.episodes[e].files;
        let f = first_with(files, files.len() as int, tag);
        lemma_first_with(files, files.len() as int, tag);
        lemma_feed_sources(p, tag, n);
        assert(accepted_at(p, (e, f)));
        assert(feed_sources(p, tag, n).contains((e, f)));
    }
}

/// The position of the first of the first `upto` files with extension `tag`.
pub open spec fn first_with(files: Seq<Seq<char>>, upto: int, tag: Seq<char>) -> int
    decreases upto,
{
    if upto <= 0 {
        0
    } else if has_extension(files, upto - 1, tag) {
        first_with(files, upto - 1, tag)
    } else {
        upto - 1
    }
}

proof fn lemma_first_with(files: Seq<Seq<char>>, upto: int, tag: Seq<char>)
    requires
        has_extension(files, upto, tag),
    ensures
        0 <= first_with(files, upto, tag) < upto,
        first_with(files, upto, tag) < files.len(),
        extension_of(files[first_with(files, upto, tag)]) == tag,
        !has_extension(files, first_with(files, upto, tag), tag),
    decreases upto,
{
    if upto > 0 {
        if has_extension(files, upto - 1, tag) {
            lemma_first_with(files, upto - 1, tag);
        } else {
            let g = choose|g: int|
                0 <= g < upto && g < files.len() && extension_of(#[trigger] files[g]) == tag;
            assert(g == upto - 1);
        }
    }
}

/// Format partitioning: the files that the feeds hold, all feeds together,
/// are exactly the accepted files, those whose extension is one of the
/// podcast's formats and that no earlier file of the same episode shares; and
/// each is held by the feed of its extension and by no other.
pub proof fn law_format_partitioning(p: PodcastView, at: (int, int))
    ensures
        ({
            let n = p.episodes.len() as int;
            let tags = feed_tags(p, n);
            &&& accepted_at(p, at) <==> exists|k: int|
                0 <= k < tags.len() && feed_sources(p, #[trigger] tags[k], n).contains(at)
            &&& forall|k: int|
                0 <= k < tags.len() && feed_sources(p, #[trigger] tags[k], n).contains(at)
                    ==> tags[k] == extension_at(p, at)
        }),
{
    let n = p.episodes.len() as int;
    let tags = feed_tags(p, n);
    assert forall|k: int| 0 <= k < tags.len() && feed_sources(p, #[trigger] tags[k], n).contains(
        at,
    ) implies tags[k] == extension_at(p, at) && accepted_at(p, at) by {
        lemma_feed_sources(p, tags[k], n);
    }
    if accepted_at(p, at) {
        let tag = extension_at(p, at);
        let files = p.episodes[at.0].files;
        lemma_feed_sources(p, tag, n);
        lemma_feed_tags(p, tag, n);
        assert(has_extension(files, files.len() as int, tag));
        assert(occurs(p, tag, n));
        let k = choose|k: int| 0 <= k < tags.len() && tags[k] == tag;
        assert(feed_sources(p, tags[k], n).contains(at));
    }
}

/// The documents of a synthesis follow the tags: there is one document for
/// each tag, in order, and its items are those of the tag's accepted files, in
/// order.
pub proof fn law_documents(p: PodcastView)
    ensures
        ({
            let n = p.episodes.len() as int;
            let tags = feed_tags(p, n);
            let documents = synthesis(p).documents;
            &&& documents.len() == tags.len()
            &&& forall|k: int|
                0 <= k < tags.len() ==> (#[trigger] documents[k]).format == tags[k]
                    && documents[k].items == feed_sources(p, tags[k], n).map_values(
                    |at: (int, int)| item_at(p, at),
                )
        }),
{
    let n = p.episodes.len() as int;
    let tags = feed_tags(p, n);
    assert forall|k: int| 0 <= k < tags.len() implies (#[trigger] synthesis(p).documents[k]).items
        == feed_sources(p, tags[k], n).map_values(|at: (int, int)| item_at(p, at)) by {
        lemma_feed_sources(p, tags[k], n);
    }
}

/// Determinism: what synthesis owes for a podcast is one result.
pub proof fn law_determinism(
    p: PodcastView,
    first: Result<FeedsView, SynthesisErrorView>,
    second: Result<FeedsView, SynthesisErrorView>,
)
    requires
        synthesized(p, first),
        synthesized(p, second),
    ensures
        first == second,
{
    match (first, second) {
        (
            Err(SynthesisErrorView::UnsupportedTranscriptFormat { episode: a, .. }),
            Err(SynthesisErrorView::UnsupportedTranscriptFormat { episode: b, .. }),
        ) => {
            if a < b {
                assert(!episode_fails(p, p.episodes[a as int]));
            }
            if b < a {
                assert(!episode_fails(p, p.episodes[b as int]));
            }
        },
        (Ok(_), Err(SynthesisErrorView::UnsupportedTranscriptFormat { episode, .. })) => {
            assert(episode_fails(p, p.episodes[episode as int]));
        },
        (Err(SynthesisErrorView::UnsupportedTranscriptFormat { episode, .. }), Ok(_)) => {
            assert(episode_fails(p, p.episodes[episode as int]));
        },
        _ => {},
    }
}

} // verus!
