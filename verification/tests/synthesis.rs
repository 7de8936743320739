use pfg::{
    generate_xmls, Diagnostic, Episode, FeedDocument, FeedEnclosure, FeedGuid, FeedItem, Feeds,
    ItunesCategory, ItunesChannel, ItunesItem, ItunesOwner, Logo, Namespace, Podcast,
    SynthesisError, Transcript,
};

fn episode(title: &str, files: &[&str], transcript: Option<&str>) -> Episode {
    Episode {
        title: title.to_string(),
        url: format!("https://example.org/episodes/{title}"),
        description: format!("About {title}"),
        subtitle: "a subtitle".to_string(),
        files: files.iter().map(|f| f.to_string()).collect(),
        duration: "12:34".to_string(),
        publish_date: "Mon, 01 Jan 2024 00:00:00 GMT".to_string(),
        keywords: vec!["one".to_string(), "two".to_string()],
        length_bytes: 4096,
        transcript_url: transcript.map(|t| t.to_string()),
    }
}

fn podcast(formats: &[&str], episodes: Vec<Episode>) -> Podcast {
    Podcast {
        title: "Cast".to_string(),
        description: "A show.".to_string(),
        subtitle: "Shown".to_string(),
        author: "Author".to_string(),
        author_email: "author@example.org".to_string(),
        website: "https://example.org".to_string(),
        language: "English".to_string(),
        copyright: "Nobody".to_string(),
        webmaster: "web@example.org".to_string(),
        managing_editor: "editor@example.org".to_string(),
        formats: formats.iter().map(|f| f.to_string()).collect(),
        hosting_base_url: "https://cdn.example.org".to_string(),
        keywords: vec!["alpha".to_string(), "beta".to_string(), "gamma".to_string()],
        explicit: false,
        logo: Logo {
            url: "https://example.org/logo.jpg".to_string(),
            title: "ignored".to_string(),
            link: "ignored".to_string(),
        },
        category: "Technology".to_string(),
        episodes,
    }
}

fn feeds(pod: Podcast) -> Feeds {
    generate_xmls(pod).expect("synthesis succeeds")
}

fn document<'a>(feeds: &'a Feeds, format: &str) -> &'a FeedDocument {
    feeds.documents.iter().find(|d| d.format == format).expect("the feed exists")
}

#[test]
fn duplicate_format_keeps_first_file() {
    let out = feeds(podcast(&["mp3"], vec![episode("ep1", &["ep1.mp3", "ep1-alt.mp3"], None)]));
    assert_eq!(out.documents.len(), 1);
    let mp3 = document(&out, "mp3");
    assert_eq!(mp3.items.len(), 1);
    assert_eq!(mp3.items[0].enclosure.url, "https://cdn.example.org/ep1.mp3");
    assert_eq!(
        out.diagnostics,
        vec![Diagnostic::DuplicateFormat {
            extension: "mp3".to_string(),
            file: "ep1-alt.mp3".to_string(),
            episode: "ep1".to_string(),
        }]
    );
}

#[test]
fn unknown_format_is_dropped() {
    let out = feeds(podcast(&["mp3"], vec![episode("ep1", &["ep1.ogg"], None)]));
    assert!(out.documents.is_empty());
    assert_eq!(
        out.diagnostics,
        vec![Diagnostic::UnlistedFormat {
            extension: "ogg".to_string(),
            file: "ep1.ogg".to_string(),
            episode: "ep1".to_string(),
        }]
    );
}

#[test]
fn transcript_is_attached_with_its_type() {
    let out = feeds(podcast(&["mp3"], vec![episode("ep1", &["ep1.mp3"], Some("ep1.vtt"))]));
    let item = &document(&out, "mp3").items[0];
    let transcript = item.transcript.as_ref().expect("the item has a transcript");
    assert_eq!(transcript.url, "ep1.vtt");
    assert_eq!(transcript.kind, "text/vtt");
}

#[test]
fn unsupported_transcript_fails() {
    let r = generate_xmls(podcast(
        &["mp3"],
        vec![
            episode("ep0", &["ep0.mp3"], Some("ep0.srt")),
            episode("ep1", &["ep1.mp3"], Some("transcript.xyz")),
        ],
    ));
    assert_eq!(
        r,
        Err(SynthesisError::UnsupportedTranscriptFormat { episode: 1, extension: "xyz".to_string() })
    );
}

#[test]
fn unused_format_has_no_feed() {
    let out = feeds(podcast(&["mp3", "m4a", "flac"], vec![episode("ep1", &["ep1.mp3"], None)]));
    assert_eq!(out.documents.len(), 1);
    assert_eq!(out.documents[0].format, "mp3");
    assert!(out.diagnostics.is_empty());
}

#[test]
fn item_carries_the_episode_and_the_file() {
    let out = feeds(podcast(&["mp3"], vec![episode("ep1", &["audio/ep1.mp3"], Some("ep1.txt"))]));
    assert_eq!(
        document(&out, "mp3").items,
        vec![FeedItem {
            title: "ep1".to_string(),
            link: "https://example.org/episodes/ep1".to_string(),
            description: "About ep1".to_string(),
            author: "author@example.org".to_string(),
            pub_date: "Mon, 01 Jan 2024 00:00:00 GMT".to_string(),
            guid: FeedGuid {
                value: "https://cdn.example.org/audio/ep1.mp3".to_string(),
                permalink: true,
            },
            enclosure: FeedEnclosure {
                url: "https://cdn.example.org/audio/ep1.mp3".to_string(),
                mime_type: "audio/mpeg".to_string(),
                length: 4096,
            },
            itunes: ItunesItem {
                author: "Author".to_string(),
                image: "https://example.org/logo.jpg".to_string(),
                duration: "12:34".to_string(),
                explicit: "false".to_string(),
                summary: "About ep1".to_string(),
                subtitle: "a subtitle".to_string(),
                keywords: "one, two".to_string(),
            },
            transcript: Some(Transcript {
                url: "ep1.txt".to_string(),
                kind: "text/plain".to_string(),
            }),
        }]
    );
}

#[test]
fn document_carries_the_channel_metadata() {
    let mut pod = podcast(&["mp3"], vec![episode("ep1", &["ep1.mp3"], None)]);
    pod.explicit = true;
    let out = feeds(pod);
    let mp3 = document(&out, "mp3");
    assert_eq!(mp3.title, "Cast");
    assert_eq!(mp3.link, "https://example.org");
    assert_eq!(mp3.description, "A show.");
    assert_eq!(mp3.language, "English");
    assert_eq!(mp3.copyright, "Nobody");
    assert_eq!(mp3.managing_editor, "editor@example.org");
    assert_eq!(mp3.webmaster, "web@example.org");
    assert_eq!(mp3.pub_date, "");
    assert_eq!(mp3.last_build_date, "");
    assert_eq!(mp3.generator, "pfg-rs");
    assert_eq!(
        mp3.image,
        Logo {
            url: "https://example.org/logo.jpg".to_string(),
            title: "Cast Logo".to_string(),
            link: "https://example.org".to_string(),
        }
    );
    assert_eq!(
        mp3.itunes,
        ItunesChannel {
            author: "Author".to_string(),
            category: ItunesCategory {
                text: "Technology".to_string(),
                itunesu_category: "".to_string(),
            },
            image: "https://example.org/logo.jpg".to_string(),
            explicit: "true".to_string(),
            owner: ItunesOwner {
                name: "Author".to_string(),
                email: "author@example.org".to_string(),
            },
            subtitle: "Shown".to_string(),
            summary: "A show.".to_string(),
            keywords: "alpha, beta, gamma".to_string(),
        }
    );
    assert_eq!(
        mp3.namespaces,
        vec![
            Namespace {
                prefix: "atom".to_string(),
                uri: "http://www.w3.org/2005/Atom".to_string(),
            },
            Namespace {
                prefix: "itunes".to_string(),
                uri: "http://www.itunes.com/dtds/podcast-1.0.dtd".to_string(),
            },
            Namespace {
                prefix: "podcast".to_string(),
                uri: "https://podcastindex.org/namespace/1.0".to_string(),
            },
        ]
    );
    assert_eq!(mp3.items[0].itunes.explicit, "true");
}

#[test]
fn files_are_partitioned_by_format() {
    let out = feeds(podcast(
        &["mp3", "m4a"],
        vec![
            episode("ep1", &["ep1.m4a", "ep1.mp3", "ep1.ogg"], None),
            episode("ep2", &["ep2.mp3", "ep2.mp3", "notes"], None),
            episode("ep3", &["ep3.mp3", "ep3.m4a", "again.m4a"], None),
        ],
    ));
    let formats: Vec<&str> = out.documents.iter().map(|d| d.format.as_str()).collect();
    assert_eq!(formats, vec!["m4a", "mp3"]);
    let urls = |format: &str| -> Vec<String> {
        document(&out, format).items.iter().map(|i| i.enclosure.url.clone()).collect()
    };
    assert_eq!(
        urls("m4a"),
        vec!["https://cdn.example.org/ep1.m4a", "https://cdn.example.org/ep3.m4a"]
    );
    assert_eq!(
        urls("mp3"),
        vec![
            "https://cdn.example.org/ep1.mp3",
            "https://cdn.example.org/ep2.mp3",
            "https://cdn.example.org/ep3.mp3",
        ]
    );
    let titles: Vec<&str> =
        document(&out, "mp3").items.iter().map(|i| i.title.as_str()).collect();
    assert_eq!(titles, vec!["ep1", "ep2", "ep3"]);
    let dropped: Vec<String> = out
        .diagnostics
        .iter()
        .map(|d| match d {
            Diagnostic::UnlistedFormat { file, .. } => format!("unlisted {file}"),
            Diagnostic::DuplicateFormat { file, .. } => format!("duplicate {file}"),
        })
        .collect();
    assert_eq!(
        dropped,
        vec!["unlisted ep1.ogg", "duplicate ep2.mp3", "unlisted notes", "duplicate again.m4a"]
    );
    let items: usize = out.documents.iter().map(|d| d.items.len()).sum();
    assert_eq!(items + out.diagnostics.len(), 9);
}

#[test]
fn synthesis_is_deterministic() {
    let pod = podcast(
        &["mp3", "flac"],
        vec![
            episode("ep1", &["ep1.flac", "ep1.mp3", "ep1.wav"], Some("ep1.srt")),
            episode("ep2", &["ep2.mp3"], None),
        ],
    );
    assert_eq!(generate_xmls(pod.clone()), generate_xmls(pod));
}

#[test]
fn mime_type_follows_the_lowercase_extension() {
    let out = feeds(podcast(
        &["MP3", "m4a", "flac", "wav"],
        vec![episode("ep1", &["a.MP3", "a.m4a", "a.flac", "a.wav", "a.mp3"], None)],
    ));
    let mime = |format: &str| document(&out, format).items[0].enclosure.mime_type.clone();
    assert_eq!(mime("MP3"), "audio/mpeg");
    assert_eq!(mime("m4a"), "audio/mp4");
    assert_eq!(mime("flac"), "audio/flac");
    assert_eq!(mime("wav"), "");
    assert_eq!(out.documents.len(), 4);
    assert_eq!(out.diagnostics.len(), 1);
}

#[test]
fn file_without_dot_is_its_own_extension() {
    let out = feeds(podcast(&["mp3"], vec![episode("ep1", &["mp3", "dir.v2/mp3"], None)]));
    let urls: Vec<&str> =
        document(&out, "mp3").items.iter().map(|i| i.enclosure.url.as_str()).collect();
    assert_eq!(urls, vec!["https://cdn.example.org/mp3"]);
    assert_eq!(
        out.diagnostics,
        vec![Diagnostic::UnlistedFormat {
            extension: "v2/mp3".to_string(),
            file: "dir.v2/mp3".to_string(),
            episode: "ep1".to_string(),
        }]
    );
}

#[test]
fn transcript_types_follow_the_table() {
    for (url, kind) in [("t.vtt", "text/vtt"), ("t.srt", "application/srt"), ("t.txt", "text/plain")] {
        let out = feeds(podcast(&["mp3"], vec![episode("ep1", &["ep1.mp3"], Some(url))]));
        let transcript = document(&out, "mp3").items[0].transcript.clone();
        assert_eq!(transcript, Some(Transcript { url: url.to_string(), kind: kind.to_string() }));
    }
    let out = feeds(podcast(&["mp3"], vec![episode("ep1", &["ep1.mp3"], None)]));
    assert_eq!(document(&out, "mp3").items[0].transcript, None);
}

#[test]
fn transcript_extension_is_matched_as_written() {
    let r = generate_xmls(podcast(&["mp3"], vec![episode("ep1", &["ep1.mp3"], Some("t.VTT"))]));
    assert_eq!(
        r,
        Err(SynthesisError::UnsupportedTranscriptFormat { episode: 0, extension: "VTT".to_string() })
    );
}

#[test]
fn unsupported_transcript_without_accepted_file_is_no_failure() {
    let out = feeds(podcast(&["mp3"], vec![episode("ep1", &["ep1.ogg"], Some("transcript.xyz"))]));
    assert!(out.documents.is_empty());
    assert_eq!(out.diagnostics.len(), 1);
}

#[test]
fn podcast_without_episodes_has_no_feed() {
    let out = feeds(podcast(&["mp3"], vec![]));
    assert!(out.documents.is_empty());
    assert!(out.diagnostics.is_empty());
}

#[test]
fn diagnostics_say_what_was_skipped() {
    let out = feeds(podcast(&["mp3"], vec![episode("ep1", &["a.mp3", "b.mp3", "c.ogg"], None)]));
    let messages: Vec<String> = out.diagnostics.iter().map(|d| d.message()).collect();
    assert_eq!(
        messages,
        vec![
            "We've already added a file of format 'mp3' for episode 'ep1'. Skipping file 'b.mp3' with duplicate format.",
            "This podcast does not have 'ogg' in the listed 'formats'! Skipping 'c.ogg' in episode 'ep1'.",
        ]
    );
}
