use pfg::{split_front_matter, Episode, FrontMatter, Metadata};

fn metadata(number: u32) -> Metadata {
    Metadata {
        episode: number,
        title: "Pilot".to_string(),
        date: "Tue, 02 Jan 2024 08:00:00 GMT".to_string(),
        description: "The first one.".to_string(),
        keywords: vec!["ignored".to_string()],
        transcript: Some("words".to_string()),
    }
}

#[test]
fn metadata_describes_an_episode() {
    assert_eq!(
        metadata(12).episode("https://example.org"),
        Episode {
            title: "Pilot".to_string(),
            url: "https://example.org/episodes/12".to_string(),
            description: "The first one.".to_string(),
            subtitle: "episode subtitle".to_string(),
            files: vec!["audio/DC12.mp3".to_string()],
            duration: "1".to_string(),
            publish_date: "Tue, 02 Jan 2024 08:00:00 GMT".to_string(),
            keywords: vec!["technology".to_string()],
            length_bytes: 0,
            transcript_url: Some("https://example.org/episodes/12.txt".to_string()),
        }
    );
}

#[test]
fn metadata_gives_the_page_path() {
    assert_eq!(metadata(0).url(), "/episode/0");
    assert_eq!(metadata(305).url(), "/episode/305");
}

fn parts(source: &str) -> Option<(String, Option<String>)> {
    split_front_matter(source.as_bytes()).map(|FrontMatter { metadata, body }| {
        (
            source[metadata.0..metadata.1].to_string(),
            body.map(|(from, to)| source[from..to].to_string()),
        )
    })
}

#[test]
fn front_matter_is_cut_at_the_fences() {
    assert_eq!(
        parts("---\ntitle: Pilot\n---\nHello.\n"),
        Some(("title: Pilot\n".to_string(), Some("Hello.\n".to_string())))
    );
    assert_eq!(
        parts("junk---\na: 1\n---\nbody\n---\nmore"),
        Some(("a: 1\n".to_string(), Some("body\n".to_string())))
    );
    assert_eq!(parts("---\nonly metadata"), Some(("only metadata".to_string(), None)));
    assert_eq!(parts("---\n---\n"), Some(("".to_string(), Some("".to_string()))));
    assert_eq!(parts("---\n"), Some(("".to_string(), None)));
}

#[test]
fn page_without_fence_has_no_front_matter() {
    assert_eq!(parts("no fences here\n"), None);
    assert_eq!(parts("---"), None);
    assert_eq!(parts("--- \n"), None);
    assert_eq!(parts(""), None);
}

#[test]
fn fences_do_not_overlap() {
    assert_eq!(
        split_front_matter(b"-----\n-\n"),
        Some(FrontMatter { metadata: (6, 8), body: None })
    );
    assert_eq!(parts("-----\nx"), Some(("x".to_string(), None)));
}
