use pfg::{generate_xmls, Episode, FeedDocument, FormatError, Logo, Podcast};

fn sample(transcript: Option<&str>) -> FeedDocument {
    let pod = Podcast {
        title: "Cast".to_string(),
        description: "A show.".to_string(),
        subtitle: "Shown".to_string(),
        author: "Author".to_string(),
        author_email: "author@example.org".to_string(),
        website: "https://example.org".to_string(),
        language: "English".to_string(),
        copyright: "Nobody".to_string(),
        webmaster: "web@example.org".to_string(),
        managing_editor: "editor@example.org".to_string(),
        formats: vec!["mp3".to_string()],
        hosting_base_url: "https://cdn.example.org".to_string(),
        keywords: vec!["alpha".to_string(), "beta".to_string()],
        explicit: false,
        logo: Logo {
            url: "https://example.org/logo.jpg".to_string(),
            title: "ignored".to_string(),
            link: "ignored".to_string(),
        },
        category: "Technology".to_string(),
        episodes: vec![
            Episode {
                title: "ep1".to_string(),
                url: "https://example.org/episodes/1".to_string(),
                description: "About ep1".to_string(),
                subtitle: "first".to_string(),
                files: vec!["ep1.mp3".to_string()],
                duration: "12:34".to_string(),
                publish_date: "Mon, 01 Jan 2024 00:00:00 GMT".to_string(),
                keywords: vec!["one".to_string(), "two".to_string()],
                length_bytes: 4096,
                transcript_url: transcript.map(|t| t.to_string()),
            },
            Episode {
                title: "ep2".to_string(),
                url: "https://example.org/episodes/2".to_string(),
                description: "About ep2".to_string(),
                subtitle: "second".to_string(),
                files: vec!["ep2.mp3".to_string()],
                duration: "1".to_string(),
                publish_date: "Tue, 02 Jan 2024 00:00:00 GMT".to_string(),
                keywords: vec![],
                length_bytes: 0,
                transcript_url: None,
            },
        ],
    };
    let mut feeds = generate_xmls(pod).expect("synthesis succeeds");
    assert_eq!(feeds.documents.len(), 1);
    feeds.documents.remove(0)
}

#[test]
fn channel_carries_the_document_texts() {
    let channel = sample(None).to_channel();
    assert_eq!(channel.title(), "Cast");
    assert_eq!(channel.link(), "https://example.org");
    assert_eq!(channel.description(), "A show.");
    assert_eq!(channel.language(), Some("English"));
    assert_eq!(channel.copyright(), Some("Nobody"));
    assert_eq!(channel.managing_editor(), Some("editor@example.org"));
    assert_eq!(channel.webmaster(), Some("web@example.org"));
    assert_eq!(channel.pub_date(), Some(""));
    assert_eq!(channel.last_build_date(), Some(""));
    assert_eq!(channel.generator(), Some("pfg-rs"));
    assert_eq!(channel.items().len(), 2);
}

#[test]
fn channel_carries_image_and_directory_record() {
    let channel = sample(None).to_channel();
    let image = channel.image().expect("the channel has an image");
    assert_eq!(image.url(), "https://example.org/logo.jpg");
    assert_eq!(image.title(), "Cast Logo");
    assert_eq!(image.link(), "https://example.org");
    let itunes = channel.itunes_ext().expect("the channel has a directory record");
    assert_eq!(itunes.author(), Some("Author"));
    assert_eq!(itunes.image(), Some("https://example.org/logo.jpg"));
    assert_eq!(itunes.explicit(), Some("false"));
    assert_eq!(itunes.subtitle(), Some("Shown"));
    assert_eq!(itunes.summary(), Some("A show."));
    assert_eq!(itunes.keywords(), Some("alpha, beta"));
    assert_eq!(itunes.categories().len(), 1);
    assert_eq!(itunes.categories()[0].text(), "Technology");
    assert!(itunes.categories()[0].subcategory().is_none());
    let owner = itunes.owner().expect("the record names an owner");
    assert_eq!(owner.name(), Some("Author"));
    assert_eq!(owner.email(), Some("author@example.org"));
}

#[test]
fn channel_declares_the_namespaces() {
    let channel = sample(None).to_channel();
    let namespaces: Vec<(&str, &str)> =
        channel.namespaces().iter().map(|(k, v)| (k.as_str(), v.as_str())).collect();
    assert_eq!(
        namespaces,
        vec![
            ("atom", "http://www.w3.org/2005/Atom"),
            ("itunes", "http://www.itunes.com/dtds/podcast-1.0.dtd"),
            ("podcast", "https://podcastindex.org/namespace/1.0"),
        ]
    );
}

#[test]
fn item_record_carries_the_item() {
    let document = sample(None);
    let item = document.items[0].to_item();
    assert_eq!(item.title(), Some("ep1"));
    assert_eq!(item.link(), Some("https://example.org/episodes/1"));
    assert_eq!(item.description(), Some("About ep1"));
    assert_eq!(item.author(), Some("author@example.org"));
    assert_eq!(item.pub_date(), Some("Mon, 01 Jan 2024 00:00:00 GMT"));
    let guid = item.guid().expect("the item has an identifier");
    assert_eq!(guid.value(), "https://cdn.example.org/ep1.mp3");
    assert!(guid.is_permalink());
    let enclosure = item.enclosure().expect("the item has an enclosure");
    assert_eq!(enclosure.url(), "https://cdn.example.org/ep1.mp3");
    assert_eq!(enclosure.mime_type(), "audio/mpeg");
    assert_eq!(enclosure.length(), "4096");
    let itunes = item.itunes_ext().expect("the item has a directory record");
    assert_eq!(itunes.author(), Some("Author"));
    assert_eq!(itunes.image(), Some("https://example.org/logo.jpg"));
    assert_eq!(itunes.duration(), Some("12:34"));
    assert_eq!(itunes.explicit(), Some("false"));
    assert_eq!(itunes.summary(), Some("About ep1"));
    assert_eq!(itunes.subtitle(), Some("first"));
    assert_eq!(itunes.keywords(), Some("one, two"));
    assert!(item.extensions().is_empty());
    assert_eq!(document.to_channel().items()[0], item);
}

#[test]
fn transcript_becomes_an_extension_element() {
    let item = sample(Some("ep1.vtt")).items[0].to_item();
    let elements = &item.extensions()["podcast"]["ext:name"];
    assert_eq!(elements.len(), 1);
    assert_eq!(elements[0].name(), "podcast:transcript");
    let attrs: Vec<(&str, &str)> =
        elements[0].attrs().iter().map(|(k, v)| (k.as_str(), v.as_str())).collect();
    assert_eq!(attrs, vec![("type", "text/vtt"), ("url", "ep1.vtt")]);
    assert_eq!(item.extensions().len(), 1);
    assert_eq!(item.extensions()["podcast"].len(), 1);
}

#[test]
fn items_keep_their_order() {
    let channel = sample(Some("ep1.srt")).to_channel();
    let titles: Vec<Option<&str>> = channel.items().iter().map(|i| i.title()).collect();
    assert_eq!(titles, vec![Some("ep1"), Some("ep2")]);
    assert!(!channel.items()[0].extensions().is_empty());
    assert!(channel.items()[1].extensions().is_empty());
}

#[test]
fn document_is_written_as_indented_xml() {
    let document = sample(Some("ep1.vtt"));
    let text = document.to_xml().expect("the channel serializes to well-formed XML");
    assert!(text.starts_with("<?xml version=\"1.0\" encoding=\"utf-8\"?>\n<rss "));
    assert!(text.contains("xmlns:itunes=\"http://www.itunes.com/dtds/podcast-1.0.dtd\""));
    assert!(text.contains("xmlns:podcast=\"https://podcastindex.org/namespace/1.0\""));
    assert!(text.contains("\n  <channel>\n    <title>Cast</title>\n"));
    assert!(text.contains("<podcast:transcript type=\"text/vtt\" url=\"ep1.vtt\" />"));
    assert!(text.contains(
        "<enclosure url=\"https://cdn.example.org/ep1.mp3\" length=\"4096\" type=\"audio/mpeg\" />"
    ));
    assert!(text.contains("\n      <guid>https://cdn.example.org/ep1.mp3</guid>\n"));
    assert!(text.contains("\n    <pubDate />\n    <lastBuildDate />\n    <generator>pfg-rs</generator>\n"));
    assert!(text.ends_with("\n    </item>\n  </channel>\n</rss>"));
    assert_eq!(text.matches("<item>").count(), 2);
    assert_eq!(
        text,
        pfg::format_xml(document.to_channel().to_string().as_bytes()).expect("well-formed")
    );
    let again: Result<String, FormatError> = pfg::format_xml(text.as_bytes());
    assert_eq!(again.expect("still well-formed"), text);
}
