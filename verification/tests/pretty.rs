use pfg::{format_xml, write_events, FormatError};

#[test]
fn nested_elements_are_indented() {
    let text = format_xml(b"<a><b>text</b><c></c><d x=\"1\"/></a>").expect("well-formed");
    assert_eq!(
        text,
        "<?xml version=\"1.0\" encoding=\"UTF-8\"?>\n<a>\n  <b>text</b>\n  <c />\n  <d x=\"1\" />\n</a>"
    );
}

#[test]
fn whitespace_between_elements_is_dropped() {
    let spaced = format_xml(b"<a>\n\n   <b>  text  </b>\n</a>\n").expect("well-formed");
    let dense = format_xml(b"<a><b>text</b></a>").expect("well-formed");
    assert_eq!(spaced, dense);
}

#[test]
fn comments_are_kept_without_padding() {
    let text = format_xml(b"<a><!--note--><b/></a>").expect("well-formed");
    assert_eq!(
        text,
        "<?xml version=\"1.0\" encoding=\"UTF-8\"?>\n<a>\n  <!--note-->\n  <b />\n</a>"
    );
}

#[test]
fn pretty_printing_is_idempotent() {
    let inputs: [&[u8]; 4] = [
        b"<a><b>text</b><c></c></a>",
        b"<?xml version=\"1.0\" encoding=\"UTF-8\"?><rss version=\"2.0\"><channel><title>T &amp; U</title><item><guid isPermaLink=\"true\">x</guid></item></channel></rss>",
        b"<a><!-- a comment --><b x=\"1\" y=\"2\"/>tail</a>",
        b"<a xmlns:p=\"urn:p\"><p:b p:k=\"v\"/></a>",
    ];
    for input in inputs {
        let once = format_xml(input).expect("well-formed");
        let twice = format_xml(once.as_bytes()).expect("still well-formed");
        assert_eq!(twice, once);
    }
}

#[test]
fn malformed_input_is_rejected() {
    assert!(matches!(format_xml(b"<a><b></a>"), Err(FormatError::MalformedXml(_))));
    assert!(matches!(format_xml(b"<a>"), Err(FormatError::MalformedXml(_))));
    assert!(matches!(format_xml(b""), Err(FormatError::MalformedXml(_))));
    assert!(matches!(format_xml(b"not xml"), Err(FormatError::MalformedXml(_))));
    assert!(matches!(format_xml(b"<a>\xff</a>"), Err(FormatError::MalformedXml(_))));
}

#[test]
fn malformed_input_says_where() {
    match format_xml(b"<a>\n<b></a>") {
        Err(FormatError::MalformedXml(error)) => {
            let position = xml::common::Position::position(&error);
            assert_eq!(position.row, 1);
        },
        other => panic!("expected a malformed document, got {other:?}"),
    }
}

#[test]
fn events_are_written_in_order() {
    let events: Vec<_> = xml::reader::EventReader::new(&b"<a><b/></a>"[..]).into_iter().collect();
    let text = write_events(events).expect("the events come from a well-formed document");
    assert_eq!(text, "<?xml version=\"1.0\" encoding=\"UTF-8\"?>\n<a>\n  <b />\n</a>");
}

#[test]
fn no_events_give_no_text() {
    assert_eq!(write_events(Vec::new()).expect("nothing to refuse"), "");
}

#[test]
fn writer_refusal_is_reported() {
    let events = vec![Ok(xml::reader::XmlEvent::EndElement {
        name: xml::name::OwnedName::local("a"),
    })];
    assert!(matches!(write_events(events), Err(FormatError::Unwritable(_))));
}

#[test]
fn first_error_stops_the_writing() {
    let mut events: Vec<_> = xml::reader::EventReader::new(&b"<a><b></a>"[..]).into_iter().collect();
    assert!(events.last().expect("at least the error").is_err());
    events.push(Ok(xml::reader::XmlEvent::EndDocument));
    assert!(matches!(write_events(events), Err(FormatError::MalformedXml(_))));
}
