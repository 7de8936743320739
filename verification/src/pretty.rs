//! Pretty-printing of serialized XML: the document is read as a stream of
//! events and written again, indented.

use vstd::prelude::*;
use vstd::utf8::{decode_utf8, valid_utf8};

verus! {

#[verifier::external_type_specification]
#[verifier::external_body]
pub struct ExReaderEvent(xml::reader::XmlEvent);

#[verifier::external_type_specification]
#[verifier::external_body]
pub struct ExReaderError(xml::reader::Error);

#[verifier::external_type_specification]
#[verifier::external_body]
#[verifier::reject_recursive_types(W)]
pub struct ExEventWriter<W>(xml::writer::EventWriter<W>);

#[verifier::external_type_specification]
#[verifier::external_body]
pub struct ExWriterError(xml::writer::Error);

/// Why a document could not be pretty-printed.
#[derive(Debug)]
pub enum FormatError {
    /// The input is not well-formed XML; the reader's error says where.
    MalformedXml(xml::reader::Error),
    /// The writer refused one of the events that the reader gave.
    Unwritable(xml::writer::Error),
    /// What the writer put out is not UTF-8.
    NotUtf8,
}

/// The events that the reader gives for a document, up to and including the
/// end of the document or the first error.
pub uninterp spec fn parsed(raw: Seq<u8>, trim_whitespace: bool, ignore_comments: bool) -> Seq<
    Result<xml::reader::XmlEvent, xml::reader::Error>,
>;

/// A writer that has been handed nothing yet.
pub uninterp spec fn fresh_writer(indent: bool, normalize_empty: bool, autopad_comments: bool) -> xml::writer::EventWriter<
    Vec<u8>,
>;

/// Tells whether a reader event has a form that a writer takes.
pub uninterp spec fn writable(event: xml::reader::XmlEvent) -> bool;

/// The writer after it was handed an event, and whether it took it.
pub uninterp spec fn written(writer: xml::writer::EventWriter<Vec<u8>>, event: xml::reader::XmlEvent) -> (
    xml::writer::EventWriter<Vec<u8>>,
    Result<(), xml::writer::Error>,
);

/// The bytes that a writer has put out.
pub uninterp spec fn sink(writer: xml::writer::EventWriter<Vec<u8>>) -> Seq<u8>;

/// Reads a document with `xml::reader::ParserConfig::create_reader` and
/// collects the events of the reader's iterator. Trusted: the events depend
/// on the bytes and the two settings alone.
#[verifier::external_body]
fn read_events(src: &[u8], trim_whitespace: bool, ignore_comments: bool) -> (events: Vec<
    Result<xml::reader::XmlEvent, xml::reader::Error>,
>)
    ensures
        events@ == parsed(src@, trim_whitespace, ignore_comments),
{
    xml::reader::ParserConfig::new()
        .trim_whitespace(trim_whitespace)
        .ignore_comments(ignore_comments)
        .create_reader(src)
        .into_iter()
        .collect()
}

/// Makes a writer into a byte vector with
/// `xml::writer::EmitterConfig::create_writer`. Trusted: the writer depends
/// on the three settings alone.
#[verifier::external_body]
fn new_writer(indent: bool, normalize_empty: bool, autopad_comments: bool) -> (writer:
    xml::writer::EventWriter<Vec<u8>>)
    ensures
        writer == fresh_writer(indent, normalize_empty, autopad_comments),
{
    xml::writer::EmitterConfig::new()
        .perform_indent(indent)
        .normalize_empty_elements(normalize_empty)
        .autopad_comments(autopad_comments)
        .create_writer(Vec::new())
}

/// Asks `xml::reader::XmlEvent::as_writer_event` whether the event has a
/// writer form. Trusted: the answer depends on the event alone.
#[verifier::external_body]
fn is_writable(event: &xml::reader::XmlEvent) -> (yes: bool)
    ensures
        yes == writable(*event),
{
    event.as_writer_event().is_some()
}

/// Hands the writer form of an event to `xml::writer::EventWriter::write`.
/// Trusted: the writer afterwards and the outcome depend on the writer before
/// and the event alone.
#[verifier::external_body]
fn write_event(writer: &mut xml::writer::EventWriter<Vec<u8>>, event: &xml::reader::XmlEvent) -> (outcome:
    Result<(), xml::writer::Error>)
    requires
        writable(*event),
    ensures
        (*final(writer), outcome) == written(*old(writer), *event),
{
    match event.as_writer_event() {
        Some(form) => writer.write(form),
        None => Ok(()),
    }
}

/// Takes the bytes out of a writer with
/// `xml::writer::EventWriter::into_inner`.
#[verifier::external_body]
fn into_bytes(writer: xml::writer::EventWriter<Vec<u8>>) -> (bytes: Vec<u8>)
    ensures
        bytes@ == sink(writer),
{
    writer.into_inner()
}

/// Calls `String::from_utf8`. Trusted: it gives a string exactly for valid
/// UTF-8, and the string is what the bytes encode.
#[verifier::external_body]
fn text_of(bytes: Vec<u8>) -> (text: Option<String>)
    ensures
        text is Some <==> valid_utf8(bytes@),
        text is Some ==> text->0@ == decode_utf8(bytes@),
{
    String::from_utf8(bytes).ok()
}

/// Where the pump stands after the events from `from` on were handed to
/// `writer` in turn: the writer after the last event; or the reader's error,
/// where an event is one; or the writer's, where it refused an event.
pub open spec fn pumped(
    writer: xml::writer::EventWriter<Vec<u8>>,
    events: Seq<Result<xml::reader::XmlEvent, xml::reader::Error>>,
    from: int,
) -> Result<xml::writer::EventWriter<Vec<u8>>, FormatError>
    decreases events.len() - from,
{
    if from < 0 || from >= events.len() {
        Ok(writer)
    } else {
        match events[from] {
            Err(error) => Err(FormatError::MalformedXml(error)),
            Ok(event) => if !writable(event) {
                pumped(writer, events, from + 1)
            } else {
                match written(writer, event).1 {
                    Err(refusal) => Err(FormatError::Unwritable(refusal)),
                    Ok(_) => pumped(written(writer, event).0, events, from + 1),
                }
            },
        }
    }
}

/// The text that pretty-printing gives for a stream of reader events: what
/// an indenting writer has put out after every event with a writer form was
/// handed to it.
pub open spec fn formatted(events: Seq<Result<xml::reader::XmlEvent, xml::reader::Error>>) -> Result<
    Seq<char>,
    FormatError,
> {
    match pumped(fresh_writer(true, true, false), events, 0) {
        Err(error) => Err(error),
        Ok(writer) => if valid_utf8(sink(writer)) {
            Ok(decode_utf8(sink(writer)))
        } else {
            Err(FormatError::NotUtf8)
        },
    }
}

/// The view of a pretty-printing result.
pub open spec fn text_result(r: Result<String, FormatError>) -> Result<Seq<char>, FormatError> {
    match r {
        Ok(text) => Ok(text@),
        Err(error) => Err(error),
    }
}

/// Writes a stream of reader events as indented XML: empty elements in
/// their short form, comments without padding. Stops with `MalformedXml` at
/// the first event that is an error.
pub fn write_events(events: Vec<Result<xml::reader::XmlEvent, xml::reader::Error>>) -> (r: Result<
    String,
    FormatError,
>)
    ensures
        text_result(r) == formatted(events@),
{
    let ghost all = events@;
    let mut rest = events;
    let mut writer = new_writer(true, true, false);
    let mut i: usize = 0;
    while i < rest.len()
        invariant
            all == events@,
            rest@ == all,
            i <= rest.len(),
            pumped(fresh_writer(true, true, false), all, 0) == pumped(writer, all, i as int),
        decreases rest.len() - i,
    {
        match &rest[i] {
            Ok(event) => {
                if is_writable(event) {
                    match write_event(&mut writer, event) {
                        Ok(_) => {},
                        Err(refusal) => {
                            return Err(FormatError::Unwritable(refusal));
                        },
                    }
                }
            },
            Err(_) => {
                rest.truncate(i + 1);
                if let Some(Err(error)) = rest.pop() {
                    return Err(FormatError::MalformedXml(error));
                }
            },
        }
        i = i + 1;
    }
    match text_of(into_bytes(writer)) {
        Some(text) => Ok(text),
        None => Err(FormatError::NotUtf8),
    }
}

/// Pretty-prints a serialized XML document: whitespace between elements is
/// dropped, comments are kept, and the events are written again indented.
/// Fails with `MalformedXml` where the input is not well-formed.
pub fn format_xml(src: &[u8]) -> (r: Result<String, FormatError>)
    ensures
        text_result(r) == formatted(parsed(src@, true, false)),
{
    write_events(read_events(src, true, false))
}

} // verus!
