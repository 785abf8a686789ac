//! The XML normalizer: every event of the input, with the text of each node
//! trimmed and empty elements expanded, written out again.

use vstd::prelude::*;
use crate::error::PipelineError;
use vstd::utf8::{decode_utf8, valid_utf8};

verus! {

#[verifier::external_type_specification]
#[verifier::external_body]
#[verifier::reject_recursive_types(R)]
pub struct ExReader<R>(quick_xml::Reader<R>);

#[verifier::external_type_specification]
#[verifier::external_body]
#[verifier::reject_recursive_types(W)]
pub struct ExWriter<W>(quick_xml::Writer<W>);

#[verifier::external_type_specification]
#[verifier::external_body]
pub struct ExEvent<'a>(quick_xml::events::Event<'a>);

#[verifier::external_type_specification]
#[verifier::external_body]
pub struct ExXmlError(quick_xml::Error);

/// What the reader was opened on.
pub uninterp spec fn reader_source(reader: quick_xml::Reader<&[u8]>) -> Seq<char>;

/// How many events the reader has handed out.
pub uninterp spec fn reader_reads(reader: quick_xml::Reader<&[u8]>) -> int;

/// The input from which an event was read.
pub uninterp spec fn event_source(event: quick_xml::events::Event) -> Seq<char>;

/// The position of an event in the order of reading, from 0.
pub uninterp spec fn event_index(event: quick_xml::events::Event) -> int;

/// The outcome of the read with index `k` on `input`, under the reader's
/// configuration: none for a parse error, `true` for the end of the input,
/// `false` for any other event.
pub uninterp spec fn xml_read(input: Seq<char>, k: int) -> Option<bool>;

/// The bytes written for the event with index `k` of `input`, or none where
/// writing it fails.
pub uninterp spec fn xml_event_bytes(input: Seq<char>, k: int) -> Option<Seq<u8>>;

/// What a writer holds.
pub uninterp spec fn writer_output(writer: quick_xml::Writer<Vec<u8>>) -> Seq<u8>;

/// How re-writing the events of an input ends.
pub enum XmlOutcome {
    Written(Seq<u8>),
    ParseError,
    WriteError,
    NoEnd,
}

/// The outcome once the events before index `k` are written as `acc`. Every
/// event but the end takes at least one character, so an input of `n`
/// characters has at most `n` of them.
pub open spec fn outcome_from(input: Seq<char>, k: int, acc: Seq<u8>) -> XmlOutcome
    decreases input.len() - k,
{
    match xml_read(input, k) {
        None => XmlOutcome::ParseError,
        Some(true) => XmlOutcome::Written(acc),
        Some(false) => if k < 0 || k >= input.len() {
            XmlOutcome::NoEnd
        } else {
            match xml_event_bytes(input, k) {
                None => XmlOutcome::WriteError,
                Some(b) => outcome_from(input, k + 1, acc + b),
            }
        },
    }
}

pub open spec fn xml_outcome(input: Seq<char>) -> XmlOutcome {
    outcome_from(input, 0, Seq::empty())
}

/// The canonical form of an XML text: its events re-written, where all of
/// them parse and are written and the result is UTF-8.
pub open spec fn canonical_xml(input: Seq<char>) -> Option<Seq<char>> {
    match xml_outcome(input) {
        XmlOutcome::Written(b) => if valid_utf8(b) { Some(decode_utf8(b)) } else { None },
        _ => None,
    }
}

pub open spec fn parse_error_prefix() -> Seq<char> {
    "Error parsing XML"@
}

/// Relies on quick_xml::Reader::from_str, configured to trim the text of each
/// node at both ends and to report `<a/>` as a start and an end.
#[verifier::external_body]
fn open_reader<'a>(input: &'a str) -> (r: quick_xml::Reader<&'a [u8]>)
    ensures
        reader_source(r) == input@,
        reader_reads(r) == 0,
{
    let mut reader = quick_xml::Reader::from_str(input);
    let config = reader.config_mut();
    config.trim_text_start = true;
    config.trim_text_end = true;
    config.expand_empty_elements = true;
    reader
}

/// Relies on quick_xml::Reader::read_event: the next event of the input, or
/// the parse error at that point; what it gives depends on the input and on
/// how many events came before.
#[verifier::external_body]
fn next_event<'a>(reader: &mut quick_xml::Reader<&'a [u8]>) -> (r: Result<quick_xml::events::Event<'a>, quick_xml::Error>)
    ensures
        reader_source(*final(reader)) == reader_source(*old(reader)),
        reader_reads(*final(reader)) == reader_reads(*old(reader)) + 1,
        r is Err <==> xml_read(reader_source(*old(reader)), reader_reads(*old(reader))) is None,
        r is Ok ==> event_source(r->Ok_0) == reader_source(*old(reader)),
        r is Ok ==> event_index(r->Ok_0) == reader_reads(*old(reader)),
{
    reader.read_event()
}

/// Tells the end of the input apart from the other events of
/// quick_xml::events::Event.
#[verifier::external_body]
fn is_end_of_input(event: &quick_xml::events::Event) -> (r: bool)
    ensures
        xml_read(event_source(*event), event_index(*event)) == Some(r),
{
    matches!(event, quick_xml::events::Event::Eof)
}

/// Relies on the `Display` of quick_xml::Error: the diagnostic of a failed
/// parse or write.
#[verifier::external_body]
fn describe_xml_error(e: &quick_xml::Error) -> String {
    e.to_string()
}

/// Relies on quick_xml::Writer::new over an empty byte vector.
#[verifier::external_body]
fn open_writer() -> (r: quick_xml::Writer<Vec<u8>>)
    ensures
        writer_output(r) == Seq::<u8>::empty(),
{
    quick_xml::Writer::new(Vec::new())
}

/// Relies on quick_xml::Writer::write_event: the event's bytes are appended
/// to what the writer holds.
#[verifier::external_body]
fn emit_event(writer: &mut quick_xml::Writer<Vec<u8>>, event: quick_xml::events::Event) -> (r: Result<(), quick_xml::Error>)
    ensures
        r is Err <==> xml_event_bytes(event_source(event), event_index(event)) is None,
        r is Ok ==> writer_output(*final(writer)) == writer_output(*old(writer)) + xml_event_bytes(
            event_source(event),
            event_index(event),
        )->Some_0,
{
    writer.write_event(event)
}

/// Relies on quick_xml::Writer::into_inner: the bytes written.
#[verifier::external_body]
fn written_bytes(writer: quick_xml::Writer<Vec<u8>>) -> (r: Vec<u8>)
    ensures
        r@ == writer_output(writer),
{
    writer.into_inner()
}

/// Relies on String::from_utf8: the text that the bytes encode, or none where
/// they are not UTF-8.
#[verifier::external_body]
fn utf8_text(bytes: Vec<u8>) -> (r: Option<String>)
    ensures
        r is Some <==> valid_utf8(bytes@),
        r is Some ==> r->Some_0@ == decode_utf8(bytes@),
{
    String::from_utf8(bytes).ok()
}

proof fn lemma_prefixed(prefix: Seq<char>, rest: Seq<char>)
    ensures
        prefix.is_prefix_of(prefix + rest),
{
    assert((prefix + rest).subrange(0, prefix.len() as int) =~= prefix);
}

/// Re-serializes an XML text in canonical form: the result is
/// `canonical_xml(input@)`, and it fails exactly where that has none. A parse
/// error gives a message that begins "Error parsing XML".
pub fn format_xml(input: &str) -> (r: Result<String, PipelineError>)
    ensures
        r is Ok <==> canonical_xml(input@) is Some,
        r is Ok ==> r->Ok_0@ == canonical_xml(input@)->Some_0,
        r is Err ==> r->Err_0 is Format,
        xml_outcome(input@) is ParseError ==> parse_error_prefix().is_prefix_of(r->Err_0.spec_message()@),
{
    let mut reader = open_reader(input);
    let mut writer = open_writer();
    let bound = input.unicode_len();
    let mut steps: usize = 0;
    loop
        invariant_except_break
            reader_reads(reader) == steps,
            xml_outcome(input@) == outcome_from(input@, steps as int, writer_output(writer)),
        invariant
            bound == input@.len(),
            steps <= bound,
            reader_source(reader) == input@,
        ensures
            xml_outcome(input@) == XmlOutcome::Written(writer_output(writer)),
        decreases bound - steps,
    {
        match next_event(&mut reader) {
            Ok(event) => {
                if is_end_of_input(&event) {
                    break;
                }
                if steps >= bound {
                    return Err(PipelineError::Format(String::from_str("Error writing XML: the input does not end")));
                }
                let ghost before = writer_output(writer);
                if let Err(e) = emit_event(&mut writer, event) {
                    let detail = describe_xml_error(&e);
                    return Err(PipelineError::Format(String::from_str("Error writing XML event: ").concat(detail.as_str())));
                }
                assert(outcome_from(input@, steps as int, before) == outcome_from(input@, steps + 1, writer_output(writer)));
                steps = steps + 1;
            },
            Err(e) => {
                let detail = describe_xml_error(&e);
                let m = String::from_str("Error parsing XML: ").concat(detail.as_str());
                proof {
                    reveal_strlit("Error parsing XML: ");
                    reveal_strlit("Error parsing XML");
                    lemma_prefixed("Error parsing XML: "@, detail@);
                    assert("Error parsing XML: "@.subrange(0, 17) =~= "Error parsing XML"@);
                }
                return Err(PipelineError::Format(m));
            },
        }
    }
    let bytes = written_bytes(writer);
    match utf8_text(bytes) {
        Some(text) => Ok(text),
        None => Err(PipelineError::Format(String::from_str("Invalid UTF-8 sequence"))),
    }
}

} // verus!
