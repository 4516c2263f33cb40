use vstd::prelude::*;
use vstd::utf8::{decode_utf8, valid_utf8};
use xml::writer::EventWriter;
use crate::events::{
    attribute_view, balanced, event_writable, events_view, lemma_push_balanced, open_count, writable,
    EventModel, SerializationError, XmlEvent,
};

verus! {

#[verifier::external_type_specification]
#[verifier::external_body]
#[verifier::reject_recursive_types(W)]
pub struct ExEventWriter<W>(xml::writer::EventWriter<W>);

#[verifier::external_type_specification]
#[verifier::external_body]
pub struct ExEmitterError(xml::writer::Error);

/// The events that a writer has accepted, in order.
pub uninterp spec fn accepted(w: EventWriter<Vec<u8>>) -> Seq<EventModel>;

/// Whether a writer was configured to indent its output.
pub uninterp spec fn indenting(w: EventWriter<Vec<u8>>) -> bool;

/// The bytes that xml-rs's writer, without a document declaration and
/// indenting or not, produces for a sequence of accepted events.
pub uninterp spec fn emitted_bytes(indent: bool, events: Seq<EventModel>) -> Seq<u8>;

/// The text of the document written for `events`.
pub open spec fn document_text(indent: bool, events: Seq<EventModel>) -> Seq<char> {
    decode_utf8(emitted_bytes(indent, events))
}

/// A start event with the given attributes, in order.
pub open spec fn start_with(name: Seq<char>, attributes: Seq<(Seq<char>, Seq<char>)>) -> EventModel {
    EventModel::Start { name, attributes }
}

/// Relies on xml-rs's `EmitterConfig` and `create_writer`: a fresh writer into an
/// empty buffer, indenting when asked and writing no document declaration.
#[verifier::external_body]
fn new_writer(indent: bool) -> (w: EventWriter<Vec<u8>>)
    ensures
        accepted(w) == Seq::<EventModel>::empty(),
        indenting(w) == indent,
{
    xml::writer::EmitterConfig::new()
        .perform_indent(indent)
        .write_document_declaration(false)
        .create_writer(Vec::new())
}

/// Relies on xml-rs's `EventWriter::write` of a start element without
/// attributes, which fails only when the sink does, and a `Vec` sink never fails.
#[verifier::external_body]
fn write_start(w: EventWriter<Vec<u8>>, name: &str) -> (r: Result<
    EventWriter<Vec<u8>>,
    xml::writer::Error,
>)
    ensures
        r is Ok,
        r is Ok ==> accepted(r->Ok_0) == accepted(w).push(start_with(name@, seq![])),
        r is Ok ==> indenting(r->Ok_0) == indenting(w),
{
    let mut w = w;
    match w.write(xml::writer::XmlEvent::start_element(name)) {
        Ok(()) => Ok(w),
        Err(e) => Err(e),
    }
}

/// Relies on xml-rs's `EventWriter::write` of a start element with one
/// attribute, which fails only when the sink does.
#[verifier::external_body]
fn write_start_1(w: EventWriter<Vec<u8>>, name: &str, k: &str, v: &str) -> (r: Result<
    EventWriter<Vec<u8>>,
    xml::writer::Error,
>)
    ensures
        r is Ok,
        r is Ok ==> accepted(r->Ok_0) == accepted(w).push(start_with(name@, seq![(k@, v@)])),
        r is Ok ==> indenting(r->Ok_0) == indenting(w),
{
    let mut w = w;
    match w.write(xml::writer::XmlEvent::start_element(name).attr(k, v)) {
        Ok(()) => Ok(w),
        Err(e) => Err(e),
    }
}

/// Relies on xml-rs's `EventWriter::write` of a start element with two
/// attributes, which fails only when the sink does.
#[verifier::external_body]
fn write_start_2(
    w: EventWriter<Vec<u8>>,
    name: &str,
    k1: &str,
    v1: &str,
    k2: &str,
    v2: &str,
) -> (r: Result<EventWriter<Vec<u8>>, xml::writer::Error>)
    ensures
        r is Ok,
        r is Ok ==> accepted(r->Ok_0) == accepted(w).push(
            start_with(name@, seq![(k1@, v1@), (k2@, v2@)]),
        ),
        r is Ok ==> indenting(r->Ok_0) == indenting(w),
{
    let mut w = w;
    match w.write(xml::writer::XmlEvent::start_element(name).attr(k1, v1).attr(k2, v2)) {
        Ok(()) => Ok(w),
        Err(e) => Err(e),
    }
}

/// Relies on xml-rs's `EventWriter::write` of a characters event, which fails
/// only when the sink does.
#[verifier::external_body]
fn write_characters(w: EventWriter<Vec<u8>>, text: &str) -> (r: Result<
    EventWriter<Vec<u8>>,
    xml::writer::Error,
>)
    ensures
        r is Ok,
        r is Ok ==> accepted(r->Ok_0) == accepted(w).push(EventModel::Text(text@)),
        r is Ok ==> indenting(r->Ok_0) == indenting(w),
{
    let mut w = w;
    match w.write(xml::writer::XmlEvent::characters(text)) {
        Ok(()) => Ok(w),
        Err(e) => Err(e),
    }
}

/// Relies on xml-rs's `EventWriter::write` of an end element, whose name the
/// writer takes from the innermost open element: it fails exactly when no
/// element is open (the sink never fails).
#[verifier::external_body]
fn write_end(w: EventWriter<Vec<u8>>) -> (r: Result<EventWriter<Vec<u8>>, xml::writer::Error>)
    ensures
        r is Ok <==> open_count(accepted(w)) > 0,
        r is Ok ==> accepted(r->Ok_0) == accepted(w).push(EventModel::End),
        r is Ok ==> indenting(r->Ok_0) == indenting(w),
{
    let mut w = w;
    match w.write(xml::writer::XmlEvent::end_element()) {
        Ok(()) => Ok(w),
        Err(e) => Err(e),
    }
}

/// Relies on xml-rs's `EventWriter::into_inner`: the buffer holds what the
/// accepted events were written as, all of it written from `str` text and
/// ASCII markup, so valid UTF-8.
#[verifier::external_body]
fn written_bytes(w: EventWriter<Vec<u8>>) -> (r: Vec<u8>)
    ensures
        valid_utf8(r@),
        r@ == emitted_bytes(indenting(w), accepted(w)),
{
    w.into_inner()
}

/// Relies on `String::from_utf8`: a string exactly when the bytes are UTF-8.
#[verifier::external_body]
fn utf8_string(b: Vec<u8>) -> (r: Option<String>)
    ensures
        r is Some <==> valid_utf8(b@),
        r is Some ==> r->Some_0@ == decode_utf8(b@),
{
    String::from_utf8(b).ok()
}

/// Writes `events` with xml-rs and returns the document text; the writer
/// refuses only an end event with no element open.
pub fn emit_document(events: &Vec<XmlEvent>, indent: bool) -> (r: Result<String, SerializationError>)
    requires
        writable(events_view(events@)),
    ensures
        r is Ok <==> balanced(events_view(events@)),
        r is Ok ==> r->Ok_0@ == document_text(indent, events_view(events@)),
        r is Err ==> r->Err_0 == SerializationError::Emitter,
{
    let mut w = new_writer(indent);
    assert(balanced(accepted(w))) by {
        assert forall|k: int| 0 <= k <= accepted(w).len() implies #[trigger] open_count(
            accepted(w).take(k),
        ) >= 0 by {
            assert(accepted(w).take(k) =~= Seq::<EventModel>::empty());
        }
    }
    let mut i: usize = 0;
    while i < events.len()
        invariant
            i <= events@.len(),
            writable(events_view(events@)),
            indenting(w) == indent,
            accepted(w) == events_view(events@.take(i as int)),
            balanced(accepted(w)),
        decreases events@.len() - i,
    {
        let ghost before = accepted(w);
        let step = match &events[i] {
            XmlEvent::StartElement { name, attributes } => {
                assert(event_writable(events_view(events@)[i as int]));
                assert(attributes@.len() <= 2);
                if attributes.len() == 0 {
                    write_start(w, name.as_str())
                } else if attributes.len() == 1 {
                    write_start_1(w, name.as_str(), attributes[0].0.as_str(), attributes[0].1.as_str())
                } else {
                    write_start_2(
                        w,
                        name.as_str(),
                        attributes[0].0.as_str(),
                        attributes[0].1.as_str(),
                        attributes[1].0.as_str(),
                        attributes[1].1.as_str(),
                    )
                }
            },
            XmlEvent::Characters(text) => write_characters(w, text.as_str()),
            XmlEvent::EndElement => write_end(w),
        };
        proof {
            let e = events@[i as int];
            assert(events@.take(i + 1) =~= events@.take(i as int).push(e));
            assert(events_view(events@.take(i + 1)) =~= events_view(events@.take(i as int)).push(e@));
            assert(events_view(events@).take(i + 1) =~= events_view(events@.take(i + 1)));
            assert(before.take(before.len() as int) =~= before);
            lemma_push_balanced(before, e@);
        }
        w = match step {
            Ok(next) => next,
            Err(_) => {
                return Err(SerializationError::Emitter);
            },
        };
        proof {
            let e = events@[i as int];
            if let XmlEvent::StartElement { name, attributes } = e {
                assert(attributes@.map_values(|a: (String, String)| attribute_view(a))
                    =~= if attributes@.len() == 0 {
                        seq![]
                    } else if attributes@.len() == 1 {
                        seq![(attributes@[0].0@, attributes@[0].1@)]
                    } else {
                        seq![(attributes@[0].0@, attributes@[0].1@), (attributes@[1].0@, attributes@[1].1@)]
                    });
            }
            assert(events@.take(i + 1) =~= events@.take(i as int).push(e));
            assert(events_view(events@.take(i + 1)) =~= events_view(events@.take(i as int)).push(e@));
        }
        i = i + 1;
    }
    assert(events@.take(i as int) =~= events@);
    assert(events@.take(0) =~= Seq::<XmlEvent>::empty());
    match utf8_string(written_bytes(w)) {
        Some(s) => Ok(s),
        None => Err(SerializationError::Encoding),
    }
}

} // verus!
