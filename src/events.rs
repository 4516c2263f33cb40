use vstd::prelude::*;

verus! {

/// One step of an XML document, in the order a writer receives them.
#[derive(Debug)]
pub enum XmlEvent {
    /// Opens an element; attributes are written in the order given.
    StartElement { name: String, attributes: Vec<(String, String)> },
    /// Text content, escaped by the writer.
    Characters(String),
    /// Closes the innermost open element.
    EndElement,
}

/// The mathematical form of an [`XmlEvent`].
pub enum EventModel {
    Start { name: Seq<char>, attributes: Seq<(Seq<char>, Seq<char>)> },
    Text(Seq<char>),
    End,
}

pub open spec fn attribute_view(a: (String, String)) -> (Seq<char>, Seq<char>) {
    (a.0@, a.1@)
}

impl View for XmlEvent {
    type V = EventModel;

    open spec fn view(&self) -> EventModel {
        match self {
            XmlEvent::StartElement { name, attributes } => EventModel::Start {
                name: name@,
                attributes: attributes@.map_values(|a: (String, String)| attribute_view(a)),
            },
            XmlEvent::Characters(text) => EventModel::Text(text@),
            XmlEvent::EndElement => EventModel::End,
        }
    }
}

/// The models of a sequence of events.
pub open spec fn events_view(v: Seq<XmlEvent>) -> Seq<EventModel> {
    v.map_values(|e: XmlEvent| e@)
}

/// Why a document could not be produced.
#[derive(Debug, Clone, Copy, PartialEq, Eq, Structural)]
pub enum SerializationError {
    /// The XML writer refused an event.
    Emitter,
    /// The written bytes are not valid UTF-8.
    Encoding,
}

/// An event that the writer can take: a start carries at most two attributes.
pub open spec fn event_writable(e: EventModel) -> bool {
    match e {
        EventModel::Start { attributes, .. } => attributes.len() <= 2,
        _ => true,
    }
}

/// Every event of the sequence can be written.
pub open spec fn writable(evs: Seq<EventModel>) -> bool {
    forall|i: int| 0 <= i < evs.len() ==> #[trigger] event_writable(evs[i])
}

/// How an event changes the number of open elements.
pub open spec fn depth_change(e: EventModel) -> int {
    match e {
        EventModel::Start { .. } => 1,
        EventModel::Text(_) => 0,
        EventModel::End => -1,
    }
}

/// Start events minus end events.
pub open spec fn open_count(evs: Seq<EventModel>) -> int
    decreases evs.len(),
{
    if evs.len() == 0 {
        0
    } else {
        open_count(evs.drop_last()) + depth_change(evs.last())
    }
}

/// No prefix closes more elements than it opened.
pub open spec fn balanced(evs: Seq<EventModel>) -> bool {
    forall|i: int| 0 <= i <= evs.len() ==> #[trigger] open_count(evs.take(i)) >= 0
}

/// Appending one event moves the count by its change, and keeps the sequence
/// balanced unless it closes an element that is not open.
pub proof fn lemma_push_balanced(evs: Seq<EventModel>, e: EventModel)
    ensures
        open_count(evs.push(e)) == open_count(evs) + depth_change(e),
        balanced(evs) && open_count(evs) + depth_change(e) >= 0 ==> balanced(evs.push(e)),
{
    assert(evs.push(e).drop_last() =~= evs);
    if balanced(evs) && open_count(evs) + depth_change(e) >= 0 {
        let p = evs.push(e);
        assert forall|i: int| 0 <= i <= p.len() implies #[trigger] open_count(p.take(i)) >= 0 by {
            if i <= evs.len() {
                assert(p.take(i) =~= evs.take(i));
            } else {
                assert(p.take(i) =~= p);
                assert(evs.take(evs.len() as int) =~= evs);
            }
        }
    }
}

/// `after` has the open count of `before`, and stays balanced where `before` is.
pub open spec fn keeps_depth(before: Seq<EventModel>, after: Seq<EventModel>) -> bool {
    &&& open_count(after) == open_count(before)
    &&& balanced(before) && open_count(before) >= 0 ==> balanced(after)
}

/// Appends one event, keeping the model of the whole list in step.
pub fn push_event(v: &mut Vec<XmlEvent>, e: XmlEvent)
    ensures
        events_view(final(v)@) == events_view(old(v)@).push(e@),
        writable(events_view(old(v)@)) && event_writable(e@) ==> writable(
            events_view(final(v)@),
        ),
        open_count(events_view(final(v)@)) == open_count(events_view(old(v)@)) + depth_change(e@),
        balanced(events_view(old(v)@)) && open_count(events_view(old(v)@)) + depth_change(e@)
            >= 0 ==> balanced(events_view(final(v)@)),
{
    let ghost m = e@;
    proof {
        lemma_push_balanced(events_view(old(v)@), m);
    }
    v.push(e);
    assert(events_view(v@) =~= events_view(old(v)@).push(m));
    proof {
        if writable(events_view(old(v)@)) && event_writable(m) {
            assert forall|i: int| 0 <= i < events_view(v@).len() implies #[trigger] event_writable(
                events_view(v@)[i],
            ) by {
                if i < events_view(old(v)@).len() {
                    assert(events_view(v@)[i] == events_view(old(v)@)[i]);
                }
            }
        }
    }
}

/// A start event without attributes.
pub open spec fn start_of(name: Seq<char>) -> EventModel {
    EventModel::Start { name, attributes: Seq::empty() }
}

/// The three events of an element that holds only `text`.
pub open spec fn text_element(name: Seq<char>, text: Seq<char>) -> Seq<EventModel> {
    seq![start_of(name), EventModel::Text(text), EventModel::End]
}

/// Appends a start event without attributes.
pub fn push_start(v: &mut Vec<XmlEvent>, name: &str)
    ensures
        events_view(final(v)@) == events_view(old(v)@).push(start_of(name@)),
        writable(events_view(old(v)@)) ==> writable(events_view(final(v)@)),
        open_count(events_view(final(v)@)) == open_count(events_view(old(v)@)) + 1,
        balanced(events_view(old(v)@)) && open_count(events_view(old(v)@)) >= 0 ==> balanced(
            events_view(final(v)@),
        ),
{
    let attributes: Vec<(String, String)> = Vec::new();
    let e = XmlEvent::StartElement { name: String::from_str(name), attributes };
    assert(attributes@.map_values(|a: (String, String)| attribute_view(a)) =~= Seq::empty());
    push_event(v, e);
}

/// The models of a list of attributes.
pub open spec fn attributes_view(a: Seq<(String, String)>) -> Seq<(Seq<char>, Seq<char>)> {
    a.map_values(|p: (String, String)| attribute_view(p))
}

/// Appends a start event with up to two attributes.
pub fn push_start_with(v: &mut Vec<XmlEvent>, name: &str, attributes: Vec<(String, String)>)
    requires
        attributes@.len() <= 2,
    ensures
        events_view(final(v)@) == events_view(old(v)@).push(
            EventModel::Start { name: name@, attributes: attributes_view(attributes@) },
        ),
        writable(events_view(old(v)@)) ==> writable(events_view(final(v)@)),
        open_count(events_view(final(v)@)) == open_count(events_view(old(v)@)) + 1,
        balanced(events_view(old(v)@)) && open_count(events_view(old(v)@)) >= 0 ==> balanced(
            events_view(final(v)@),
        ),
{
    let e = XmlEvent::StartElement { name: String::from_str(name), attributes };
    push_event(v, e);
}

/// Appends an end event.
pub fn push_end(v: &mut Vec<XmlEvent>)
    ensures
        events_view(final(v)@) == events_view(old(v)@).push(EventModel::End),
        writable(events_view(old(v)@)) ==> writable(events_view(final(v)@)),
        open_count(events_view(final(v)@)) == open_count(events_view(old(v)@)) - 1,
        balanced(events_view(old(v)@)) && open_count(events_view(old(v)@)) > 0 ==> balanced(
            events_view(final(v)@),
        ),
{
    push_event(v, XmlEvent::EndElement);
}

/// Appends an element holding only `text`.
pub fn push_text_element(v: &mut Vec<XmlEvent>, name: &str, text: String)
    ensures
        events_view(final(v)@) == events_view(old(v)@) + text_element(name@, text@),
        writable(events_view(old(v)@)) ==> writable(events_view(final(v)@)),
        open_count(events_view(final(v)@)) == open_count(events_view(old(v)@)),
        balanced(events_view(old(v)@)) && open_count(events_view(old(v)@)) >= 0 ==> balanced(
            events_view(final(v)@),
        ),
{
    let ghost t = text@;
    push_start(v, name);
    push_event(v, XmlEvent::Characters(text));
    push_end(v);
    assert(events_view(v@) =~= events_view(old(v)@) + text_element(name@, t));
}

} // verus!
