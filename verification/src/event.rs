//! The XML parsing events the state machine consumes, and the trusted
//! tokenizer that produces them from document text.

use vstd::prelude::*;
use xml::common::Position;
use xml::reader::{EventReader, XmlEvent};

verus! {

/// One low-level XML parsing event, as a standard streaming tokenizer
/// reports it.
#[derive(Debug)]
pub enum Event {
    /// A start tag: its local name and optional namespace.
    Start(String, Option<String>),
    /// An end tag: its local name, optional namespace, and the
    /// tokenizer's row and column, for diagnostics.
    End(String, Option<String>, u64, u64),
    /// A run of character data, as the tokenizer delivered it
    /// (untrimmed; possibly one of several fragments of one run).
    Text(String),
    /// The explicit end-of-document marker.
    EndDocument,
    /// A terminal tokenizer fault: its message, which names its
    /// position.
    Fault(String),
    /// Anything else (comments, processing instructions, and the
    /// like); the parser ignores it.
    Other,
}

/// The model of an [`Event`]: its texts as character sequences.
pub enum EventModel {
    Start(Seq<char>, Option<Seq<char>>),
    End(Seq<char>, Option<Seq<char>>, u64, u64),
    Text(Seq<char>),
    EndDocument,
    Fault(Seq<char>),
    Other,
}

impl View for Event {
    type V = EventModel;

    open spec fn view(&self) -> EventModel {
        match self {
            Event::Start(local, namespace) => EventModel::Start(local@, namespace.deep_view()),
            Event::End(local, namespace, row, column) => EventModel::End(
                local@,
                namespace.deep_view(),
                *row,
                *column,
            ),
            Event::Text(content) => EventModel::Text(content@),
            Event::EndDocument => EventModel::EndDocument,
            Event::Fault(message) => EventModel::Fault(message@),
            Event::Other => EventModel::Other,
        }
    }
}

impl DeepView for Event {
    type V = EventModel;

    open spec fn deep_view(&self) -> EventModel {
        self.view()
    }
}

/// The sequence of events a standard XML tokenizer derives from the
/// document text, up to and including the first end-of-document marker
/// or fault; it depends on the text alone.
pub uninterp spec fn xml_events_of(s: Seq<char>) -> Seq<EventModel>;

/// Relies on `xml::reader::EventReader`: it turns the document text
/// into typed XML events, ending with the end-of-document marker or,
/// on malformed XML, a fault carrying the tokenizer's message.  End
/// tags carry the tokenizer's position so structural errors can be
/// reported where they occur.
#[verifier::external_body]
pub(crate) fn tokenize(source: &str) -> (events: Vec<Event>)
    ensures
        events.deep_view() == xml_events_of(source@),
{
    let mut reader = EventReader::from_str(source);
    let mut out = Vec::new();
    loop {
        let ev = reader.next();
        let p = reader.position();
        match ev {
            Ok(XmlEvent::StartElement { name, .. }) => out.push(Event::Start(name.local_name, name.namespace)),
            Ok(XmlEvent::EndElement { name }) => out.push(Event::End(name.local_name, name.namespace, p.row, p.column)),
            Ok(XmlEvent::Characters(content)) => out.push(Event::Text(content)),
            Ok(XmlEvent::EndDocument) => { out.push(Event::EndDocument); return out; },
            Ok(_) => out.push(Event::Other),
            Err(e) => { out.push(Event::Fault(e.msg())); return out; },
        }
    }
}

} // verus!
