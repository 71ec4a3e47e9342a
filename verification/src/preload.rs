//! Reading an AEC event's preload archive: the event's name, and its event
//! document (EML 110).
use crate::aec_parser::event::{accepts_election_event, law_event_reading_depends_on_the_value, reads_election_event, ElectionEvent};
use crate::archive::{document_in, read_feed_document, FeedError};
use crate::federal_election::{entry_for, entry_name, EVENT_ENTRY};
use crate::text::{after_first_line, strip_first_line};
use crate::xml::{first_named_in, lemma_view_child, lemma_view_first_named_in, lemma_view_parts, opt_node, XmlElement, XmlNode};
use crate::xml_source::{parse_xml, parsed_document};
use vstd::prelude::*;

verus! {

/// The namespace of EML documents.
pub const EML_NAMESPACE: &'static str = "urn:oasis:names:tc:evs:schema:eml";

/// The text of `ElectionEvent/EventIdentifier/EventName` below a root.
pub open spec fn event_name_of(root: XmlElement) -> Option<Seq<char>> {
    match root.child_named("ElectionEvent"@) {
        Some(ev) => match ev.child_named("EventIdentifier"@) {
            Some(id) => match id.child_named("EventName"@) {
                Some(name) => Some(name.text@),
                None => None,
            },
            None => None,
        },
        None => None,
    }
}

/// An event's identifier and name, read from the event document of its
/// preload archive: the document's error, else the name below some tree
/// with the document's value, else `Malformed`.
pub open spec fn identified(doc: Result<XmlNode, FeedError>, event_id: Seq<char>, r: Result<(String, String), FeedError>) -> bool {
    match doc {
        Err(e) => r == Err::<(String, String), FeedError>(e),
        Ok(n) => exists|root: XmlElement|
            root@ == n && match event_name_of(root) {
                Some(name) => r matches Ok((id, nm)) && id@ == event_id && nm@ == name,
                None => r == Err::<(String, String), FeedError>(FeedError::Malformed),
            },
    }
}

/// The identifier and name of the event whose preload archive is `archive`.
/// A missing entry, element or name is an error value (see `identified`),
/// where a reader that unwraps would stop the program.
pub fn get_event_identifier(event_id: &str, archive: &[u8]) -> (r: Result<(String, String), FeedError>)
    ensures
        identified(document_in(archive@, entry_for(EVENT_ENTRY@, event_id@)), event_id@, r),
{
    let name = entry_name(EVENT_ENTRY, event_id);
    let root = match read_feed_document(archive, name.as_str()) {
        Ok(root) => root,
        Err(e) => return Err(e),
    };
    let ev = match root.get_child_ignore_ns("ElectionEvent") {
        Some(x) => x,
        None => return Err(FeedError::Malformed),
    };
    let id = match ev.get_child_ignore_ns("EventIdentifier") {
        Some(x) => x,
        None => return Err(FeedError::Malformed),
    };
    match id.get_child_ignore_ns("EventName") {
        Some(x) => Ok((event_id.to_owned(), x.text())),
        None => Err(FeedError::Malformed),
    }
}

/// What reading an event document gives below a root: the `ElectionEvent`
/// child in the EML namespace, read as an event; `Malformed` when there is
/// none or it cannot be read.
pub open spec fn event_read(root: XmlElement, r: Result<ElectionEvent, FeedError>) -> bool {
    match first_named_in(root.children@, "ElectionEvent"@, EML_NAMESPACE@) {
        Some(ev) => if accepts_election_event(ev) {
            r matches Ok(x) && reads_election_event(x, ev)
        } else {
            r is Err && r->Err_0 == FeedError::Malformed
        },
        None => r is Err && r->Err_0 == FeedError::Malformed,
    }
}

/// Reads the election event of an event document's text; the text's first
/// line (the XML declaration) is dropped before parsing. The `ElectionEvent`
/// child is looked up in the EML namespace: text that is not XML is
/// `InvalidXml`, and a root without such a child, or with one that cannot be
/// read, is `Malformed`, where a reader that unwraps would stop the program.
pub fn parse_event_preload(events_text: &str) -> (r: Result<ElectionEvent, FeedError>)
    ensures
        match parsed_document(after_first_line(events_text@)) {
            None => r is Err && r->Err_0 == FeedError::InvalidXml,
            Some(n) => exists|root: XmlElement| root@ == n && event_read(root, r),
        },
{
    let body = strip_first_line(events_text);
    let root = match parse_xml(body.as_str()) {
        Some(root) => root,
        None => return Err(FeedError::InvalidXml),
    };
    let r = match root.get_child("ElectionEvent", EML_NAMESPACE) {
        Some(ev) => match ElectionEvent::from_element(ev) {
            Some(x) => Ok(x),
            None => Err(FeedError::Malformed),
        },
        None => Err(FeedError::Malformed),
    };
    assert(event_read(root, r));
    r
}

/// The answers read from an event document depend on the document's value
/// alone: two trees with the same value give the same event name and read
/// into the same events (so the `exists` in `identified` and in
/// `parse_event_preload` picks out one answer).
pub proof fn law_event_answers_depend_on_the_document(a: XmlElement, b: XmlElement, r: Result<ElectionEvent, FeedError>)
    requires
        a@ == b@,
    ensures
        event_name_of(a) == event_name_of(b),
        event_read(a, r) == event_read(b, r),
{
    lemma_view_child(a, b, "ElectionEvent"@);
    if a.child_named("ElectionEvent"@) is Some {
        let e1 = a.child_named("ElectionEvent"@).unwrap();
        let e2 = b.child_named("ElectionEvent"@).unwrap();
        lemma_view_child(e1, e2, "EventIdentifier"@);
        if e1.child_named("EventIdentifier"@) is Some {
            lemma_view_child(
                e1.child_named("EventIdentifier"@).unwrap(),
                e2.child_named("EventIdentifier"@).unwrap(),
                "EventName"@,
            );
        }
    }
    lemma_view_parts(a, b);
    lemma_view_first_named_in(a.children@, b.children@, "ElectionEvent"@, EML_NAMESPACE@);
    let f1 = first_named_in(a.children@, "ElectionEvent"@, EML_NAMESPACE@);
    let f2 = first_named_in(b.children@, "ElectionEvent"@, EML_NAMESPACE@);
    if f1 is Some {
        assert(opt_node(f1) == Some(f1.unwrap()@));
        match r {
            Ok(x) => law_event_reading_depends_on_the_value(x, f1.unwrap(), f2.unwrap()),
            Err(_) => {
                law_event_reading_depends_on_the_value(vstd::pervasive::arbitrary(), f1.unwrap(), f2.unwrap());
            },
        }
    }
}

} // verus!
