use vstd::prelude::*;
use xml::reader::XmlEvent as X;

verus! {

/// An attribute of a start tag: its local name and its value.
#[derive(Debug, Clone)]
pub struct Attribute {
    pub name: String,
    pub value: String,
}

/// One event of the forward-only event stream of an XML document.
#[derive(Debug, Clone)]
pub enum Event {
    /// A start tag, with its local name and attributes in document order.
    Start { name: String, attributes: Vec<Attribute> },
    /// An end tag.
    End,
    /// Character data.
    Characters(String),
    /// The content of a CDATA section.
    CData(String),
    /// Any other well-formed event (end tags, comments, whitespace, ...).
    Other,
    /// A malformed event; the stream ends with it.
    Malformed,
}

/// The event stream that the XML reader produces for a document.
pub uninterp spec fn xml_events(text: Seq<char>) -> Seq<Event>;

/// Relies on `xml::reader::EventReader` (xml-rs): reading a document gives an event stream
/// that depends on the text alone and stops after the first malformed event.
#[verifier::external_body]
pub(crate) fn read_events(text: &str) -> (r: Vec<Event>)
    ensures
        r@ == xml_events(text@),
{
    xml::reader::EventReader::from_str(text).into_iter().map(|e| match e {
        Ok(X::StartElement { name, attributes, .. }) => Event::Start {
            name: name.local_name,
            attributes: attributes.into_iter().map(|a| Attribute { name: a.name.local_name, value: a.value }).collect(),
        },
        Ok(X::EndElement { .. }) => Event::End,
        Ok(X::Characters(s)) => Event::Characters(s),
        Ok(X::CData(s)) => Event::CData(s),
        Ok(_) => Event::Other,
        Err(_) => Event::Malformed,
    }).collect()
}

} // verus!
