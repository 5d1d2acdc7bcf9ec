//! XML documents as runs of events, and their writing.

use crate::text::text_of;
use quick_xml::events::{BytesDecl, BytesEnd, BytesStart, BytesText, Event};
use quick_xml::Writer;
use vstd::prelude::*;
use vstd::utf8::{encode_utf8, valid_utf8};

verus! {

/// An attribute of an element.
#[derive(Debug, Clone)]
pub struct XmlAttribute {
    pub name: String,
    pub value: String,
}

impl View for XmlAttribute {
    type V = (Seq<char>, Seq<char>);

    open spec fn view(&self) -> (Seq<char>, Seq<char>) {
        (self.name@, self.value@)
    }
}

impl DeepView for XmlAttribute {
    type V = (Seq<char>, Seq<char>);

    open spec fn deep_view(&self) -> (Seq<char>, Seq<char>) {
        self@
    }
}

/// The name and attributes of an element.
#[derive(Debug, Clone)]
pub struct XmlTag {
    pub name: String,
    pub attributes: Vec<XmlAttribute>,
}

/// A step in the writing of a document.
#[derive(Debug, Clone)]
pub enum XmlEvent {
    /// The declaration at the head of the document.
    Decl { version: String, encoding: String },
    /// The opening of an element.
    Start(XmlTag),
    /// An element without content.
    Empty(XmlTag),
    /// The closing of the element of this name.
    End(String),
    /// Text, which is escaped as it is written.
    Text(String),
}

pub enum XmlEventView {
    Decl { version: Seq<char>, encoding: Seq<char> },
    Start { name: Seq<char>, attributes: Seq<(Seq<char>, Seq<char>)> },
    Empty { name: Seq<char>, attributes: Seq<(Seq<char>, Seq<char>)> },
    End { name: Seq<char> },
    Text { text: Seq<char> },
}

impl View for XmlEvent {
    type V = XmlEventView;

    open spec fn view(&self) -> XmlEventView {
        match self {
            XmlEvent::Decl { version, encoding } => XmlEventView::Decl {
                version: version@,
                encoding: encoding@,
            },
            XmlEvent::Start(tag) => XmlEventView::Start {
                name: tag.name@,
                attributes: tag.attributes.deep_view(),
            },
            XmlEvent::Empty(tag) => XmlEventView::Empty {
                name: tag.name@,
                attributes: tag.attributes.deep_view(),
            },
            XmlEvent::End(name) => XmlEventView::End { name: name@ },
            XmlEvent::Text(text) => XmlEventView::Text { text: text@ },
        }
    }
}

impl DeepView for XmlEvent {
    type V = XmlEventView;

    open spec fn deep_view(&self) -> XmlEventView {
        self@
    }
}

/// The bytes that `quick_xml::Writer::write_event` writes for a run of
/// events, one after another, to a writer that indents with `indent` spaces
/// and starts out empty; `None` where the writing of an event fails.
pub uninterp spec fn xml_document(indent: usize, events: Seq<XmlEventView>) -> Option<Seq<u8>>;

/// Whether a document of `count` events can be indented by `indent` spaces
/// a level. The writer keeps the indentation of the line at hand as one
/// number, which grows by `indent` with each element that is opened; with
/// every event an opening, it still stays within what the number can hold.
pub open spec fn indent_fits(indent: usize, count: nat) -> bool {
    indent * count <= usize::MAX
}

/// Writes a document. Wraps `quick_xml::Writer::write_event`, called once
/// for each event in turn on a writer made by `Writer::new_with_indent` over
/// an empty buffer, with spaces for indentation; the buffer is what comes
/// back. The contract names the bytes written, and claims no more of them
/// than that they depend on the indentation and the events alone. The crate
/// adds up the indentation unchecked, so documents whose indentation could
/// pass what a `usize` holds are left out.
#[verifier::external_body]
fn write_xml(indent: usize, events: &Vec<XmlEvent>) -> (r: Option<Vec<u8>>)
    requires
        indent_fits(indent, events@.len()),
    ensures
        match r {
            Some(bytes) => xml_document(indent, events.deep_view()) == Some(bytes@),
            None => xml_document(indent, events.deep_view()) is None,
        },
{
    let mut writer = Writer::new_with_indent(vec![], b' ', indent);
    let tag = |t: &XmlTag| BytesStart::new(t.name.clone())
        .with_attributes(t.attributes.iter().map(|a| (&*a.name, &*a.value)));
    for event in events {
        writer.write_event(match event {
            XmlEvent::Decl { version, encoding } => Event::Decl(BytesDecl::new(version, Some(encoding), None)),
            XmlEvent::Start(t) => Event::Start(tag(t)),
            XmlEvent::Empty(t) => Event::Empty(tag(t)),
            XmlEvent::End(name) => Event::End(BytesEnd::new(name)),
            XmlEvent::Text(text) => Event::Text(BytesText::new(text)),
        }).ok()?;
    }
    Some(writer.into_inner())
}

/// Reads bytes as text. Wraps `String::from_utf8`, which gives the text that
/// the bytes encode, and fails where they are not valid UTF-8.
#[verifier::external_body]
fn utf8_text(bytes: Vec<u8>) -> (r: Option<String>)
    ensures
        match r {
            Some(text) => valid_utf8(bytes@) && encode_utf8(text@) == bytes@,
            None => !valid_utf8(bytes@),
        },
{
    String::from_utf8(bytes).ok()
}

/// Why a document could not be written.
#[derive(Debug, Clone, Copy, PartialEq, Eq, Structural)]
pub enum XmlFailure {
    /// An event could not be written.
    Write,
    /// What was written is not text.
    Utf8,
}

/// The bytes of a document: what the writing of its events gives; `None`
/// where the document cannot be indented, or the writing of an event fails.
pub open spec fn document_bytes(indent: usize, events: Seq<XmlEventView>) -> Option<Seq<u8>> {
    if indent_fits(indent, events.len()) {
        xml_document(indent, events)
    } else {
        None
    }
}

/// The text of a document: its bytes, read as UTF-8.
pub open spec fn document_text(indent: usize, events: Seq<XmlEventView>, text: Seq<char>) -> bool {
    match document_bytes(indent, events) {
        Some(bytes) => valid_utf8(bytes) && encode_utf8(text) == bytes,
        None => false,
    }
}

/// Tells whether a document of `count` events can be indented by `indent`
/// spaces a level.
pub fn indentation_fits(indent: usize, count: usize) -> (r: bool)
    ensures
        r == indent_fits(indent, count as nat),
{
    let step: u128 = indent as u128;
    let most: u128 = count as u128;
    assert(step * most <= 0xffff_ffff_ffff_ffff * 0xffff_ffff_ffff_ffff) by (nonlinear_arith)
        requires
            0 <= step <= 0xffff_ffff_ffff_ffff,
            0 <= most <= 0xffff_ffff_ffff_ffff,
    ;
    step * most <= usize::MAX as u128
}

/// What the writing of a document amounts to, given the bytes written, if
/// any, read as text, if they are text.
pub fn document_from(written: Option<Option<String>>) -> (r: Result<String, XmlFailure>)
    ensures
        r == match written {
            Some(Some(text)) => Ok::<String, XmlFailure>(text),
            Some(None) => Err(XmlFailure::Utf8),
            None => Err(XmlFailure::Write),
        },
{
    match written {
        Some(Some(text)) => Ok(text),
        Some(None) => Err(XmlFailure::Utf8),
        None => Err(XmlFailure::Write),
    }
}

/// Writes a document as text. A document that cannot be indented is not
/// written.
pub fn render_document(indent: usize, events: &Vec<XmlEvent>) -> (r: Result<String, XmlFailure>)
    ensures
        match r {
            Ok(text) => document_text(indent, events.deep_view(), text@),
            Err(XmlFailure::Write) => document_bytes(indent, events.deep_view()) is None,
            Err(XmlFailure::Utf8) => document_bytes(indent, events.deep_view()) is Some
                && !valid_utf8(document_bytes(indent, events.deep_view()).unwrap()),
        },
{
    let drawn = if indentation_fits(indent, events.len()) {
        write_xml(indent, events)
    } else {
        None
    };
    let written = match drawn {
        Some(bytes) => Some(utf8_text(bytes)),
        None => None,
    };
    document_from(written)
}

/// An element's name with its attributes.
pub fn tag(name: &str, attributes: Vec<XmlAttribute>) -> (r: XmlTag)
    ensures
        r.name@ == name@,
        r.attributes == attributes,
{
    XmlTag { name: text_of(name), attributes }
}

/// An attribute.
pub fn attribute(name: &str, value: &str) -> (r: XmlAttribute)
    ensures
        r@ == (name@, value@),
{
    XmlAttribute { name: text_of(name), value: text_of(value) }
}

} // verus!
