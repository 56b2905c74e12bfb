//! The XML events of a document, as plain values: what the parsers read
//! of an event is held as text, numbers and lists.

use vstd::prelude::*;
use vstd::string::*;

verus! {

/// The kinds of event that the XML reader knows.
#[derive(Debug, Clone, Copy, PartialEq, Eq, Structural, Hash)]
pub enum EventKind {
    /// `<name attributes>`
    Start,
    /// `<name attributes/>`
    Empty,
    /// `</name>`
    End,
    /// Text between tags.
    Text,
    /// `<![CDATA[...]]>`
    CData,
    /// `<!DOCTYPE ...>`
    DocType,
    /// A declaration, a comment or a processing instruction.
    Other,
    /// The end of the document.
    Eof,
    /// The reader failed here.
    Malformed,
}

/// An event as the reader gives it: its kind, the text that it holds (for
/// a failure, the reader's message), and the byte offset in the document
/// after it.
#[derive(Debug, Clone, PartialEq, Eq)]
pub struct RawEvent {
    pub kind: EventKind,
    pub content: String,
    pub end: u64,
}

/// Model of a [`RawEvent`].
pub ghost struct RawEventView {
    pub kind: EventKind,
    pub content: Seq<char>,
    pub end: u64,
}

impl View for RawEvent {
    type V = RawEventView;

    open spec fn view(&self) -> RawEventView {
        RawEventView { kind: self.kind, content: self.content@, end: self.end }
    }
}

/// One item of a tag's attribute list: a key with its raw value, or the
/// message of the failure to read a malformed attribute.
#[derive(Debug, Clone, PartialEq, Eq)]
pub enum AttrEntry {
    Pair { key: String, value: String },
    Malformed(String),
}

/// Model of an [`AttrEntry`].
pub ghost enum AttrEntryView {
    Pair { key: Seq<char>, value: Seq<char> },
    Malformed(Seq<char>),
}

impl View for AttrEntry {
    type V = AttrEntryView;

    open spec fn view(&self) -> AttrEntryView {
        match self {
            AttrEntry::Pair { key, value } => AttrEntryView::Pair { key: key@, value: value@ },
            AttrEntry::Malformed(message) => AttrEntryView::Malformed(message@),
        }
    }
}

/// A start tag or a self-closing tag: all that stands between `<` and `>`
/// (without the closing `/`), the element name, and the attribute list.
#[derive(Debug, Clone, PartialEq, Eq)]
pub struct Tag {
    pub content: String,
    pub name: String,
    pub attrs: Vec<AttrEntry>,
}

/// Model of a [`Tag`].
pub ghost struct TagView {
    pub content: Seq<char>,
    pub name: Seq<char>,
    pub attrs: Seq<AttrEntryView>,
}

impl View for Tag {
    type V = TagView;

    open spec fn view(&self) -> TagView {
        TagView {
            content: self.content@,
            name: self.name@,
            attrs: self.attrs@.map_values(|a: AttrEntry| a@),
        }
    }
}

/// An event of the document, as it is kept.
#[derive(Debug, Clone, PartialEq, Eq)]
pub enum XmlEvent {
    Start(Tag),
    Empty(Tag),
    /// Holds the element name.
    End(String),
    Text(String),
    CData(String),
    DocType(String),
    /// A declaration, a comment or a processing instruction.
    Other(String),
    Eof,
    /// The reader failed here. Holds its message.
    Malformed(String),
}

/// Model of an event.
pub ghost enum EventView {
    Start(TagView),
    Empty(TagView),
    End(Seq<char>),
    Text(Seq<char>),
    CData(Seq<char>),
    DocType(Seq<char>),
    Other(Seq<char>),
    Eof,
    Malformed(Seq<char>),
}

impl View for XmlEvent {
    type V = EventView;

    open spec fn view(&self) -> EventView {
        match self {
            XmlEvent::Start(tag) => EventView::Start(tag@),
            XmlEvent::Empty(tag) => EventView::Empty(tag@),
            XmlEvent::End(name) => EventView::End(name@),
            XmlEvent::Text(text) => EventView::Text(text@),
            XmlEvent::CData(text) => EventView::CData(text@),
            XmlEvent::DocType(text) => EventView::DocType(text@),
            XmlEvent::Other(text) => EventView::Other(text@),
            XmlEvent::Eof => EventView::Eof,
            XmlEvent::Malformed(message) => EventView::Malformed(message@),
        }
    }
}

impl EventView {
    /// Whether nothing follows this event: the end of the document, or a
    /// failure of the reader.
    pub open spec fn is_last(self) -> bool {
        self is Eof || self is Malformed
    }

    /// The text that an event holds; for a tag, the name and the attributes.
    pub open spec fn content(self) -> Seq<char> {
        match self {
            EventView::Start(tag) => tag.content,
            EventView::Empty(tag) => tag.content,
            EventView::End(name) => name,
            EventView::Text(text) => text,
            EventView::CData(text) => text,
            EventView::DocType(text) => text,
            EventView::Other(text) => text,
            EventView::Eof => Seq::empty(),
            EventView::Malformed(message) => message,
        }
    }
}

/// An event with the byte offset in the document after it.
#[derive(Debug, Clone, PartialEq, Eq)]
pub struct Token {
    pub event: XmlEvent,
    pub end: u64,
}

/// Model of a [`Token`].
pub ghost struct TokenView {
    pub event: EventView,
    pub end: u64,
}

impl View for Token {
    type V = TokenView;

    open spec fn view(&self) -> TokenView {
        TokenView { event: self.event@, end: self.end }
    }
}

/// Model of a list of tokens.
pub open spec fn tokens_view(tokens: Seq<Token>) -> Seq<TokenView> {
    tokens.map_values(|t: Token| t@)
}

} // verus!
