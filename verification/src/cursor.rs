//! The cursor over the tokens of a document. It gives one event at a time
//! and never goes back.

use vstd::prelude::*;
use vstd::string::*;
use crate::error::{XmlError, XmlErrorView};
use crate::xml::{EventView, Tag, TagView, Token, TokenView, XmlEvent, tokens_view};

verus! {

/// An event as the cursor hands it out, borrowed from the tokens.
#[derive(Debug, Clone, Copy)]
pub enum Event<'a> {
    Start(&'a Tag),
    Empty(&'a Tag),
    /// Holds the element name.
    End(&'a str),
    Text(&'a str),
    CData(&'a str),
    DocType(&'a str),
    /// A declaration, a comment or a processing instruction.
    Other(&'a str),
    Eof,
}

impl<'a> View for Event<'a> {
    type V = EventView;

    open spec fn view(&self) -> EventView {
        match self {
            Event::Start(tag) => EventView::Start(tag@),
            Event::Empty(tag) => EventView::Empty(tag@),
            Event::End(name) => EventView::End(name@),
            Event::Text(text) => EventView::Text(text@),
            Event::CData(text) => EventView::CData(text@),
            Event::DocType(text) => EventView::DocType(text@),
            Event::Other(text) => EventView::Other(text@),
            Event::Eof => EventView::Eof,
        }
    }
}

/// Where a cursor stands: the number of tokens that it has passed, and
/// the byte offset in the document after the last event that it read.
pub ghost struct CursorView {
    pub pos: nat,
    pub offset: u64,
}

/// What one read gives, and where it leaves the cursor. The event that
/// ends the document is given again by every later read; behind the last
/// token stands the end of input.
pub open spec fn read_step(tokens: Seq<TokenView>, c: CursorView) -> (EventView, CursorView) {
    if c.pos < tokens.len() {
        let token = tokens[c.pos as int];
        (
            token.event,
            CursorView {
                pos: if token.event.is_last() {
                    c.pos
                } else {
                    c.pos + 1
                },
                offset: token.end,
            },
        )
    } else {
        (EventView::Eof, c)
    }
}

/// The result of one read: the event, or the failure of the XML reader.
pub open spec fn step_result(event: EventView) -> Result<EventView, XmlErrorView> {
    match event {
        EventView::Malformed(message) => Err(XmlErrorView::ParsingError(message)),
        _ => Ok(event),
    }
}

/// The event that the next read will give.
pub open spec fn peek_step(tokens: Seq<TokenView>, c: CursorView) -> EventView {
    read_step(tokens, c).0
}

/// A forward cursor over the tokens of a document.
pub struct EventCursor<'a> {
    tokens: &'a [Token],
    pos: usize,
    offset: u64,
}

impl<'a> EventCursor<'a> {
    /// The tokens that the cursor reads.
    pub closed spec fn tokens(&self) -> Seq<TokenView> {
        tokens_view(self.tokens@)
    }

    /// Where the cursor stands.
    pub closed spec fn state(&self) -> CursorView {
        CursorView { pos: self.pos as nat, offset: self.offset }
    }

    /// The cursor has not passed the end of its tokens.
    #[verifier::type_invariant]
    pub closed spec fn wf(&self) -> bool {
        self.pos <= self.tokens@.len()
    }

    /// The number of tokens that the cursor has not passed.
    pub open spec fn remaining(&self) -> int {
        self.tokens().len() - self.state().pos
    }

    /// The cursor stands inside its tokens, or at their end.
    pub proof fn lemma_remaining(&self)
        requires
            self.wf(),
        ensures
            self.remaining() >= 0,
            self.state().pos <= usize::MAX,
    {
    }

    /// A cursor before the first token.
    pub fn new(tokens: &'a [Token]) -> (cursor: Self)
        ensures
            cursor.tokens() == tokens_view(tokens@),
            cursor.state() == (CursorView { pos: 0, offset: 0 }),
    {
        EventCursor { tokens, pos: 0, offset: 0 }
    }

    /// Reads the next event.
    pub fn next_event(&mut self) -> (r: Result<Event<'a>, XmlError>)
        ensures
            final(self).tokens() == old(self).tokens(),
            final(self).state() == read_step(old(self).tokens(), old(self).state()).1,
            crate::error::xml_result(r) == step_result(
                read_step(old(self).tokens(), old(self).state()).0,
            ),
            final(self).state().pos >= old(self).state().pos,
    {
        proof {
            use_type_invariant(&*self);
        }
        if self.pos < self.tokens.len() {
            let token = &self.tokens[self.pos];
            assert(self.tokens()[self.pos as int] == token@);
            self.offset = token.end;
            match &token.event {
                XmlEvent::Start(tag) => {
                    self.pos = self.pos + 1;
                    Ok(Event::Start(tag))
                },
                XmlEvent::Empty(tag) => {
                    self.pos = self.pos + 1;
                    Ok(Event::Empty(tag))
                },
                XmlEvent::End(name) => {
                    self.pos = self.pos + 1;
                    Ok(Event::End(name.as_str()))
                },
                XmlEvent::Text(text) => {
                    self.pos = self.pos + 1;
                    Ok(Event::Text(text.as_str()))
                },
                XmlEvent::CData(text) => {
                    self.pos = self.pos + 1;
                    Ok(Event::CData(text.as_str()))
                },
                XmlEvent::DocType(text) => {
                    self.pos = self.pos + 1;
                    Ok(Event::DocType(text.as_str()))
                },
                XmlEvent::Other(text) => {
                    self.pos = self.pos + 1;
                    Ok(Event::Other(text.as_str()))
                },
                XmlEvent::Eof => Ok(Event::Eof),
                XmlEvent::Malformed(message) => Err(XmlError::ParsingError(message.clone())),
            }
        } else {
            Ok(Event::Eof)
        }
    }

    /// Whether the next event is the end tag of the given element. Reads
    /// nothing.
    pub fn at_end_tag(&self, name: &str) -> (r: bool)
        ensures
            r == (peek_step(self.tokens(), self.state()) == EventView::End(name@)),
    {
        if self.pos < self.tokens.len() {
            let token = &self.tokens[self.pos];
            assert(self.tokens()[self.pos as int] == token@);
            match &token.event {
                XmlEvent::End(found) => crate::text::str_eq(found.as_str(), name),
                _ => false,
            }
        } else {
            false
        }
    }

    /// The byte offset in the document after the last event read.
    pub fn buffer_position(&self) -> (offset: u64)
        ensures
            offset == self.state().offset,
    {
        self.offset
    }
}

/// The text that an event holds; for a tag, the name and the attributes.
pub fn event_to_string(event: &Event) -> (content: String)
    ensures
        content@ == event@.content(),
{
    match event {
        Event::Start(tag) => tag.content.clone(),
        Event::Empty(tag) => tag.content.clone(),
        Event::End(name) => (*name).to_owned(),
        Event::Text(text) => (*text).to_owned(),
        Event::CData(text) => (*text).to_owned(),
        Event::DocType(text) => (*text).to_owned(),
        Event::Other(text) => (*text).to_owned(),
        Event::Eof => String::new(),
    }
}

/// The tag of a start event. Any other event is an error that holds its
/// content.
pub open spec fn unwrap_as_start(event: EventView) -> Result<TagView, XmlErrorView> {
    match event {
        EventView::Start(tag) => Ok(tag),
        other => Err(XmlErrorView::EventError("start event"@, other.content())),
    }
}

/// The tag of a self-closing element. Any other event is an error that
/// holds its content.
pub open spec fn unwrap_as_empty(event: EventView) -> Result<TagView, XmlErrorView> {
    match event {
        EventView::Empty(tag) => Ok(tag),
        other => Err(XmlErrorView::EventError("start event"@, other.content())),
    }
}

/// The element name of an end event. Any other event is an error that
/// holds its content.
pub open spec fn unwrap_as_end(event: EventView) -> Result<Seq<char>, XmlErrorView> {
    match event {
        EventView::End(name) => Ok(name),
        other => Err(XmlErrorView::EventError("end event"@, other.content())),
    }
}

/// The text of a document type declaration. Any other event is an error
/// that holds its content.
pub open spec fn unwrap_as_doctype(event: EventView) -> Result<Seq<char>, XmlErrorView> {
    match event {
        EventView::DocType(text) => Ok(text),
        other => Err(XmlErrorView::EventError("a doctype"@, other.content())),
    }
}

/// The event must be a start tag.
pub fn event_unwrap_as_start<'a>(event: Event<'a>) -> (r: Result<&'a Tag, XmlError>)
    ensures
        crate::error::xml_result(r) == unwrap_as_start(event@),
{
    match event {
        Event::Start(tag) => Ok(tag),
        other => Err(XmlError::EventError("start event", event_to_string(&other))),
    }
}

/// The event must be a self-closing tag.
pub fn event_unwrap_as_empty<'a>(event: Event<'a>) -> (r: Result<&'a Tag, XmlError>)
    ensures
        crate::error::xml_result(r) == unwrap_as_empty(event@),
{
    match event {
        Event::Empty(tag) => Ok(tag),
        other => Err(XmlError::EventError("start event", event_to_string(&other))),
    }
}

/// The event must be an end tag.
pub fn event_unwrap_as_end<'a>(event: Event<'a>) -> (r: Result<&'a str, XmlError>)
    ensures
        crate::error::xml_result(r) == unwrap_as_end(event@),
{
    match event {
        Event::End(name) => Ok(name),
        other => Err(XmlError::EventError("end event", event_to_string(&other))),
    }
}

/// The event must be a document type declaration.
pub fn event_unwrap_as_doctype<'a>(event: Event<'a>) -> (r: Result<&'a str, XmlError>)
    ensures
        crate::error::xml_result(r) == unwrap_as_doctype(event@),
{
    match event {
        Event::DocType(text) => Ok(text),
        other => Err(XmlError::EventError("a doctype", event_to_string(&other))),
    }
}

} // verus!
