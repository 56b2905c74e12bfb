//! Reading a document into tokens with `quick_xml`. The items marked
//! `external_body` are believed, not proved: each says what it assumes.

use vstd::prelude::*;
use vstd::string::*;
use vstd::utf8::*;
use quick_xml::events::Event;
use crate::xml::{
    AttrEntry, AttrEntryView, EventKind, EventView, RawEvent, RawEventView, Tag, TagView, Token,
    TokenView, XmlEvent, tokens_view,
};

verus! {

/// `quick_xml::Reader`, as a value that is carried from call to call:
/// nothing is known of what it holds.
#[verifier::external_type_specification]
#[verifier::external_body]
#[verifier::reject_recursive_types(R)]
pub struct ExReader<R>(quick_xml::Reader<R>);

/// `quick_xml::events::attributes::Attributes`, the iterator over the
/// attributes of a tag, as a value that is carried from call to call.
#[verifier::external_type_specification]
#[verifier::external_body]
pub struct ExAttributes<'a>(quick_xml::events::attributes::Attributes<'a>);

/// `quick_xml::events::attributes::Attribute`, which the iterator gives.
/// It is named here because the iterator names it; the library holds an
/// [`AttrEntry`] in its place.
#[verifier::external_type_specification]
#[verifier::external_body]
pub struct ExAttribute<'a>(quick_xml::events::attributes::Attribute<'a>);

/// `quick_xml::events::attributes::AttrError`, which the iterator gives
/// for a malformed attribute. It is named here because the iterator names
/// it; the library holds its message.
#[verifier::external_type_specification]
#[verifier::external_body]
pub struct ExAttrError(quick_xml::events::attributes::AttrError);

/// The events that `quick_xml` reads from a document, text trimmed, each
/// with the reader's position after it, up to and including the first
/// end of input or failure.
pub uninterp spec fn xml_events(text: Seq<char>) -> Seq<RawEventView>;

/// The events that a reader gives from the state that it is in, each
/// with the reader's position after it, up to and including the first end
/// of input or failure.
pub uninterp spec fn pending_events(reader: quick_xml::Reader<&[u8]>) -> Seq<RawEventView>;

/// The items that `quick_xml` reads from the attribute part of a tag,
/// which starts `name_len` bytes into the tag's content.
pub uninterp spec fn xml_attributes(content: Seq<char>, name_len: nat) -> Seq<AttrEntryView>;

/// The items that an attribute iterator gives from the state that it is
/// in, up to its end.
pub uninterp spec fn pending_attributes(
    attributes: quick_xml::events::attributes::Attributes,
) -> Seq<AttrEntryView>;

/// A list of events in which the last one, and no other, ends the
/// document.
pub open spec fn closed_stream(events: Seq<RawEventView>) -> bool {
    &&& events.len() > 0
    &&& forall|i: int|
        0 <= i < events.len() ==> (is_last_kind(#[trigger] events[i].kind) <==> i == events.len()
            - 1)
}

/// The kinds after which no event follows.
pub open spec fn is_last_kind(kind: EventKind) -> bool {
    kind == EventKind::Eof || kind == EventKind::Malformed
}

/// `Reader::from_str`, with `Config::trim_text` switched on. Assumed: the
/// events that the new reader will give are those of the text, and they
/// close with the end of input or with the first failure.
#[verifier::external_body]
fn open_reader<'a>(text: &'a str) -> (reader: quick_xml::Reader<&'a [u8]>)
    ensures
        pending_events(reader) == xml_events(text@),
        closed_stream(pending_events(reader)),
{
    let mut reader = quick_xml::Reader::from_str(text);
    reader.config_mut().trim_text(true);
    reader
}

/// `Reader::read_event`, then `Reader::buffer_position`. Assumed: the
/// call gives the first of the events that the reader had to give, and,
/// unless that event ends the document, leaves the reader with the
/// others. The bytes of an event, which are taken from a `str`, and the
/// message of a failure are turned into text.
#[verifier::external_body]
fn read_raw_event(reader: &mut quick_xml::Reader<&[u8]>) -> (raw: RawEvent)
    ensures
        pending_events(*old(reader)).len() > 0 ==> raw@ == pending_events(*old(reader))[0],
        pending_events(*old(reader)).len() > 0 && !is_last_kind(raw.kind) ==> pending_events(
            *final(reader),
        ) == pending_events(*old(reader)).drop_first(),
{
    let event = reader.read_event();
    let kind = match &event {
        Ok(Event::Start(_)) => EventKind::Start,
        Ok(Event::Empty(_)) => EventKind::Empty,
        Ok(Event::End(_)) => EventKind::End,
        Ok(Event::Text(_)) => EventKind::Text,
        Ok(Event::CData(_)) => EventKind::CData,
        Ok(Event::DocType(_)) => EventKind::DocType,
        Ok(Event::Eof) => EventKind::Eof,
        Ok(_) => EventKind::Other,
        Err(_) => EventKind::Malformed,
    };
    let content = match &event { Ok(e) => String::from_utf8_lossy(e).into_owned(), Err(e) => e.to_string() };
    RawEvent { kind, content, end: reader.buffer_position() }
}

/// `Attributes::new`, with the check for duplicates switched off as in
/// `BytesStart::try_get_attribute`. Assumed: the items that the new
/// iterator will give are those of the tag's attribute part.
#[verifier::external_body]
fn open_attributes<'a>(content: &'a str, name_len: usize) -> (attributes:
    quick_xml::events::attributes::Attributes<'a>)
    requires
        name_len <= content.spec_bytes().len(),
    ensures
        pending_attributes(attributes) == xml_attributes(content@, name_len as nat),
{
    let mut attributes = quick_xml::events::attributes::Attributes::new(content, name_len);
    attributes.with_checks(false);
    attributes
}

/// `Attributes::next`. Assumed: the call gives the first of the items
/// that the iterator had to give and leaves the others, and gives nothing
/// when none is left. Keys and raw values, which are taken from a `str`,
/// and the messages of failures are turned into text.
#[verifier::external_body]
fn next_attribute(attributes: &mut quick_xml::events::attributes::Attributes) -> (item: Option<
    AttrEntry,
>)
    ensures
        match item {
            Some(entry) => pending_attributes(*old(attributes)).len() > 0 && entry@
                == pending_attributes(*old(attributes))[0] && pending_attributes(
                *final(attributes),
            ) == pending_attributes(*old(attributes)).drop_first(),
            None => pending_attributes(*old(attributes)).len() == 0,
        },
{
    match attributes.next() {
        None => None,
        Some(Err(e)) => Some(AttrEntry::Malformed(e.to_string())),
        Some(Ok(a)) => Some(AttrEntry::Pair {
            key: String::from_utf8_lossy(a.key.as_ref()).into_owned(),
            value: String::from_utf8_lossy(&a.value).into_owned(),
        }),
    }
}

/// Reads the attribute list of a tag, which starts `name_len` bytes into
/// the tag's content.
fn tag_attributes(content: &str, name_len: usize) -> (attrs: Vec<AttrEntry>)
    requires
        name_len <= content.spec_bytes().len(),
    ensures
        attrs@.map_values(|a: AttrEntry| a@) == xml_attributes(content@, name_len as nat),
{
    let mut attributes = open_attributes(content, name_len);
    let mut attrs: Vec<AttrEntry> = Vec::new();
    let ghost all = xml_attributes(content@, name_len as nat);
    loop
        invariant
            all == xml_attributes(content@, name_len as nat),
            attrs@.len() + pending_attributes(attributes).len() == all.len(),
            forall|i: int| 0 <= i < attrs@.len() ==> (#[trigger] attrs@[i])@ == all[i],
            forall|i: int|
                0 <= i < pending_attributes(attributes).len() ==> #[trigger] pending_attributes(
                    attributes,
                )[i] == all[attrs@.len() + i],
        decreases pending_attributes(attributes).len(),
    {
        let ghost before = pending_attributes(attributes);
        match next_attribute(&mut attributes) {
            None => {
                assert(attrs@.map_values(|a: AttrEntry| a@) =~= all);
                return attrs;
            },
            Some(entry) => {
                proof {
                    let after = pending_attributes(attributes);
                    assert(entry@ == before[0]);
                    assert forall|i: int| 0 <= i < after.len() implies #[trigger] after[i]
                        == all[attrs@.len() + 1 + i] by {
                        assert(after[i] == before[i + 1]);
                    }
                }
                attrs.push(entry);
            },
        }
    }
}

/// The white space of XML.
pub open spec fn is_xml_space(byte: u8) -> bool {
    byte == 0x20 || byte == 0x09 || byte == 0x0a || byte == 0x0d
}

/// The number of bytes before the first white space, or the length where
/// there is none: the length of the element name in a tag's content.
pub open spec fn name_len_of(bytes: Seq<u8>) -> nat
    decreases bytes.len(),
{
    if bytes.len() == 0 || is_xml_space(bytes[0]) {
        0
    } else {
        1 + name_len_of(bytes.drop_first())
    }
}

/// The element name in a tag's content.
pub open spec fn tag_name_of(content: Seq<char>) -> Seq<char> {
    let bytes = encode_utf8(content);
    decode_utf8(bytes.subrange(0, name_len_of(bytes) as int))
}

/// The tag that a tag's content stands for.
pub open spec fn tag_of(content: Seq<char>) -> TagView {
    TagView {
        content,
        name: tag_name_of(content),
        attrs: xml_attributes(content, name_len_of(encode_utf8(content))),
    }
}

/// The event that a raw event stands for.
pub open spec fn event_of(raw: RawEventView) -> EventView {
    match raw.kind {
        EventKind::Start => EventView::Start(tag_of(raw.content)),
        EventKind::Empty => EventView::Empty(tag_of(raw.content)),
        EventKind::End => EventView::End(raw.content),
        EventKind::Text => EventView::Text(raw.content),
        EventKind::CData => EventView::CData(raw.content),
        EventKind::DocType => EventView::DocType(raw.content),
        EventKind::Other => EventView::Other(raw.content),
        EventKind::Eof => EventView::Eof,
        EventKind::Malformed => EventView::Malformed(raw.content),
    }
}

/// The token that a raw event stands for.
pub open spec fn token_of(raw: RawEventView) -> TokenView {
    TokenView { event: event_of(raw), end: raw.end }
}

/// The tokens of a document.
pub open spec fn document_tokens(text: Seq<char>) -> Seq<TokenView> {
    xml_events(text).map_values(|raw: RawEventView| token_of(raw))
}

proof fn lemma_name_len_bounds(bytes: Seq<u8>)
    ensures
        name_len_of(bytes) <= bytes.len(),
        name_len_of(bytes) < bytes.len() ==> is_xml_space(bytes[name_len_of(bytes) as int]),
        forall|k: int| 0 <= k < name_len_of(bytes) ==> !is_xml_space(#[trigger] bytes[k]),
    decreases bytes.len(),
{
    if bytes.len() == 0 || is_xml_space(bytes[0]) {
    } else {
        let rest = bytes.drop_first();
        lemma_name_len_bounds(rest);
        assert forall|k: int| 0 <= k < name_len_of(bytes) implies !is_xml_space(
            #[trigger] bytes[k],
        ) by {
            if k > 0 {
                assert(bytes[k] == rest[k - 1]);
            }
        }
    }
}

proof fn lemma_name_len_found(bytes: Seq<u8>, n: int)
    requires
        0 <= n <= bytes.len(),
        forall|k: int| 0 <= k < n ==> !is_xml_space(#[trigger] bytes[k]),
        n < bytes.len() ==> is_xml_space(bytes[n]),
    ensures
        name_len_of(bytes) == n,
    decreases bytes.len(),
{
    if bytes.len() == 0 || is_xml_space(bytes[0]) {
        if n > 0 {
            assert(!is_xml_space(bytes[0]));
        }
    } else {
        let rest = bytes.drop_first();
        assert forall|k: int| 0 <= k < n - 1 implies !is_xml_space(#[trigger] rest[k]) by {
            assert(rest[k] == bytes[k + 1]);
        }
        lemma_name_len_found(rest, n - 1);
    }
}

proof fn lemma_space_is_boundary(byte: u8)
    requires
        is_xml_space(byte),
    ensures
        !is_continuation_byte(byte),
{
    assert(0x20u8 & 0xC0 != 0x80) by (bit_vector);
    assert(0x09u8 & 0xC0 != 0x80) by (bit_vector);
    assert(0x0au8 & 0xC0 != 0x80) by (bit_vector);
    assert(0x0du8 & 0xC0 != 0x80) by (bit_vector);
}

/// Whether a byte is white space in XML.
fn is_space(byte: u8) -> (r: bool)
    ensures
        r == is_xml_space(byte),
{
    byte == 0x20 || byte == 0x09 || byte == 0x0a || byte == 0x0d
}

/// Splits a tag's content into the element name and the attribute list.
pub fn read_tag(content: String) -> (tag: Tag)
    ensures
        tag@ == tag_of(content@),
{
    let bytes = content.as_str().as_bytes();
    let mut n: usize = 0;
    while n < bytes.len() && !is_space(bytes[n])
        invariant
            n <= bytes.len(),
            forall|k: int| 0 <= k < n ==> !is_xml_space(#[trigger] bytes@[k]),
        decreases bytes.len() - n,
    {
        n += 1;
    }
    proof {
        broadcast use group_utf8_lib;

        lemma_name_len_found(bytes@, n as int);
        if n < bytes.len() {
            lemma_space_is_boundary(bytes@[n as int]);
        }
        assert(is_char_boundary(bytes@, n as int));
    }
    let (name, _rest) = content.as_str().split_at(n);
    proof {
        broadcast use group_utf8_lib;

        assert(encode_utf8(name@) == bytes@.subrange(0, n as int));
        assert(decode_utf8(encode_utf8(name@)) == name@);
    }
    let name = name.to_owned();
    let attrs = tag_attributes(content.as_str(), n);
    Tag { content, name, attrs }
}

/// The event that a raw event stands for, with the offset after it.
pub fn read_token(raw: RawEvent) -> (token: Token)
    ensures
        token@ == token_of(raw@),
{
    let end = raw.end;
    let event = match raw.kind {
        EventKind::Start => XmlEvent::Start(read_tag(raw.content)),
        EventKind::Empty => XmlEvent::Empty(read_tag(raw.content)),
        EventKind::End => XmlEvent::End(raw.content),
        EventKind::Text => XmlEvent::Text(raw.content),
        EventKind::CData => XmlEvent::CData(raw.content),
        EventKind::DocType => XmlEvent::DocType(raw.content),
        EventKind::Other => XmlEvent::Other(raw.content),
        EventKind::Eof => XmlEvent::Eof,
        EventKind::Malformed => XmlEvent::Malformed(raw.content),
    };
    Token { event, end }
}

/// Reads a document into its tokens: every event up to and including the
/// end of input, or the first failure of the XML reader.
pub fn tokenize(text: &str) -> (tokens: Vec<Token>)
    ensures
        tokens_view(tokens@) == document_tokens(text@),
        tokens@.len() > 0,
        forall|i: int|
            0 <= i < tokens@.len() ==> ((#[trigger] tokens@[i])@.event.is_last() <==> i
                == tokens@.len() - 1),
{
    let mut reader = open_reader(text);
    let mut tokens: Vec<Token> = Vec::new();
    let ghost all = xml_events(text@);
    loop
        invariant
            all == xml_events(text@),
            closed_stream(all),
            closed_stream(pending_events(reader)),
            tokens@.len() + pending_events(reader).len() == all.len(),
            forall|i: int|
                0 <= i < tokens@.len() ==> (#[trigger] tokens@[i])@ == token_of(all[i])
                    && !is_last_kind(all[i].kind),
            forall|i: int|
                0 <= i < pending_events(reader).len() ==> #[trigger] pending_events(reader)[i]
                    == all[tokens@.len() + i],
        decreases pending_events(reader).len(),
    {
        let ghost before = pending_events(reader);
        let ghost count = tokens@.len();
        let raw = read_raw_event(&mut reader);
        let last = match raw.kind {
            EventKind::Eof => true,
            EventKind::Malformed => true,
            _ => false,
        };
        let ghost raw_view = raw@;
        let token = read_token(raw);
        tokens.push(token);
        proof {
            assert(raw_view == before[0]);
            assert(before[0] == all[count as int]);
            assert(last == is_last_kind(before[0].kind));
        }
        if last {
            proof {
                assert(before.len() == 1);
                assert(tokens@.len() == all.len());
                assert forall|i: int| 0 <= i < tokens@.len() implies (#[trigger] tokens@[i])@
                    == token_of(all[i]) by {}
                assert(tokens_view(tokens@) =~= document_tokens(text@));
                assert forall|i: int| 0 <= i < tokens@.len() implies ((#[trigger] tokens@[i])@.event.is_last()
                    <==> i == tokens@.len() - 1) by {
                    assert(tokens@[i]@ == token_of(all[i]));
                    assert(is_last_kind(all[i].kind) <==> i == all.len() - 1);
                }
            }
            return tokens;
        }
        proof {
            let after = pending_events(reader);
            assert(before.len() > 1);
            assert(after == before.drop_first());
            assert forall|i: int| 0 <= i < after.len() implies #[trigger] after[i] == all[tokens@.len()
                + i] by {
                assert(after[i] == before[i + 1]);
            }
            assert forall|i: int| 0 <= i < after.len() implies (is_last_kind(
                #[trigger] after[i].kind,
            ) <==> i == after.len() - 1) by {
                assert(after[i] == before[i + 1]);
            }
        }
    }
}

} // verus!
