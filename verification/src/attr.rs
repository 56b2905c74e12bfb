//! The attribute extractor: the value of a tag's attribute by name, and
//! the typed readings of a value.

use vstd::prelude::*;
use vstd::string::*;
use crate::error::{XmlError, XmlErrorView, xml_result};
use crate::text::{decimal_between, parse_decimal, str_eq};
use crate::xml::{AttrEntry, AttrEntryView, Tag, TagView};

verus! {

/// What `quick_xml` makes of a raw text or attribute value when it
/// replaces the escape sequences in it: the text, or the message of its
/// failure.
pub uninterp spec fn unescaped(raw: Seq<char>) -> Result<Seq<char>, Seq<char>>;

/// `quick_xml::escape::unescape`. Assumed: the result is the same for the
/// same text. The failure is turned into its message.
#[verifier::external_body]
fn unescape_xml(raw: &str) -> (r: Result<String, String>)
    ensures
        match r {
            Ok(text) => unescaped(raw@) == Ok::<Seq<char>, Seq<char>>(text@),
            Err(message) => unescaped(raw@) == Err::<Seq<char>, Seq<char>>(message@),
        },
{
    match quick_xml::escape::unescape(raw) {
        Ok(text) => Ok(text.into_owned()),
        Err(e) => Err(e.to_string()),
    }
}

/// The raw value of the first attribute with the given name, if no
/// malformed attribute stands before it.
pub open spec fn find_attr(attrs: Seq<AttrEntryView>, name: Seq<char>) -> Result<
    Option<Seq<char>>,
    XmlErrorView,
>
    decreases attrs.len(),
{
    if attrs.len() == 0 {
        Ok(None)
    } else {
        match attrs[0] {
            AttrEntryView::Malformed(message) => Err(XmlErrorView::ParsingError(message)),
            AttrEntryView::Pair { key, value } => if key == name {
                Ok(Some(value))
            } else {
                find_attr(attrs.drop_first(), name)
            },
        }
    }
}

/// The raw value of a tag's attribute, which must be there.
pub open spec fn get_attr(tag: TagView, name: Seq<char>) -> Result<Seq<char>, XmlErrorView> {
    match find_attr(tag.attrs, name) {
        Ok(Some(value)) => Ok(value),
        Ok(None) => Err(XmlErrorView::MissingValue(name)),
        Err(e) => Err(e),
    }
}

/// A raw value with its escape sequences replaced.
pub open spec fn unescaped_value(raw: Seq<char>) -> Result<Seq<char>, XmlErrorView> {
    match unescaped(raw) {
        Ok(text) => Ok(text),
        Err(message) => Err(XmlErrorView::ParsingError(message)),
    }
}

/// The text of an attribute: its value, unescaped.
pub open spec fn text_attr(tag: TagView, name: Seq<char>) -> Result<Seq<char>, XmlErrorView> {
    match get_attr(tag, name) {
        Ok(raw) => unescaped_value(raw),
        Err(e) => Err(e),
    }
}

/// A truth value written as `1` or `0`.
pub open spec fn bool_value(raw: Seq<char>) -> Result<bool, XmlErrorView> {
    match unescaped_value(raw) {
        Ok(text) => if text == "1"@ {
            Ok(true)
        } else if text == "0"@ {
            Ok(false)
        } else {
            Err(XmlErrorView::ValueError(text))
        },
        Err(e) => Err(e),
    }
}

/// A truth value written as `true` or `false`.
pub open spec fn word_bool_value(raw: Seq<char>) -> Result<bool, XmlErrorView> {
    match unescaped_value(raw) {
        Ok(text) => if text == "true"@ {
            Ok(true)
        } else if text == "false"@ {
            Ok(false)
        } else {
            Err(XmlErrorView::ValueError(text))
        },
        Err(e) => Err(e),
    }
}

/// A decimal number between two bounds.
pub open spec fn number_value(raw: Seq<char>, min: int, max: int) -> Result<int, XmlErrorView> {
    match unescaped_value(raw) {
        Ok(text) => match decimal_between(text, min, max) {
            Some(value) => Ok(value),
            None => Err(XmlErrorView::ValueError(text)),
        },
        Err(e) => Err(e),
    }
}

/// A number that fits in eight bits.
pub open spec fn u8_value(raw: Seq<char>) -> Result<u8, XmlErrorView> {
    match number_value(raw, 0, 0xFF) {
        Ok(value) => Ok(value as u8),
        Err(e) => Err(e),
    }
}

/// A number that fits in 32 bits.
pub open spec fn u32_value(raw: Seq<char>) -> Result<u32, XmlErrorView> {
    match number_value(raw, 0, 0xFFFF_FFFF) {
        Ok(value) => Ok(value as u32),
        Err(e) => Err(e),
    }
}

/// A number with a sign that fits in 32 bits.
pub open spec fn i32_value(raw: Seq<char>) -> Result<i32, XmlErrorView> {
    match number_value(raw, -0x8000_0000, 0x7FFF_FFFF) {
        Ok(value) => Ok(value as i32),
        Err(e) => Err(e),
    }
}

/// Looks an attribute up by name. Gives its raw value; a missing
/// attribute is an error that names it.
pub fn event_get_attr<'a>(tag: &'a Tag, name: &str) -> (r: Result<&'a str, XmlError>)
    ensures
        xml_result(r) == get_attr(tag@, name@),
{
    let ghost all = tag@.attrs;
    let mut i: usize = 0;
    assert(all.subrange(0, all.len() as int) =~= all);
    while i < tag.attrs.len()
        invariant
            i <= tag.attrs.len(),
            all == tag@.attrs,
            all.len() == tag.attrs.len(),
            find_attr(all, name@) == find_attr(all.subrange(i as int, all.len() as int), name@),
        decreases tag.attrs.len() - i,
    {
        let ghost rest = all.subrange(i as int, all.len() as int);
        assert(rest[0] == tag.attrs@[i as int]@);
        assert(rest.drop_first() =~= all.subrange(i + 1, all.len() as int));
        match &tag.attrs[i] {
            AttrEntry::Malformed(message) => {
                return Err(XmlError::ParsingError(message.clone()));
            },
            AttrEntry::Pair { key, value } => {
                if str_eq(key.as_str(), name) {
                    return Ok(value.as_str());
                }
            },
        }
        i += 1;
    }
    assert(all.subrange(i as int, all.len() as int).len() == 0);
    Err(XmlError::MissingValue(name.to_owned()))
}

/// Replaces the escape sequences in a raw value.
pub fn unescape_value(raw: &str) -> (r: Result<String, XmlError>)
    ensures
        xml_result(r) == unescaped_value(raw@),
{
    match unescape_xml(raw) {
        Ok(text) => Ok(text),
        Err(message) => Err(XmlError::ParsingError(message)),
    }
}

/// Looks an attribute up by name and gives its text.
pub fn get_text(tag: &Tag, name: &str) -> (r: Result<String, XmlError>)
    ensures
        xml_result(r) == text_attr(tag@, name@),
{
    let raw = event_get_attr(tag, name)?;
    unescape_value(raw)
}

/// Reads a truth value, which the documents write as `1` or `0`.
pub fn parse_bool(raw: &str) -> (r: Result<bool, XmlError>)
    ensures
        xml_result(r) == bool_value(raw@),
{
    let text = unescape_value(raw)?;
    if str_eq(text.as_str(), "1") {
        Ok(true)
    } else if str_eq(text.as_str(), "0") {
        Ok(false)
    } else {
        Err(XmlError::ValueError(text))
    }
}

/// Reads a truth value written as the word `true` or `false`.
pub fn parse_word_bool(raw: &str) -> (r: Result<bool, XmlError>)
    ensures
        xml_result(r) == word_bool_value(raw@),
{
    let text = unescape_value(raw)?;
    if str_eq(text.as_str(), "true") {
        Ok(true)
    } else if str_eq(text.as_str(), "false") {
        Ok(false)
    } else {
        Err(XmlError::ValueError(text))
    }
}

/// Reads a number that fits in eight bits.
pub fn parse_u8(raw: &str) -> (r: Result<u8, XmlError>)
    ensures
        xml_result(r) == u8_value(raw@),
{
    let text = unescape_value(raw)?;
    match parse_decimal(text.as_str(), 0, 0xFF) {
        Some(value) => Ok(value as u8),
        None => Err(XmlError::ValueError(text)),
    }
}

/// Reads a number that fits in 32 bits.
pub fn parse_u32(raw: &str) -> (r: Result<u32, XmlError>)
    ensures
        xml_result(r) == u32_value(raw@),
{
    let text = unescape_value(raw)?;
    match parse_decimal(text.as_str(), 0, 0xFFFF_FFFF) {
        Some(value) => Ok(value as u32),
        None => Err(XmlError::ValueError(text)),
    }
}

/// Reads a number with a sign that fits in 32 bits.
pub fn parse_i32(raw: &str) -> (r: Result<i32, XmlError>)
    ensures
        xml_result(r) == i32_value(raw@),
{
    let text = unescape_value(raw)?;
    match parse_decimal(text.as_str(), -0x8000_0000, 0x7FFF_FFFF) {
        Some(value) => Ok(value as i32),
        None => Err(XmlError::ValueError(text)),
    }
}

} // verus!
