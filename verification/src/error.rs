//! Error types of the library, and their views.

use vstd::prelude::*;
use vstd::string::*;
use crate::locate::{Location, column_of, line_of, locate};
use crate::text::{decimal_text, u64_to_string};

verus! {

/// The colorspace is unknown. Holds the name that was found.
#[derive(Debug, PartialEq, Eq, Clone, Hash)]
pub struct UnknownColorspace(pub String);

/// The UUID could not be parsed. Holds the message of the UUID parser.
#[derive(Debug, PartialEq, Eq, Clone, Hash)]
pub struct ParseUuidError(pub String);

/// The composition operation is unknown. Holds the name that was found.
#[derive(Debug, PartialEq, Eq, Clone, Hash)]
pub struct UnknownCompositeOp(pub String);

/// The layer type is unknown. Holds the type that was found.
#[derive(Debug, PartialEq, Eq, Clone, Hash)]
pub struct UnknownLayerType(pub String);

/// A mask was expected instead of a layer. Holds the type that was found.
#[derive(Debug, PartialEq, Eq, Clone, Hash)]
pub struct MaskExpected(pub String);

/// Structural errors of an XML document.
#[derive(Debug, PartialEq, Eq, Clone, Hash)]
pub enum XmlError {
    /// A text of the document differs from the one text it may be:
    /// the expected text, then the text that was found.
    AssertionFailed(&'static str, String),
    /// The XML cannot be read. Holds the message of the XML reader; where
    /// the document ends inside an element that is being skipped, it holds
    /// the words `missing end tag: ` and the name of the element.
    ParsingError(String),
    /// The XML event is not the one expected here: what was expected,
    /// then the content of the event that was found.
    EventError(&'static str, String),
    /// An attribute is missing. Holds its name.
    MissingValue(String),
    /// A value cannot be read as the type it must have. Holds the value.
    ValueError(String),
}

/// What went wrong while reading metadata.
#[derive(Debug, PartialEq, Eq, Clone, Hash)]
pub enum MetadataErrorReason {
    /// The colorspace is unknown.
    UnknownColorspace(UnknownColorspace),
    /// The layer type is unknown.
    UnknownLayerType(UnknownLayerType),
    /// A mask was expected instead of a layer.
    MaskExpected(MaskExpected),
    /// The value cannot be parsed as UUID.
    ParseUuidError(ParseUuidError),
    /// The composition operation is unknown.
    UnknownCompositeOp(UnknownCompositeOp),
    /// Error in the XML.
    XmlError(XmlError),
}

/// Model of an [`XmlError`].
pub ghost enum XmlErrorView {
    AssertionFailed(Seq<char>, Seq<char>),
    ParsingError(Seq<char>),
    EventError(Seq<char>, Seq<char>),
    MissingValue(Seq<char>),
    ValueError(Seq<char>),
}

/// Model of a [`MetadataErrorReason`].
pub ghost enum ReasonView {
    UnknownColorspace(Seq<char>),
    UnknownLayerType(Seq<char>),
    MaskExpected(Seq<char>),
    ParseUuidError(Seq<char>),
    UnknownCompositeOp(Seq<char>),
    Xml(XmlErrorView),
}

impl View for XmlError {
    type V = XmlErrorView;

    open spec fn view(&self) -> XmlErrorView {
        match self {
            XmlError::AssertionFailed(expected, actual) => XmlErrorView::AssertionFailed(
                expected@,
                actual@,
            ),
            XmlError::ParsingError(message) => XmlErrorView::ParsingError(message@),
            XmlError::EventError(expected, actual) => XmlErrorView::EventError(
                expected@,
                actual@,
            ),
            XmlError::MissingValue(name) => XmlErrorView::MissingValue(name@),
            XmlError::ValueError(value) => XmlErrorView::ValueError(value@),
        }
    }
}

impl View for MetadataErrorReason {
    type V = ReasonView;

    open spec fn view(&self) -> ReasonView {
        match self {
            MetadataErrorReason::UnknownColorspace(e) => ReasonView::UnknownColorspace(e.0@),
            MetadataErrorReason::UnknownLayerType(e) => ReasonView::UnknownLayerType(e.0@),
            MetadataErrorReason::MaskExpected(e) => ReasonView::MaskExpected(e.0@),
            MetadataErrorReason::ParseUuidError(e) => ReasonView::ParseUuidError(e.0@),
            MetadataErrorReason::UnknownCompositeOp(e) => ReasonView::UnknownCompositeOp(e.0@),
            MetadataErrorReason::XmlError(e) => ReasonView::Xml(e@),
        }
    }
}

/// The message of an error that holds one text: the words, then the text.
pub open spec fn worded(words: Seq<char>, text: Seq<char>) -> Seq<char> {
    words + text
}

/// Puts a text behind some words.
fn say(words: &str, text: &str) -> (message: String)
    ensures
        message@ == worded(words@, text@),
{
    let mut message = words.to_owned();
    message.append(text);
    message
}

impl UnknownColorspace {
    /// The error in words.
    pub fn message(&self) -> (message: String)
        ensures
            message@ == worded("unknown colorspace: "@, self.0@),
    {
        say("unknown colorspace: ", self.0.as_str())
    }
}

impl ParseUuidError {
    /// The error in words.
    pub fn message(&self) -> (message: String)
        ensures
            message@ == worded("failed to parse UUID: "@, self.0@),
    {
        say("failed to parse UUID: ", self.0.as_str())
    }
}

impl UnknownCompositeOp {
    /// The error in words.
    pub fn message(&self) -> (message: String)
        ensures
            message@ == worded("unknown compositeop: "@, self.0@),
    {
        say("unknown compositeop: ", self.0.as_str())
    }
}

impl UnknownLayerType {
    /// The error in words.
    pub fn message(&self) -> (message: String)
        ensures
            message@ == worded("unknown layer type: "@, self.0@),
    {
        say("unknown layer type: ", self.0.as_str())
    }
}

impl MaskExpected {
    /// The error in words.
    pub fn message(&self) -> (message: String)
        ensures
            message@ == worded("expected a mask, got: "@, self.0@),
    {
        say("expected a mask, got: ", self.0.as_str())
    }
}

impl XmlErrorView {
    /// The error in words.
    pub open spec fn message(self) -> Seq<char> {
        match self {
            XmlErrorView::AssertionFailed(expected, actual) =>
                "assertion about XML metadata failed: expected "@ + expected + ", got "@ + actual,
            XmlErrorView::ParsingError(message) => "could not parse XML: "@ + message,
            XmlErrorView::EventError(expected, actual) => "unexpected XML event: expected "@
                + expected + ", got "@ + actual,
            XmlErrorView::MissingValue(name) => "missing XML value: "@ + name,
            XmlErrorView::ValueError(value) => "could not interpret XML value: "@ + value,
        }
    }
}

impl XmlError {
    /// The error in words.
    pub fn message(&self) -> (message: String)
        ensures
            message@ == self@.message(),
    {
        match self {
            XmlError::AssertionFailed(expected, actual) => {
                let mut message = say("assertion about XML metadata failed: expected ", expected);
                message.append(", got ");
                message.append(actual.as_str());
                message
            },
            XmlError::ParsingError(message) => say("could not parse XML: ", message.as_str()),
            XmlError::EventError(expected, actual) => {
                let mut message = say("unexpected XML event: expected ", expected);
                message.append(", got ");
                message.append(actual.as_str());
                message
            },
            XmlError::MissingValue(name) => say("missing XML value: ", name.as_str()),
            XmlError::ValueError(value) => say("could not interpret XML value: ", value.as_str()),
        }
    }
}

impl ReasonView {
    /// The reason in words.
    pub open spec fn message(self) -> Seq<char> {
        match self {
            ReasonView::UnknownColorspace(name) => worded("unknown colorspace: "@, name),
            ReasonView::UnknownLayerType(name) => worded("unknown layer type: "@, name),
            ReasonView::MaskExpected(name) => worded("expected a mask, got: "@, name),
            ReasonView::ParseUuidError(message) => worded("failed to parse UUID: "@, message),
            ReasonView::UnknownCompositeOp(name) => worded("unknown compositeop: "@, name),
            ReasonView::Xml(e) => e.message(),
        }
    }
}

impl MetadataErrorReason {
    /// The reason in words.
    pub fn message(&self) -> (message: String)
        ensures
            message@ == self@.message(),
    {
        match self {
            MetadataErrorReason::UnknownColorspace(e) => e.message(),
            MetadataErrorReason::UnknownLayerType(e) => e.message(),
            MetadataErrorReason::MaskExpected(e) => e.message(),
            MetadataErrorReason::ParseUuidError(e) => e.message(),
            MetadataErrorReason::UnknownCompositeOp(e) => e.message(),
            MetadataErrorReason::XmlError(e) => e.message(),
        }
    }
}

/// Model of a result of the attribute extractor.
pub open spec fn xml_result<T: View>(r: Result<T, XmlError>) -> Result<T::V, XmlErrorView> {
    match r {
        Ok(value) => Ok(value@),
        Err(e) => Err(e@),
    }
}

/// Model of a result of a decoder or of the tree parser.
pub open spec fn reason_result<T: View>(r: Result<T, MetadataErrorReason>) -> Result<
    T::V,
    ReasonView,
> {
    match r {
        Ok(value) => Ok(value@),
        Err(e) => Err(e@),
    }
}

/// The same result, with the structural error as a reason.
pub open spec fn lifted<T>(r: Result<T, XmlErrorView>) -> Result<T, ReasonView> {
    match r {
        Ok(value) => Ok(value),
        Err(e) => Err(ReasonView::Xml(e)),
    }
}

/// Turns a structural error into a reason, and keeps a value.
pub fn lift<T>(r: Result<T, XmlError>) -> (out: Result<T, MetadataErrorReason>)
    ensures
        match r {
            Ok(value) => out == Ok::<T, MetadataErrorReason>(value),
            Err(e) => out == Err::<T, MetadataErrorReason>(MetadataErrorReason::XmlError(e)),
        },
{
    match r {
        Ok(value) => Ok(value),
        Err(e) => Err(MetadataErrorReason::XmlError(e)),
    }
}

/// An error that was found while parsing metadata, with the file and the
/// place in it.
#[derive(Debug, PartialEq, Eq, Clone)]
pub struct MetadataError {
    /// The name of the file.
    pub file: String,
    /// The byte offset at which the parser stood.
    pub buffer_pos: u64,
    /// The line and the column of that offset, where it lies in the file.
    pub location: Option<Location>,
    /// What went wrong.
    pub error: MetadataErrorReason,
}

/// Model of a [`MetadataError`].
pub ghost struct MetadataErrorView {
    pub file: Seq<char>,
    pub buffer_pos: u64,
    pub location: Option<Location>,
    pub error: ReasonView,
}

impl View for MetadataError {
    type V = MetadataErrorView;

    open spec fn view(&self) -> MetadataErrorView {
        MetadataErrorView {
            file: self.file@,
            buffer_pos: self.buffer_pos,
            location: self.location,
            error: self.error@,
        }
    }
}

/// The place of a byte offset, where the offset lies in the document.
pub open spec fn location_of(data: Seq<u8>, pos: u64) -> Option<Location> {
    if pos <= data.len() {
        Some(
            Location {
                line: line_of(data, pos as int) as u64,
                column: column_of(data, pos as int) as u64,
            },
        )
    } else {
        None
    }
}

/// A reason with the file and the place at which it was found.
pub open spec fn located(
    reason: ReasonView,
    file: Seq<char>,
    pos: u64,
    data: Seq<u8>,
) -> MetadataErrorView {
    MetadataErrorView { file, buffer_pos: pos, location: location_of(data, pos), error: reason }
}

impl MetadataErrorReason {
    /// Gives the reason the file and the place at which it was found.
    pub fn to_metadata_error(self, file: &str, buffer_pos: u64, data: &[u8]) -> (e: MetadataError)
        ensures
            e@ == located(self@, file@, buffer_pos, data@),
    {
        let location = if buffer_pos <= data.len() as u64 {
            Some(locate(data, buffer_pos))
        } else {
            None
        };
        MetadataError { file: file.to_owned(), buffer_pos, location, error: self }
    }
}

/// Errors that can be encountered while reading the parts of a document.
#[derive(Debug, PartialEq, Eq, Clone)]
pub enum ReadKraError {
    /// Wrong mimetype.
    MimetypeMismatch,
    /// Error parsing metadata.
    MetadataError(MetadataError),
}

impl MetadataErrorView {
    /// The place of the error in words: empty where the place is not
    /// known.
    pub open spec fn place(self) -> Seq<char> {
        match self.location {
            Some(at) => " (line: "@ + decimal_text(at.line as nat) + ", column: "@ + decimal_text(
                at.column as nat,
            ) + ")"@,
            None => Seq::empty(),
        }
    }

    /// The error in words: the file, the byte offset, the place, and the
    /// reason.
    pub open spec fn message(self) -> Seq<char> {
        self.file + " at byte "@ + decimal_text(self.buffer_pos as nat) + self.place() + ": "@
            + self.error.message()
    }
}

impl MetadataError {
    /// The error in words.
    pub fn message(&self) -> (message: String)
        ensures
            message@ == self@.message(),
    {
        let mut message = say(self.file.as_str(), " at byte ");
        message.append(u64_to_string(self.buffer_pos).as_str());
        match self.location {
            Some(at) => {
                message.append(" (line: ");
                message.append(u64_to_string(at.line).as_str());
                message.append(", column: ");
                message.append(u64_to_string(at.column).as_str());
                message.append(")");
            },
            None => {
                assert(message@ + Seq::<char>::empty() =~= message@);
            },
        }
        message.append(": ");
        message.append(self.error.message().as_str());
        proof {
            let at = self.location;
            let number = decimal_text(self.buffer_pos as nat);
            if at is Some {
                let line = decimal_text(at->Some_0.line as nat);
                let column = decimal_text(at->Some_0.column as nat);
                assert(message@ =~= self.file@ + " at byte "@ + number + (" (line: "@ + line
                    + ", column: "@ + column + ")"@) + ": "@ + self.error@.message());
            } else {
                assert(message@ =~= self.file@ + " at byte "@ + number + Seq::<char>::empty()
                    + ": "@ + self.error@.message());
            }
        }
        message
    }
}

impl ReadKraError {
    /// The error in words.
    pub open spec fn spec_message(self) -> Seq<char> {
        match self {
            ReadKraError::MimetypeMismatch => "mimetype not recognised"@,
            ReadKraError::MetadataError(e) => e@.message(),
        }
    }

    /// The error in words.
    pub fn message(&self) -> (message: String)
        ensures
            message@ == self.spec_message(),
    {
        match self {
            ReadKraError::MimetypeMismatch => "mimetype not recognised".to_owned(),
            ReadKraError::MetadataError(e) => e.message(),
        }
    }
}

} // verus!
