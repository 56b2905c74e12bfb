//! The metadata of a document: the image properties that stand before the
//! layers in the main document, the settings that follow them, and the
//! information about the document and its author.

use vstd::prelude::*;
use vstd::string::*;
use crate::attr::{
    bool_value, event_get_attr, get_attr, get_text, parse_bool, parse_u32, text_attr, u32_value,
    unescape_value, unescaped_value,
};
use crate::color::{Colorspace, colorspace_named};
use crate::cursor::{
    CursorView, Event, EventCursor, event_to_string, event_unwrap_as_doctype,
    event_unwrap_as_empty, event_unwrap_as_end, event_unwrap_as_start, read_step, step_result,
    unwrap_as_doctype, unwrap_as_empty,
};
use crate::error::{
    MetadataErrorReason, ReasonView, XmlError, XmlErrorView, lift, lifted, reason_result,
};
use crate::parse::{
    Parsed, after_item, after_items, done, expect_end, expect_start, failed,
    lemma_after_items_end, lemma_after_items_push, lemma_after_no_items,
};
use crate::text::str_eq;
use crate::xml::{EventView, Tag, TagView, TokenView};

verus! {

/// The document type that the main document must declare.
pub const MAINDOC_DOCTYPE: &'static str =
    "DOC PUBLIC '-//KDE//DTD krita 2.0//EN' 'http://www.calligra.org/DTD/krita-2.0.dtd'";

/// The namespace of the main document.
pub const MAINDOC_XMLNS: &'static str = "http://www.calligra.org/DTD/krita";

/// The document type that the document information must declare.
pub const DOCUMENTINFO_DOCTYPE: &'static str =
    "document-info PUBLIC '-//KDE//DTD document-info 1.1//EN' 'http://www.calligra.org/DTD/document-info-1.1.dtd'";

/// The namespace of the document information.
pub const DOCUMENTINFO_XMLNS: &'static str = "http://www.calligra.org/DTD/document-info";

/// The version of the syntax of the main document.
pub const SYNTAX_VERSION: &'static str = "2.0";

/// The type that the image element of the main document must declare.
pub const MIMETYPE: &'static str = "application/x-kra";

/// The image properties: the part of the metadata that stands before the
/// layers.
#[derive(Debug, PartialEq, Eq, Clone, Hash)]
pub struct ImageMetadata {
    /// Version of Krita under which the file was saved.
    pub krita_version: String,
    /// Name of the image.
    pub name: String,
    /// Description of the image.
    pub description: String,
    /// Colorspace of the image.
    pub colorspace: Colorspace,
    /// Color profile of the image.
    pub profile: String,
    /// Height, in pixels.
    pub height: u32,
    /// Width, in pixels.
    pub width: u32,
    /// Dots per inch vertically.
    pub y_res: u32,
    /// Dots per inch horizontally.
    pub x_res: u32,
}

/// Model of [`ImageMetadata`].
pub ghost struct ImageMetadataView {
    pub krita_version: Seq<char>,
    pub name: Seq<char>,
    pub description: Seq<char>,
    pub colorspace: Colorspace,
    pub profile: Seq<char>,
    pub height: u32,
    pub width: u32,
    pub y_res: u32,
    pub x_res: u32,
}

impl View for ImageMetadata {
    type V = ImageMetadataView;

    open spec fn view(&self) -> ImageMetadataView {
        ImageMetadataView {
            krita_version: self.krita_version@,
            name: self.name@,
            description: self.description@,
            colorspace: self.colorspace,
            profile: self.profile@,
            height: self.height,
            width: self.width,
            y_res: self.y_res,
            x_res: self.x_res,
        }
    }
}

/// The settings that follow the layers in the main document. Each may be
/// missing.
#[derive(Debug, PartialEq, Eq, Clone, Hash)]
pub struct KraMetadataEnd {
    /// Projection background color.
    pub projection_background_color: Option<String>,
    /// Global assistants color.
    pub global_assistants_color: Option<String>,
}

/// Model of [`KraMetadataEnd`].
pub ghost struct KraMetadataEndView {
    pub projection_background_color: Option<Seq<char>>,
    pub global_assistants_color: Option<Seq<char>>,
}

/// Model of a text that may be missing.
pub open spec fn option_text(text: Option<String>) -> Option<Seq<char>> {
    match text {
        Some(text) => Some(text@),
        None => None,
    }
}

impl View for KraMetadataEnd {
    type V = KraMetadataEndView;

    open spec fn view(&self) -> KraMetadataEndView {
        KraMetadataEndView {
            projection_background_color: option_text(self.projection_background_color),
            global_assistants_color: option_text(self.global_assistants_color),
        }
    }
}

/// Metadata of the image.
#[derive(Debug, PartialEq, Eq, Clone, Hash)]
pub struct KraMetadata {
    /// Version of Krita under which the file was saved.
    pub krita_version: String,
    /// Name of the image.
    pub name: String,
    /// Description of the image.
    pub description: String,
    /// Colorspace of the image.
    pub colorspace: Colorspace,
    /// Color profile of the image.
    pub profile: String,
    /// Height, in pixels.
    pub height: u32,
    /// Width, in pixels.
    pub width: u32,
    /// Dots per inch vertically.
    pub y_res: u32,
    /// Dots per inch horizontally.
    pub x_res: u32,
    /// Projection background color.
    pub projection_background_color: Option<String>,
    /// Global assistants color.
    pub global_assistants_color: Option<String>,
}

/// Model of [`KraMetadata`]: the two parts that it is made of.
pub ghost struct KraMetadataView {
    pub start: ImageMetadataView,
    pub end: KraMetadataEndView,
}

impl View for KraMetadata {
    type V = KraMetadataView;

    open spec fn view(&self) -> KraMetadataView {
        KraMetadataView {
            start: ImageMetadataView {
                krita_version: self.krita_version@,
                name: self.name@,
                description: self.description@,
                colorspace: self.colorspace,
                profile: self.profile@,
                height: self.height,
                width: self.width,
                y_res: self.y_res,
                x_res: self.x_res,
            },
            end: KraMetadataEndView {
                projection_background_color: option_text(self.projection_background_color),
                global_assistants_color: option_text(self.global_assistants_color),
            },
        }
    }
}

impl KraMetadata {
    /// Puts the two parts of the metadata together.
    pub fn new(start: ImageMetadata, end: KraMetadataEnd) -> (meta: KraMetadata)
        ensures
            meta@ == (KraMetadataView { start: start@, end: end@ }),
    {
        KraMetadata {
            krita_version: start.krita_version,
            name: start.name,
            description: start.description,
            colorspace: start.colorspace,
            profile: start.profile,
            height: start.height,
            width: start.width,
            y_res: start.y_res,
            x_res: start.x_res,
            projection_background_color: end.projection_background_color,
            global_assistants_color: end.global_assistants_color,
        }
    }

    /// Version of Krita under which the file was saved.
    pub fn krita_version(&self) -> (text: &str)
        ensures
            text@ == self@.start.krita_version,
    {
        self.krita_version.as_str()
    }

    /// Name of the image.
    pub fn name(&self) -> (text: &str)
        ensures
            text@ == self@.start.name,
    {
        self.name.as_str()
    }

    /// Description of the image.
    pub fn description(&self) -> (text: &str)
        ensures
            text@ == self@.start.description,
    {
        self.description.as_str()
    }

    /// Colorspace of the image.
    pub fn colorspace(&self) -> (value: Colorspace)
        ensures
            value == self@.start.colorspace,
    {
        self.colorspace
    }

    /// Color profile of the image.
    pub fn profile(&self) -> (text: &str)
        ensures
            text@ == self@.start.profile,
    {
        self.profile.as_str()
    }

    /// Height, in pixels.
    pub fn height(&self) -> (value: u32)
        ensures
            value == self@.start.height,
    {
        self.height
    }

    /// Width, in pixels.
    pub fn width(&self) -> (value: u32)
        ensures
            value == self@.start.width,
    {
        self.width
    }

    /// Dots per inch vertically.
    pub fn y_res(&self) -> (value: u32)
        ensures
            value == self@.start.y_res,
    {
        self.y_res
    }

    /// Dots per inch horizontally.
    pub fn x_res(&self) -> (value: u32)
        ensures
            value == self@.start.x_res,
    {
        self.x_res
    }

    /// Projection background color.
    pub fn projection_background_color(&self) -> (color: &Option<String>)
        ensures
            option_text(*color) == self@.end.projection_background_color,
    {
        &self.projection_background_color
    }

    /// Global assistants color.
    pub fn global_assistants_color(&self) -> (color: &Option<String>)
        ensures
            option_text(*color) == self@.end.global_assistants_color,
    {
        &self.global_assistants_color
    }
}

/// Model of a list of texts.
pub open spec fn texts_view(texts: Seq<String>) -> Seq<Seq<char>> {
    texts.map_values(|t: String| t@)
}

/// Information about the file.
#[derive(Debug, PartialEq, Eq, Clone, Hash)]
pub struct DocInfoAbout {
    /// Title of the document.
    pub title: String,
    /// Description of the document.
    pub description: String,
    /// Subject of the document.
    pub subject: String,
    /// Abstract of the document.
    pub abstract_text: String,
    /// Keywords.
    pub keyword: String,
    /// Who created the document first.
    pub initial_creator: String,
    /// Number of editing cycles.
    pub editing_cycles: String,
    /// Time spent editing.
    pub editing_time: String,
    /// Date of the last change.
    pub date: String,
    /// Date of creation.
    pub creation_date: String,
    /// Language of the document.
    pub language: String,
    /// License of the document.
    pub license: String,
}

/// Model of [`DocInfoAbout`].
pub ghost struct DocInfoAboutView {
    pub title: Seq<char>,
    pub description: Seq<char>,
    pub subject: Seq<char>,
    pub abstract_text: Seq<char>,
    pub keyword: Seq<char>,
    pub initial_creator: Seq<char>,
    pub editing_cycles: Seq<char>,
    pub editing_time: Seq<char>,
    pub date: Seq<char>,
    pub creation_date: Seq<char>,
    pub language: Seq<char>,
    pub license: Seq<char>,
}

impl View for DocInfoAbout {
    type V = DocInfoAboutView;

    open spec fn view(&self) -> DocInfoAboutView {
        DocInfoAboutView {
            title: self.title@,
            description: self.description@,
            subject: self.subject@,
            abstract_text: self.abstract_text@,
            keyword: self.keyword@,
            initial_creator: self.initial_creator@,
            editing_cycles: self.editing_cycles@,
            editing_time: self.editing_time@,
            date: self.date@,
            creation_date: self.creation_date@,
            language: self.language@,
            license: self.license@,
        }
    }
}

impl DocInfoAbout {
    /// The value that a list of 12 texts stands for, in the order of the
    /// fields.
    pub open spec fn of_texts(texts: Seq<Seq<char>>) -> DocInfoAboutView {
        DocInfoAboutView {
            title: texts[0],
            description: texts[1],
            subject: texts[2],
            abstract_text: texts[3],
            keyword: texts[4],
            initial_creator: texts[5],
            editing_cycles: texts[6],
            editing_time: texts[7],
            date: texts[8],
            creation_date: texts[9],
            language: texts[10],
            license: texts[11],
        }
    }

    /// Builds the value from a list of 12 texts, in the order of the fields.
    pub fn from_texts(texts: &Vec<String>) -> (r: DocInfoAbout)
        requires
            texts@.len() == 12,
        ensures
            r@ == DocInfoAbout::of_texts(texts_view(texts@)),
    {
        DocInfoAbout {
            title: texts[0].clone(),
            description: texts[1].clone(),
            subject: texts[2].clone(),
            abstract_text: texts[3].clone(),
            keyword: texts[4].clone(),
            initial_creator: texts[5].clone(),
            editing_cycles: texts[6].clone(),
            editing_time: texts[7].clone(),
            date: texts[8].clone(),
            creation_date: texts[9].clone(),
            language: texts[10].clone(),
            license: texts[11].clone(),
        }
    }

    /// Title of the document.
    pub fn title(&self) -> (text: &str)
        ensures
            text@ == self@.title,
    {
        self.title.as_str()
    }

    /// Description of the document.
    pub fn description(&self) -> (text: &str)
        ensures
            text@ == self@.description,
    {
        self.description.as_str()
    }

    /// Subject of the document.
    pub fn subject(&self) -> (text: &str)
        ensures
            text@ == self@.subject,
    {
        self.subject.as_str()
    }

    /// Abstract of the document.
    pub fn abstract_text(&self) -> (text: &str)
        ensures
            text@ == self@.abstract_text,
    {
        self.abstract_text.as_str()
    }

    /// Keywords.
    pub fn keyword(&self) -> (text: &str)
        ensures
            text@ == self@.keyword,
    {
        self.keyword.as_str()
    }

    /// Who created the document first.
    pub fn initial_creator(&self) -> (text: &str)
        ensures
            text@ == self@.initial_creator,
    {
        self.initial_creator.as_str()
    }

    /// Number of editing cycles.
    pub fn editing_cycles(&self) -> (text: &str)
        ensures
            text@ == self@.editing_cycles,
    {
        self.editing_cycles.as_str()
    }

    /// Time spent editing.
    pub fn editing_time(&self) -> (text: &str)
        ensures
            text@ == self@.editing_time,
    {
        self.editing_time.as_str()
    }

    /// Date of the last change.
    pub fn date(&self) -> (text: &str)
        ensures
            text@ == self@.date,
    {
        self.date.as_str()
    }

    /// Date of creation.
    pub fn creation_date(&self) -> (text: &str)
        ensures
            text@ == self@.creation_date,
    {
        self.creation_date.as_str()
    }

    /// Language of the document.
    pub fn language(&self) -> (text: &str)
        ensures
            text@ == self@.language,
    {
        self.language.as_str()
    }

    /// License of the document.
    pub fn license(&self) -> (text: &str)
        ensures
            text@ == self@.license,
    {
        self.license.as_str()
    }
}

/// Information about the author of the file.
#[derive(Debug, PartialEq, Eq, Clone, Hash)]
pub struct DocInfoAuthor {
    /// Full name of the author.
    pub full_name: String,
    /// First name of the author.
    pub creator_first_name: String,
    /// Last name of the author.
    pub creator_last_name: String,
    /// Initials of the author.
    pub initial: String,
    /// Title of the author.
    pub author_title: String,
    /// Position of the author.
    pub position: String,
    /// Company of the author.
    pub company: String,
}

/// Model of [`DocInfoAuthor`].
pub ghost struct DocInfoAuthorView {
    pub full_name: Seq<char>,
    pub creator_first_name: Seq<char>,
    pub creator_last_name: Seq<char>,
    pub initial: Seq<char>,
    pub author_title: Seq<char>,
    pub position: Seq<char>,
    pub company: Seq<char>,
}

impl View for DocInfoAuthor {
    type V = DocInfoAuthorView;

    open spec fn view(&self) -> DocInfoAuthorView {
        DocInfoAuthorView {
            full_name: self.full_name@,
            creator_first_name: self.creator_first_name@,
            creator_last_name: self.creator_last_name@,
            initial: self.initial@,
            author_title: self.author_title@,
            position: self.position@,
            company: self.company@,
        }
    }
}

impl DocInfoAuthor {
    /// The value that a list of 7 texts stands for, in the order of the
    /// fields.
    pub open spec fn of_texts(texts: Seq<Seq<char>>) -> DocInfoAuthorView {
        DocInfoAuthorView {
            full_name: texts[0],
            creator_first_name: texts[1],
            creator_last_name: texts[2],
            initial: texts[3],
            author_title: texts[4],
            position: texts[5],
            company: texts[6],
        }
    }

    /// Builds the value from a list of 7 texts, in the order of the fields.
    pub fn from_texts(texts: &Vec<String>) -> (r: DocInfoAuthor)
        requires
            texts@.len() == 7,
        ensures
            r@ == DocInfoAuthor::of_texts(texts_view(texts@)),
    {
        DocInfoAuthor {
            full_name: texts[0].clone(),
            creator_first_name: texts[1].clone(),
            creator_last_name: texts[2].clone(),
            initial: texts[3].clone(),
            author_title: texts[4].clone(),
            position: texts[5].clone(),
            company: texts[6].clone(),
        }
    }

    /// Full name of the author.
    pub fn full_name(&self) -> (text: &str)
        ensures
            text@ == self@.full_name,
    {
        self.full_name.as_str()
    }

    /// First name of the author.
    pub fn creator_first_name(&self) -> (text: &str)
        ensures
            text@ == self@.creator_first_name,
    {
        self.creator_first_name.as_str()
    }

    /// Last name of the author.
    pub fn creator_last_name(&self) -> (text: &str)
        ensures
            text@ == self@.creator_last_name,
    {
        self.creator_last_name.as_str()
    }

    /// Initials of the author.
    pub fn initial(&self) -> (text: &str)
        ensures
            text@ == self@.initial,
    {
        self.initial.as_str()
    }

    /// Title of the author.
    pub fn author_title(&self) -> (text: &str)
        ensures
            text@ == self@.author_title,
    {
        self.author_title.as_str()
    }

    /// Position of the author.
    pub fn position(&self) -> (text: &str)
        ensures
            text@ == self@.position,
    {
        self.position.as_str()
    }

    /// Company of the author.
    pub fn company(&self) -> (text: &str)
        ensures
            text@ == self@.company,
    {
        self.company.as_str()
    }
}

/// File metadata.
#[derive(Debug, PartialEq, Eq, Clone, Hash)]
pub struct DocumentInfo {
    /// Information about the file.
    pub about: DocInfoAbout,
    /// Information about the author.
    pub author: DocInfoAuthor,
}

/// Model of [`DocumentInfo`].
pub ghost struct DocumentInfoView {
    pub about: DocInfoAboutView,
    pub author: DocInfoAuthorView,
}

impl View for DocumentInfo {
    type V = DocumentInfoView;

    open spec fn view(&self) -> DocumentInfoView {
        DocumentInfoView { about: self.about@, author: self.author@ }
    }
}

impl DocumentInfo {
    /// Information about the file.
    pub fn about(&self) -> (about: &DocInfoAbout)
        ensures
            about@ == self@.about,
    {
        &self.about
    }

    /// Information about the author.
    pub fn author(&self) -> (author: &DocInfoAuthor)
        ensures
            author@ == self@.author,
    {
        &self.author
    }
}

/// A text must be the one expected text.
pub open spec fn same_text(expected: Seq<char>, actual: Seq<char>) -> Result<(), ReasonView> {
    if actual == expected {
        Ok(())
    } else {
        Err(ReasonView::Xml(XmlErrorView::AssertionFailed(expected, actual)))
    }
}

/// Checks that a text is the one expected text.
pub fn assert_text(expected: &'static str, actual: String) -> (r: Result<(), MetadataErrorReason>)
    ensures
        crate::layer::plain_result(r) == same_text(expected@, actual@),
{
    if str_eq(actual.as_str(), expected) {
        Ok(())
    } else {
        Err(MetadataErrorReason::XmlError(XmlError::AssertionFailed(expected, actual)))
    }
}

/// The text of an event that must be a document type declaration.
pub open spec fn doctype_of(event: EventView) -> Result<Seq<char>, ReasonView> {
    match step_result(event) {
        Ok(event) => match unwrap_as_doctype(event) {
            Ok(raw) => lifted(unescaped_value(raw)),
            Err(e) => Err(ReasonView::Xml(e)),
        },
        Err(e) => Err(ReasonView::Xml(e)),
    }
}

/// The colorspace of the image. A name that is not known stands for the
/// default colorspace.
pub open spec fn image_colorspace(name: Seq<char>) -> Colorspace {
    match colorspace_named(name) {
        Some(colorspace) => colorspace,
        None => Colorspace::RGBA,
    }
}

/// The head of a document: the first event, whatever it is, then the
/// document type, which must be the expected one, then a start tag with
/// the expected namespace.
pub open spec fn spec_document_head(
    tokens: Seq<TokenView>,
    c: CursorView,
    doctype: Seq<char>,
    xmlns: Seq<char>,
) -> Parsed<TagView> {
    let (first, c0) = read_step(tokens, c);
    let (second, c1) = read_step(tokens, c0);
    let declared = doctype_of(second);
    let root = expect_start(tokens, c1);
    let namespace = lifted(text_attr(root.result->Ok_0, "xmlns"@));
    if step_result(first) is Err {
        failed(ReasonView::Xml(step_result(first)->Err_0), c0)
    } else if declared is Err {
        failed(declared->Err_0, c1)
    } else if same_text(doctype, declared->Ok_0) is Err {
        failed(same_text(doctype, declared->Ok_0)->Err_0, c1)
    } else if root.result is Err {
        failed(root.result->Err_0, root.cursor)
    } else if namespace is Err {
        failed(namespace->Err_0, root.cursor)
    } else if same_text(xmlns, namespace->Ok_0) is Err {
        failed(same_text(xmlns, namespace->Ok_0)->Err_0, root.cursor)
    } else {
        root
    }
}

/// Reads the head of a document, and gives the start tag of its root
/// element.
fn document_head<'a>(
    cursor: &mut EventCursor<'a>,
    doctype: &'static str,
    xmlns: &'static str,
) -> (r: Result<&'a Tag, MetadataErrorReason>)
    ensures
        final(cursor).tokens() == old(cursor).tokens(),
        final(cursor).state().pos >= old(cursor).state().pos,
        (Parsed { result: reason_result(r), cursor: final(cursor).state() }) == spec_document_head(
            old(cursor).tokens(),
            old(cursor).state(),
            doctype@,
            xmlns@,
        ),
{
    lift(cursor.next_event())?;
    let event = lift(cursor.next_event())?;
    let raw = lift(event_unwrap_as_doctype(event))?;
    let declared = lift(unescape_value(raw))?;
    assert_text(doctype, declared)?;
    let event = lift(cursor.next_event())?;
    let root = lift(event_unwrap_as_start(event))?;
    let namespace = lift(get_text(root, "xmlns"))?;
    assert_text(xmlns, namespace)?;
    Ok(root)
}

/// The image properties of a main document, from its beginning to behind
/// the start tag of the image element.
pub open spec fn spec_image_metadata(tokens: Seq<TokenView>, c: CursorView) -> Parsed<
    ImageMetadataView,
> {
    let head = spec_document_head(tokens, c, MAINDOC_DOCTYPE@, MAINDOC_XMLNS@);
    let root = head.result->Ok_0;
    let syntax = lifted(text_attr(root, "syntaxVersion"@));
    let krita_version_attr = lifted(get_attr(root, "kritaVersion"@));
    let image = expect_start(tokens, head.cursor);
    let tag = image.result->Ok_0;
    let mime = lifted(text_attr(tag, "mime"@));
    let profile_attr = lifted(get_attr(tag, "profile"@));
    let name_attr = lifted(get_attr(tag, "name"@));
    let description_attr = lifted(get_attr(tag, "description"@));
    let colorspace_attr = lifted(text_attr(tag, "colorspacename"@));
    let height_attr = lifted(get_attr(tag, "height"@));
    let width_attr = lifted(get_attr(tag, "width"@));
    let x_res_attr = lifted(get_attr(tag, "x-res"@));
    let y_res_attr = lifted(get_attr(tag, "y-res"@));
    let krita_version = lifted(unescaped_value(krita_version_attr->Ok_0));
    let name = lifted(unescaped_value(name_attr->Ok_0));
    let description = lifted(unescaped_value(description_attr->Ok_0));
    let profile = lifted(unescaped_value(profile_attr->Ok_0));
    let height = lifted(u32_value(height_attr->Ok_0));
    let width = lifted(u32_value(width_attr->Ok_0));
    let y_res = lifted(u32_value(y_res_attr->Ok_0));
    let x_res = lifted(u32_value(x_res_attr->Ok_0));
    if head.result is Err {
        failed(head.result->Err_0, head.cursor)
    } else if syntax is Err {
        failed(syntax->Err_0, head.cursor)
    } else if same_text(SYNTAX_VERSION@, syntax->Ok_0) is Err {
        failed(same_text(SYNTAX_VERSION@, syntax->Ok_0)->Err_0, head.cursor)
    } else if krita_version_attr is Err {
        failed(krita_version_attr->Err_0, head.cursor)
    } else if image.result is Err {
        failed(image.result->Err_0, image.cursor)
    } else if mime is Err {
        failed(mime->Err_0, image.cursor)
    } else if same_text(MIMETYPE@, mime->Ok_0) is Err {
        failed(same_text(MIMETYPE@, mime->Ok_0)->Err_0, image.cursor)
    } else if profile_attr is Err {
        failed(profile_attr->Err_0, image.cursor)
    } else if name_attr is Err {
        failed(name_attr->Err_0, image.cursor)
    } else if description_attr is Err {
        failed(description_attr->Err_0, image.cursor)
    } else if colorspace_attr is Err {
        failed(colorspace_attr->Err_0, image.cursor)
    } else if height_attr is Err {
        failed(height_attr->Err_0, image.cursor)
    } else if width_attr is Err {
        failed(width_attr->Err_0, image.cursor)
    } else if x_res_attr is Err {
        failed(x_res_attr->Err_0, image.cursor)
    } else if y_res_attr is Err {
        failed(y_res_attr->Err_0, image.cursor)
    } else if krita_version is Err {
        failed(krita_version->Err_0, image.cursor)
    } else if name is Err {
        failed(name->Err_0, image.cursor)
    } else if description is Err {
        failed(description->Err_0, image.cursor)
    } else if profile is Err {
        failed(profile->Err_0, image.cursor)
    } else if height is Err {
        failed(height->Err_0, image.cursor)
    } else if width is Err {
        failed(width->Err_0, image.cursor)
    } else if y_res is Err {
        failed(y_res->Err_0, image.cursor)
    } else if x_res is Err {
        failed(x_res->Err_0, image.cursor)
    } else {
        done(
            ImageMetadataView {
                krita_version: krita_version->Ok_0,
                name: name->Ok_0,
                description: description->Ok_0,
                colorspace: image_colorspace(colorspace_attr->Ok_0),
                profile: profile->Ok_0,
                height: height->Ok_0,
                width: width->Ok_0,
                y_res: y_res->Ok_0,
                x_res: x_res->Ok_0,
            },
            image.cursor,
        )
    }
}

impl ImageMetadata {
    /// Reads the image properties from the beginning of a main document.
    /// The cursor is left before the list of layers.
    pub fn from_xml(cursor: &mut EventCursor) -> (r: Result<ImageMetadata, MetadataErrorReason>)
        ensures
            final(cursor).tokens() == old(cursor).tokens(),
            final(cursor).state().pos >= old(cursor).state().pos,
            (Parsed { result: reason_result(r), cursor: final(cursor).state() })
                == spec_image_metadata(old(cursor).tokens(), old(cursor).state()),
    {
        let root = document_head(cursor, MAINDOC_DOCTYPE, MAINDOC_XMLNS)?;
        let syntax = lift(get_text(root, "syntaxVersion"))?;
        assert_text(SYNTAX_VERSION, syntax)?;
        let krita_version_attr = lift(event_get_attr(root, "kritaVersion"))?;
        let event = lift(cursor.next_event())?;
        let tag = lift(event_unwrap_as_start(event))?;
        let mime = lift(get_text(tag, "mime"))?;
        assert_text(MIMETYPE, mime)?;
        let profile_attr = lift(event_get_attr(tag, "profile"))?;
        let name_attr = lift(event_get_attr(tag, "name"))?;
        let description_attr = lift(event_get_attr(tag, "description"))?;
        let colorspace_attr = lift(get_text(tag, "colorspacename"))?;
        let colorspace = match Colorspace::try_from(colorspace_attr.as_str()) {
            Ok(colorspace) => colorspace,
            Err(_) => Colorspace::RGBA,
        };
        let height_attr = lift(event_get_attr(tag, "height"))?;
        let width_attr = lift(event_get_attr(tag, "width"))?;
        let x_res_attr = lift(event_get_attr(tag, "x-res"))?;
        let y_res_attr = lift(event_get_attr(tag, "y-res"))?;
        let krita_version = lift(unescape_value(krita_version_attr))?;
        let name = lift(unescape_value(name_attr))?;
        let description = lift(unescape_value(description_attr))?;
        let profile = lift(unescape_value(profile_attr))?;
        let height = lift(parse_u32(height_attr))?;
        let width = lift(parse_u32(width_attr))?;
        let y_res = lift(parse_u32(y_res_attr))?;
        let x_res = lift(parse_u32(x_res_attr))?;
        Ok(
            ImageMetadata {
                krita_version,
                name,
                description,
                colorspace,
                profile,
                height,
                width,
                y_res,
                x_res,
            },
        )
    }
}

/// What the failure to skip an element says where the document ends
/// before the end tag of the element. The message is the library's own,
/// not one of the XML reader.
pub open spec fn missing_end_tag(name: Seq<char>) -> Seq<char> {
    "missing end tag: "@ + name
}

/// What skipping to the end of an element gives: the events are read up
/// to the end tag of the given name that closes the element, over the
/// elements of the same name that lie inside it. `depth` counts those that
/// are still open. Where the document ends first, the failure names the
/// element.
pub open spec fn spec_skip_to_end(
    tokens: Seq<TokenView>,
    c: CursorView,
    name: Seq<char>,
    depth: nat,
) -> Parsed<()>
    decreases tokens.len() - c.pos,
{
    let (event, after) = read_step(tokens, c);
    match event {
        EventView::Malformed(message) => failed(
            ReasonView::Xml(XmlErrorView::ParsingError(message)),
            after,
        ),
        EventView::Eof => failed(
            ReasonView::Xml(XmlErrorView::ParsingError(missing_end_tag(name))),
            after,
        ),
        EventView::Start(tag) => spec_skip_to_end(
            tokens,
            after,
            name,
            if tag.name == name {
                depth + 1
            } else {
                depth
            },
        ),
        EventView::End(found) => if found != name {
            spec_skip_to_end(tokens, after, name, depth)
        } else if depth == 0 {
            done((), after)
        } else {
            spec_skip_to_end(tokens, after, name, (depth - 1) as nat)
        },
        _ => spec_skip_to_end(tokens, after, name, depth),
    }
}

/// Model of the result of a parser that gives no value.
pub open spec fn unit_result(r: Result<(), MetadataErrorReason>) -> Result<(), ReasonView> {
    match r {
        Ok(_) => Ok(()),
        Err(e) => Err(e@),
    }
}

/// Skips the content of an element whose start tag has been read, and its
/// end tag.
pub fn skip_to_end(cursor: &mut EventCursor, name: &str) -> (r: Result<(), MetadataErrorReason>)
    ensures
        final(cursor).tokens() == old(cursor).tokens(),
        final(cursor).state().pos >= old(cursor).state().pos,
        r is Ok ==> final(cursor).state().pos > old(cursor).state().pos,
        (Parsed { result: unit_result(r), cursor: final(cursor).state() }) == spec_skip_to_end(
            old(cursor).tokens(),
            old(cursor).state(),
            name@,
            0,
        ),
{
    let ghost tokens = cursor.tokens();
    let ghost start = cursor.state();
    let mut depth: usize = 0;
    loop
        invariant
            cursor.tokens() == tokens,
            tokens == old(cursor).tokens(),
            start == old(cursor).state(),
            cursor.state().pos >= start.pos,
            depth <= cursor.state().pos - start.pos,
            spec_skip_to_end(tokens, start, name@, 0) == spec_skip_to_end(
                tokens,
                cursor.state(),
                name@,
                depth as nat,
            ),
        decreases cursor.remaining(),
    {
        proof {
            use_type_invariant(&*cursor);
            cursor.lemma_remaining();
        }
        match cursor.next_event() {
            Err(e) => {
                return Err(MetadataErrorReason::XmlError(e));
            },
            Ok(Event::Eof) => {
                let mut message = "missing end tag: ".to_owned();
                message.append(name);
                return Err(MetadataErrorReason::XmlError(XmlError::ParsingError(message)));
            },
            Ok(Event::Start(tag)) => {
                proof {
                    use_type_invariant(&*cursor);
            cursor.lemma_remaining();
                }
                if str_eq(tag.name.as_str(), name) {
                    depth = depth + 1;
                }
            },
            Ok(Event::End(found)) => {
                if str_eq(found, name) {
                    if depth == 0 {
                        return Ok(());
                    }
                    depth = depth - 1;
                }
            },
            Ok(_) => {},
        }
    }
}

/// The settings after the layers: the events are read up to the end tag
/// `IMAGE`. An element with content is skipped, whatever its name. Of the
/// self-closing elements, `ProjectionBackgroundColor` gives its
/// `ColorData` and `GlobalAssistantsColor` its `SimpleColorData`, the
/// last of each standing; any other is passed over. `found` holds what
/// has been found so far.
pub open spec fn spec_metadata_end(
    tokens: Seq<TokenView>,
    c: CursorView,
    found: KraMetadataEndView,
) -> Parsed<KraMetadataEndView>
    decreases tokens.len() - c.pos,
{
    let (event, after) = read_step(tokens, c);
    match event {
        EventView::Malformed(message) => failed(
            ReasonView::Xml(XmlErrorView::ParsingError(message)),
            after,
        ),
        EventView::Start(tag) => {
            let skipped = spec_skip_to_end(tokens, after, tag.name, 0);
            match skipped.result {
                Err(e) => failed(e, skipped.cursor),
                Ok(_) => if c.pos < skipped.cursor.pos <= tokens.len() {
                    spec_metadata_end(tokens, skipped.cursor, found)
                } else {
                    done(found, skipped.cursor)
                },
            }
        },
        EventView::Empty(tag) => if tag.name == "ProjectionBackgroundColor"@ {
            match text_attr(tag, "ColorData"@) {
                Err(e) => failed(ReasonView::Xml(e), after),
                Ok(color) => spec_metadata_end(
                    tokens,
                    after,
                    KraMetadataEndView { projection_background_color: Some(color), ..found },
                ),
            }
        } else if tag.name == "GlobalAssistantsColor"@ {
            match text_attr(tag, "SimpleColorData"@) {
                Err(e) => failed(ReasonView::Xml(e), after),
                Ok(color) => spec_metadata_end(
                    tokens,
                    after,
                    KraMetadataEndView { global_assistants_color: Some(color), ..found },
                ),
            }
        } else {
            spec_metadata_end(tokens, after, found)
        },
        EventView::End(name) => if name == "IMAGE"@ {
            done(found, after)
        } else {
            failed(ReasonView::Xml(XmlErrorView::EventError("</IMAGE>"@, name)), after)
        },
        other => failed(
            ReasonView::Xml(
                XmlErrorView::EventError(
                    "start event, empty event or </IMAGE>"@,
                    other.content(),
                ),
            ),
            after,
        ),
    }
}

impl KraMetadataEnd {
    /// Reads the settings that follow the layers of a main document, up to
    /// the end tag of the image element.
    pub fn from_xml(cursor: &mut EventCursor) -> (r: Result<KraMetadataEnd, MetadataErrorReason>)
        ensures
            final(cursor).tokens() == old(cursor).tokens(),
            final(cursor).state().pos >= old(cursor).state().pos,
            (Parsed { result: reason_result(r), cursor: final(cursor).state() })
                == spec_metadata_end(
                old(cursor).tokens(),
                old(cursor).state(),
                KraMetadataEndView {
                    projection_background_color: None,
                    global_assistants_color: None,
                },
            ),
    {
        let ghost tokens = cursor.tokens();
        let ghost start = cursor.state();
        let ghost nothing = KraMetadataEndView {
            projection_background_color: None,
            global_assistants_color: None,
        };
        let mut found = KraMetadataEnd {
            projection_background_color: None,
            global_assistants_color: None,
        };
        loop
            invariant
                cursor.tokens() == tokens,
                tokens == old(cursor).tokens(),
                start == old(cursor).state(),
                cursor.state().pos >= start.pos,
                nothing == (KraMetadataEndView {
                    projection_background_color: None,
                    global_assistants_color: None,
                }),
                spec_metadata_end(tokens, start, nothing) == spec_metadata_end(
                    tokens,
                    cursor.state(),
                    found@,
                ),
            decreases cursor.remaining(),
        {
            proof {
                use_type_invariant(&*cursor);
            cursor.lemma_remaining();
            }
            match cursor.next_event() {
                Err(e) => {
                    return Err(MetadataErrorReason::XmlError(e));
                },
                Ok(Event::Start(tag)) => {
                    match skip_to_end(cursor, tag.name.as_str()) {
                        Err(e) => {
                            return Err(e);
                        },
                        Ok(_) => {
                            proof {
                                use_type_invariant(&*cursor);
            cursor.lemma_remaining();
                            }
                        },
                    }
                },
                Ok(Event::Empty(tag)) => {
                    if str_eq(tag.name.as_str(), "ProjectionBackgroundColor") {
                        match get_text(tag, "ColorData") {
                            Err(e) => {
                                return Err(MetadataErrorReason::XmlError(e));
                            },
                            Ok(color) => {
                                found.projection_background_color = Some(color);
                            },
                        }
                    } else if str_eq(tag.name.as_str(), "GlobalAssistantsColor") {
                        match get_text(tag, "SimpleColorData") {
                            Err(e) => {
                                return Err(MetadataErrorReason::XmlError(e));
                            },
                            Ok(color) => {
                                found.global_assistants_color = Some(color);
                            },
                        }
                    }
                },
                Ok(Event::End(name)) => {
                    if str_eq(name, "IMAGE") {
                        return Ok(found);
                    } else {
                        return Err(
                            MetadataErrorReason::XmlError(
                                XmlError::EventError("</IMAGE>", name.to_owned()),
                            ),
                        );
                    }
                },
                Ok(other) => {
                    return Err(
                        MetadataErrorReason::XmlError(
                            XmlError::EventError(
                                "start event, empty event or </IMAGE>",
                                event_to_string(&other),
                            ),
                        ),
                    );
                },
            }
        }
    }
}

/// The value of a setting that is written as a self-closing element with
/// the attribute `value`, as a truth value.
pub open spec fn spec_bool_setting(tokens: Seq<TokenView>, c: CursorView) -> Parsed<bool> {
    let (event, after) = read_step(tokens, c);
    let tag = match step_result(event) {
        Ok(event) => unwrap_as_empty(event),
        Err(e) => Err(e),
    };
    let raw = get_attr(tag->Ok_0, "value"@);
    if tag is Err {
        failed(ReasonView::Xml(tag->Err_0), after)
    } else if raw is Err {
        failed(ReasonView::Xml(raw->Err_0), after)
    } else {
        Parsed { result: lifted(bool_value(raw->Ok_0)), cursor: after }
    }
}

/// Reads the next event, which must be a self-closing element, and the
/// truth value in its attribute `value`.
pub fn push_and_parse_bool(cursor: &mut EventCursor) -> (r: Result<bool, MetadataErrorReason>)
    ensures
        final(cursor).tokens() == old(cursor).tokens(),
        final(cursor).state().pos >= old(cursor).state().pos,
        (Parsed { result: crate::layer::plain_result(r), cursor: final(cursor).state() })
            == spec_bool_setting(old(cursor).tokens(), old(cursor).state()),
{
    let event = lift(cursor.next_event())?;
    let tag = lift(event_unwrap_as_empty(event))?;
    let raw = lift(event_get_attr(tag, "value"))?;
    lift(parse_bool(raw))
}

/// The text of an element that holds text and nothing else: a start tag,
/// then a text (with its escape sequences replaced) or a CDATA section
/// (as it is), then an end tag. Where the end tag follows the start tag at
/// once, the text is empty.
pub open spec fn spec_text_between_tags(tokens: Seq<TokenView>, c: CursorView) -> Parsed<
    Seq<char>,
> {
    let open = expect_start(tokens, c);
    let (event, after) = read_step(tokens, open.cursor);
    let close = expect_end(tokens, after);
    if open.result is Err {
        failed(open.result->Err_0, open.cursor)
    } else {
        match event {
            EventView::Malformed(message) => failed(
                ReasonView::Xml(XmlErrorView::ParsingError(message)),
                after,
            ),
            EventView::Text(raw) => match unescaped_value(raw) {
                Err(e) => failed(ReasonView::Xml(e), after),
                Ok(text) => match close.result {
                    Err(e) => failed(e, close.cursor),
                    Ok(_) => done(text, close.cursor),
                },
            },
            EventView::CData(text) => match close.result {
                Err(e) => failed(e, close.cursor),
                Ok(_) => done(text, close.cursor),
            },
            EventView::End(_) => done(Seq::empty(), after),
            other => failed(
                ReasonView::Xml(
                    XmlErrorView::EventError("text, CDATA or end event"@, other.content()),
                ),
                after,
            ),
        }
    }
}

/// Reads the text of an element that holds text and nothing else.
pub fn get_text_between_tags(cursor: &mut EventCursor) -> (r: Result<String, MetadataErrorReason>)
    ensures
        final(cursor).tokens() == old(cursor).tokens(),
        final(cursor).state().pos >= old(cursor).state().pos,
        (Parsed { result: reason_result(r), cursor: final(cursor).state() })
            == spec_text_between_tags(old(cursor).tokens(), old(cursor).state()),
{
    let event = lift(cursor.next_event())?;
    lift(event_unwrap_as_start(event))?;
    let event = lift(cursor.next_event())?;
    let text = match event {
        Event::Text(raw) => lift(unescape_value(raw))?,
        Event::CData(text) => text.to_owned(),
        Event::End(_) => {
            return Ok(String::new());
        },
        other => {
            return Err(
                MetadataErrorReason::XmlError(
                    XmlError::EventError("text, CDATA or end event", event_to_string(&other)),
                ),
            );
        },
    };
    let event = lift(cursor.next_event())?;
    lift(event_unwrap_as_end(event))?;
    Ok(text)
}

/// The texts of a number of elements that follow each other.
pub open spec fn spec_texts(tokens: Seq<TokenView>, c: CursorView, count: nat) -> Parsed<
    Seq<Seq<char>>,
>
    decreases count,
{
    if count == 0 {
        done(Seq::empty(), c)
    } else {
        let first = spec_text_between_tags(tokens, c);
        match first.result {
            Err(e) => failed(e, first.cursor),
            Ok(text) => after_item(text, spec_texts(tokens, first.cursor, (count - 1) as nat)),
        }
    }
}

/// Model of a list of texts that a parser gives, or of its failure.
pub open spec fn texts_result(r: Result<Vec<String>, MetadataErrorReason>) -> Result<
    Seq<Seq<char>>,
    ReasonView,
> {
    match r {
        Ok(texts) => Ok(texts_view(texts@)),
        Err(e) => Err(e@),
    }
}

/// Reads the texts of a number of elements that follow each other.
fn read_texts(cursor: &mut EventCursor, count: usize) -> (r: Result<
    Vec<String>,
    MetadataErrorReason,
>)
    ensures
        final(cursor).tokens() == old(cursor).tokens(),
        final(cursor).state().pos >= old(cursor).state().pos,
        r is Ok ==> r->Ok_0@.len() == count,
        (Parsed { result: texts_result(r), cursor: final(cursor).state() }) == spec_texts(
            old(cursor).tokens(),
            old(cursor).state(),
            count as nat,
        ),
{
    let ghost tokens = cursor.tokens();
    let ghost start = cursor.state();
    let mut texts: Vec<String> = Vec::new();
    proof {
        lemma_after_no_items(spec_texts(tokens, start, count as nat));
        assert(texts_view(texts@) =~= Seq::empty());
    }
    while texts.len() < count
        invariant
            cursor.tokens() == tokens,
            tokens == old(cursor).tokens(),
            start == old(cursor).state(),
            cursor.state().pos >= start.pos,
            texts@.len() <= count,
            spec_texts(tokens, start, count as nat) == after_items(
                texts_view(texts@),
                spec_texts(tokens, cursor.state(), (count - texts@.len()) as nat),
            ),
        decreases count - texts.len(),
    {
        let ghost seen = texts_view(texts@);
        match get_text_between_tags(cursor) {
            Err(e) => {
                return Err(e);
            },
            Ok(text) => {
                proof {
                    assert(texts_view(texts@.push(text)) =~= seen.push(text@));
                    lemma_after_items_push(
                        seen,
                        text@,
                        spec_texts(
                            tokens,
                            cursor.state(),
                            (count - texts@.len() - 1) as nat,
                        ),
                    );
                }
                texts.push(text);
            },
        }
    }
    proof {
        lemma_after_items_end(texts_view(texts@), cursor.state());
    }
    Ok(texts)
}

/// The information about a document and its author: the head of the
/// document, then the element about the document with its twelve texts,
/// then the element about the author with its seven texts, then the end
/// tag of the root element, and then nothing more.
pub open spec fn spec_document_info(tokens: Seq<TokenView>, c: CursorView) -> Parsed<
    DocumentInfoView,
> {
    let head = spec_document_head(tokens, c, DOCUMENTINFO_DOCTYPE@, DOCUMENTINFO_XMLNS@);
    let about_open = expect_start(tokens, head.cursor);
    let about = spec_texts(tokens, about_open.cursor, 12);
    let about_close = expect_end(tokens, about.cursor);
    let author_open = expect_start(tokens, about_close.cursor);
    let author = spec_texts(tokens, author_open.cursor, 7);
    let author_close = expect_end(tokens, author.cursor);
    let root_close = expect_end(tokens, author_close.cursor);
    let (last, end) = read_step(tokens, root_close.cursor);
    if head.result is Err {
        failed(head.result->Err_0, head.cursor)
    } else if about_open.result is Err {
        failed(about_open.result->Err_0, about_open.cursor)
    } else if about.result is Err {
        failed(about.result->Err_0, about.cursor)
    } else if about_close.result is Err {
        failed(about_close.result->Err_0, about_close.cursor)
    } else if author_open.result is Err {
        failed(author_open.result->Err_0, author_open.cursor)
    } else if author.result is Err {
        failed(author.result->Err_0, author.cursor)
    } else if author_close.result is Err {
        failed(author_close.result->Err_0, author_close.cursor)
    } else if root_close.result is Err {
        failed(root_close.result->Err_0, root_close.cursor)
    } else if step_result(last) is Err {
        failed(ReasonView::Xml(step_result(last)->Err_0), end)
    } else if !(last is Eof) {
        failed(
            ReasonView::Xml(XmlErrorView::AssertionFailed("end of file"@, last.content())),
            end,
        )
    } else {
        done(
            DocumentInfoView {
                about: DocInfoAbout::of_texts(about.result->Ok_0),
                author: DocInfoAuthor::of_texts(author.result->Ok_0),
            },
            end,
        )
    }
}

impl DocumentInfo {
    /// Reads the information about a document and its author, which must
    /// fill the whole document.
    pub fn from_xml(cursor: &mut EventCursor) -> (r: Result<DocumentInfo, MetadataErrorReason>)
        ensures
            final(cursor).tokens() == old(cursor).tokens(),
            final(cursor).state().pos >= old(cursor).state().pos,
            (Parsed { result: reason_result(r), cursor: final(cursor).state() })
                == spec_document_info(old(cursor).tokens(), old(cursor).state()),
    {
        document_head(cursor, DOCUMENTINFO_DOCTYPE, DOCUMENTINFO_XMLNS)?;
        let event = lift(cursor.next_event())?;
        lift(event_unwrap_as_start(event))?;
        let texts = read_texts(cursor, 12)?;
        let about = DocInfoAbout::from_texts(&texts);
        let event = lift(cursor.next_event())?;
        lift(event_unwrap_as_end(event))?;
        let event = lift(cursor.next_event())?;
        lift(event_unwrap_as_start(event))?;
        let texts = read_texts(cursor, 7)?;
        let author = DocInfoAuthor::from_texts(&texts);
        let event = lift(cursor.next_event())?;
        lift(event_unwrap_as_end(event))?;
        let event = lift(cursor.next_event())?;
        lift(event_unwrap_as_end(event))?;
        match lift(cursor.next_event())? {
            Event::Eof => Ok(DocumentInfo { about, author }),
            other => Err(
                MetadataErrorReason::XmlError(
                    XmlError::AssertionFailed("end of file", event_to_string(&other)),
                ),
            ),
        }
    }
}

} // verus!
