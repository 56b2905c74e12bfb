//! A whole document: the three entries of the archive, checked and parsed.

use vstd::prelude::*;
use vstd::string::*;
use crate::cursor::{CursorView, EventCursor};
use crate::error::{MetadataError, MetadataErrorView, ReadKraError, located};
use crate::metadata::{
    DocumentInfo, DocumentInfoView, ImageMetadata, KraMetadata, KraMetadataEnd,
    KraMetadataEndView, KraMetadataView, spec_document_info, spec_image_metadata,
    spec_metadata_end,
};
use crate::node::{Node, NodeView, nodes_view};
use crate::parse::{get_layers, spec_get_layers};
use crate::reader::{document_tokens, tokenize};
use crate::text::bytes_eq;
use crate::xml::{Token, TokenView, tokens_view};

verus! {

/// What the entry `mimetype` of the archive must hold, to the byte.
pub const ARCHIVE_MIMETYPE: &'static str = "application/x-krita";

/// What the main document holds: the metadata of the image, and the
/// layers from the top level down, in the order of the document.
#[derive(Debug, PartialEq, Eq)]
pub struct MainDocument {
    pub meta: KraMetadata,
    pub layers: Vec<Node>,
}

/// Model of a [`MainDocument`].
pub ghost struct MainDocumentView {
    pub meta: KraMetadataView,
    pub layers: Seq<NodeView>,
}

impl View for MainDocument {
    type V = MainDocumentView;

    open spec fn view(&self) -> MainDocumentView {
        MainDocumentView { meta: self.meta@, layers: nodes_view(self.layers@) }
    }
}

/// A `.kra` file.
#[derive(Debug, PartialEq, Eq)]
pub struct KraFile {
    pub meta: KraMetadata,
    pub doc_info: DocumentInfo,
    pub layers: Vec<Node>,
}

/// Model of a [`KraFile`].
pub ghost struct KraFileView {
    pub meta: KraMetadataView,
    pub doc_info: DocumentInfoView,
    pub layers: Seq<NodeView>,
}

impl View for KraFile {
    type V = KraFileView;

    open spec fn view(&self) -> KraFileView {
        KraFileView {
            meta: self.meta@,
            doc_info: self.doc_info@,
            layers: nodes_view(self.layers@),
        }
    }
}

/// A cursor before the first token.
pub open spec fn at_start() -> CursorView {
    CursorView { pos: 0, offset: 0 }
}

/// No setting found yet.
pub open spec fn no_settings() -> KraMetadataEndView {
    KraMetadataEndView { projection_background_color: None, global_assistants_color: None }
}

/// What the tokens of the entry `documentinfo.xml` give. An error holds
/// the name of the entry and the place at which the parser stood.
pub open spec fn spec_document_info_file(tokens: Seq<TokenView>, data: Seq<u8>) -> Result<
    DocumentInfoView,
    MetadataErrorView,
> {
    let parsed = spec_document_info(tokens, at_start());
    match parsed.result {
        Ok(info) => Ok(info),
        Err(e) => Err(located(e, "documentinfo.xml"@, parsed.cursor.offset, data)),
    }
}

/// What the tokens of the entry `maindoc.xml` give: the image properties,
/// then the layers of the top level, then the settings after the layers.
/// An error holds the place at which the parser stood.
pub open spec fn spec_main_document(tokens: Seq<TokenView>, data: Seq<u8>) -> Result<
    MainDocumentView,
    MetadataErrorView,
> {
    let start = spec_image_metadata(tokens, at_start());
    let layers = spec_get_layers(tokens, start.cursor, false);
    let end = spec_metadata_end(tokens, layers.cursor, no_settings());
    if start.result is Err {
        Err(located(start.result->Err_0, "maindoc.xml"@, start.cursor.offset, data))
    } else if layers.result is Err {
        Err(located(layers.result->Err_0, "maindoc.xml"@, layers.cursor.offset, data))
    } else if end.result is Err {
        Err(located(end.result->Err_0, "maindoc.xml"@, end.cursor.offset, data))
    } else {
        Ok(
            MainDocumentView {
                meta: KraMetadataView { start: start.result->Ok_0, end: end.result->Ok_0 },
                layers: layers.result->Ok_0,
            },
        )
    }
}

/// Model of a result with a located error.
pub open spec fn located_result<T: View>(r: Result<T, MetadataError>) -> Result<
    T::V,
    MetadataErrorView,
> {
    match r {
        Ok(value) => Ok(value@),
        Err(e) => Err(e@),
    }
}

/// Parses the tokens of the entry `documentinfo.xml`. `data` is the entry
/// itself, in which errors are located.
pub fn document_info_from_tokens(tokens: &[Token], data: &[u8]) -> (r: Result<
    DocumentInfo,
    MetadataError,
>)
    ensures
        located_result(r) == spec_document_info_file(tokens_view(tokens@), data@),
{
    let mut cursor = EventCursor::new(tokens);
    match DocumentInfo::from_xml(&mut cursor) {
        Ok(info) => Ok(info),
        Err(e) => Err(e.to_metadata_error("documentinfo.xml", cursor.buffer_position(), data)),
    }
}

/// Parses the tokens of the entry `maindoc.xml`. `data` is the entry
/// itself, in which errors are located.
pub fn main_document_from_tokens(tokens: &[Token], data: &[u8]) -> (r: Result<
    MainDocument,
    MetadataError,
>)
    ensures
        located_result(r) == spec_main_document(tokens_view(tokens@), data@),
{
    let mut cursor = EventCursor::new(tokens);
    let start = match ImageMetadata::from_xml(&mut cursor) {
        Ok(start) => start,
        Err(e) => {
            return Err(e.to_metadata_error("maindoc.xml", cursor.buffer_position(), data));
        },
    };
    let layers = match get_layers(&mut cursor, false) {
        Ok(layers) => layers,
        Err(e) => {
            return Err(e.to_metadata_error("maindoc.xml", cursor.buffer_position(), data));
        },
    };
    let end = match KraMetadataEnd::from_xml(&mut cursor) {
        Ok(end) => end,
        Err(e) => {
            return Err(e.to_metadata_error("maindoc.xml", cursor.buffer_position(), data));
        },
    };
    Ok(MainDocument { meta: KraMetadata::new(start, end), layers })
}

/// Parses the entry `documentinfo.xml`.
pub fn parse_document_info(text: &str) -> (r: Result<DocumentInfo, MetadataError>)
    ensures
        located_result(r) == spec_document_info_file(document_tokens(text@), text.spec_bytes()),
{
    let tokens = tokenize(text);
    document_info_from_tokens(tokens.as_slice(), text.as_bytes())
}

/// Parses the entry `maindoc.xml`.
pub fn parse_main_document(text: &str) -> (r: Result<MainDocument, MetadataError>)
    ensures
        located_result(r) == spec_main_document(document_tokens(text@), text.spec_bytes()),
{
    let tokens = tokenize(text);
    main_document_from_tokens(tokens.as_slice(), text.as_bytes())
}

/// Checks the entry `mimetype`, which must hold the expected text and
/// nothing else.
pub fn check_mimetype(mimetype: &[u8]) -> (r: Result<(), ReadKraError>)
    ensures
        mimetype@ == ARCHIVE_MIMETYPE.spec_bytes() ==> r is Ok,
        mimetype@ != ARCHIVE_MIMETYPE.spec_bytes() ==> r == Err::<(), ReadKraError>(
            ReadKraError::MimetypeMismatch,
        ),
{
    if bytes_eq(mimetype, ARCHIVE_MIMETYPE.as_bytes()) {
        Ok(())
    } else {
        Err(ReadKraError::MimetypeMismatch)
    }
}

/// What the three entries of an archive give. The entry `mimetype` is
/// checked before any XML is read; then `documentinfo.xml` is parsed, then
/// `maindoc.xml`.
pub open spec fn spec_kra_file(
    mimetype: Seq<u8>,
    info_tokens: Seq<TokenView>,
    info_data: Seq<u8>,
    main_tokens: Seq<TokenView>,
    main_data: Seq<u8>,
) -> Result<KraFileView, Option<MetadataErrorView>> {
    let info = spec_document_info_file(info_tokens, info_data);
    let main = spec_main_document(main_tokens, main_data);
    if mimetype != ARCHIVE_MIMETYPE.spec_bytes() {
        Err(None)
    } else if info is Err {
        Err(Some(info->Err_0))
    } else if main is Err {
        Err(Some(main->Err_0))
    } else {
        Ok(KraFileView { meta: main->Ok_0.meta, doc_info: info->Ok_0, layers: main->Ok_0.layers })
    }
}

/// Model of the result of reading a document: the document, or the error,
/// where `None` stands for a wrong mimetype.
pub open spec fn read_result(r: Result<KraFile, ReadKraError>) -> Result<
    KraFileView,
    Option<MetadataErrorView>,
> {
    match r {
        Ok(file) => Ok(file@),
        Err(ReadKraError::MimetypeMismatch) => Err(None),
        Err(ReadKraError::MetadataError(e)) => Err(Some(e@)),
    }
}

impl KraFile {
    /// Puts a document together from its parsed entries.
    pub fn new(doc_info: DocumentInfo, main: MainDocument) -> (file: KraFile)
        ensures
            file@ == (KraFileView {
                meta: main@.meta,
                doc_info: doc_info@,
                layers: main@.layers,
            }),
    {
        KraFile { meta: main.meta, doc_info, layers: main.layers }
    }

    /// Reads a document from the three entries of its archive: `mimetype`,
    /// `documentinfo.xml` and `maindoc.xml`.
    pub fn from_entries(mimetype: &[u8], documentinfo: &str, maindoc: &str) -> (r: Result<
        KraFile,
        ReadKraError,
    >)
        ensures
            read_result(r) == spec_kra_file(
                mimetype@,
                document_tokens(documentinfo@),
                documentinfo.spec_bytes(),
                document_tokens(maindoc@),
                maindoc.spec_bytes(),
            ),
    {
        match check_mimetype(mimetype) {
            Ok(_) => {},
            Err(e) => {
                return Err(e);
            },
        }
        let doc_info = match parse_document_info(documentinfo) {
            Ok(doc_info) => doc_info,
            Err(e) => {
                return Err(ReadKraError::MetadataError(e));
            },
        };
        let main = match parse_main_document(maindoc) {
            Ok(main) => main,
            Err(e) => {
                return Err(ReadKraError::MetadataError(e));
            },
        };
        Ok(KraFile::new(doc_info, main))
    }

    /// The layers of the top level, in the order of the document.
    pub fn layers(&self) -> (layers: &[Node])
        ensures
            nodes_view(layers@) == self@.layers,
    {
        self.layers.as_slice()
    }

    /// The metadata of the image.
    pub fn meta(&self) -> (meta: &KraMetadata)
        ensures
            meta@ == self@.meta,
    {
        &self.meta
    }

    /// The information about the document and its author.
    pub fn doc_info(&self) -> (doc_info: &DocumentInfo)
        ensures
            doc_info@ == self@.doc_info,
    {
        &self.doc_info
    }
}

} // verus!
