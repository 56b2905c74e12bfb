use kra_file::color::Colorspace;
use kra_file::cursor::EventCursor;
use kra_file::document::{
    check_mimetype, main_document_from_tokens, parse_document_info, parse_main_document, KraFile,
};
use kra_file::error::{MetadataError, MetadataErrorReason, ReadKraError, XmlError};
use kra_file::locate::{locate, Location};
use kra_file::metadata::{
    get_text_between_tags, push_and_parse_bool, skip_to_end, DocumentInfo, ImageMetadata, KraMetadataEnd,
    DOCUMENTINFO_DOCTYPE, MAINDOC_DOCTYPE, MAINDOC_XMLNS, MIMETYPE, SYNTAX_VERSION,
};
use kra_file::reader::tokenize;
use kra_file::xml::{AttrEntry, Tag, Token, XmlEvent};

const LAYER: &str = r#"<layer name="Background" uuid="{6c3a2f3e-7b7a-4d0c-9d7e-0123456789ab}" filename="layer2" visible="1" locked="0" colorlabel="0" y="0" x="0" intimeline="1" onionskin="0" nodetype="paintlayer" compositeop="normal" opacity="255" collapsed="0" colorspacename="RGBA" channellockflags="1111" channelflags=""/>"#;

fn maindoc(doctype: &str, image_attrs: &str, trailer: &str) -> String {
    format!(
        "<?xml version=\"1.0\" encoding=\"UTF-8\"?>\n<!DOCTYPE {}>\n<DOC xmlns=\"http://www.calligra.org/DTD/krita\" kritaVersion=\"5.2.2\" syntaxVersion=\"2.0\" editor=\"Krita\">\n <IMAGE {}>\n  <layers>\n   {}\n  </layers>\n{} </IMAGE>\n</DOC>\n",
        doctype, image_attrs, LAYER, trailer
    )
}

const IMAGE: &str = r#"width="1024" height="768" colorspacename="RGBA" mime="application/x-kra" name="Unnamed" description="a &amp; b" profile="sRGB-elle-V2-srgbtrc.icc" x-res="300" y-res="72""#;

const TRAILER: &str = "  <ProjectionBackgroundColor ColorData=\"AAAAAA==\"/>\n  <GlobalAssistantsColor SimpleColorData=\"176,176,176,255\"/>\n  <MirrorAxis>\n   <mirrorHorizontal type=\"value\" value=\"0\"/>\n   <MirrorAxis><inner/></MirrorAxis>\n  </MirrorAxis>\n  <Palettes/>\n  <animation>\n   <framerate type=\"value\" value=\"24\"/>\n  </animation>\n";

const DOCINFO: &str = "<?xml version=\"1.0\" encoding=\"UTF-8\"?>\n<!DOCTYPE document-info PUBLIC '-//KDE//DTD document-info 1.1//EN' 'http://www.calligra.org/DTD/document-info-1.1.dtd'>\n<document-info xmlns=\"http://www.calligra.org/DTD/document-info\">\n <about>\n  <title>My &lt;title&gt;</title>\n  <description></description>\n  <subject>s</subject>\n  <abstract><![CDATA[some <b>abstract</b> &amp;]]></abstract>\n  <keyword>k</keyword>\n  <initial-creator>Unknown</initial-creator>\n  <editing-cycles>1</editing-cycles>\n  <editing-time>35</editing-time>\n  <date>2024-01-01T00:00:00</date>\n  <creation-date>2023-12-31T00:00:00</creation-date>\n  <language></language>\n  <license>GPL</license>\n </about>\n <author>\n  <full-name>A. Painter</full-name>\n  <creator-first-name>A</creator-first-name>\n  <creator-last-name>Painter</creator-last-name>\n  <initial>AP</initial>\n  <author-title>Dr</author-title>\n  <position></position>\n  <company>None</company>\n </author>\n</document-info>\n";

#[test]
fn main_document_is_read() {
    let xml = maindoc(MAINDOC_DOCTYPE, IMAGE, TRAILER);
    let main = parse_main_document(&xml).unwrap();
    assert_eq!(main.meta.krita_version, "5.2.2");
    assert_eq!(main.meta.name, "Unnamed");
    assert_eq!(main.meta.description, "a & b");
    assert_eq!(main.meta.colorspace, Colorspace::RGBA);
    assert_eq!(main.meta.profile, "sRGB-elle-V2-srgbtrc.icc");
    assert_eq!(main.meta.height, 768);
    assert_eq!(main.meta.width, 1024);
    assert_eq!(main.meta.x_res, 300);
    assert_eq!(main.meta.y_res, 72);
    assert_eq!(main.meta.projection_background_color.as_deref(), Some("AAAAAA=="));
    assert_eq!(main.meta.global_assistants_color.as_deref(), Some("176,176,176,255"));
    assert_eq!(main.meta.krita_version(), "5.2.2");
    assert_eq!(main.meta.name(), "Unnamed");
    assert_eq!(main.meta.description(), "a & b");
    assert_eq!(main.meta.colorspace(), Colorspace::RGBA);
    assert_eq!(main.meta.profile(), "sRGB-elle-V2-srgbtrc.icc");
    assert_eq!((main.meta.width(), main.meta.height()), (1024, 768));
    assert_eq!((main.meta.x_res(), main.meta.y_res()), (300, 72));
    assert_eq!(main.meta.projection_background_color(), &Some("AAAAAA==".to_string()));
    assert_eq!(main.meta.global_assistants_color(), &Some("176,176,176,255".to_string()));
    assert_eq!(main.layers.len(), 1);
    assert_eq!(main.layers[0].name(), Some("Background"));
    assert_eq!(
        main.layers[0].uuid().unwrap().as_u128(),
        0x6c3a2f3e_7b7a_4d0c_9d7e_0123456789ab
    );
}

#[test]
fn trailer_blocks_may_be_missing_or_in_any_order() {
    let main = parse_main_document(&maindoc(MAINDOC_DOCTYPE, IMAGE, "")).unwrap();
    assert_eq!(main.meta.projection_background_color, None);
    assert_eq!(main.meta.global_assistants_color, None);
    let trailer = "<unknown><deep><unknown/></deep></unknown><GlobalAssistantsColor SimpleColorData=\"1\"/><other/><ProjectionBackgroundColor ColorData=\"2\"/><GlobalAssistantsColor SimpleColorData=\"3\"/>";
    let main = parse_main_document(&maindoc(MAINDOC_DOCTYPE, IMAGE, trailer)).unwrap();
    assert_eq!(main.meta.projection_background_color.as_deref(), Some("2"));
    assert_eq!(main.meta.global_assistants_color.as_deref(), Some("3"));
}

#[test]
fn trailer_text_is_an_event_error() {
    let err = parse_main_document(&maindoc(MAINDOC_DOCTYPE, IMAGE, "stray")).unwrap_err();
    assert_eq!(err.file, "maindoc.xml");
    assert_eq!(
        err.error,
        MetadataErrorReason::XmlError(XmlError::EventError(
            "start event, empty event or </IMAGE>",
            "stray".to_string()
        ))
    );
}

#[test]
fn trailer_color_without_data_is_missing_value() {
    let err = parse_main_document(&maindoc(
        MAINDOC_DOCTYPE,
        IMAGE,
        "<ProjectionBackgroundColor/>",
    ))
    .unwrap_err();
    assert_eq!(
        err.error,
        MetadataErrorReason::XmlError(XmlError::MissingValue("ColorData".to_string()))
    );
}

#[test]
fn trailer_must_end_with_the_image() {
    let tokens = tokenize("<a><b/></a>");
    let mut cursor = EventCursor::new(&tokens);
    cursor.next_event().unwrap();
    assert_eq!(
        KraMetadataEnd::from_xml(&mut cursor),
        Err(MetadataErrorReason::XmlError(XmlError::EventError("</IMAGE>", "a".to_string())))
    );
    let tokens = tokenize("<IMAGE><b/></IMAGE>");
    let mut cursor = EventCursor::new(&tokens);
    cursor.next_event().unwrap();
    assert_eq!(
        KraMetadataEnd::from_xml(&mut cursor),
        Ok(KraMetadataEnd { projection_background_color: None, global_assistants_color: None })
    );
}

#[test]
fn wrong_doctype_names_both_texts() {
    let xml = maindoc("wrong", IMAGE, TRAILER);
    let err = parse_main_document(&xml).unwrap_err();
    assert_eq!(
        err.error,
        MetadataErrorReason::XmlError(XmlError::AssertionFailed(
            MAINDOC_DOCTYPE,
            "wrong".to_string()
        ))
    );
    assert_eq!(err.file, "maindoc.xml");
    assert_eq!(err.buffer_pos, 55);
    assert_eq!(err.location, Some(Location { line: 2, column: 16 }));
    assert_eq!(
        MAINDOC_DOCTYPE,
        "DOC PUBLIC '-//KDE//DTD krita 2.0//EN' 'http://www.calligra.org/DTD/krita-2.0.dtd'"
    );
}

#[test]
fn fixed_texts_of_the_main_document_are_checked() {
    let good = maindoc(MAINDOC_DOCTYPE, IMAGE, TRAILER);
    let err = parse_main_document(&good.replace("DTD/krita\"", "DTD/other\"")).unwrap_err();
    assert_eq!(
        err.error,
        MetadataErrorReason::XmlError(XmlError::AssertionFailed(
            MAINDOC_XMLNS,
            "http://www.calligra.org/DTD/other".to_string()
        ))
    );
    let err = parse_main_document(&good.replace("syntaxVersion=\"2.0\"", "syntaxVersion=\"2.1\""))
        .unwrap_err();
    assert_eq!(
        err.error,
        MetadataErrorReason::XmlError(XmlError::AssertionFailed(SYNTAX_VERSION, "2.1".to_string()))
    );
    let err =
        parse_main_document(&good.replace("application/x-kra", "application/x-krita")).unwrap_err();
    assert_eq!(
        err.error,
        MetadataErrorReason::XmlError(XmlError::AssertionFailed(
            MIMETYPE,
            "application/x-krita".to_string()
        ))
    );
    let err = parse_main_document(&good.replace(" kritaVersion=\"5.2.2\"", "")).unwrap_err();
    assert_eq!(
        err.error,
        MetadataErrorReason::XmlError(XmlError::MissingValue("kritaVersion".to_string()))
    );
    let err = parse_main_document(&good.replace("width=\"1024\"", "width=\"wide\"")).unwrap_err();
    assert_eq!(err.error, MetadataErrorReason::XmlError(XmlError::ValueError("wide".to_string())));
}

#[test]
fn unknown_colorspace_of_the_image_is_the_default() {
    let xml = maindoc(
        MAINDOC_DOCTYPE,
        &IMAGE.replace("colorspacename=\"RGBA\"", "colorspacename=\"GRAYA\""),
        "",
    );
    let main = parse_main_document(&xml).unwrap();
    assert_eq!(main.meta.colorspace, Colorspace::RGBA);
    assert_eq!(Colorspace::default(), Colorspace::RGBA);
}

#[test]
fn errors_in_the_layers_are_located() {
    let xml = maindoc(MAINDOC_DOCTYPE, IMAGE, "").replace("paintlayer", "bogus");
    let err = parse_main_document(&xml).unwrap_err();
    assert_eq!(err.file, "maindoc.xml");
    assert!(matches!(err.error, MetadataErrorReason::UnknownLayerType(_)));
    let end_of_layer = xml.find("/>").unwrap() as u64 + 2;
    assert_eq!(err.buffer_pos, end_of_layer);
    let line = xml[..end_of_layer as usize - 1].matches('\n').count() as u64 + 1;
    assert_eq!(line, 6);
    assert_eq!(
        err.location,
        Some(Location { line, column: LAYER.len() as u64 + 3 - "paintlayer".len() as u64 + 5 })
    );
}

#[test]
fn malformed_xml_is_a_parsing_error() {
    let xml = maindoc(MAINDOC_DOCTYPE, IMAGE, "").replace("</layers>", "</wrong>");
    let err = parse_main_document(&xml).unwrap_err();
    assert!(matches!(err.error, MetadataErrorReason::XmlError(XmlError::ParsingError(_))));
    let xml = "<?xml version=\"1.0\"?><!DOCTYPE";
    let err = parse_main_document(xml).unwrap_err();
    assert!(matches!(err.error, MetadataErrorReason::XmlError(XmlError::ParsingError(_))));
}

#[test]
fn document_info_is_read() {
    let info = parse_document_info(DOCINFO).unwrap();
    assert_eq!(info.about.title, "My <title>");
    assert_eq!(info.about.description, "");
    assert_eq!(info.about.subject, "s");
    assert_eq!(info.about.abstract_text, "some <b>abstract</b> &amp;");
    assert_eq!(info.about.keyword, "k");
    assert_eq!(info.about.initial_creator, "Unknown");
    assert_eq!(info.about.editing_cycles, "1");
    assert_eq!(info.about.editing_time, "35");
    assert_eq!(info.about.date, "2024-01-01T00:00:00");
    assert_eq!(info.about.creation_date, "2023-12-31T00:00:00");
    assert_eq!(info.about.language, "");
    assert_eq!(info.about.license, "GPL");
    assert_eq!(info.author.full_name, "A. Painter");
    assert_eq!(info.author.creator_first_name, "A");
    assert_eq!(info.author.creator_last_name, "Painter");
    assert_eq!(info.author.initial, "AP");
    assert_eq!(info.author.author_title, "Dr");
    assert_eq!(info.author.position, "");
    assert_eq!(info.author.company, "None");
    assert_eq!(info.about().title(), "My <title>");
    assert_eq!(info.about().abstract_text(), "some <b>abstract</b> &amp;");
    assert_eq!(info.about().license(), "GPL");
    assert_eq!(info.author().full_name(), "A. Painter");
    assert_eq!(info.author().company(), "None");
}

#[test]
fn document_info_must_fill_the_document() {
    let xml = format!("{}<more/>", DOCINFO);
    let err = parse_document_info(&xml).unwrap_err();
    assert_eq!(err.file, "documentinfo.xml");
    assert_eq!(
        err.error,
        MetadataErrorReason::XmlError(XmlError::AssertionFailed("end of file", "more".to_string()))
    );
}

#[test]
fn document_info_is_rigid() {
    let err = parse_document_info(&DOCINFO.replace("<subject>s</subject>", "")).unwrap_err();
    assert!(matches!(
        err.error,
        MetadataErrorReason::XmlError(XmlError::EventError("start event", _))
    ));
    let err = parse_document_info(&DOCINFO.replace("document-info PUBLIC", "info PUBLIC"))
        .unwrap_err();
    assert!(matches!(
        err.error,
        MetadataErrorReason::XmlError(XmlError::AssertionFailed(expected, _)) if expected == DOCUMENTINFO_DOCTYPE
    ));
    let err = parse_document_info(&DOCINFO.replace("<title>My &lt;title&gt;</title>", "<title><b/></title>"))
        .unwrap_err();
    assert_eq!(
        err.error,
        MetadataErrorReason::XmlError(XmlError::EventError(
            "text, CDATA or end event",
            "b".to_string()
        ))
    );
    let err = parse_document_info("<?xml version=\"1.0\"?><root/>").unwrap_err();
    assert_eq!(
        err.error,
        MetadataErrorReason::XmlError(XmlError::EventError("a doctype", "root".to_string()))
    );
}

#[test]
fn text_between_tags() {
    let tokens = tokenize("<a>x &amp; y</a><b></b><c><![CDATA[<&>]]></c><d>text<e/></d>");
    let mut cursor = EventCursor::new(&tokens);
    assert_eq!(get_text_between_tags(&mut cursor), Ok("x & y".to_string()));
    assert_eq!(get_text_between_tags(&mut cursor), Ok(String::new()));
    assert_eq!(get_text_between_tags(&mut cursor), Ok("<&>".to_string()));
    assert_eq!(
        get_text_between_tags(&mut cursor),
        Err(MetadataErrorReason::XmlError(XmlError::EventError("end event", "e".to_string())))
    );
}

#[test]
fn skipping_counts_elements_of_the_same_name() {
    let xml = "<a><a><b/></a><a></a>text</a><next/>";
    let tokens = tokenize(xml);
    let mut cursor = EventCursor::new(&tokens);
    cursor.next_event().unwrap();
    assert_eq!(skip_to_end(&mut cursor, "a"), Ok(()));
    assert_eq!(cursor.buffer_position(), xml.len() as u64 - "<next/>".len() as u64);
    let tokens = vec![
        Token { event: XmlEvent::Text("t".to_string()), end: 1 },
        Token { event: XmlEvent::Eof, end: 1 },
    ];
    let mut cursor = EventCursor::new(&tokens);
    assert_eq!(
        skip_to_end(&mut cursor, "a"),
        Err(MetadataErrorReason::XmlError(XmlError::ParsingError(
            "missing end tag: a".to_string()
        )))
    );
}

#[test]
fn mimetype_gates_the_document() {
    assert_eq!(check_mimetype(b"application/x-krita"), Ok(()));
    assert_eq!(check_mimetype(b"application/x-krita\n"), Err(ReadKraError::MimetypeMismatch));
    assert_eq!(check_mimetype(b"application/x-kra"), Err(ReadKraError::MimetypeMismatch));
    assert_eq!(check_mimetype(b""), Err(ReadKraError::MimetypeMismatch));
    let main = maindoc(MAINDOC_DOCTYPE, IMAGE, TRAILER);
    assert_eq!(
        KraFile::from_entries(b"text/plain", "not xml <", "not xml <"),
        Err(ReadKraError::MimetypeMismatch)
    );
    let file = KraFile::from_entries(b"application/x-krita", DOCINFO, &main).unwrap();
    assert_eq!(file.layers().len(), 1);
    assert_eq!(file.meta().name, "Unnamed");
    assert_eq!(file.doc_info().author.initial, "AP");
    let err = KraFile::from_entries(b"application/x-krita", "", &main).unwrap_err();
    assert!(matches!(err, ReadKraError::MetadataError(e) if e.file == "documentinfo.xml"));
    let err = KraFile::from_entries(b"application/x-krita", DOCINFO, "").unwrap_err();
    assert!(matches!(err, ReadKraError::MetadataError(e) if e.file == "maindoc.xml"));
}

#[test]
fn lines_and_columns() {
    let data = b"ab\ncd\n\nxyz";
    assert_eq!(locate(data, 0), Location { line: 0, column: 0 });
    assert_eq!(locate(data, 1), Location { line: 1, column: 1 });
    assert_eq!(locate(data, 2), Location { line: 1, column: 2 });
    assert_eq!(locate(data, 3), Location { line: 1, column: 3 });
    assert_eq!(locate(data, 4), Location { line: 2, column: 1 });
    assert_eq!(locate(data, 6), Location { line: 2, column: 3 });
    assert_eq!(locate(data, 7), Location { line: 3, column: 1 });
    assert_eq!(locate(data, 8), Location { line: 4, column: 1 });
    assert_eq!(locate(data, 10), Location { line: 4, column: 3 });
    assert_eq!(locate(b"", 0), Location { line: 0, column: 0 });
}

#[test]
fn errors_behind_the_data_have_no_location() {
    let reason = MetadataErrorReason::XmlError(XmlError::MissingValue("x".to_string()));
    let err = reason.clone().to_metadata_error("f.xml", 3, b"ab");
    assert_eq!(err.location, None);
    assert_eq!(err.buffer_pos, 3);
    assert_eq!(err.file, "f.xml");
    assert_eq!(err.error, reason);
    let err = reason.to_metadata_error("f.xml", 2, b"ab");
    assert_eq!(err.location, Some(Location { line: 1, column: 2 }));
}

#[test]
fn documents_from_tokens_written_by_hand() {
    let pair = |key: &str, value: &str| AttrEntry::Pair {
        key: key.to_string(),
        value: value.to_string(),
    };
    let tag = |name: &str, attrs: Vec<AttrEntry>| Tag {
        content: name.to_string(),
        name: name.to_string(),
        attrs,
    };
    let tokens = vec![
        Token { event: XmlEvent::Other("xml".to_string()), end: 5 },
        Token { event: XmlEvent::DocType(MAINDOC_DOCTYPE.to_string()), end: 10 },
        Token {
            event: XmlEvent::Start(tag(
                "DOC",
                vec![
                    pair("xmlns", MAINDOC_XMLNS),
                    pair("syntaxVersion", "2.0"),
                    pair("kritaVersion", "5"),
                ],
            )),
            end: 20,
        },
        Token {
            event: XmlEvent::Start(tag(
                "IMAGE",
                vec![
                    pair("mime", MIMETYPE),
                    pair("profile", "p"),
                    pair("name", "n"),
                    pair("description", "d"),
                    pair("colorspacename", "RGBA"),
                    pair("height", "2"),
                    pair("width", "3"),
                    pair("x-res", "4"),
                    AttrEntry::Malformed("broken".to_string()),
                    pair("y-res", "5"),
                ],
            )),
            end: 30,
        },
    ];
    let err = main_document_from_tokens(&tokens, &[b'\n'; 40]).unwrap_err();
    assert_eq!(
        err.error,
        MetadataErrorReason::XmlError(XmlError::ParsingError("broken".to_string()))
    );
    assert_eq!(err.buffer_pos, 30);
    assert_eq!(err.location, Some(Location { line: 30, column: 1 }));
    let mut cursor = EventCursor::new(&tokens[..3]);
    assert!(matches!(
        ImageMetadata::from_xml(&mut cursor),
        Err(MetadataErrorReason::XmlError(XmlError::EventError("start event", _)))
    ));
    let mut cursor = EventCursor::new(&tokens[..1]);
    assert!(matches!(
        DocumentInfo::from_xml(&mut cursor),
        Err(MetadataErrorReason::XmlError(XmlError::EventError("a doctype", _)))
    ));
}

#[test]
fn errors_in_words() {
    let reason = MetadataErrorReason::XmlError(XmlError::MissingValue("x".to_string()));
    assert_eq!(reason.message(), "missing XML value: x");
    let err = reason.clone().to_metadata_error("maindoc.xml", 12, &[b'\n'; 20]);
    assert_eq!(err.message(), "maindoc.xml at byte 12 (line: 12, column: 1): missing XML value: x");
    let err = MetadataError { location: None, ..err };
    assert_eq!(err.message(), "maindoc.xml at byte 12: missing XML value: x");
    let err = MetadataError {
        file: "f".to_string(),
        buffer_pos: u64::MAX,
        location: Some(Location { line: 0, column: 1234567890 }),
        error: MetadataErrorReason::XmlError(XmlError::AssertionFailed("a", "b".to_string())),
    };
    assert_eq!(
        err.message(),
        "f at byte 18446744073709551615 (line: 0, column: 1234567890): assertion about XML metadata failed: expected a, got b"
    );
    assert_eq!(ReadKraError::MimetypeMismatch.message(), "mimetype not recognised");
    assert_eq!(ReadKraError::MetadataError(err.clone()).message(), err.message());
    assert_eq!(
        XmlError::EventError("start event", "x y".to_string()).message(),
        "unexpected XML event: expected start event, got x y"
    );
    assert_eq!(XmlError::ValueError("v".to_string()).message(), "could not interpret XML value: v");
    assert_eq!(XmlError::ParsingError("bad".to_string()).message(), "could not parse XML: bad");
}

#[test]
fn settings_with_a_truth_value() {
    let tokens = tokenize("<a value=\"1\"/><b value=\"0\"/><c value=\"yes\"/><d/><e></e>");
    let mut cursor = EventCursor::new(&tokens);
    assert_eq!(push_and_parse_bool(&mut cursor), Ok(true));
    assert_eq!(push_and_parse_bool(&mut cursor), Ok(false));
    assert_eq!(
        push_and_parse_bool(&mut cursor),
        Err(MetadataErrorReason::XmlError(XmlError::ValueError("yes".to_string())))
    );
    assert_eq!(
        push_and_parse_bool(&mut cursor),
        Err(MetadataErrorReason::XmlError(XmlError::MissingValue("value".to_string())))
    );
    assert_eq!(
        push_and_parse_bool(&mut cursor),
        Err(MetadataErrorReason::XmlError(XmlError::EventError("start event", "e".to_string())))
    );
}

#[test]
fn errors_in_the_layers_name_the_main_document() {
    let main = maindoc(MAINDOC_DOCTYPE, IMAGE, TRAILER).replace("paintlayer", "bogus");
    match KraFile::from_entries(b"application/x-krita", DOCINFO, &main) {
        Err(ReadKraError::MetadataError(e)) => {
            assert_eq!(e.file, "maindoc.xml");
            assert_eq!(
                e.error,
                MetadataErrorReason::UnknownLayerType(kra_file::error::UnknownLayerType(
                    "bogus".to_string()
                ))
            );
            assert_eq!(e.buffer_pos, main.find("/>").unwrap() as u64 + 2);
        }
        other => panic!("unexpected: {:?}", other),
    }
}
