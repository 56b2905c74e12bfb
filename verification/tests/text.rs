use kra_file::attr::{
    event_get_attr, get_text, parse_bool, parse_i32, parse_u32, parse_u8, parse_word_bool,
    unescape_value,
};
use kra_file::color::Colorspace;
use kra_file::composite_op::CompositeOp;
use kra_file::cursor::{
    event_to_string, event_unwrap_as_doctype, event_unwrap_as_empty, event_unwrap_as_end,
    event_unwrap_as_start, Event, EventCursor,
};
use kra_file::data::{Loaded, NodeData, Unloaded};
use kra_file::error::{
    MaskExpected, MetadataErrorReason, ParseUuidError, UnknownColorspace, UnknownCompositeOp,
    UnknownLayerType, XmlError,
};
use kra_file::layer::{TransformMaskProps, TransparencyMaskProps};
use kra_file::reader::{read_tag, read_token, tokenize};
use kra_file::text::{bytes_eq, parse_decimal, str_eq, u64_to_string};
use kra_file::uuid::Uuid;
use kra_file::xml::{AttrEntry, EventKind, RawEvent, Tag, Token, XmlEvent};

#[test]
fn texts_are_compared_by_their_characters() {
    assert!(str_eq("", ""));
    assert!(str_eq("masks", "masks"));
    assert!(!str_eq("masks", "mask"));
    assert!(!str_eq("masks", "Masks"));
    assert!(str_eq("größe", "größe"));
    assert!(!str_eq("größe", "grösse"));
    assert!(bytes_eq(b"ab", b"ab"));
    assert!(!bytes_eq(b"ab", b"ba"));
    assert!(!bytes_eq(b"ab", b"abc"));
}

#[test]
fn decimal_numbers() {
    assert_eq!(parse_decimal("0", 0, 255), Some(0));
    assert_eq!(parse_decimal("255", 0, 255), Some(255));
    assert_eq!(parse_decimal("256", 0, 255), None);
    assert_eq!(parse_decimal("+255", 0, 255), Some(255));
    assert_eq!(parse_decimal("-0", 0, 255), None);
    assert_eq!(parse_decimal("007", 0, 255), Some(7));
    assert_eq!(parse_decimal("", 0, 255), None);
    assert_eq!(parse_decimal("+", 0, 255), None);
    assert_eq!(parse_decimal("-", -5, 5), None);
    assert_eq!(parse_decimal(" 1", 0, 255), None);
    assert_eq!(parse_decimal("1 ", 0, 255), None);
    assert_eq!(parse_decimal("1.0", 0, 255), None);
    assert_eq!(parse_decimal("0x10", 0, 255), None);
    assert_eq!(parse_decimal("١٢", 0, 255), None);
    assert_eq!(parse_decimal("4294967295", 0, 0xFFFF_FFFF), Some(4294967295));
    assert_eq!(parse_decimal("4294967296", 0, 0xFFFF_FFFF), None);
    assert_eq!(parse_decimal("00000000000000000000000000000000000012", 0, 0xFFFF_FFFF), Some(12));
    assert_eq!(parse_decimal("99999999999999999999999999999999999999", 0, 0xFFFF_FFFF), None);
    assert_eq!(parse_decimal("-2147483648", -0x8000_0000, 0x7FFF_FFFF), Some(-2147483648));
    assert_eq!(parse_decimal("-2147483649", -0x8000_0000, 0x7FFF_FFFF), None);
    assert_eq!(parse_decimal("2147483647", -0x8000_0000, 0x7FFF_FFFF), Some(2147483647));
    assert_eq!(parse_decimal("2147483648", -0x8000_0000, 0x7FFF_FFFF), None);
    assert_eq!(parse_decimal("-0", -0x8000_0000, 0x7FFF_FFFF), Some(0));
    assert_eq!(parse_decimal("+-1", -0x8000_0000, 0x7FFF_FFFF), None);
    assert_eq!(parse_decimal("--1", -0x8000_0000, 0x7FFF_FFFF), None);
}

#[test]
fn decimal_numbers_agree_with_the_standard_library() {
    let samples = [
        "", "+", "-", "0", "-0", "+0", "1", "-1", "+1", "255", "256", "-129", "-128", "127",
        "128", "00", "0123", "12a", "a12", "1 2", "4294967295", "4294967296", "2147483647",
        "2147483648", "-2147483648", "-2147483649", "9999999999999999999", "+-3", "++3",
    ];
    for s in samples {
        assert_eq!(parse_decimal(s, 0, 255), s.parse::<u8>().ok().map(i64::from), "{s}");
        assert_eq!(parse_decimal(s, 0, 0xFFFF_FFFF), s.parse::<u32>().ok().map(i64::from), "{s}");
        assert_eq!(
            parse_decimal(s, -0x8000_0000, 0x7FFF_FFFF),
            s.parse::<i32>().ok().map(i64::from),
            "{s}"
        );
    }
}

#[test]
fn typed_values() {
    assert_eq!(parse_bool("1"), Ok(true));
    assert_eq!(parse_bool("0"), Ok(false));
    assert_eq!(parse_bool("true"), Err(XmlError::ValueError("true".to_string())));
    assert_eq!(parse_bool("false"), Err(XmlError::ValueError("false".to_string())));
    assert_eq!(parse_bool(""), Err(XmlError::ValueError(String::new())));
    assert_eq!(parse_bool("&#49;"), Ok(true));
    assert_eq!(parse_word_bool("true"), Ok(true));
    assert_eq!(parse_word_bool("false"), Ok(false));
    assert_eq!(parse_word_bool("1"), Err(XmlError::ValueError("1".to_string())));
    assert_eq!(parse_word_bool("0"), Err(XmlError::ValueError("0".to_string())));
    assert_eq!(parse_word_bool("True"), Err(XmlError::ValueError("True".to_string())));
    assert_eq!(parse_u8("200"), Ok(200));
    assert_eq!(parse_u8("300"), Err(XmlError::ValueError("300".to_string())));
    assert_eq!(parse_u32("70000"), Ok(70000));
    assert_eq!(parse_u32("-1"), Err(XmlError::ValueError("-1".to_string())));
    assert_eq!(parse_i32("-70000"), Ok(-70000));
    assert_eq!(parse_i32("&#45;7"), Ok(-7));
    assert_eq!(parse_i32("seven"), Err(XmlError::ValueError("seven".to_string())));
    assert!(matches!(parse_i32("&seven;"), Err(XmlError::ParsingError(_))));
}

#[test]
fn escape_sequences() {
    assert_eq!(unescape_value("plain"), Ok("plain".to_string()));
    assert_eq!(unescape_value("&lt;&gt;&amp;&apos;&quot;"), Ok("<>&'\"".to_string()));
    assert_eq!(unescape_value("&#x41;&#66;"), Ok("AB".to_string()));
    assert!(matches!(unescape_value("&nothing;"), Err(XmlError::ParsingError(_))));
    assert!(matches!(unescape_value("a & b"), Err(XmlError::ParsingError(_))));
}

#[test]
fn composite_ops_by_name() {
    assert_eq!(CompositeOp::from_str("normal"), Ok(CompositeOp::Normal));
    assert_eq!(CompositeOp::from_str("destination-in"), Ok(CompositeOp::DestinationIn));
    assert_eq!(CompositeOp::from_str("hard mix"), Ok(CompositeOp::HardMix));
    assert_eq!(CompositeOp::from_str("interpolation 2x"), Ok(CompositeOp::Interpolation2X));
    assert_eq!(CompositeOp::from_str("pass through"), Ok(CompositeOp::PassThrough));
    assert_eq!(
        CompositeOp::from_str("lambert_lighting_gamma2.2"),
        Ok(CompositeOp::LambertLightingGamma22)
    );
    assert_eq!(
        CompositeOp::from_str("Normal"),
        Err(UnknownCompositeOp("Normal".to_string()))
    );
    assert_eq!(CompositeOp::from_str(""), Err(UnknownCompositeOp(String::new())));
    assert_eq!(
        CompositeOp::from_str("normal "),
        Err(UnknownCompositeOp("normal ".to_string()))
    );
    for op in [
        CompositeOp::Normal,
        CompositeOp::Erase,
        CompositeOp::AlphaDarken,
        CompositeOp::NotImplication,
        CompositeOp::HardMixSofterPhotoshop,
        CompositeOp::PenumbraD,
        CompositeOp::SoftLightSvg,
        CompositeOp::DecSaturationHsi,
        CompositeOp::TangentNormalmap,
        CompositeOp::Nocomposition,
        CompositeOp::HeatGlowFreezeReflectHybrid,
        CompositeOp::LambertLightingGamma22,
    ] {
        assert_eq!(CompositeOp::from_str(op.key()), Ok(op));
    }
    assert_eq!(CompositeOp::SoftLightPegtopDelphi.key(), "soft_light_pegtop_delphi");
}

#[test]
fn colorspaces_by_name() {
    assert_eq!(Colorspace::try_from("RGBA"), Ok(Colorspace::RGBA));
    assert_eq!(Colorspace::try_from("rgba"), Err(UnknownColorspace("rgba".to_string())));
    assert_eq!(Colorspace::try_from(""), Err(UnknownColorspace(String::new())));
    assert_eq!(Colorspace::RGBA.name(), "RGBA");
}

#[test]
fn identifiers() {
    assert_eq!(Uuid::from_str("00000000-0000-0000-0000-000000000000"), Ok(Uuid { value: 0 }));
    assert_eq!(
        Uuid::from_str("{a1a2a3a4-b1b2-c1c2-d1d2-d3d4d5d6d7d8}").unwrap().as_u128(),
        0xa1a2a3a4_b1b2_c1c2_d1d2_d3d4d5d6d7d8
    );
    assert_eq!(
        Uuid::from_str("A1A2A3A4B1B2C1C2D1D2D3D4D5D6D7D8").unwrap().as_u128(),
        0xa1a2a3a4_b1b2_c1c2_d1d2_d3d4d5d6d7d8
    );
    assert!(Uuid::from_str("").is_err());
    assert!(Uuid::from_str("a1a2a3a4-b1b2-c1c2-d1d2-d3d4d5d6d7d").is_err());
    assert!(Uuid::from_str("g1a2a3a4-b1b2-c1c2-d1d2-d3d4d5d6d7d8").is_err());
}

#[test]
fn tokens_of_a_document() {
    let xml = "<?xml version=\"1.0\"?>\n<!DOCTYPE d>\n<a x=\"1\" y='2'>\n  text &amp; more  \n<b/><!-- c --><![CDATA[raw]]></a>\n";
    let tokens = tokenize(xml);
    assert_eq!(tokens.len(), 9);
    assert_eq!(tokens[0].event, XmlEvent::Other("xml version=\"1.0\"".to_string()));
    assert_eq!(tokens[0].end, 21);
    assert_eq!(tokens[1].event, XmlEvent::DocType("d".to_string()));
    assert_eq!(
        tokens[2].event,
        XmlEvent::Start(Tag {
            content: "a x=\"1\" y='2'".to_string(),
            name: "a".to_string(),
            attrs: vec![
                AttrEntry::Pair { key: "x".to_string(), value: "1".to_string() },
                AttrEntry::Pair { key: "y".to_string(), value: "2".to_string() },
            ],
        })
    );
    assert_eq!(tokens[3].event, XmlEvent::Text("text &amp; more".to_string()));
    assert_eq!(
        tokens[4].event,
        XmlEvent::Empty(Tag { content: "b".to_string(), name: "b".to_string(), attrs: vec![] })
    );
    assert_eq!(tokens[5].event, XmlEvent::Other(" c ".to_string()));
    assert_eq!(tokens[6].event, XmlEvent::CData("raw".to_string()));
    assert_eq!(tokens[7].event, XmlEvent::End("a".to_string()));
    assert_eq!(tokens[8], Token { event: XmlEvent::Eof, end: xml.len() as u64 });
    assert!(tokens.windows(2).all(|w| w[0].end <= w[1].end));
}

#[test]
fn tokens_end_at_the_first_failure() {
    let tokens = tokenize("<a></b><c/>");
    assert_eq!(tokens.len(), 2);
    assert!(matches!(tokens[0].event, XmlEvent::Start(_)));
    assert!(matches!(tokens[1].event, XmlEvent::Malformed(_)));
    let tokens = tokenize("");
    assert_eq!(tokens, vec![Token { event: XmlEvent::Eof, end: 0 }]);
    let tokens = tokenize("   \n ");
    assert_eq!(tokens.len(), 1);
    assert_eq!(tokens[0].event, XmlEvent::Eof);
}

#[test]
fn tags_are_split_at_the_first_white_space() {
    let tag = read_tag("layer\tname=\"a b\"\n x = '1' broken".to_string());
    assert_eq!(tag.name, "layer");
    assert_eq!(tag.content, "layer\tname=\"a b\"\n x = '1' broken");
    assert_eq!(tag.attrs.len(), 3);
    assert_eq!(tag.attrs[0], AttrEntry::Pair { key: "name".to_string(), value: "a b".to_string() });
    assert_eq!(tag.attrs[1], AttrEntry::Pair { key: "x".to_string(), value: "1".to_string() });
    assert!(matches!(tag.attrs[2], AttrEntry::Malformed(_)));
    let tag = read_tag("größe".to_string());
    assert_eq!(tag.name, "größe");
    assert!(tag.attrs.is_empty());
    let tag = read_tag(String::new());
    assert_eq!(tag.name, "");
    let token = read_token(RawEvent { kind: EventKind::End, content: "a".to_string(), end: 4 });
    assert_eq!(token, Token { event: XmlEvent::End("a".to_string()), end: 4 });
    let token = read_token(RawEvent { kind: EventKind::Empty, content: "a b=\"c\"".to_string(), end: 9 });
    assert!(matches!(token.event, XmlEvent::Empty(tag) if tag.name == "a" && tag.attrs.len() == 1));
}

#[test]
fn attributes_by_name() {
    let tag = read_tag("t a=\"1\" b=\"&lt;\" a=\"2\" c d=\"4\"".to_string());
    assert_eq!(event_get_attr(&tag, "a"), Ok("1"));
    assert_eq!(event_get_attr(&tag, "b"), Ok("&lt;"));
    assert_eq!(get_text(&tag, "b"), Ok("<".to_string()));
    assert!(matches!(event_get_attr(&tag, "d"), Err(XmlError::ParsingError(_))));
    assert!(matches!(event_get_attr(&tag, "missing"), Err(XmlError::ParsingError(_))));
    let tag = read_tag("t a=\"1\"".to_string());
    assert_eq!(event_get_attr(&tag, "A"), Err(XmlError::MissingValue("A".to_string())));
    assert_eq!(event_get_attr(&tag, "t"), Err(XmlError::MissingValue("t".to_string())));
}

#[test]
fn cursor_reads_forward_and_stays_at_the_end() {
    let tokens = tokenize("<a>t</a>");
    let mut cursor = EventCursor::new(&tokens);
    assert_eq!(cursor.buffer_position(), 0);
    assert!(!cursor.at_end_tag("a"));
    assert!(matches!(cursor.next_event(), Ok(Event::Start(tag)) if tag.name == "a"));
    assert_eq!(cursor.buffer_position(), 3);
    assert!(matches!(cursor.next_event(), Ok(Event::Text("t"))));
    assert!(cursor.at_end_tag("a"));
    assert!(!cursor.at_end_tag("b"));
    assert!(matches!(cursor.next_event(), Ok(Event::End("a"))));
    assert!(matches!(cursor.next_event(), Ok(Event::Eof)));
    assert!(matches!(cursor.next_event(), Ok(Event::Eof)));
    assert_eq!(cursor.buffer_position(), 8);
    let tokens = tokenize("<a></b>");
    let mut cursor = EventCursor::new(&tokens);
    cursor.next_event().unwrap();
    assert!(matches!(cursor.next_event(), Err(XmlError::ParsingError(_))));
    assert!(matches!(cursor.next_event(), Err(XmlError::ParsingError(_))));
    let mut cursor = EventCursor::new(&[]);
    assert!(matches!(cursor.next_event(), Ok(Event::Eof)));
    assert_eq!(cursor.buffer_position(), 0);
}

#[test]
fn events_of_the_wrong_kind() {
    let tag = read_tag("a b=\"c\"".to_string());
    assert_eq!(event_unwrap_as_start(Event::Start(&tag)), Ok(&tag));
    assert_eq!(
        event_unwrap_as_start(Event::Empty(&tag)),
        Err(XmlError::EventError("start event", "a b=\"c\"".to_string()))
    );
    assert_eq!(event_unwrap_as_empty(Event::Empty(&tag)), Ok(&tag));
    assert_eq!(
        event_unwrap_as_empty(Event::Eof),
        Err(XmlError::EventError("start event", String::new()))
    );
    assert_eq!(event_unwrap_as_end(Event::End("a")), Ok("a"));
    assert_eq!(
        event_unwrap_as_end(Event::Text("t")),
        Err(XmlError::EventError("end event", "t".to_string()))
    );
    assert_eq!(event_unwrap_as_doctype(Event::DocType("d")), Ok("d"));
    assert_eq!(
        event_unwrap_as_doctype(Event::CData("c")),
        Err(XmlError::EventError("a doctype", "c".to_string()))
    );
    assert_eq!(event_to_string(&Event::Other("o")), "o");
}

#[test]
fn kinds_of_data_in_words() {
    assert_eq!(NodeData::DoesNotExist.description(), "non-existent data");
    assert_eq!(NodeData::Unloaded(Unloaded::Vector).description(), "unloaded vector data");
    assert_eq!(NodeData::Loaded(Loaded::Vector).description(), "loaded vector image data");
    assert_eq!(Unloaded::SelectionMask.description(), "selection mask data");
    assert_eq!(Loaded::Image.description(), "raster data");
    assert_eq!(TransparencyMaskProps::new(), TransparencyMaskProps());
    assert_eq!(TransformMaskProps::new(), TransformMaskProps());
}

#[test]
fn numbers_in_decimal_digits() {
    assert_eq!(u64_to_string(0), "0");
    assert_eq!(u64_to_string(7), "7");
    assert_eq!(u64_to_string(10), "10");
    assert_eq!(u64_to_string(1905), "1905");
    assert_eq!(u64_to_string(u64::MAX), "18446744073709551615");
    for n in [0u64, 9, 99, 100, 255, 4294967295] {
        assert_eq!(parse_decimal(&u64_to_string(n), 0, 0xFFFF_FFFF), Some(n as i64));
    }
}

#[test]
fn reasons_in_words() {
    assert_eq!(UnknownColorspace("X".to_string()).message(), "unknown colorspace: X");
    assert_eq!(UnknownCompositeOp("X".to_string()).message(), "unknown compositeop: X");
    assert_eq!(UnknownLayerType("X".to_string()).message(), "unknown layer type: X");
    assert_eq!(MaskExpected("X".to_string()).message(), "expected a mask, got: X");
    assert_eq!(ParseUuidError("X".to_string()).message(), "failed to parse UUID: X");
    assert_eq!(
        MetadataErrorReason::MaskExpected(MaskExpected("paintlayer".to_string())).message(),
        "expected a mask, got: paintlayer"
    );
    assert_eq!(
        MetadataErrorReason::UnknownLayerType(UnknownLayerType(String::new())).message(),
        "unknown layer type: "
    );
}
