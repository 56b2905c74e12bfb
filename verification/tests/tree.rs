use kra_file::composite_op::CompositeOp;
use kra_file::color::Colorspace;
use kra_file::cursor::EventCursor;
use kra_file::error::{
    MaskExpected, MetadataErrorReason, UnknownColorspace, UnknownCompositeOp, UnknownLayerType,
    XmlError,
};
use kra_file::layer::InTimeline;
use kra_file::node::Node;
use kra_file::parse::{get_layers, parse_layer, parse_masks, NodeKind};
use kra_file::reader::tokenize;

const COMMON: &str = r#"name="n" uuid="{00000000-0000-0000-0000-000000000000}" filename="layer1" visible="1" locked="0" colorlabel="0" y="0" x="0" intimeline="0""#;

const PAINT: &str = r#"nodetype="paintlayer" compositeop="normal" opacity="255" collapsed="0" colorspacename="RGBA" channellockflags="" channelflags="""#;

const GROUP: &str =
    r#"nodetype="grouplayer" compositeop="normal" collapsed="0" passthrough="0" opacity="255""#;

fn layers_of(xml: &str) -> Result<Vec<Node>, MetadataErrorReason> {
    let tokens = tokenize(xml);
    let mut cursor = EventCursor::new(&tokens);
    get_layers(&mut cursor, false)
}

fn named(name: &str, rest: &str) -> String {
    format!(
        r#"name="{}" uuid="{{00000000-0000-0000-0000-000000000000}}" filename="f" visible="1" locked="0" colorlabel="0" y="0" x="0" intimeline="0" {}"#,
        name, rest
    )
}

fn names(nodes: &[Node]) -> Vec<String> {
    nodes.iter().map(|n| n.name().unwrap().to_string()).collect()
}

#[test]
fn minimal_paint_layer() {
    let xml = format!("<layers><layer {} {}/></layers>", COMMON, PAINT);
    let layers = layers_of(&xml).unwrap();
    assert_eq!(layers.len(), 1);
    let node = &layers[0];
    assert!(node.is_layer());
    assert!(!node.is_mask());
    assert!(node.is_paintable_layer());
    assert!(node.has_composite_op());
    assert!(node.has_colorspace());
    assert!(!node.is_filter());
    assert_eq!(node.composite_op(), Some(CompositeOp::Normal));
    assert_eq!(node.opacity(), Some(255));
    assert_eq!(node.collapsed(), Some(false));
    assert_eq!(node.colorspace(), Some(Colorspace::RGBA));
    assert_eq!(node.masks().map(|m| m.len()), Some(0));
    assert_eq!(node.layers(), None);
    assert_eq!(node.name(), Some("n"));
    assert_eq!(node.filename(), Some("layer1"));
    assert_eq!(node.uuid().unwrap().as_u128(), 0);
    assert_eq!(node.visible(), Some(true));
    assert_eq!(node.locked(), Some(false));
    assert_eq!(node.colorlabel(), Some(0));
    assert_eq!(node.x(), Some(0));
    assert_eq!(node.y(), Some(0));
    assert_eq!(node.in_timeline(), Some(InTimeline::False));
}

#[test]
fn empty_group_layer() {
    let xml = format!(
        "<layers><layer {} {}><layers></layers></layer></layers>",
        COMMON, GROUP
    );
    let layers = layers_of(&xml).unwrap();
    assert_eq!(layers.len(), 1);
    assert!(matches!(layers[0], Node::GroupLayer { .. }));
    assert_eq!(layers[0].layers().map(|l| l.len()), Some(0));
    assert_eq!(layers[0].masks(), None);
    assert!(layers[0].is_layer());
    assert!(!layers[0].is_paintable_layer());
    assert!(layers[0].has_composite_op());
}

#[test]
fn layers_keep_document_order() {
    let xml = format!(
        "<layers><layer {}/><layer {}/><layer {}/></layers>",
        named("first", PAINT),
        named("second", PAINT),
        named("third", PAINT)
    );
    let layers = layers_of(&xml).unwrap();
    assert_eq!(names(&layers), vec!["first", "second", "third"]);
}

#[test]
fn masks_keep_document_order() {
    let xml = format!(
        r#"<layers><layer {}><masks><mask {}/><mask {}/><mask {}/></masks></layer></layers>"#,
        named("owner", PAINT),
        named("m1", r#"nodetype="transparencymask""#),
        named("m2", r#"nodetype="filtermask" filtername="blur" filterversion="2""#),
        named("m3", r#"nodetype="selectionmask" active="1""#)
    );
    let layers = layers_of(&xml).unwrap();
    assert_eq!(layers.len(), 1);
    let masks = layers[0].masks().unwrap();
    assert_eq!(names(masks), vec!["m1", "m2", "m3"]);
    assert!(masks.iter().all(|m| m.is_mask() && !m.is_layer()));
    assert!(masks.iter().all(|m| m.masks().is_none() && m.layers().is_none()));
    assert_eq!(masks[1].filter_name(), Some("blur"));
    assert_eq!(masks[1].filter_version(), Some(2));
    assert!(masks[1].is_filter());
    assert!(matches!(&masks[2], Node::SelectionMask { props, .. } if props.active));
}

#[test]
fn three_levels_of_groups() {
    let xml = format!(
        "<layers>\
           <layer {}>\
             <layers>\
               <layer {}>\
                 <layers>\
                   <layer {}><masks><mask {}/><mask {}/></masks></layer>\
                 </layers>\
               </layer>\
             </layers>\
           </layer>\
           <layer {}/>\
         </layers>",
        named("outer", GROUP),
        named("inner", GROUP),
        named("paint", PAINT),
        named("a", r#"nodetype="transparencymask""#),
        named("b", r#"nodetype="transformmask""#),
        named("sibling", PAINT)
    );
    let layers = layers_of(&xml).unwrap();
    assert_eq!(names(&layers), vec!["outer", "sibling"]);
    let inner = layers[0].layers().unwrap();
    assert_eq!(names(inner), vec!["inner"]);
    let innermost = inner[0].layers().unwrap();
    assert_eq!(names(innermost), vec!["paint"]);
    assert_eq!(names(innermost[0].masks().unwrap()), vec!["a", "b"]);
    assert_eq!(layers[1].masks().map(|m| m.len()), Some(0));
}

#[test]
fn unknown_layer_type_is_rejected() {
    let xml = format!(r#"<layers><layer {} nodetype="bogus"/></layers>"#, COMMON);
    assert_eq!(
        layers_of(&xml),
        Err(MetadataErrorReason::UnknownLayerType(UnknownLayerType("bogus".to_string())))
    );
}

#[test]
fn unknown_type_at_mask_position_is_mask_expected() {
    let xml = format!(
        r#"<layers><layer {} {}><masks><mask {} nodetype="bogus"/></masks></layer></layers>"#,
        COMMON, PAINT, COMMON
    );
    assert_eq!(
        layers_of(&xml),
        Err(MetadataErrorReason::MaskExpected(MaskExpected("bogus".to_string())))
    );
}

#[test]
fn layer_at_mask_position_is_mask_expected() {
    let xml = format!(
        r#"<layers><layer {} {}><masks><mask {} {}/></masks></layer></layers>"#,
        COMMON, PAINT, COMMON, PAINT
    );
    assert_eq!(
        layers_of(&xml),
        Err(MetadataErrorReason::MaskExpected(MaskExpected("paintlayer".to_string())))
    );
}

#[test]
fn mask_that_owns_masks_is_rejected() {
    let xml = format!(
        r#"<layers><layer {} nodetype="transparencymask"><masks><mask {} nodetype="transformmask"/></masks></layer></layers>"#,
        COMMON, COMMON
    );
    assert_eq!(
        layers_of(&xml),
        Err(MetadataErrorReason::MaskExpected(MaskExpected("transparencymask".to_string())))
    );
}

#[test]
fn mask_with_content_inside_mask_list_is_an_event_error() {
    let xml = format!(
        r#"<layers><layer {} {}><masks><mask {} nodetype="transparencymask"><masks></masks></mask></masks></layer></layers>"#,
        COMMON, PAINT, COMMON
    );
    match layers_of(&xml) {
        Err(MetadataErrorReason::XmlError(XmlError::EventError(expected, _))) => {
            assert_eq!(expected, "empty or end event")
        }
        other => panic!("unexpected: {:?}", other),
    }
}

#[test]
fn mask_at_layer_position_without_content_is_read() {
    let xml = format!(r#"<layers><layer {} nodetype="transformmask"/></layers>"#, COMMON);
    let layers = layers_of(&xml).unwrap();
    assert!(matches!(layers[0], Node::TransformMask { .. }));
    assert!(layers[0].is_mask());
    assert_eq!(layers[0].masks(), None);
    assert_eq!(layers[0].composite_op(), None);
}

#[test]
fn one_zero_booleans_reject_words() {
    let xml = format!(
        r#"<layers><layer {} {}/></layers>"#,
        COMMON.replace(r#"visible="1""#, r#"visible="true""#),
        PAINT
    );
    assert_eq!(
        layers_of(&xml),
        Err(MetadataErrorReason::XmlError(XmlError::ValueError("true".to_string())))
    );
    let xml = format!(
        r#"<layers><layer {} {}/></layers>"#,
        COMMON,
        PAINT.replace(r#"collapsed="0""#, r#"collapsed="false""#)
    );
    assert_eq!(
        layers_of(&xml),
        Err(MetadataErrorReason::XmlError(XmlError::ValueError("false".to_string())))
    );
}

const FILE: &str = r#"nodetype="filelayer" collapsed="0" scalingfilter="Bicubic" scale="true" compositeop="normal" opacity="200" colorspacename="RGBA" scalingmethod="1" source="img.png" channelflags="""#;

#[test]
fn file_layer_scale_uses_words() {
    let xml = format!(r#"<layers><layer {} {}/></layers>"#, COMMON, FILE);
    let layers = layers_of(&xml).unwrap();
    match &layers[0] {
        Node::FileLayer { props, .. } => {
            assert!(props.scale);
            assert_eq!(props.source, "img.png");
            assert_eq!(props.scaling_filter, "Bicubic");
            assert_eq!(props.scaling_method, 1);
            assert_eq!(props.opacity, 200);
        }
        other => panic!("unexpected: {:?}", other),
    }
    let xml = format!(
        r#"<layers><layer {} {}/></layers>"#,
        COMMON,
        FILE.replace(r#"scale="true""#, r#"scale="false""#)
    );
    assert!(matches!(&layers_of(&xml).unwrap()[0], Node::FileLayer { props, .. } if !props.scale));
    let xml = format!(
        r#"<layers><layer {} {}/></layers>"#,
        COMMON,
        FILE.replace(r#"scale="true""#, r#"scale="1""#)
    );
    assert_eq!(
        layers_of(&xml),
        Err(MetadataErrorReason::XmlError(XmlError::ValueError("1".to_string())))
    );
}

#[test]
fn every_kind_of_node_is_read() {
    let xml = format!(
        "<layers><layer {}/><layer {}/><layer {}/><layer {}/><layer {}/><layer {}/><layer {}/><layer {}/><layer {}/><layer {}/><layer {}/></layers>",
        named("paint", PAINT),
        named("file", FILE),
        named("filter", r#"nodetype="adjustmentlayer" filtername="levels" filterversion="3" channelflags="11" collapsed="1" compositeop="multiply" opacity="7""#),
        named("fill", r#"nodetype="generatorlayer" opacity="1" compositeop="erase" generatorname="color" generatorversion="4" channelflags="" collapsed="0""#),
        named("clone", r#"nodetype="clonelayer" clonetype="0" clonefrom="paint" compositeop="normal" opacity="255" clonefromuuid="{12345678-1234-1234-1234-123456789abc}" channelflags="" collapsed="0""#),
        named("vector", r#"nodetype="shapelayer" compositeop="normal" opacity="255" channelflags="" collapsed="0""#),
        named("transparency", r#"nodetype="transparencymask""#),
        named("filtermask", r#"nodetype="filtermask" filtername="blur" filterversion="1""#),
        named("transform", r#"nodetype="transformmask""#),
        named("selection", r#"nodetype="selectionmask" active="0""#),
        named("colorize", r#"nodetype="colorizemask" limit-to-device="0" show-coloring="1" cleanup="20" use-edge-detection="0" edge-detection-size="4" fuzzy-radius="0" edit-keystrokes="1" compositeop="behind" colorspacename="RGBA""#),
    );
    let layers = layers_of(&xml).unwrap();
    assert_eq!(layers.len(), 11);
    assert!(matches!(layers[0], Node::PaintLayer { .. }));
    assert!(matches!(layers[1], Node::FileLayer { .. }));
    match &layers[2] {
        Node::FilterLayer { props, .. } => {
            assert_eq!(props.filter_name, "levels");
            assert_eq!(props.filter_version, 3);
            assert_eq!(props.channel_flags, "11");
            assert!(props.collapsed);
            assert_eq!(props.composite_op, CompositeOp::Multiply);
            assert_eq!(props.opacity, 7);
        }
        other => panic!("unexpected: {:?}", other),
    }
    match &layers[3] {
        Node::FillLayer { props, .. } => {
            assert_eq!(props.generator_name, "color");
            assert_eq!(props.generator_version, 4);
            assert_eq!(props.composite_op, CompositeOp::Erase);
        }
        other => panic!("unexpected: {:?}", other),
    }
    match &layers[4] {
        Node::CloneLayer { props, .. } => {
            assert_eq!(props.clone_from, "paint");
            assert_eq!(props.clone_type, 0);
            assert_eq!(props.clone_from_uuid.as_u128(), 0x12345678_1234_1234_1234_123456789abc);
        }
        other => panic!("unexpected: {:?}", other),
    }
    assert!(matches!(layers[5], Node::VectorLayer { .. }));
    assert!(matches!(layers[6], Node::TransparencyMask { .. }));
    assert!(matches!(layers[7], Node::FilterMask { .. }));
    assert!(matches!(layers[8], Node::TransformMask { .. }));
    assert!(matches!(layers[9], Node::SelectionMask { .. }));
    match &layers[10] {
        Node::ColorizeMask { props, .. } => {
            assert!(!props.limit_to_device);
            assert!(props.show_coloring);
            assert_eq!(props.cleanup, 20);
            assert_eq!(props.edge_detection_size, 4);
            assert!(props.edit_keystrokes);
            assert_eq!(props.composite_op, CompositeOp::Behind);
        }
        other => panic!("unexpected: {:?}", other),
    }
    assert!(layers[10].has_composite_op() && layers[10].has_colorspace() && layers[10].is_mask());
    assert_eq!(layers[0].channel_flags(), Some(""));
    assert_eq!(layers[6].channel_flags(), None);
}

#[test]
fn missing_attribute_is_named() {
    let xml = format!(
        r#"<layers><layer {} {}/></layers>"#,
        COMMON.replace(r#"filename="layer1""#, ""),
        PAINT
    );
    assert_eq!(
        layers_of(&xml),
        Err(MetadataErrorReason::XmlError(XmlError::MissingValue("filename".to_string())))
    );
}

#[test]
fn lookups_come_before_values() {
    // The value of `visible` is wrong and `colorlabel` is missing: every
    // attribute is looked up before a value is read.
    let xml = format!(
        r#"<layers><layer {} {}/></layers>"#,
        COMMON.replace(r#"visible="1""#, r#"visible="x""#).replace(r#"colorlabel="0""#, ""),
        PAINT
    );
    assert_eq!(
        layers_of(&xml),
        Err(MetadataErrorReason::XmlError(XmlError::MissingValue("colorlabel".to_string())))
    );
}

#[test]
fn numbers_out_of_range_are_value_errors() {
    let xml = format!(
        r#"<layers><layer {} {}/></layers>"#,
        COMMON,
        PAINT.replace(r#"opacity="255""#, r#"opacity="256""#)
    );
    assert_eq!(
        layers_of(&xml),
        Err(MetadataErrorReason::XmlError(XmlError::ValueError("256".to_string())))
    );
    let xml = format!(
        r#"<layers><layer {} {}/></layers>"#,
        COMMON.replace(r#"x="0""#, r#"x="-2147483648""#).replace(r#"y="0""#, r#"y="+17""#),
        PAINT
    );
    let layers = layers_of(&xml).unwrap();
    assert_eq!(layers[0].x(), Some(i32::MIN));
    assert_eq!(layers[0].y(), Some(17));
    let xml = format!(
        r#"<layers><layer {} {}/></layers>"#,
        COMMON.replace(r#"colorlabel="0""#, r#"colorlabel="-1""#),
        PAINT
    );
    assert_eq!(
        layers_of(&xml),
        Err(MetadataErrorReason::XmlError(XmlError::ValueError("-1".to_string())))
    );
}

#[test]
fn unknown_composite_op_is_rejected() {
    let xml = format!(
        r#"<layers><layer {} {}/></layers>"#,
        COMMON,
        PAINT.replace(r#"compositeop="normal""#, r#"compositeop="abnormal""#)
    );
    assert_eq!(
        layers_of(&xml),
        Err(MetadataErrorReason::UnknownCompositeOp(UnknownCompositeOp("abnormal".to_string())))
    );
}

#[test]
fn unknown_colorspace_of_a_node_is_rejected() {
    let xml = format!(
        r#"<layers><layer {} {}/></layers>"#,
        COMMON,
        PAINT.replace(r#"colorspacename="RGBA""#, r#"colorspacename="CMYK""#)
    );
    assert_eq!(
        layers_of(&xml),
        Err(MetadataErrorReason::UnknownColorspace(UnknownColorspace("CMYK".to_string())))
    );
}

#[test]
fn malformed_uuid_is_rejected() {
    let xml = format!(
        r#"<layers><layer {} {}/></layers>"#,
        COMMON.replace("{00000000-0000-0000-0000-000000000000}", "not-a-uuid"),
        PAINT
    );
    assert!(matches!(layers_of(&xml), Err(MetadataErrorReason::ParseUuidError(_))));
}

#[test]
fn timeline_with_onionskin() {
    let xml = format!(
        r#"<layers><layer {} onionskin="1" {}/></layers>"#,
        COMMON.replace(r#"intimeline="0""#, r#"intimeline="1""#),
        PAINT
    );
    assert_eq!(layers_of(&xml).unwrap()[0].in_timeline(), Some(InTimeline::True(true)));
    let xml = format!(
        r#"<layers><layer {} {}/></layers>"#,
        COMMON.replace(r#"intimeline="0""#, r#"intimeline="1""#),
        PAINT
    );
    assert_eq!(
        layers_of(&xml),
        Err(MetadataErrorReason::XmlError(XmlError::MissingValue("onionskin".to_string())))
    );
    let xml = format!(
        r#"<layers><layer {} {}/></layers>"#,
        COMMON.replace(r#"intimeline="0""#, r#"intimeline="2""#),
        PAINT
    );
    assert_eq!(
        layers_of(&xml),
        Err(MetadataErrorReason::XmlError(XmlError::ValueError("2".to_string())))
    );
}

#[test]
fn escaped_values_are_unescaped() {
    let xml = format!(
        r#"<layers><layer {}/></layers>"#,
        named("a &amp; b &lt;c&gt;", PAINT)
    );
    assert_eq!(layers_of(&xml).unwrap()[0].name(), Some("a & b <c>"));
    let xml = format!(r#"<layers><layer {}/></layers>"#, named("a &bogus; b", PAINT));
    assert!(matches!(
        layers_of(&xml),
        Err(MetadataErrorReason::XmlError(XmlError::ParsingError(_)))
    ));
}

#[test]
fn wrong_event_at_layer_position() {
    let tokens = tokenize("<layers>text</layers>");
    let mut cursor = EventCursor::new(&tokens);
    assert_eq!(
        get_layers(&mut cursor, false),
        Err(MetadataErrorReason::XmlError(XmlError::EventError(
            "layer/mask start event",
            "text".to_string()
        )))
    );
    let tokens = tokenize("");
    let mut cursor = EventCursor::new(&tokens);
    assert_eq!(
        parse_layer(&mut cursor),
        Err(MetadataErrorReason::XmlError(XmlError::EventError(
            "layer/mask start event",
            String::new()
        )))
    );
    let tokens = tokenize("</layers>");
    let mut cursor = EventCursor::new(&tokens);
    assert!(matches!(
        get_layers(&mut cursor, false),
        Err(MetadataErrorReason::XmlError(XmlError::ParsingError(_)))
    ));
}

#[test]
fn layer_list_must_start_with_a_start_tag() {
    let tokens = tokenize("<layers/>");
    let mut cursor = EventCursor::new(&tokens);
    assert_eq!(
        get_layers(&mut cursor, false),
        Err(MetadataErrorReason::XmlError(XmlError::EventError(
            "start event",
            "layers".to_string()
        )))
    );
}

#[test]
fn mask_list_ends_with_the_owner() {
    let xml = format!(
        r#"<masks><mask {} nodetype="transformmask"/></masks></layer>"#,
        COMMON
    );
    // The reader checks that end tags match start tags, so the mask list
    // is wrapped in its owner here.
    let xml = format!("<layer>{}", xml);
    let tokens = tokenize(&xml);
    let mut cursor = EventCursor::new(&tokens);
    cursor.next_event().unwrap();
    let masks = parse_masks(&mut cursor).unwrap();
    assert_eq!(masks.len(), 1);
    assert_eq!(cursor.buffer_position(), xml.len() as u64);
}

#[test]
fn wrong_end_tag_in_mask_list() {
    let xml = "<layer><other></other></layer>";
    let tokens = tokenize(xml);
    let mut cursor = EventCursor::new(&tokens);
    cursor.next_event().unwrap();
    assert_eq!(
        parse_masks(&mut cursor),
        Err(MetadataErrorReason::XmlError(XmlError::EventError(
            "masks end event",
            "other".to_string()
        )))
    );
}

#[test]
fn node_kinds_by_name() {
    assert_eq!(NodeKind::from_name("adjustmentlayer"), Some(NodeKind::FilterLayer));
    assert_eq!(NodeKind::from_name("generatorlayer"), Some(NodeKind::FillLayer));
    assert_eq!(NodeKind::from_name("shapelayer"), Some(NodeKind::VectorLayer));
    assert_eq!(NodeKind::from_name("grouplayer"), Some(NodeKind::GroupLayer));
    assert_eq!(NodeKind::from_name("vectorlayer"), None);
    assert_eq!(NodeKind::from_name("PaintLayer"), None);
    assert!(NodeKind::ColorizeMask.is_mask());
    assert!(!NodeKind::CloneLayer.is_mask());
    assert!(NodeKind::CloneLayer.may_own_masks());
    assert!(!NodeKind::GroupLayer.may_own_masks());
    assert!(!NodeKind::FilterMask.may_own_masks());
    assert!(NodeKind::GroupLayer.may_own_layers());
    assert!(!NodeKind::PaintLayer.may_own_layers());
    let xml = format!(r#"<layers><layer {} {}/></layers>"#, COMMON, FILE);
    assert_eq!(NodeKind::of_node(&layers_of(&xml).unwrap()[0]), NodeKind::FileLayer);
}

#[test]
fn group_layer_reads_layers_before_values() {
    // The opacity is wrong, and so is a layer inside the group: the
    // layers are read before the values of the group's attributes.
    let xml = format!(
        r#"<layers><layer {} {}><layers><layer {} nodetype="bogus"/></layers></layer></layers>"#,
        COMMON,
        GROUP.replace(r#"opacity="255""#, r#"opacity="x""#),
        COMMON
    );
    assert_eq!(
        layers_of(&xml),
        Err(MetadataErrorReason::UnknownLayerType(UnknownLayerType("bogus".to_string())))
    );
    let xml = format!(
        r#"<layers><layer {} {}><layers></layers></layer></layers>"#,
        COMMON,
        GROUP.replace(r#"opacity="255""#, r#"opacity="x""#)
    );
    assert_eq!(
        layers_of(&xml),
        Err(MetadataErrorReason::XmlError(XmlError::ValueError("x".to_string())))
    );
}

#[test]
fn set_masks_only_on_paintable_layers() {
    let xml = format!(
        r#"<layers><layer {} {}/><layer {} nodetype="transformmask"/></layers>"#,
        COMMON, PAINT, COMMON
    );
    let mut layers = layers_of(&xml).unwrap();
    let mask = layers.pop().unwrap();
    let mut paint = layers.pop().unwrap();
    assert_eq!(paint.set_masks(vec![mask]), Ok(()));
    assert_eq!(paint.masks().map(|m| m.len()), Some(1));
    let mut mask = paint.masks().unwrap().len();
    mask += 0;
    assert_eq!(mask, 1);
    let xml = format!(r#"<layers><layer {} nodetype="transformmask"/></layers>"#, COMMON);
    let mut only = layers_of(&xml).unwrap().pop().unwrap();
    assert!(only.set_masks(Vec::new()).is_err());
}

#[test]
fn copies_are_equal() {
    let xml = format!(
        "<layers><layer {}><layers><layer {}><masks><mask {}/></masks></layer></layers></layer></layers>",
        named("group", GROUP),
        named("paint", PAINT),
        named("mask", r#"nodetype="filtermask" filtername="blur" filterversion="1""#),
    );
    let layers = layers_of(&xml).unwrap();
    let copy = layers[0].clone();
    assert_eq!(copy, layers[0]);
    assert_eq!(names(copy.layers().unwrap()), vec!["paint"]);
    assert_eq!(names(copy.layers().unwrap()[0].masks().unwrap()), vec!["mask"]);
    assert_eq!(kra_file::node::clone_nodes(&layers), layers);
    assert_eq!(layers[0].common().clone(), *layers[0].common());
}
