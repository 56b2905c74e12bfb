//! What holds of every document that the tree parser reads.

use vstd::prelude::*;
use vstd::string::*;
use crate::attr::{bool_value, get_attr, text_attr, u8_value, unescaped, word_bool_value};
use crate::document::{
    ARCHIVE_MIMETYPE, KraFileView, spec_document_info_file, spec_kra_file, spec_main_document,
};
use crate::error::MetadataErrorView;
use crate::metadata::{
    KraMetadataEndView, spec_document_head, spec_metadata_end, spec_skip_to_end,
};
use crate::cursor::{CursorView, peek_step, read_step};
use crate::error::{ReasonView, XmlErrorView, lifted};
use crate::layer::{common_node_props, composite_op_value};
use crate::node::NodeView;
use crate::parse::{
    NodeKind, expect_start, failed, node_kind_named, spec_get_layers, spec_group_layer,
    spec_layer_list, spec_mask, spec_mask_list, spec_node, spec_parse_layer, spec_parse_masks,
};
use crate::xml::{EventView, TagView, TokenView};

verus! {

/// A cursor that has moved forward from another, or not at all, and has
/// not left the tokens.
pub open spec fn moved_on(tokens: Seq<TokenView>, from: CursorView, to: CursorView) -> bool {
    from.pos <= to.pos <= tokens.len()
}

/// One read moves the cursor forward by one token, unless it finds the
/// end of the document.
pub proof fn lemma_read_step_moves(tokens: Seq<TokenView>, c: CursorView)
    requires
        c.pos <= tokens.len(),
    ensures
        moved_on(tokens, c, read_step(tokens, c).1),
        !read_step(tokens, c).0.is_last() ==> read_step(tokens, c).1.pos == c.pos + 1,
        !read_step(tokens, c).0.is_last() ==> tokens[c.pos as int].event == read_step(
            tokens,
            c,
        ).0,
{
}

/// The masks of a mask list are the masks that the self-closing tags of
/// the list describe, one for each tag, in the order of the document, and
/// the list ends at the end tag `masks`.
pub proof fn lemma_masks_in_document_order(tokens: Seq<TokenView>, c: CursorView)
    requires
        c.pos <= tokens.len(),
        spec_mask_list(tokens, c).result is Ok,
    ensures
        ({
            let masks = spec_mask_list(tokens, c).result->Ok_0;
            let end = spec_mask_list(tokens, c).cursor;
            &&& end.pos == c.pos + masks.len() + 1
            &&& end.pos <= tokens.len()
            &&& tokens[end.pos - 1].event == EventView::End("masks"@)
            &&& forall|i: int|
                0 <= i < masks.len() ==> (#[trigger] tokens[c.pos + i]).event is Empty
                    && spec_mask(tokens[c.pos + i].event->Empty_0) == Ok::<NodeView, ReasonView>(
                    masks[i],
                ) && masks[i].is_mask()
        }),
    decreases tokens.len() - c.pos,
{
    let (event, after) = read_step(tokens, c);
    lemma_read_step_moves(tokens, c);
    match event {
        EventView::Empty(tag) => {
            let rest = spec_mask_list(tokens, after);
            lemma_masks_in_document_order(tokens, after);
            let masks = spec_mask_list(tokens, c).result->Ok_0;
            let more = rest.result->Ok_0;
            assert(masks =~= seq![spec_mask(tag)->Ok_0] + more);
            lemma_mask_is_mask(tag);
            assert forall|i: int| 0 <= i < masks.len() implies (#[trigger] tokens[c.pos
                + i]).event is Empty && spec_mask(tokens[c.pos + i].event->Empty_0) == Ok::<
                NodeView,
                ReasonView,
            >(masks[i]) && masks[i].is_mask() by {
                if i > 0 {
                    assert(tokens[after.pos + (i - 1)] == tokens[c.pos + i]);
                    assert(masks[i] == more[i - 1]);
                }
            }
        },
        _ => {},
    }
}

/// What is read as a mask is a mask.
pub proof fn lemma_mask_is_mask(tag: TagView)
    ensures
        spec_mask(tag) is Ok ==> spec_mask(tag)->Ok_0.is_mask(),
{
}

/// Every parser of the tree moves the cursor forward or not at all, and
/// a node that was read has taken at least its tag.
pub proof fn lemma_parse_layer_moves(tokens: Seq<TokenView>, c: CursorView)
    requires
        c.pos <= tokens.len(),
    ensures
        moved_on(tokens, c, spec_parse_layer(tokens, c).cursor),
        spec_parse_layer(tokens, c).result is Ok ==> c.pos < spec_parse_layer(tokens, c).cursor.pos,
        spec_parse_layer(tokens, c).result is Ok ==> (tokens[c.pos as int].event is Start
            || tokens[c.pos as int].event is Empty),
    decreases tokens.len() - c.pos, 1nat,
{
    let (event, after) = read_step(tokens, c);
    lemma_read_step_moves(tokens, c);
    match event {
        EventView::Start(tag) => {
            lemma_node_moves(tokens, after, tag, true);
        },
        EventView::Empty(tag) => {
            lemma_node_moves(tokens, after, tag, false);
        },
        _ => {},
    }
}

proof fn lemma_mask_list_moves(tokens: Seq<TokenView>, c: CursorView)
    requires
        c.pos <= tokens.len(),
    ensures
        moved_on(tokens, c, spec_mask_list(tokens, c).cursor),
    decreases tokens.len() - c.pos,
{
    let (event, after) = read_step(tokens, c);
    lemma_read_step_moves(tokens, c);
    match event {
        EventView::Empty(tag) => {
            if spec_mask(tag) is Ok {
                lemma_mask_list_moves(tokens, after);
            }
        },
        _ => {},
    }
}

proof fn lemma_parse_masks_moves(tokens: Seq<TokenView>, c: CursorView)
    requires
        c.pos <= tokens.len(),
    ensures
        moved_on(tokens, c, spec_parse_masks(tokens, c).cursor),
{
    lemma_read_step_moves(tokens, c);
    let open = expect_start(tokens, c);
    if open.result is Ok {
        lemma_mask_list_moves(tokens, open.cursor);
        let list = spec_mask_list(tokens, open.cursor);
        if list.result is Ok {
            lemma_read_step_moves(tokens, list.cursor);
        }
    }
}

proof fn lemma_node_moves(tokens: Seq<TokenView>, after: CursorView, tag: TagView, open: bool)
    requires
        after.pos <= tokens.len(),
    ensures
        moved_on(tokens, after, spec_node(tokens, after, tag, open).cursor),
    decreases tokens.len() - after.pos, 5nat,
{
    if common_node_props(tag) is Ok {
        let common = common_node_props(tag)->Ok_0;
        let node_type = lifted(text_attr(tag, "nodetype"@));
        if node_type is Ok {
            let kind = node_kind_named(node_type->Ok_0);
            if kind is Some {
                if kind->Some_0 == NodeKind::GroupLayer {
                    lemma_group_layer_moves(tokens, after, common, tag);
                } else {
                    lemma_parse_masks_moves(tokens, after);
                }
            }
        }
    }
}

proof fn lemma_group_layer_moves(
    tokens: Seq<TokenView>,
    c: CursorView,
    common: crate::layer::CommonNodePropsView,
    tag: TagView,
)
    requires
        c.pos <= tokens.len(),
    ensures
        moved_on(tokens, c, spec_group_layer(tokens, c, common, tag).cursor),
    decreases tokens.len() - c.pos, 4nat,
{
    lemma_get_layers_moves(tokens, c, true);
}

/// A list of layers leaves the cursor behind where it began.
pub proof fn lemma_get_layers_moves(tokens: Seq<TokenView>, c: CursorView, is_group_layer: bool)
    requires
        c.pos <= tokens.len(),
    ensures
        moved_on(tokens, c, spec_get_layers(tokens, c, is_group_layer).cursor),
    decreases tokens.len() - c.pos, 3nat,
{
    lemma_read_step_moves(tokens, c);
    let open = expect_start(tokens, c);
    if open.result is Ok {
        lemma_layer_list_moves(tokens, open.cursor);
        let list = spec_layer_list(tokens, open.cursor);
        if list.result is Ok && is_group_layer {
            lemma_read_step_moves(tokens, list.cursor);
        }
    }
}

proof fn lemma_layer_list_moves(tokens: Seq<TokenView>, c: CursorView)
    requires
        c.pos <= tokens.len(),
    ensures
        moved_on(tokens, c, spec_layer_list(tokens, c).cursor),
    decreases tokens.len() - c.pos, 2nat,
{
    lemma_read_step_moves(tokens, c);
    if peek_step(tokens, c) != EventView::End("layers"@) {
        lemma_parse_layer_moves(tokens, c);
        let first = spec_parse_layer(tokens, c);
        if first.result is Ok {
            lemma_layer_list_moves(tokens, first.cursor);
        }
    }
}

/// Skipping an element moves the cursor forward or not at all, and never
/// out of the tokens; where it succeeds, it has read at least the end tag
/// of the element.
pub proof fn lemma_skip_to_end_moves(
    tokens: Seq<TokenView>,
    c: CursorView,
    name: Seq<char>,
    depth: nat,
)
    requires
        c.pos <= tokens.len(),
    ensures
        moved_on(tokens, c, spec_skip_to_end(tokens, c, name, depth).cursor),
        spec_skip_to_end(tokens, c, name, depth).result is Ok ==> c.pos < spec_skip_to_end(
            tokens,
            c,
            name,
            depth,
        ).cursor.pos,
        spec_skip_to_end(tokens, c, name, depth).result is Ok ==> tokens[spec_skip_to_end(
            tokens,
            c,
            name,
            depth,
        ).cursor.pos - 1].event == EventView::End(name),
    decreases tokens.len() - c.pos,
{
    let (event, after) = read_step(tokens, c);
    lemma_read_step_moves(tokens, c);
    match event {
        EventView::Malformed(_) => {},
        EventView::Eof => {},
        EventView::Start(tag) => {
            lemma_skip_to_end_moves(
                tokens,
                after,
                name,
                if tag.name == name {
                    depth + 1
                } else {
                    depth
                },
            );
        },
        EventView::End(found) => {
            if found != name {
                lemma_skip_to_end_moves(tokens, after, name, depth);
            } else if depth > 0 {
                lemma_skip_to_end_moves(tokens, after, name, (depth - 1) as nat);
            }
        },
        _ => {
            lemma_skip_to_end_moves(tokens, after, name, depth);
        },
    }
}

/// The settings after the layers never stop at an element that was
/// skipped: behind a start tag, a skip that succeeds has moved the cursor
/// forward inside the tokens, so that the reading goes on from there.
pub proof fn lemma_trailer_reads_on(tokens: Seq<TokenView>, c: CursorView, found: KraMetadataEndView)
    requires
        c.pos <= tokens.len(),
        read_step(tokens, c).0 is Start,
        spec_skip_to_end(
            tokens,
            read_step(tokens, c).1,
            read_step(tokens, c).0->Start_0.name,
            0,
        ).result is Ok,
    ensures
        ({
            let skipped = spec_skip_to_end(
                tokens,
                read_step(tokens, c).1,
                read_step(tokens, c).0->Start_0.name,
                0,
            );
            &&& c.pos + 1 < skipped.cursor.pos <= tokens.len()
            &&& spec_metadata_end(tokens, c, found) == spec_metadata_end(
                tokens,
                skipped.cursor,
                found,
            )
        }),
{
    lemma_read_step_moves(tokens, c);
    lemma_skip_to_end_moves(
        tokens,
        read_step(tokens, c).1,
        read_step(tokens, c).0->Start_0.name,
        0,
    );
}

/// The settings after the layers leave the cursor behind where they
/// began, inside the tokens; where they were read, the end tag `IMAGE` was
/// read last.
pub proof fn lemma_metadata_end_moves(
    tokens: Seq<TokenView>,
    c: CursorView,
    found: KraMetadataEndView,
)
    requires
        c.pos <= tokens.len(),
    ensures
        moved_on(tokens, c, spec_metadata_end(tokens, c, found).cursor),
        spec_metadata_end(tokens, c, found).result is Ok ==> c.pos < spec_metadata_end(
            tokens,
            c,
            found,
        ).cursor.pos && tokens[spec_metadata_end(tokens, c, found).cursor.pos - 1].event
            == EventView::End("IMAGE"@),
    decreases tokens.len() - c.pos,
{
    let (event, after) = read_step(tokens, c);
    lemma_read_step_moves(tokens, c);
    match event {
        EventView::Start(tag) => {
            let skipped = spec_skip_to_end(tokens, after, tag.name, 0);
            lemma_skip_to_end_moves(tokens, after, tag.name, 0);
            if skipped.result is Ok {
                lemma_metadata_end_moves(tokens, skipped.cursor, found);
            }
        },
        EventView::Empty(tag) => {
            if tag.name == "ProjectionBackgroundColor"@ {
                if text_attr(tag, "ColorData"@) is Ok {
                    lemma_metadata_end_moves(
                        tokens,
                        after,
                        KraMetadataEndView {
                            projection_background_color: Some(text_attr(tag, "ColorData"@)->Ok_0),
                            ..found
                        },
                    );
                }
            } else if tag.name == "GlobalAssistantsColor"@ {
                if text_attr(tag, "SimpleColorData"@) is Ok {
                    lemma_metadata_end_moves(
                        tokens,
                        after,
                        KraMetadataEndView {
                            global_assistants_color: Some(text_attr(tag, "SimpleColorData"@)->Ok_0),
                            ..found
                        },
                    );
                }
            } else {
                lemma_metadata_end_moves(tokens, after, found);
            }
        },
        _ => {},
    }
}

/// Where the layers of a list begin: the cursor before each layer, in
/// the order of the document.
pub open spec fn layer_starts(tokens: Seq<TokenView>, c: CursorView) -> Seq<CursorView>
    decreases tokens.len() - c.pos,
{
    if peek_step(tokens, c) == EventView::End("layers"@) {
        Seq::empty()
    } else {
        let first = spec_parse_layer(tokens, c);
        if first.result is Ok && c.pos < first.cursor.pos <= tokens.len() {
            seq![c] + layer_starts(tokens, first.cursor)
        } else {
            seq![c]
        }
    }
}

/// The layers of a list are the layers that begin at the start tags and
/// self-closing tags of the list, one for each, in the order of the
/// document: each layer begins where the one before it ended, and the
/// list ends at the end tag `layers`.
pub proof fn lemma_layers_in_document_order(tokens: Seq<TokenView>, c: CursorView)
    requires
        c.pos <= tokens.len(),
        spec_layer_list(tokens, c).result is Ok,
    ensures
        ({
            let layers = spec_layer_list(tokens, c).result->Ok_0;
            let end = spec_layer_list(tokens, c).cursor;
            let starts = layer_starts(tokens, c);
            &&& starts.len() == layers.len()
            &&& 0 < end.pos <= tokens.len()
            &&& tokens[end.pos - 1].event == EventView::End("layers"@)
            &&& forall|i: int|
                0 <= i < layers.len() ==> spec_parse_layer(tokens, #[trigger] starts[i]).result
                    == Ok::<NodeView, ReasonView>(layers[i])
            &&& forall|i: int|
                0 <= i < layers.len() ==> (#[trigger] starts[i]).pos < end.pos && (
                tokens[starts[i].pos as int].event is Start
                    || tokens[starts[i].pos as int].event is Empty)
            &&& layers.len() > 0 ==> starts[0] == c
            &&& forall|i: int|
                0 < i < layers.len() ==> #[trigger] starts[i] == spec_parse_layer(
                    tokens,
                    starts[i - 1],
                ).cursor
            &&& forall|i: int, j: int|
                0 <= i < j < layers.len() ==> (#[trigger] starts[i]).pos < (#[trigger] starts[j]).pos
        }),
    decreases tokens.len() - c.pos,
{
    lemma_read_step_moves(tokens, c);
    if peek_step(tokens, c) != EventView::End("layers"@) {
        let first = spec_parse_layer(tokens, c);
        lemma_parse_layer_moves(tokens, c);
        lemma_layers_in_document_order(tokens, first.cursor);
        lemma_layer_list_moves(tokens, first.cursor);
        let layers = spec_layer_list(tokens, c).result->Ok_0;
        let more = spec_layer_list(tokens, first.cursor).result->Ok_0;
        let starts = layer_starts(tokens, c);
        let later = layer_starts(tokens, first.cursor);
        let end = spec_layer_list(tokens, c).cursor;
        assert(layers =~= seq![first.result->Ok_0] + more);
        assert(starts =~= seq![c] + later);
        assert forall|i: int| 0 <= i < layers.len() implies spec_parse_layer(
            tokens,
            #[trigger] starts[i],
        ).result == Ok::<NodeView, ReasonView>(layers[i]) by {
            if i > 0 {
                assert(starts[i] == later[i - 1]);
                assert(layers[i] == more[i - 1]);
            }
        }
        assert forall|i: int| 0 <= i < layers.len() implies (#[trigger] starts[i]).pos < end.pos
            && (tokens[starts[i].pos as int].event is Start
            || tokens[starts[i].pos as int].event is Empty) by {
            if i > 0 {
                assert(starts[i] == later[i - 1]);
            }
        }
        assert forall|i: int| 0 < i < layers.len() implies #[trigger] starts[i]
            == spec_parse_layer(tokens, starts[i - 1]).cursor by {
            assert(starts[i] == later[i - 1]);
            if i > 1 {
                assert(starts[i - 1] == later[i - 2]);
            }
        }
        assert forall|i: int, j: int| 0 <= i < j < layers.len() implies (#[trigger] starts[i]).pos
            < (#[trigger] starts[j]).pos by {
            assert(starts[j] == later[j - 1]);
            if i > 0 {
                assert(starts[i] == later[i - 1]);
            } else {
                assert(later[j - 1].pos >= first.cursor.pos) by {
                    if j - 1 > 0 {
                        assert(later[0].pos < later[j - 1].pos);
                    }
                }
            }
        }
    }
}

/// What a node owns goes by its kind: masks where the kind may own
/// masks, layers where it may own layers, and a mask owns neither.
pub proof fn lemma_kinds_own(node: NodeView)
    ensures
        node.masks() is Some <==> NodeKind::of(node).spec_may_own_masks(),
        node.layers() is Some <==> NodeKind::of(node).spec_may_own_layers(),
        node.is_mask() <==> NodeKind::of(node).spec_is_mask(),
        node.is_mask() ==> node.masks() is None && node.layers() is None,
{
}

/// A node that was read is of the kind that its `nodetype` names.
pub proof fn lemma_parsed_node_kind(
    tokens: Seq<TokenView>,
    after: CursorView,
    tag: TagView,
    open: bool,
)
    requires
        spec_node(tokens, after, tag, open).result is Ok,
    ensures
        text_attr(tag, "nodetype"@) is Ok,
        node_kind_named(text_attr(tag, "nodetype"@)->Ok_0) == Some(
            NodeKind::of(spec_node(tokens, after, tag, open).result->Ok_0),
        ),
{
}

/// The masks that a parsed node owns are masks, so that they own no masks
/// themselves; and a node that owns masks is a layer.
pub proof fn lemma_parsed_masks_are_masks(
    tokens: Seq<TokenView>,
    after: CursorView,
    tag: TagView,
    open: bool,
)
    requires
        after.pos <= tokens.len(),
        spec_node(tokens, after, tag, open).result is Ok,
    ensures
        ({
            let node = spec_node(tokens, after, tag, open).result->Ok_0;
            &&& node.masks() is Some ==> node.is_layer() && forall|i: int|
                0 <= i < node.masks()->Some_0.len() ==> (#[trigger] node.masks()->Some_0[i]).is_mask()
                    && node.masks()->Some_0[i].masks() is None
            &&& node.is_mask() ==> !open
            &&& !open ==> node.masks() is Some ==> node.masks()->Some_0.len() == 0
        }),
{
    let node = spec_node(tokens, after, tag, open).result->Ok_0;
    let common = common_node_props(tag)->Ok_0;
    let kind = node_kind_named(text_attr(tag, "nodetype"@)->Ok_0)->Some_0;
    if kind != NodeKind::GroupLayer && open {
        let open_tag = expect_start(tokens, after);
        lemma_read_step_moves(tokens, after);
        lemma_masks_in_document_order(tokens, open_tag.cursor);
        let masks = spec_mask_list(tokens, open_tag.cursor).result->Ok_0;
        assert(spec_parse_masks(tokens, after).result->Ok_0 == masks);
        assert forall|i: int| 0 <= i < masks.len() implies (#[trigger] masks[i]).is_mask() by {
            assert(tokens[open_tag.cursor.pos + i].event is Empty);
        }
    }
}

/// A group layer that holds an empty list of layers is read as a group
/// layer without layers, and its end tag is read with it.
pub proof fn lemma_empty_group_layer(tokens: Seq<TokenView>, c: CursorView, tag: TagView)
    requires
        c.pos + 3 < tokens.len(),
        tokens[c.pos as int].event == EventView::Start(tag),
        tokens[c.pos as int + 1].event is Start,
        tokens[c.pos as int + 2].event == EventView::End("layers"@),
        tokens[c.pos as int + 3].event is End,
        common_node_props(tag) is Ok,
        text_attr(tag, "nodetype"@) is Ok,
        node_kind_named(text_attr(tag, "nodetype"@)->Ok_0) == Some(NodeKind::GroupLayer),
        get_attr(tag, "compositeop"@) is Ok,
        get_attr(tag, "collapsed"@) is Ok,
        get_attr(tag, "passthrough"@) is Ok,
        get_attr(tag, "opacity"@) is Ok,
        composite_op_value(get_attr(tag, "compositeop"@)->Ok_0) is Ok,
        bool_value(get_attr(tag, "collapsed"@)->Ok_0) is Ok,
        bool_value(get_attr(tag, "passthrough"@)->Ok_0) is Ok,
        u8_value(get_attr(tag, "opacity"@)->Ok_0) is Ok,
    ensures
        spec_parse_layer(tokens, c).result is Ok,
        spec_parse_layer(tokens, c).result->Ok_0 is GroupLayer,
        spec_parse_layer(tokens, c).result->Ok_0.layers() == Some(Seq::<NodeView>::empty()),
        spec_parse_layer(tokens, c).result->Ok_0.masks() is None,
        spec_parse_layer(tokens, c).cursor.pos == c.pos + 4,
{
    let after = read_step(tokens, c).1;
    let inside = read_step(tokens, after).1;
    let closed = read_step(tokens, inside).1;
    assert(after.pos == c.pos + 1);
    assert(inside.pos == c.pos + 2);
    assert(closed.pos == c.pos + 3);
    assert(peek_step(tokens, inside) == EventView::End("layers"@));
    assert(spec_layer_list(tokens, inside).result == Ok::<Seq<NodeView>, ReasonView>(
        Seq::empty(),
    ));
    assert(spec_get_layers(tokens, after, true).result == Ok::<Seq<NodeView>, ReasonView>(
        Seq::empty(),
    ));
}

/// A layer that is written as a self-closing tag owns an empty list of
/// masks; a mask that is written so owns none.
pub proof fn lemma_self_closing_node(tokens: Seq<TokenView>, after: CursorView, tag: TagView)
    requires
        spec_node(tokens, after, tag, false).result is Ok,
        node_kind_named(text_attr(tag, "nodetype"@)->Ok_0) != Some(NodeKind::GroupLayer),
    ensures
        ({
            let node = spec_node(tokens, after, tag, false).result->Ok_0;
            &&& spec_node(tokens, after, tag, false).cursor == after
            &&& node.is_paintable_layer() ==> node.masks() == Some(Seq::<NodeView>::empty())
            &&& node.is_mask() ==> node.masks() is None
            &&& node.is_paintable_layer() || node.is_mask()
        }),
{
}

/// A `nodetype` that names no kind is refused: at a layer position as an
/// unknown layer type, inside a mask list as not being a mask. Both
/// errors hold the name.
pub proof fn lemma_unknown_type_rejected(
    tokens: Seq<TokenView>,
    after: CursorView,
    tag: TagView,
    open: bool,
    name: Seq<char>,
)
    requires
        common_node_props(tag) is Ok,
        text_attr(tag, "nodetype"@) == Ok::<Seq<char>, XmlErrorView>(name),
        node_kind_named(name) is None,
    ensures
        spec_node(tokens, after, tag, open) == failed::<NodeView>(
            ReasonView::UnknownLayerType(name),
            after,
        ),
        spec_mask(tag) == Err::<NodeView, ReasonView>(ReasonView::MaskExpected(name)),
{
}

/// Inside a mask list the name of a kind of layer is refused as not
/// being a mask, never as an unknown layer type.
pub proof fn lemma_layer_in_mask_list_rejected(tag: TagView, name: Seq<char>)
    requires
        common_node_props(tag) is Ok,
        text_attr(tag, "nodetype"@) == Ok::<Seq<char>, XmlErrorView>(name),
        node_kind_named(name) is Some,
        !node_kind_named(name)->Some_0.spec_is_mask(),
    ensures
        spec_mask(tag) == Err::<NodeView, ReasonView>(ReasonView::MaskExpected(name)),
{
}

/// A truth value that must be written as `1` or `0` is refused where it is
/// written as a word, and one that must be written as a word is refused
/// where it is written as `1` or `0`. The error holds the value.
pub proof fn lemma_boolean_encodings(raw: Seq<char>, text: Seq<char>)
    requires
        unescaped(raw) == Ok::<Seq<char>, Seq<char>>(text),
    ensures
        text == "true"@ || text == "false"@ ==> bool_value(raw) == Err::<bool, XmlErrorView>(
            XmlErrorView::ValueError(text),
        ),
        text == "1"@ || text == "0"@ ==> word_bool_value(raw) == Err::<bool, XmlErrorView>(
            XmlErrorView::ValueError(text),
        ),
        text == "1"@ ==> bool_value(raw) == Ok::<bool, XmlErrorView>(true),
        text == "0"@ ==> bool_value(raw) == Ok::<bool, XmlErrorView>(false),
        text == "true"@ ==> word_bool_value(raw) == Ok::<bool, XmlErrorView>(true),
        text == "false"@ ==> word_bool_value(raw) == Ok::<bool, XmlErrorView>(false),
{
    reveal_strlit("true");
    reveal_strlit("false");
    reveal_strlit("1");
    reveal_strlit("0");
    assert("true"@.len() == 4 && "false"@.len() == 5 && "1"@.len() == 1 && "0"@.len() == 1);
    assert("1"@[0] == '1' && "0"@[0] == '0');
}

/// A document whose type is not the expected one is refused, with an
/// error that holds the expected type and the type that was found.
pub proof fn lemma_wrong_doctype_rejected(
    tokens: Seq<TokenView>,
    c: CursorView,
    doctype: Seq<char>,
    xmlns: Seq<char>,
    found: Seq<char>,
)
    requires
        !(read_step(tokens, c).0 is Malformed),
        read_step(tokens, read_step(tokens, c).1).0 is DocType,
        unescaped(read_step(tokens, read_step(tokens, c).1).0->DocType_0) == Ok::<
            Seq<char>,
            Seq<char>,
        >(found),
        found != doctype,
    ensures
        spec_document_head(tokens, c, doctype, xmlns).result == Err::<TagView, ReasonView>(
            ReasonView::Xml(XmlErrorView::AssertionFailed(doctype, found)),
        ),
{
}

/// Every error of an entry names the entry in which it was found, and the
/// byte offset at which the parser stood: the main document is
/// `maindoc.xml`, whether the error lies in the image properties, in the
/// layers or in the settings after them.
pub proof fn lemma_errors_name_their_entry(tokens: Seq<TokenView>, data: Seq<u8>)
    ensures
        spec_main_document(tokens, data) is Err ==> spec_main_document(tokens, data)->Err_0.file
            == "maindoc.xml"@,
        spec_document_info_file(tokens, data) is Err ==> spec_document_info_file(
            tokens,
            data,
        )->Err_0.file == "documentinfo.xml"@,
{
}

/// Where the entry `mimetype` does not hold the expected bytes, reading
/// the document fails for that reason, whatever the XML entries hold.
pub proof fn lemma_mimetype_gates(
    mimetype: Seq<u8>,
    info_tokens: Seq<TokenView>,
    info_data: Seq<u8>,
    main_tokens: Seq<TokenView>,
    main_data: Seq<u8>,
)
    requires
        mimetype != ARCHIVE_MIMETYPE.spec_bytes(),
    ensures
        spec_kra_file(mimetype, info_tokens, info_data, main_tokens, main_data) == Err::<
            KraFileView,
            Option<MetadataErrorView>,
        >(None),
{
}

} // verus!
