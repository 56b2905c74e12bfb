//! The tree parser: it reads the layers and masks of a document from its
//! events, in one pass, descending into group layers and mask lists.

use vstd::prelude::*;
use vstd::string::*;
use crate::attr::{
    bool_value, event_get_attr, get_attr, get_text, parse_bool, parse_u8, text_attr, u8_value,
};
use crate::cursor::{
    CursorView, Event, EventCursor, event_to_string, event_unwrap_as_end, event_unwrap_as_start,
    peek_step, read_step, step_result, unwrap_as_end, unwrap_as_start,
};
use crate::error::{
    MaskExpected, MetadataErrorReason, ReasonView, UnknownLayerType, XmlError, XmlErrorView, lift,
    lifted, reason_result,
};
use crate::layer::{
    CloneLayerProps, ColorizeMaskProps, CommonNodeProps, CommonNodePropsView, FileLayerProps,
    FillLayerProps, FilterLayerProps, FilterMaskProps, PaintLayerProps, SelectionMaskProps,
    TransformMaskProps, TransparencyMaskProps, VectorLayerProps, clone_layer_props,
    colorize_mask_props, common_node_props, composite_op_value, file_layer_props,
    fill_layer_props, filter_layer_props, filter_mask_props, paint_layer_props,
    parse_composite_op, selection_mask_props, vector_layer_props,
};
use crate::node::{GroupLayerProps, GroupLayerPropsView, Node, NodeView, nodes_view};
use crate::text::str_eq;
use crate::xml::{EventView, Tag, TagView, TokenView};

verus! {

/// The twelve kinds of node.
#[derive(Debug, PartialEq, Eq, Structural, Clone, Copy, Hash)]
pub enum NodeKind {
    PaintLayer,
    GroupLayer,
    FileLayer,
    FilterLayer,
    FillLayer,
    CloneLayer,
    VectorLayer,
    TransparencyMask,
    FilterMask,
    TransformMask,
    SelectionMask,
    ColorizeMask,
}

/// The kind that a `nodetype` names.
pub open spec fn node_kind_named(name: Seq<char>) -> Option<NodeKind> {
    if name == "grouplayer"@ {
        Some(NodeKind::GroupLayer)
    } else if name == "paintlayer"@ {
        Some(NodeKind::PaintLayer)
    } else if name == "filtermask"@ {
        Some(NodeKind::FilterMask)
    } else if name == "filelayer"@ {
        Some(NodeKind::FileLayer)
    } else if name == "adjustmentlayer"@ {
        Some(NodeKind::FilterLayer)
    } else if name == "generatorlayer"@ {
        Some(NodeKind::FillLayer)
    } else if name == "clonelayer"@ {
        Some(NodeKind::CloneLayer)
    } else if name == "transparencymask"@ {
        Some(NodeKind::TransparencyMask)
    } else if name == "transformmask"@ {
        Some(NodeKind::TransformMask)
    } else if name == "colorizemask"@ {
        Some(NodeKind::ColorizeMask)
    } else if name == "shapelayer"@ {
        Some(NodeKind::VectorLayer)
    } else if name == "selectionmask"@ {
        Some(NodeKind::SelectionMask)
    } else {
        None
    }
}

impl NodeKind {
    /// Whether the kind is one of the five kinds of mask.
    pub open spec fn spec_is_mask(self) -> bool {
        self == NodeKind::TransparencyMask || self == NodeKind::FilterMask || self
            == NodeKind::TransformMask || self == NodeKind::SelectionMask || self
            == NodeKind::ColorizeMask
    }

    /// Whether the kind is one of the five kinds of mask.
    #[verifier::when_used_as_spec(spec_is_mask)]
    pub fn is_mask(self) -> (r: bool)
        ensures
            r == self.spec_is_mask(),
    {
        match self {
            NodeKind::TransparencyMask => true,
            NodeKind::FilterMask => true,
            NodeKind::TransformMask => true,
            NodeKind::SelectionMask => true,
            NodeKind::ColorizeMask => true,
            _ => false,
        }
    }

    /// Whether a node of the kind may own masks: the layers that can be
    /// painted on do, which are all the layers but the group layer.
    pub open spec fn spec_may_own_masks(self) -> bool {
        !self.spec_is_mask() && self != NodeKind::GroupLayer
    }

    /// Whether a node of the kind may own masks.
    #[verifier::when_used_as_spec(spec_may_own_masks)]
    pub fn may_own_masks(self) -> (r: bool)
        ensures
            r == self.spec_may_own_masks(),
    {
        match self {
            NodeKind::GroupLayer => false,
            _ => !self.is_mask(),
        }
    }

    /// Whether a node of the kind may own layers: only the group layer
    /// does.
    pub open spec fn spec_may_own_layers(self) -> bool {
        self == NodeKind::GroupLayer
    }

    /// Whether a node of the kind may own layers.
    #[verifier::when_used_as_spec(spec_may_own_layers)]
    pub fn may_own_layers(self) -> (r: bool)
        ensures
            r == self.spec_may_own_layers(),
    {
        match self {
            NodeKind::GroupLayer => true,
            _ => false,
        }
    }

    /// The kind of a node.
    pub open spec fn of(node: NodeView) -> NodeKind {
        match node {
            NodeView::PaintLayer { .. } => NodeKind::PaintLayer,
            NodeView::GroupLayer { .. } => NodeKind::GroupLayer,
            NodeView::FileLayer { .. } => NodeKind::FileLayer,
            NodeView::FilterLayer { .. } => NodeKind::FilterLayer,
            NodeView::FillLayer { .. } => NodeKind::FillLayer,
            NodeView::CloneLayer { .. } => NodeKind::CloneLayer,
            NodeView::VectorLayer { .. } => NodeKind::VectorLayer,
            NodeView::TransparencyMask { .. } => NodeKind::TransparencyMask,
            NodeView::FilterMask { .. } => NodeKind::FilterMask,
            NodeView::TransformMask { .. } => NodeKind::TransformMask,
            NodeView::SelectionMask { .. } => NodeKind::SelectionMask,
            NodeView::ColorizeMask { .. } => NodeKind::ColorizeMask,
        }
    }

    /// The kind of a node.
    pub fn of_node(node: &Node) -> (kind: NodeKind)
        ensures
            kind == NodeKind::of(node@),
    {
        match node {
            Node::PaintLayer { .. } => NodeKind::PaintLayer,
            Node::GroupLayer { .. } => NodeKind::GroupLayer,
            Node::FileLayer { .. } => NodeKind::FileLayer,
            Node::FilterLayer { .. } => NodeKind::FilterLayer,
            Node::FillLayer { .. } => NodeKind::FillLayer,
            Node::CloneLayer { .. } => NodeKind::CloneLayer,
            Node::VectorLayer { .. } => NodeKind::VectorLayer,
            Node::TransparencyMask { .. } => NodeKind::TransparencyMask,
            Node::FilterMask { .. } => NodeKind::FilterMask,
            Node::TransformMask { .. } => NodeKind::TransformMask,
            Node::SelectionMask { .. } => NodeKind::SelectionMask,
            Node::ColorizeMask { .. } => NodeKind::ColorizeMask,
        }
    }

    /// The kind that a `nodetype` names, if it names one.
    pub fn from_name(name: &str) -> (r: Option<NodeKind>)
        ensures
            r == node_kind_named(name@),
    {
        if str_eq(name, "grouplayer") {
            Some(NodeKind::GroupLayer)
        } else if str_eq(name, "paintlayer") {
            Some(NodeKind::PaintLayer)
        } else if str_eq(name, "filtermask") {
            Some(NodeKind::FilterMask)
        } else if str_eq(name, "filelayer") {
            Some(NodeKind::FileLayer)
        } else if str_eq(name, "adjustmentlayer") {
            Some(NodeKind::FilterLayer)
        } else if str_eq(name, "generatorlayer") {
            Some(NodeKind::FillLayer)
        } else if str_eq(name, "clonelayer") {
            Some(NodeKind::CloneLayer)
        } else if str_eq(name, "transparencymask") {
            Some(NodeKind::TransparencyMask)
        } else if str_eq(name, "transformmask") {
            Some(NodeKind::TransformMask)
        } else if str_eq(name, "colorizemask") {
            Some(NodeKind::ColorizeMask)
        } else if str_eq(name, "shapelayer") {
            Some(NodeKind::VectorLayer)
        } else if str_eq(name, "selectionmask") {
            Some(NodeKind::SelectionMask)
        } else {
            None
        }
    }
}

/// What a parser gives, and where it leaves the cursor.
pub ghost struct Parsed<T> {
    pub result: Result<T, ReasonView>,
    pub cursor: CursorView,
}

/// A parser ended with a value.
pub open spec fn done<T>(value: T, cursor: CursorView) -> Parsed<T> {
    Parsed { result: Ok(value), cursor }
}

/// A parser failed.
pub open spec fn failed<T>(reason: ReasonView, cursor: CursorView) -> Parsed<T> {
    Parsed { result: Err(reason), cursor }
}

/// Model of a list of nodes that a parser gives, or of its failure.
pub open spec fn nodes_result(r: Result<Vec<Node>, MetadataErrorReason>) -> Result<
    Seq<NodeView>,
    ReasonView,
> {
    match r {
        Ok(nodes) => Ok(nodes_view(nodes@)),
        Err(e) => Err(e@),
    }
}

/// Reads one event, which must be a start tag.
pub open spec fn expect_start(tokens: Seq<TokenView>, c: CursorView) -> Parsed<TagView> {
    let (event, after) = read_step(tokens, c);
    Parsed { result: lifted(start_of(event)), cursor: after }
}

/// The tag of an event that must be a start tag.
pub open spec fn start_of(event: EventView) -> Result<TagView, XmlErrorView> {
    match step_result(event) {
        Ok(event) => unwrap_as_start(event),
        Err(e) => Err(e),
    }
}

/// Reads one event, which must be an end tag.
pub open spec fn expect_end(tokens: Seq<TokenView>, c: CursorView) -> Parsed<Seq<char>> {
    let (event, after) = read_step(tokens, c);
    Parsed { result: lifted(end_of(event)), cursor: after }
}

/// The element name of an event that must be an end tag.
pub open spec fn end_of(event: EventView) -> Result<Seq<char>, XmlErrorView> {
    match step_result(event) {
        Ok(event) => unwrap_as_end(event),
        Err(e) => Err(e),
    }
}

/// The mask that a tag of the given kind describes. A mask owns nothing.
pub open spec fn decoded_mask(kind: NodeKind, common: CommonNodePropsView, tag: TagView) -> Result<
    NodeView,
    ReasonView,
>
    recommends
        kind.spec_is_mask(),
{
    match kind {
        NodeKind::FilterMask => match filter_mask_props(tag) {
            Ok(props) => Ok(NodeView::FilterMask { common, props }),
            Err(e) => Err(e),
        },
        NodeKind::SelectionMask => match selection_mask_props(tag) {
            Ok(props) => Ok(NodeView::SelectionMask { common, props }),
            Err(e) => Err(e),
        },
        NodeKind::ColorizeMask => match colorize_mask_props(tag) {
            Ok(props) => Ok(NodeView::ColorizeMask { common, props }),
            Err(e) => Err(e),
        },
        NodeKind::TransformMask => Ok(
            NodeView::TransformMask { common, props: TransformMaskProps() },
        ),
        _ => Ok(NodeView::TransparencyMask { common, props: TransparencyMaskProps() }),
    }
}

/// The layer that a tag of the given kind describes, without masks yet.
/// Group layers are not read here: they hold layers.
pub open spec fn decoded_layer(kind: NodeKind, common: CommonNodePropsView, tag: TagView) -> Result<
    NodeView,
    ReasonView,
>
    recommends
        !kind.spec_is_mask(),
        kind != NodeKind::GroupLayer,
{
    match kind {
        NodeKind::FileLayer => match file_layer_props(tag) {
            Ok(props) => Ok(NodeView::FileLayer { common, props, masks: Seq::empty() }),
            Err(e) => Err(e),
        },
        NodeKind::FilterLayer => match filter_layer_props(tag) {
            Ok(props) => Ok(NodeView::FilterLayer { common, props, masks: Seq::empty() }),
            Err(e) => Err(e),
        },
        NodeKind::FillLayer => match fill_layer_props(tag) {
            Ok(props) => Ok(NodeView::FillLayer { common, props, masks: Seq::empty() }),
            Err(e) => Err(e),
        },
        NodeKind::CloneLayer => match clone_layer_props(tag) {
            Ok(props) => Ok(NodeView::CloneLayer { common, props, masks: Seq::empty() }),
            Err(e) => Err(e),
        },
        NodeKind::VectorLayer => match vector_layer_props(tag) {
            Ok(props) => Ok(NodeView::VectorLayer { common, props, masks: Seq::empty() }),
            Err(e) => Err(e),
        },
        _ => match paint_layer_props(tag) {
            Ok(props) => Ok(NodeView::PaintLayer { common, props, masks: Seq::empty() }),
            Err(e) => Err(e),
        },
    }
}

/// The mask that a self-closing tag inside a mask list describes: the
/// common attributes are read first, then the `nodetype`, which must name
/// a kind of mask, then the attributes of that kind.
pub open spec fn spec_mask(tag: TagView) -> Result<NodeView, ReasonView> {
    match common_node_props(tag) {
        Err(e) => Err(e),
        Ok(common) => match lifted(text_attr(tag, "nodetype"@)) {
            Err(e) => Err(e),
            Ok(node_type) => match node_kind_named(node_type) {
                Some(kind) => if kind.spec_is_mask() {
                    decoded_mask(kind, common, tag)
                } else {
                    Err(ReasonView::MaskExpected(node_type))
                },
                None => Err(ReasonView::MaskExpected(node_type)),
            },
        },
    }
}

/// A list that follows one more item.
pub open spec fn after_item<T>(item: T, rest: Parsed<Seq<T>>) -> Parsed<Seq<T>> {
    match rest.result {
        Ok(items) => done(seq![item] + items, rest.cursor),
        Err(_) => rest,
    }
}

/// A list that follows the items already read.
pub open spec fn after_items<T>(items: Seq<T>, rest: Parsed<Seq<T>>) -> Parsed<Seq<T>> {
    match rest.result {
        Ok(more) => done(items + more, rest.cursor),
        Err(_) => rest,
    }
}

/// The masks from the cursor up to the end tag `masks`, which is read too.
/// Every mask is a self-closing tag.
pub open spec fn spec_mask_list(tokens: Seq<TokenView>, c: CursorView) -> Parsed<Seq<NodeView>>
    decreases tokens.len() - c.pos,
{
    let (event, after) = read_step(tokens, c);
    match event {
        EventView::Malformed(message) => failed(
            ReasonView::Xml(XmlErrorView::ParsingError(message)),
            after,
        ),
        EventView::End(name) => if name == "masks"@ {
            done(Seq::empty(), after)
        } else {
            failed(ReasonView::Xml(XmlErrorView::EventError("masks end event"@, name)), after)
        },
        EventView::Empty(tag) => match spec_mask(tag) {
            Err(e) => failed(e, after),
            Ok(mask) => after_item(mask, spec_mask_list(tokens, after)),
        },
        other => failed(
            ReasonView::Xml(XmlErrorView::EventError("empty or end event"@, other.content())),
            after,
        ),
    }
}

/// The mask list of a layer: the start tag of the list, the masks, the end
/// tag of the list, and then the end tag of the layer that owns them.
pub open spec fn spec_parse_masks(tokens: Seq<TokenView>, c: CursorView) -> Parsed<Seq<NodeView>> {
    let open = expect_start(tokens, c);
    match open.result {
        Err(e) => failed(e, open.cursor),
        Ok(_) => {
            let list = spec_mask_list(tokens, open.cursor);
            match list.result {
                Err(_) => list,
                Ok(masks) => {
                    let close = expect_end(tokens, list.cursor);
                    match close.result {
                        Err(e) => failed(e, close.cursor),
                        Ok(_) => done(masks, close.cursor),
                    }
                },
            }
        },
    }
}

/// One node at a layer position. The event must be a start tag or a
/// self-closing tag. The common attributes are read first, then the
/// `nodetype`, then the attributes of that kind. A group layer reads its
/// list of layers, and no masks. Any other node that was opened by a start
/// tag reads its mask list, which closes the node; only a layer may own
/// the masks.
pub open spec fn spec_parse_layer(tokens: Seq<TokenView>, c: CursorView) -> Parsed<NodeView>
    decreases tokens.len() - c.pos, 1nat,
{
    let (event, after) = read_step(tokens, c);
    match event {
        EventView::Malformed(message) => failed(
            ReasonView::Xml(XmlErrorView::ParsingError(message)),
            after,
        ),
        EventView::Start(tag) => spec_node(tokens, after, tag, true),
        EventView::Empty(tag) => spec_node(tokens, after, tag, false),
        other => failed(
            ReasonView::Xml(
                XmlErrorView::EventError("layer/mask start event"@, other.content()),
            ),
            after,
        ),
    }
}

/// The node that a tag describes, with the cursor behind the tag. `open`
/// says that the tag is a start tag, not a self-closing one.
pub open spec fn spec_node(tokens: Seq<TokenView>, after: CursorView, tag: TagView, open: bool) -> Parsed<
    NodeView,
>
    decreases tokens.len() - after.pos, 5nat,
{
    match common_node_props(tag) {
        Err(e) => failed(e, after),
        Ok(common) => match lifted(text_attr(tag, "nodetype"@)) {
            Err(e) => failed(e, after),
            Ok(node_type) => match node_kind_named(node_type) {
                None => failed(ReasonView::UnknownLayerType(node_type), after),
                Some(kind) => if kind == NodeKind::GroupLayer {
                    spec_group_layer(tokens, after, common, tag)
                } else {
                    let decoded = if kind.spec_is_mask() {
                        decoded_mask(kind, common, tag)
                    } else {
                        decoded_layer(kind, common, tag)
                    };
                    match decoded {
                        Err(e) => failed(e, after),
                        Ok(node) => if open {
                            let list = spec_parse_masks(tokens, after);
                            match list.result {
                                Err(e) => failed(e, list.cursor),
                                Ok(masks) => if kind.spec_is_mask() {
                                    failed(ReasonView::MaskExpected(node_type), list.cursor)
                                } else {
                                    done(node.with_masks(masks), list.cursor)
                                },
                            }
                        } else {
                            done(node, after)
                        },
                    }
                },
            },
        },
    }
}

/// A group layer: its four attributes are looked up, then its list of
/// layers is read, then the values of the attributes are read.
pub open spec fn spec_group_layer(
    tokens: Seq<TokenView>,
    c: CursorView,
    common: CommonNodePropsView,
    tag: TagView,
) -> Parsed<NodeView>
    decreases tokens.len() - c.pos, 4nat,
{
    let composite_op_attr = lifted(get_attr(tag, "compositeop"@));
    let collapsed_attr = lifted(get_attr(tag, "collapsed"@));
    let passthrough_attr = lifted(get_attr(tag, "passthrough"@));
    let opacity_attr = lifted(get_attr(tag, "opacity"@));
    if composite_op_attr is Err {
        failed(composite_op_attr->Err_0, c)
    } else if collapsed_attr is Err {
        failed(collapsed_attr->Err_0, c)
    } else if passthrough_attr is Err {
        failed(passthrough_attr->Err_0, c)
    } else if opacity_attr is Err {
        failed(opacity_attr->Err_0, c)
    } else {
        let inner = spec_get_layers(tokens, c, true);
        let composite_op = composite_op_value(composite_op_attr->Ok_0);
        let collapsed = lifted(bool_value(collapsed_attr->Ok_0));
        let passthrough = lifted(bool_value(passthrough_attr->Ok_0));
        let opacity = lifted(u8_value(opacity_attr->Ok_0));
        if inner.result is Err {
            failed(inner.result->Err_0, inner.cursor)
        } else if composite_op is Err {
            failed(composite_op->Err_0, inner.cursor)
        } else if collapsed is Err {
            failed(collapsed->Err_0, inner.cursor)
        } else if passthrough is Err {
            failed(passthrough->Err_0, inner.cursor)
        } else if opacity is Err {
            failed(opacity->Err_0, inner.cursor)
        } else {
            done(
                NodeView::GroupLayer {
                    common,
                    props: GroupLayerPropsView {
                        composite_op: composite_op->Ok_0,
                        collapsed: collapsed->Ok_0,
                        passthrough: passthrough->Ok_0,
                        opacity: opacity->Ok_0,
                        layers: inner.result->Ok_0,
                    },
                },
                inner.cursor,
            )
        }
    }
}

/// A list of layers: a start tag, the layers up to the end tag `layers`,
/// and, inside a group layer, the end tag of the group.
pub open spec fn spec_get_layers(tokens: Seq<TokenView>, c: CursorView, is_group_layer: bool) -> Parsed<
    Seq<NodeView>,
>
    decreases tokens.len() - c.pos, 3nat,
{
    let open = expect_start(tokens, c);
    match open.result {
        Err(e) => failed(e, open.cursor),
        Ok(_) => {
            let list = spec_layer_list(tokens, open.cursor);
            match list.result {
                Err(_) => list,
                Ok(layers) => if is_group_layer {
                    let close = expect_end(tokens, list.cursor);
                    match close.result {
                        Err(e) => failed(e, close.cursor),
                        Ok(_) => done(layers, close.cursor),
                    }
                } else {
                    list
                },
            }
        },
    }
}

/// The layers from the cursor up to the end tag `layers`, which is read
/// too.
pub open spec fn spec_layer_list(tokens: Seq<TokenView>, c: CursorView) -> Parsed<Seq<NodeView>>
    decreases tokens.len() - c.pos, 2nat,
{
    if peek_step(tokens, c) == EventView::End("layers"@) {
        done(Seq::empty(), read_step(tokens, c).1)
    } else {
        let first = spec_parse_layer(tokens, c);
        match first.result {
            Err(e) => failed(e, first.cursor),
            Ok(layer) => if c.pos < first.cursor.pos <= tokens.len() {
                after_item(layer, spec_layer_list(tokens, first.cursor))
            } else {
                done(seq![layer], first.cursor)
            },
        }
    }
}

proof fn lemma_nodes_view_push(nodes: Seq<Node>, node: Node)
    ensures
        nodes_view(nodes.push(node)) == nodes_view(nodes).push(node@),
{
    assert(nodes_view(nodes.push(node)) =~= nodes_view(nodes).push(node@));
}

/// A list that follows one item more is the same list, with the item
/// counted among those already read.
pub proof fn lemma_after_items_push<T>(items: Seq<T>, item: T, rest: Parsed<Seq<T>>)
    ensures
        after_items(items, after_item(item, rest)) == after_items(items.push(item), rest),
{
    if rest.result is Ok {
        assert(items + (seq![item] + rest.result->Ok_0) =~= items.push(item) + rest.result->Ok_0);
    }
}

/// A list that follows no item is the list itself.
pub proof fn lemma_after_no_items<T>(rest: Parsed<Seq<T>>)
    ensures
        after_items(Seq::<T>::empty(), rest) == rest,
{
    if rest.result is Ok {
        assert(Seq::<T>::empty() + rest.result->Ok_0 =~= rest.result->Ok_0);
    }
}

/// Where nothing follows, the list is the items already read.
pub proof fn lemma_after_items_end<T>(items: Seq<T>, cursor: CursorView)
    ensures
        after_items(items, done(Seq::<T>::empty(), cursor)) == done(items, cursor),
{
    assert(items + Seq::<T>::empty() =~= items);
}

/// Reads the attributes of a mask of the given kind.
fn decode_mask(kind: NodeKind, common: CommonNodeProps, tag: &Tag) -> (r: Result<
    Node,
    MetadataErrorReason,
>)
    requires
        kind.spec_is_mask(),
    ensures
        reason_result(r) == decoded_mask(kind, common@, tag@),
{
    match kind {
        NodeKind::FilterMask => {
            let props = FilterMaskProps::parse_tag(tag)?;
            Ok(Node::FilterMask { common, props })
        },
        NodeKind::SelectionMask => {
            let props = SelectionMaskProps::parse_tag(tag)?;
            Ok(Node::SelectionMask { common, props })
        },
        NodeKind::ColorizeMask => {
            let props = ColorizeMaskProps::parse_tag(tag)?;
            Ok(Node::ColorizeMask { common, props })
        },
        NodeKind::TransformMask => Ok(
            Node::TransformMask { common, props: TransformMaskProps::new() },
        ),
        _ => Ok(Node::TransparencyMask { common, props: TransparencyMaskProps::new() }),
    }
}

/// Reads the attributes of a layer of the given kind, which is not a
/// group layer. The layer has no masks yet.
fn decode_layer(kind: NodeKind, common: CommonNodeProps, tag: &Tag) -> (r: Result<
    Node,
    MetadataErrorReason,
>)
    requires
        !kind.spec_is_mask(),
        kind != NodeKind::GroupLayer,
    ensures
        reason_result(r) == decoded_layer(kind, common@, tag@),
        r is Ok ==> r->Ok_0@.is_paintable_layer(),
{
    let node = match kind {
        NodeKind::FileLayer => {
            let props = FileLayerProps::parse_tag(tag)?;
            Node::FileLayer { common, props, masks: Vec::new() }
        },
        NodeKind::FilterLayer => {
            let props = FilterLayerProps::parse_tag(tag)?;
            Node::FilterLayer { common, props, masks: Vec::new() }
        },
        NodeKind::FillLayer => {
            let props = FillLayerProps::parse_tag(tag)?;
            Node::FillLayer { common, props, masks: Vec::new() }
        },
        NodeKind::CloneLayer => {
            let props = CloneLayerProps::parse_tag(tag)?;
            Node::CloneLayer { common, props, masks: Vec::new() }
        },
        NodeKind::VectorLayer => {
            let props = VectorLayerProps::parse_tag(tag)?;
            Node::VectorLayer { common, props, masks: Vec::new() }
        },
        _ => {
            let props = PaintLayerProps::parse_tag(tag)?;
            Node::PaintLayer { common, props, masks: Vec::new() }
        },
    };
    assert(node@.masks().unwrap() =~= Seq::empty());
    Ok(node)
}

/// Reads a mask from a self-closing tag inside a mask list.
pub fn parse_mask(tag: &Tag) -> (r: Result<Node, MetadataErrorReason>)
    ensures
        reason_result(r) == spec_mask(tag@),
        r is Ok ==> r->Ok_0@.is_mask(),
{
    let common = CommonNodeProps::parse_tag(tag)?;
    let node_type = lift(get_text(tag, "nodetype"))?;
    match NodeKind::from_name(node_type.as_str()) {
        Some(kind) => {
            if kind.is_mask() {
                decode_mask(kind, common, tag)
            } else {
                Err(MetadataErrorReason::MaskExpected(MaskExpected(node_type)))
            }
        },
        None => Err(MetadataErrorReason::MaskExpected(MaskExpected(node_type))),
    }
}

/// Reads the mask list of a layer, from before the start tag of the list
/// to behind the end tag of the layer. The masks keep the order of the
/// document.
pub fn parse_masks(cursor: &mut EventCursor) -> (r: Result<Vec<Node>, MetadataErrorReason>)
    ensures
        final(cursor).tokens() == old(cursor).tokens(),
        final(cursor).state().pos >= old(cursor).state().pos,
        (Parsed { result: nodes_result(r), cursor: final(cursor).state() }) == spec_parse_masks(
            old(cursor).tokens(),
            old(cursor).state(),
        ),
{
    let ghost tokens = cursor.tokens();
    let ghost start = cursor.state();
    let event = lift(cursor.next_event())?;
    lift(event_unwrap_as_start(event))?;
    let ghost first = cursor.state();
    let mut masks: Vec<Node> = Vec::new();
    proof {
        lemma_after_no_items(spec_mask_list(tokens, first));
        assert(nodes_view(masks@) =~= Seq::empty());
    }
    loop
        invariant_except_break
            spec_mask_list(tokens, first) == after_items(
                nodes_view(masks@),
                spec_mask_list(tokens, cursor.state()),
            ),
        invariant
            cursor.tokens() == tokens,
            tokens == old(cursor).tokens(),
            start == old(cursor).state(),
            expect_start(tokens, start).result is Ok,
            expect_start(tokens, start).cursor == first,
            cursor.state().pos >= start.pos,
        ensures
            spec_mask_list(tokens, first) == done(nodes_view(masks@), cursor.state()),
        decreases cursor.remaining(),
    {
        let ghost before = cursor.state();
        let ghost seen = nodes_view(masks@);
        proof {
            use_type_invariant(&*cursor);
            cursor.lemma_remaining();
        }
        match cursor.next_event() {
            Err(e) => {
                return Err(MetadataErrorReason::XmlError(e));
            },
            Ok(Event::End(name)) => {
                if str_eq(name, "masks") {
                    proof {
                        lemma_after_items_end(seen, cursor.state());
                    }
                    break;
                } else {
                    return Err(
                        MetadataErrorReason::XmlError(
                            XmlError::EventError("masks end event", name.to_owned()),
                        ),
                    );
                }
            },
            Ok(Event::Empty(tag)) => {
                match parse_mask(tag) {
                    Err(e) => {
                        return Err(e);
                    },
                    Ok(mask) => {
                        proof {
                            lemma_nodes_view_push(masks@, mask);
                            lemma_after_items_push(
                                seen,
                                mask@,
                                spec_mask_list(tokens, cursor.state()),
                            );
                        }
                        masks.push(mask);
                    },
                }
            },
            Ok(other) => {
                return Err(
                    MetadataErrorReason::XmlError(
                        XmlError::EventError("empty or end event", event_to_string(&other)),
                    ),
                );
            },
        }
    }
    let event = lift(cursor.next_event())?;
    lift(event_unwrap_as_end(event))?;
    Ok(masks)
}

/// Reads one node at a layer position, with the masks or layers that it
/// owns.
pub fn parse_layer(cursor: &mut EventCursor) -> (r: Result<Node, MetadataErrorReason>)
    ensures
        final(cursor).tokens() == old(cursor).tokens(),
        final(cursor).state().pos >= old(cursor).state().pos,
        r is Ok ==> final(cursor).state().pos > old(cursor).state().pos,
        (Parsed { result: reason_result(r), cursor: final(cursor).state() }) == spec_parse_layer(
            old(cursor).tokens(),
            old(cursor).state(),
        ),
    decreases old(cursor).remaining(), 1nat,
{
    proof {
        use_type_invariant(&*cursor);
            cursor.lemma_remaining();
    }
    let event = lift(cursor.next_event())?;
    match event {
        Event::Start(tag) => parse_node(cursor, tag, true),
        Event::Empty(tag) => parse_node(cursor, tag, false),
        other => Err(
            MetadataErrorReason::XmlError(
                XmlError::EventError("layer/mask start event", event_to_string(&other)),
            ),
        ),
    }
}

/// Reads the node that a tag describes, with the cursor behind the tag.
fn parse_node(cursor: &mut EventCursor, tag: &Tag, open: bool) -> (r: Result<
    Node,
    MetadataErrorReason,
>)
    ensures
        final(cursor).tokens() == old(cursor).tokens(),
        final(cursor).state().pos >= old(cursor).state().pos,
        (Parsed { result: reason_result(r), cursor: final(cursor).state() }) == spec_node(
            old(cursor).tokens(),
            old(cursor).state(),
            tag@,
            open,
        ),
    decreases old(cursor).remaining(), 5nat,
{
    let common = CommonNodeProps::parse_tag(tag)?;
    let node_type = lift(get_text(tag, "nodetype"))?;
    let kind = match NodeKind::from_name(node_type.as_str()) {
        Some(kind) => kind,
        None => {
            return Err(MetadataErrorReason::UnknownLayerType(UnknownLayerType(node_type)));
        },
    };
    match kind {
        NodeKind::GroupLayer => {
            return parse_group_layer(cursor, common, tag);
        },
        _ => {},
    }
    let mut node = if kind.is_mask() {
        decode_mask(kind, common, tag)?
    } else {
        decode_layer(kind, common, tag)?
    };
    if open {
        let masks = parse_masks(cursor)?;
        if kind.is_mask() {
            return Err(MetadataErrorReason::MaskExpected(MaskExpected(node_type)));
        }
        let _ = node.set_masks(masks);
    }
    Ok(node)
}

/// Reads a group layer from its tag, with the layers that it holds.
fn parse_group_layer(cursor: &mut EventCursor, common: CommonNodeProps, tag: &Tag) -> (r: Result<
    Node,
    MetadataErrorReason,
>)
    ensures
        final(cursor).tokens() == old(cursor).tokens(),
        final(cursor).state().pos >= old(cursor).state().pos,
        (Parsed { result: reason_result(r), cursor: final(cursor).state() }) == spec_group_layer(
            old(cursor).tokens(),
            old(cursor).state(),
            common@,
            tag@,
        ),
    decreases old(cursor).remaining(), 4nat,
{
    let composite_op_attr = lift(event_get_attr(tag, "compositeop"))?;
    let collapsed_attr = lift(event_get_attr(tag, "collapsed"))?;
    let passthrough_attr = lift(event_get_attr(tag, "passthrough"))?;
    let opacity_attr = lift(event_get_attr(tag, "opacity"))?;
    let layers = get_layers(cursor, true)?;
    let composite_op = parse_composite_op(composite_op_attr)?;
    let collapsed = lift(parse_bool(collapsed_attr))?;
    let passthrough = lift(parse_bool(passthrough_attr))?;
    let opacity = lift(parse_u8(opacity_attr))?;
    let node = Node::GroupLayer {
        common,
        props: GroupLayerProps { composite_op, collapsed, passthrough, opacity, layers },
    };
    Ok(node)
}

/// Reads a list of layers, from before its start tag to behind its end
/// tag `layers`; inside a group layer, to behind the end tag of the
/// group. The layers keep the order of the document.
pub fn get_layers(cursor: &mut EventCursor, is_group_layer: bool) -> (r: Result<
    Vec<Node>,
    MetadataErrorReason,
>)
    ensures
        final(cursor).tokens() == old(cursor).tokens(),
        final(cursor).state().pos >= old(cursor).state().pos,
        (Parsed { result: nodes_result(r), cursor: final(cursor).state() }) == spec_get_layers(
            old(cursor).tokens(),
            old(cursor).state(),
            is_group_layer,
        ),
    decreases old(cursor).remaining(), 3nat,
{
    let ghost tokens = cursor.tokens();
    let ghost start = cursor.state();
    proof {
        use_type_invariant(&*cursor);
            cursor.lemma_remaining();
    }
    let event = lift(cursor.next_event())?;
    lift(event_unwrap_as_start(event))?;
    let ghost first = cursor.state();
    let mut layers: Vec<Node> = Vec::new();
    proof {
        lemma_after_no_items(spec_layer_list(tokens, first));
        assert(nodes_view(layers@) =~= Seq::empty());
    }
    loop
        invariant_except_break
            spec_layer_list(tokens, first) == after_items(
                nodes_view(layers@),
                spec_layer_list(tokens, cursor.state()),
            ),
        invariant
            cursor.tokens() == tokens,
            tokens == old(cursor).tokens(),
            start == old(cursor).state(),
            expect_start(tokens, start).result is Ok,
            expect_start(tokens, start).cursor == first,
            cursor.state().pos > start.pos,
        ensures
            spec_layer_list(tokens, first) == done(nodes_view(layers@), cursor.state()),
        decreases cursor.remaining(),
    {
        let ghost seen = nodes_view(layers@);
        proof {
            use_type_invariant(&*cursor);
            cursor.lemma_remaining();
        }
        if cursor.at_end_tag("layers") {
            let _ = cursor.next_event();
            proof {
                lemma_after_items_end(seen, cursor.state());
            }
            break;
        }
        match parse_layer(cursor) {
            Err(e) => {
                return Err(e);
            },
            Ok(layer) => {
                proof {
                    lemma_nodes_view_push(layers@, layer);
                    lemma_after_items_push(seen, layer@, spec_layer_list(tokens, cursor.state()));
                    use_type_invariant(&*cursor);
            cursor.lemma_remaining();
                }
                layers.push(layer);
            },
        }
    }
    if is_group_layer {
        let event = lift(cursor.next_event())?;
        lift(event_unwrap_as_end(event))?;
    }
    Ok(layers)
}

} // verus!
