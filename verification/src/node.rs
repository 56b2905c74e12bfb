//! The tree of nodes: layers and masks.

use vstd::prelude::*;
use vstd::string::*;
use crate::color::Colorspace;
use crate::composite_op::CompositeOp;
use crate::layer::{
    CloneLayerProps, CloneLayerPropsView, ColorizeMaskProps, CommonNodeProps, CommonNodePropsView,
    FileLayerProps, FileLayerPropsView, FillLayerProps, FillLayerPropsView, FilterLayerProps,
    FilterLayerPropsView, FilterMaskProps, FilterMaskPropsView, InTimeline, PaintLayerProps,
    PaintLayerPropsView, SelectionMaskProps, TransformMaskProps, TransparencyMaskProps,
    VectorLayerProps, VectorLayerPropsView,
};
use crate::uuid::Uuid;

verus! {

/// Attributes of a group layer, with the layers that it holds, in the
/// order of the document.
#[derive(Debug, PartialEq, Eq)]
pub struct GroupLayerProps {
    /// How the group is blended onto what lies under it.
    pub composite_op: CompositeOp,
    /// Whether the group is shown collapsed in the layer list.
    pub collapsed: bool,
    /// Whether the layers of the group are blended as if they were not
    /// grouped.
    pub passthrough: bool,
    /// Opacity, from 0 (transparent) to 255.
    pub opacity: u8,
    /// The layers of the group.
    pub layers: Vec<Node>,
}

/// Model of [`GroupLayerProps`].
pub ghost struct GroupLayerPropsView {
    pub composite_op: CompositeOp,
    pub collapsed: bool,
    pub passthrough: bool,
    pub opacity: u8,
    pub layers: Seq<NodeView>,
}

impl View for GroupLayerProps {
    type V = GroupLayerPropsView;

    open spec fn view(&self) -> GroupLayerPropsView {
        GroupLayerPropsView {
            composite_op: self.composite_op,
            collapsed: self.collapsed,
            passthrough: self.passthrough,
            opacity: self.opacity,
            layers: nodes_view(self.layers@),
        }
    }
}

/// Model of a list of nodes: the model of each, in the same order.
pub open spec fn nodes_view(nodes: Seq<Node>) -> Seq<NodeView>
    decreases nodes, 1nat,
{
    Seq::new(
        nodes.len(),
        |i: int|
            if 0 <= i < nodes.len() {
                node_view(nodes[i])
            } else {
                blank_node()
            },
    )
}

/// A node with nothing in it. It stands where a list of nodes is asked for
/// an item that it does not have.
pub open spec fn blank_node() -> NodeView {
    NodeView::TransformMask {
        common: CommonNodePropsView {
            name: Seq::empty(),
            uuid: Uuid { value: 0 },
            filename: Seq::empty(),
            visible: false,
            locked: false,
            colorlabel: 0,
            y: 0,
            x: 0,
            in_timeline: InTimeline::False,
        },
        props: TransformMaskProps(),
    }
}

/// A node, which is either a layer or a mask.
#[derive(Debug, PartialEq, Eq)]
#[allow(inconsistent_fields)]
pub enum Node {
    /// Paint layer.
    PaintLayer { common: CommonNodeProps, props: PaintLayerProps, masks: Vec<Node> },
    /// Group layer: a composite of other layers.
    GroupLayer { common: CommonNodeProps, props: GroupLayerProps },
    /// File layer: an image from a file outside the document.
    FileLayer { common: CommonNodeProps, props: FileLayerProps, masks: Vec<Node> },
    /// Filter layer, `adjustmentlayer` in the documents.
    FilterLayer { common: CommonNodeProps, props: FilterLayerProps, masks: Vec<Node> },
    /// Fill layer, `generatorlayer` in the documents.
    FillLayer { common: CommonNodeProps, props: FillLayerProps, masks: Vec<Node> },
    /// Layer that clones another layer.
    CloneLayer { common: CommonNodeProps, props: CloneLayerProps, masks: Vec<Node> },
    /// Vector layer, `shapelayer` in the documents.
    VectorLayer { common: CommonNodeProps, props: VectorLayerProps, masks: Vec<Node> },
    /// Transparency mask.
    TransparencyMask { common: CommonNodeProps, props: TransparencyMaskProps },
    /// Filter mask.
    FilterMask { common: CommonNodeProps, props: FilterMaskProps },
    /// Transform mask.
    TransformMask { common: CommonNodeProps, props: TransformMaskProps },
    /// Selection mask.
    SelectionMask { common: CommonNodeProps, props: SelectionMaskProps },
    /// Colorize mask.
    ColorizeMask { common: CommonNodeProps, props: ColorizeMaskProps },
}

/// Model of a [`Node`].
#[allow(inconsistent_fields)]
pub ghost enum NodeView {
    PaintLayer { common: CommonNodePropsView, props: PaintLayerPropsView, masks: Seq<NodeView> },
    GroupLayer { common: CommonNodePropsView, props: GroupLayerPropsView },
    FileLayer { common: CommonNodePropsView, props: FileLayerPropsView, masks: Seq<NodeView> },
    FilterLayer { common: CommonNodePropsView, props: FilterLayerPropsView, masks: Seq<NodeView> },
    FillLayer { common: CommonNodePropsView, props: FillLayerPropsView, masks: Seq<NodeView> },
    CloneLayer { common: CommonNodePropsView, props: CloneLayerPropsView, masks: Seq<NodeView> },
    VectorLayer { common: CommonNodePropsView, props: VectorLayerPropsView, masks: Seq<NodeView> },
    TransparencyMask { common: CommonNodePropsView, props: TransparencyMaskProps },
    FilterMask { common: CommonNodePropsView, props: FilterMaskPropsView },
    TransformMask { common: CommonNodePropsView, props: TransformMaskProps },
    SelectionMask { common: CommonNodePropsView, props: SelectionMaskProps },
    ColorizeMask { common: CommonNodePropsView, props: ColorizeMaskProps },
}

impl View for Node {
    type V = NodeView;

    open spec fn view(&self) -> NodeView {
        node_view(*self)
    }
}

/// The model of a node: the models of its attributes and of the nodes that
/// it owns.
pub open spec fn node_view(node: Node) -> NodeView
    decreases node, 0nat,
{
    match node {
        Node::PaintLayer { common, props, masks } => NodeView::PaintLayer {
            common: common@,
            props: props@,
            masks: nodes_view(masks@),
        },
        Node::GroupLayer { common, props } => NodeView::GroupLayer {
            common: common@,
            props: GroupLayerPropsView {
                composite_op: props.composite_op,
                collapsed: props.collapsed,
                passthrough: props.passthrough,
                opacity: props.opacity,
                layers: nodes_view(props.layers@),
            },
        },
        Node::FileLayer { common, props, masks } => NodeView::FileLayer {
            common: common@,
            props: props@,
            masks: nodes_view(masks@),
        },
        Node::FilterLayer { common, props, masks } => NodeView::FilterLayer {
            common: common@,
            props: props@,
            masks: nodes_view(masks@),
        },
        Node::FillLayer { common, props, masks } => NodeView::FillLayer {
            common: common@,
            props: props@,
            masks: nodes_view(masks@),
        },
        Node::CloneLayer { common, props, masks } => NodeView::CloneLayer {
            common: common@,
            props: props@,
            masks: nodes_view(masks@),
        },
        Node::VectorLayer { common, props, masks } => NodeView::VectorLayer {
            common: common@,
            props: props@,
            masks: nodes_view(masks@),
        },
        Node::TransparencyMask { common, props } => NodeView::TransparencyMask {
            common: common@,
            props: props@,
        },
        Node::FilterMask { common, props } => NodeView::FilterMask {
            common: common@,
            props: props@,
        },
        Node::TransformMask { common, props } => NodeView::TransformMask {
            common: common@,
            props: props@,
        },
        Node::SelectionMask { common, props } => NodeView::SelectionMask {
            common: common@,
            props: props@,
        },
        Node::ColorizeMask { common, props } => NodeView::ColorizeMask {
            common: common@,
            props: props@,
        },
    }
}

impl NodeView {
    /// Is the node a layer.
    pub open spec fn is_layer(self) -> bool {
        self is PaintLayer
            || self is GroupLayer
            || self is FileLayer
            || self is FilterLayer
            || self is FillLayer
            || self is CloneLayer
            || self is VectorLayer
    }

    /// Is the node a mask.
    pub open spec fn is_mask(self) -> bool {
        self is TransparencyMask
            || self is FilterMask
            || self is TransformMask
            || self is SelectionMask
            || self is ColorizeMask
    }

    /// Is the node a filter layer or a filter mask.
    pub open spec fn is_filter(self) -> bool {
        self is FilterLayer || self is FilterMask
    }

    /// Does the node have a composition operation.
    pub open spec fn has_composite_op(self) -> bool {
        self is PaintLayer
            || self is FilterLayer
            || self is FillLayer
            || self is FileLayer
            || self is CloneLayer
            || self is ColorizeMask
            || self is VectorLayer
            || self is GroupLayer
    }

    /// Can the layer be painted on. If it can, it has channel flags and masks.
    pub open spec fn is_paintable_layer(self) -> bool {
        self is PaintLayer
            || self is FileLayer
            || self is FilterLayer
            || self is FillLayer
            || self is CloneLayer
            || self is VectorLayer
    }

    /// Does the node specify a colorspace.
    pub open spec fn has_colorspace(self) -> bool {
        self is PaintLayer || self is FileLayer || self is ColorizeMask
    }

    /// The attributes that every node has.
    pub open spec fn common(self) -> CommonNodePropsView {
        match self {
            NodeView::PaintLayer { common, .. } => common,
            NodeView::GroupLayer { common, .. } => common,
            NodeView::FileLayer { common, .. } => common,
            NodeView::FilterLayer { common, .. } => common,
            NodeView::FillLayer { common, .. } => common,
            NodeView::CloneLayer { common, .. } => common,
            NodeView::VectorLayer { common, .. } => common,
            NodeView::TransparencyMask { common, .. } => common,
            NodeView::FilterMask { common, .. } => common,
            NodeView::TransformMask { common, .. } => common,
            NodeView::SelectionMask { common, .. } => common,
            NodeView::ColorizeMask { common, .. } => common,
        }
    }

    /// The `composite_op` of a node that has one.
    pub open spec fn composite_op(self) -> Option<CompositeOp> {
        match self {
            NodeView::PaintLayer { props, .. } => Some(props.composite_op),
            NodeView::FilterLayer { props, .. } => Some(props.composite_op),
            NodeView::FillLayer { props, .. } => Some(props.composite_op),
            NodeView::FileLayer { props, .. } => Some(props.composite_op),
            NodeView::CloneLayer { props, .. } => Some(props.composite_op),
            NodeView::ColorizeMask { props, .. } => Some(props.composite_op),
            NodeView::VectorLayer { props, .. } => Some(props.composite_op),
            NodeView::GroupLayer { props, .. } => Some(props.composite_op),
            _ => None,
        }
    }

    /// The `collapsed` of a node that has one.
    pub open spec fn collapsed(self) -> Option<bool> {
        match self {
            NodeView::PaintLayer { props, .. } => Some(props.collapsed),
            NodeView::GroupLayer { props, .. } => Some(props.collapsed),
            NodeView::FileLayer { props, .. } => Some(props.collapsed),
            NodeView::FilterLayer { props, .. } => Some(props.collapsed),
            NodeView::FillLayer { props, .. } => Some(props.collapsed),
            NodeView::CloneLayer { props, .. } => Some(props.collapsed),
            NodeView::VectorLayer { props, .. } => Some(props.collapsed),
            _ => None,
        }
    }

    /// The `opacity` of a node that has one.
    pub open spec fn opacity(self) -> Option<u8> {
        match self {
            NodeView::PaintLayer { props, .. } => Some(props.opacity),
            NodeView::GroupLayer { props, .. } => Some(props.opacity),
            NodeView::FileLayer { props, .. } => Some(props.opacity),
            NodeView::FilterLayer { props, .. } => Some(props.opacity),
            NodeView::FillLayer { props, .. } => Some(props.opacity),
            NodeView::CloneLayer { props, .. } => Some(props.opacity),
            NodeView::VectorLayer { props, .. } => Some(props.opacity),
            _ => None,
        }
    }

    /// The `channel_flags` of a node that has one.
    pub open spec fn channel_flags(self) -> Option<Seq<char>> {
        match self {
            NodeView::PaintLayer { props, .. } => Some(props.channel_flags),
            NodeView::FileLayer { props, .. } => Some(props.channel_flags),
            NodeView::FilterLayer { props, .. } => Some(props.channel_flags),
            NodeView::FillLayer { props, .. } => Some(props.channel_flags),
            NodeView::CloneLayer { props, .. } => Some(props.channel_flags),
            NodeView::VectorLayer { props, .. } => Some(props.channel_flags),
            _ => None,
        }
    }

    /// The `colorspace` of a node that has one.
    pub open spec fn colorspace(self) -> Option<Colorspace> {
        match self {
            NodeView::PaintLayer { props, .. } => Some(props.colorspace),
            NodeView::FileLayer { props, .. } => Some(props.colorspace),
            NodeView::ColorizeMask { props, .. } => Some(props.colorspace),
            _ => None,
        }
    }

    /// The `filter_name` of a node that has one.
    pub open spec fn filter_name(self) -> Option<Seq<char>> {
        match self {
            NodeView::FilterLayer { props, .. } => Some(props.filter_name),
            NodeView::FilterMask { props, .. } => Some(props.filter_name),
            _ => None,
        }
    }

    /// The `filter_version` of a node that has one.
    pub open spec fn filter_version(self) -> Option<u32> {
        match self {
            NodeView::FilterLayer { props, .. } => Some(props.filter_version),
            NodeView::FilterMask { props, .. } => Some(props.filter_version),
            _ => None,
        }
    }

    /// The masks of a layer that can own masks.
    pub open spec fn masks(self) -> Option<Seq<NodeView>> {
        match self {
            NodeView::PaintLayer { masks, .. } => Some(masks),
            NodeView::FileLayer { masks, .. } => Some(masks),
            NodeView::FilterLayer { masks, .. } => Some(masks),
            NodeView::FillLayer { masks, .. } => Some(masks),
            NodeView::CloneLayer { masks, .. } => Some(masks),
            NodeView::VectorLayer { masks, .. } => Some(masks),
            _ => None,
        }
    }

    /// The child layers of a group layer.
    pub open spec fn layers(self) -> Option<Seq<NodeView>> {
        match self {
            NodeView::GroupLayer { props, .. } => Some(props.layers),
            _ => None,
        }
    }

    /// The same node with other masks, where it can own masks.
    pub open spec fn with_masks(self, new_masks: Seq<NodeView>) -> NodeView {
        match self {
            NodeView::PaintLayer { common, props, .. } => NodeView::PaintLayer {
                common,
                props,
                masks: new_masks,
            },
            NodeView::FileLayer { common, props, .. } => NodeView::FileLayer {
                common,
                props,
                masks: new_masks,
            },
            NodeView::FilterLayer { common, props, .. } => NodeView::FilterLayer {
                common,
                props,
                masks: new_masks,
            },
            NodeView::FillLayer { common, props, .. } => NodeView::FillLayer {
                common,
                props,
                masks: new_masks,
            },
            NodeView::CloneLayer { common, props, .. } => NodeView::CloneLayer {
                common,
                props,
                masks: new_masks,
            },
            NodeView::VectorLayer { common, props, .. } => NodeView::VectorLayer {
                common,
                props,
                masks: new_masks,
            },
            _ => self,
        }
    }
}

impl Node {
    /// Is the node a layer.
    pub fn is_layer(&self) -> (r: bool)
        ensures
            r == self@.is_layer(),
    {
        match self {
            Node::PaintLayer { .. } => true,
            Node::GroupLayer { .. } => true,
            Node::FileLayer { .. } => true,
            Node::FilterLayer { .. } => true,
            Node::FillLayer { .. } => true,
            Node::CloneLayer { .. } => true,
            Node::VectorLayer { .. } => true,
            _ => false,
        }
    }

    /// Is the node a mask.
    pub fn is_mask(&self) -> (r: bool)
        ensures
            r == self@.is_mask(),
    {
        match self {
            Node::TransparencyMask { .. } => true,
            Node::FilterMask { .. } => true,
            Node::TransformMask { .. } => true,
            Node::SelectionMask { .. } => true,
            Node::ColorizeMask { .. } => true,
            _ => false,
        }
    }

    /// Is the node a filter layer or a filter mask.
    pub fn is_filter(&self) -> (r: bool)
        ensures
            r == self@.is_filter(),
    {
        match self {
            Node::FilterLayer { .. } => true,
            Node::FilterMask { .. } => true,
            _ => false,
        }
    }

    /// Does the node have a composition operation.
    pub fn has_composite_op(&self) -> (r: bool)
        ensures
            r == self@.has_composite_op(),
    {
        match self {
            Node::PaintLayer { .. } => true,
            Node::FilterLayer { .. } => true,
            Node::FillLayer { .. } => true,
            Node::FileLayer { .. } => true,
            Node::CloneLayer { .. } => true,
            Node::ColorizeMask { .. } => true,
            Node::VectorLayer { .. } => true,
            Node::GroupLayer { .. } => true,
            _ => false,
        }
    }

    /// Can the layer be painted on. If it can, it has channel flags and masks.
    pub fn is_paintable_layer(&self) -> (r: bool)
        ensures
            r == self@.is_paintable_layer(),
    {
        match self {
            Node::PaintLayer { .. } => true,
            Node::FileLayer { .. } => true,
            Node::FilterLayer { .. } => true,
            Node::FillLayer { .. } => true,
            Node::CloneLayer { .. } => true,
            Node::VectorLayer { .. } => true,
            _ => false,
        }
    }

    /// Does the node specify a colorspace.
    pub fn has_colorspace(&self) -> (r: bool)
        ensures
            r == self@.has_colorspace(),
    {
        match self {
            Node::PaintLayer { .. } => true,
            Node::FileLayer { .. } => true,
            Node::ColorizeMask { .. } => true,
            _ => false,
        }
    }

    /// The attributes that every node has.
    pub fn common(&self) -> (common: &CommonNodeProps)
        ensures
            common@ == self@.common(),
    {
        match self {
            Node::PaintLayer { common, .. } => common,
            Node::GroupLayer { common, .. } => common,
            Node::FileLayer { common, .. } => common,
            Node::FilterLayer { common, .. } => common,
            Node::FillLayer { common, .. } => common,
            Node::CloneLayer { common, .. } => common,
            Node::VectorLayer { common, .. } => common,
            Node::TransparencyMask { common, .. } => common,
            Node::FilterMask { common, .. } => common,
            Node::TransformMask { common, .. } => common,
            Node::SelectionMask { common, .. } => common,
            Node::ColorizeMask { common, .. } => common,
        }
    }

    /// The `name` of the node.
    pub fn name(&self) -> (r: Option<&str>)
        ensures
            r.is_some() && r.unwrap()@ == self@.common().name,
    {
        Some(self.common().name.as_str())
    }

    /// The `uuid` of the node.
    pub fn uuid(&self) -> (r: Option<Uuid>)
        ensures
            r == Some(self@.common().uuid),
    {
        Some(self.common().uuid)
    }

    /// The `filename` of the node.
    pub fn filename(&self) -> (r: Option<&str>)
        ensures
            r.is_some() && r.unwrap()@ == self@.common().filename,
    {
        Some(self.common().filename.as_str())
    }

    /// The `visible` of the node.
    pub fn visible(&self) -> (r: Option<bool>)
        ensures
            r == Some(self@.common().visible),
    {
        Some(self.common().visible)
    }

    /// The `locked` of the node.
    pub fn locked(&self) -> (r: Option<bool>)
        ensures
            r == Some(self@.common().locked),
    {
        Some(self.common().locked)
    }

    /// The `colorlabel` of the node.
    pub fn colorlabel(&self) -> (r: Option<u32>)
        ensures
            r == Some(self@.common().colorlabel),
    {
        Some(self.common().colorlabel)
    }

    /// The `y` of the node.
    pub fn y(&self) -> (r: Option<i32>)
        ensures
            r == Some(self@.common().y),
    {
        Some(self.common().y)
    }

    /// The `x` of the node.
    pub fn x(&self) -> (r: Option<i32>)
        ensures
            r == Some(self@.common().x),
    {
        Some(self.common().x)
    }

    /// The `in_timeline` of the node.
    pub fn in_timeline(&self) -> (r: Option<InTimeline>)
        ensures
            r == Some(self@.common().in_timeline),
    {
        Some(self.common().in_timeline)
    }

    /// The `composite_op` of the node, if a node of this kind has one.
    pub fn composite_op(&self) -> (r: Option<CompositeOp>)
        ensures
            r == self@.composite_op(),
    {
        match self {
            Node::PaintLayer { props, .. } => Some(props.composite_op),
            Node::FilterLayer { props, .. } => Some(props.composite_op),
            Node::FillLayer { props, .. } => Some(props.composite_op),
            Node::FileLayer { props, .. } => Some(props.composite_op),
            Node::CloneLayer { props, .. } => Some(props.composite_op),
            Node::ColorizeMask { props, .. } => Some(props.composite_op),
            Node::VectorLayer { props, .. } => Some(props.composite_op),
            Node::GroupLayer { props, .. } => Some(props.composite_op),
            _ => None,
        }
    }

    /// The `collapsed` of the node, if a node of this kind has one.
    pub fn collapsed(&self) -> (r: Option<bool>)
        ensures
            r == self@.collapsed(),
    {
        match self {
            Node::PaintLayer { props, .. } => Some(props.collapsed),
            Node::GroupLayer { props, .. } => Some(props.collapsed),
            Node::FileLayer { props, .. } => Some(props.collapsed),
            Node::FilterLayer { props, .. } => Some(props.collapsed),
            Node::FillLayer { props, .. } => Some(props.collapsed),
            Node::CloneLayer { props, .. } => Some(props.collapsed),
            Node::VectorLayer { props, .. } => Some(props.collapsed),
            _ => None,
        }
    }

    /// The `opacity` of the node, if a node of this kind has one.
    pub fn opacity(&self) -> (r: Option<u8>)
        ensures
            r == self@.opacity(),
    {
        match self {
            Node::PaintLayer { props, .. } => Some(props.opacity),
            Node::GroupLayer { props, .. } => Some(props.opacity),
            Node::FileLayer { props, .. } => Some(props.opacity),
            Node::FilterLayer { props, .. } => Some(props.opacity),
            Node::FillLayer { props, .. } => Some(props.opacity),
            Node::CloneLayer { props, .. } => Some(props.opacity),
            Node::VectorLayer { props, .. } => Some(props.opacity),
            _ => None,
        }
    }

    /// The `channel_flags` of the node, if a node of this kind has one.
    pub fn channel_flags(&self) -> (r: Option<&str>)
        ensures
            r.is_some() == self@.channel_flags().is_some(),
            r.is_some() ==> r.unwrap()@ == self@.channel_flags().unwrap(),
    {
        match self {
            Node::PaintLayer { props, .. } => Some(props.channel_flags.as_str()),
            Node::FileLayer { props, .. } => Some(props.channel_flags.as_str()),
            Node::FilterLayer { props, .. } => Some(props.channel_flags.as_str()),
            Node::FillLayer { props, .. } => Some(props.channel_flags.as_str()),
            Node::CloneLayer { props, .. } => Some(props.channel_flags.as_str()),
            Node::VectorLayer { props, .. } => Some(props.channel_flags.as_str()),
            _ => None,
        }
    }

    /// The `colorspace` of the node, if a node of this kind has one.
    pub fn colorspace(&self) -> (r: Option<Colorspace>)
        ensures
            r == self@.colorspace(),
    {
        match self {
            Node::PaintLayer { props, .. } => Some(props.colorspace),
            Node::FileLayer { props, .. } => Some(props.colorspace),
            Node::ColorizeMask { props, .. } => Some(props.colorspace),
            _ => None,
        }
    }

    /// The `filter_name` of the node, if a node of this kind has one.
    pub fn filter_name(&self) -> (r: Option<&str>)
        ensures
            r.is_some() == self@.filter_name().is_some(),
            r.is_some() ==> r.unwrap()@ == self@.filter_name().unwrap(),
    {
        match self {
            Node::FilterLayer { props, .. } => Some(props.filter_name.as_str()),
            Node::FilterMask { props, .. } => Some(props.filter_name.as_str()),
            _ => None,
        }
    }

    /// The `filter_version` of the node, if a node of this kind has one.
    pub fn filter_version(&self) -> (r: Option<u32>)
        ensures
            r == self@.filter_version(),
    {
        match self {
            Node::FilterLayer { props, .. } => Some(props.filter_version),
            Node::FilterMask { props, .. } => Some(props.filter_version),
            _ => None,
        }
    }

    /// The masks of the node, if a node of this kind can own masks.
    pub fn masks(&self) -> (r: Option<&[Node]>)
        ensures
            r.is_some() == self@.masks().is_some(),
            r.is_some() ==> nodes_view(r.unwrap()@) == self@.masks().unwrap(),
    {
        match self {
            Node::PaintLayer { masks, .. } => Some(masks.as_slice()),
            Node::FileLayer { masks, .. } => Some(masks.as_slice()),
            Node::FilterLayer { masks, .. } => Some(masks.as_slice()),
            Node::FillLayer { masks, .. } => Some(masks.as_slice()),
            Node::CloneLayer { masks, .. } => Some(masks.as_slice()),
            Node::VectorLayer { masks, .. } => Some(masks.as_slice()),
            _ => None,
        }
    }

    /// The child layers of the node, if it is a group layer.
    pub fn layers(&self) -> (r: Option<&[Node]>)
        ensures
            r.is_some() == self@.layers().is_some(),
            r.is_some() ==> nodes_view(r.unwrap()@) == self@.layers().unwrap(),
    {
        match self {
            Node::GroupLayer { props, .. } => Some(props.layers.as_slice()),
            _ => None,
        }
    }

    /// Gives the node its masks. Only a layer that can be painted on takes
    /// them; any other node is left as it is, and the masks are handed back.
    pub fn set_masks(&mut self, new_masks: Vec<Node>) -> (r: Result<(), Vec<Node>>)
        ensures
            old(self)@.is_paintable_layer() ==> r.is_ok() && final(self)@ == old(self)@.with_masks(
                nodes_view(new_masks@),
            ),
            !old(self)@.is_paintable_layer() ==> r == Err::<(), Vec<Node>>(new_masks)
                && *final(self) == *old(self),
    {
        match self {
            Node::PaintLayer { masks, .. } => {
                *masks = new_masks;
            },
            Node::FileLayer { masks, .. } => {
                *masks = new_masks;
            },
            Node::FilterLayer { masks, .. } => {
                *masks = new_masks;
            },
            Node::FillLayer { masks, .. } => {
                *masks = new_masks;
            },
            Node::CloneLayer { masks, .. } => {
                *masks = new_masks;
            },
            Node::VectorLayer { masks, .. } => {
                *masks = new_masks;
            },
            _ => {
                return Err(new_masks);
            },
        }
        Ok(())
    }
}

/// A copy of a list of nodes, in the same order.
pub fn clone_nodes(nodes: &Vec<Node>) -> (copy: Vec<Node>)
    ensures
        nodes_view(copy@) == nodes_view(nodes@),
    decreases nodes, 1nat,
{
    let mut copy: Vec<Node> = Vec::new();
    let mut i: usize = 0;
    while i < nodes.len()
        invariant
            i <= nodes.len(),
            copy@.len() == i,
            forall|k: int| 0 <= k < i ==> (#[trigger] copy@[k])@ == nodes@[k]@,
        decreases nodes.len() - i,
    {
        copy.push(nodes[i].clone());
        i += 1;
    }
    assert(nodes_view(copy@) =~= nodes_view(nodes@));
    copy
}

impl Clone for Node {
    fn clone(&self) -> (copy: Node)
        ensures
            copy@ == self@,
        decreases self, 0nat,
    {
        match self {
            Node::PaintLayer { common, props, masks } => Node::PaintLayer {
                common: common.clone(),
                props: props.clone(),
                masks: clone_nodes(masks),
            },
            Node::GroupLayer { common, props } => Node::GroupLayer {
                common: common.clone(),
                props: props.clone(),
            },
            Node::FileLayer { common, props, masks } => Node::FileLayer {
                common: common.clone(),
                props: props.clone(),
                masks: clone_nodes(masks),
            },
            Node::FilterLayer { common, props, masks } => Node::FilterLayer {
                common: common.clone(),
                props: props.clone(),
                masks: clone_nodes(masks),
            },
            Node::FillLayer { common, props, masks } => Node::FillLayer {
                common: common.clone(),
                props: props.clone(),
                masks: clone_nodes(masks),
            },
            Node::CloneLayer { common, props, masks } => Node::CloneLayer {
                common: common.clone(),
                props: props.clone(),
                masks: clone_nodes(masks),
            },
            Node::VectorLayer { common, props, masks } => Node::VectorLayer {
                common: common.clone(),
                props: props.clone(),
                masks: clone_nodes(masks),
            },
            Node::TransparencyMask { common, props } => Node::TransparencyMask {
                common: common.clone(),
                props: props.clone(),
            },
            Node::FilterMask { common, props } => Node::FilterMask {
                common: common.clone(),
                props: props.clone(),
            },
            Node::TransformMask { common, props } => Node::TransformMask {
                common: common.clone(),
                props: props.clone(),
            },
            Node::SelectionMask { common, props } => Node::SelectionMask {
                common: common.clone(),
                props: props.clone(),
            },
            Node::ColorizeMask { common, props } => Node::ColorizeMask {
                common: common.clone(),
                props: props.clone(),
            },
        }
    }
}

impl Clone for GroupLayerProps {
    fn clone(&self) -> (copy: GroupLayerProps)
        ensures
            copy@ == self@,
        decreases self, 2nat,
    {
        GroupLayerProps {
            composite_op: self.composite_op,
            collapsed: self.collapsed,
            passthrough: self.passthrough,
            opacity: self.opacity,
            layers: clone_nodes(&self.layers),
        }
    }
}

/// A mask owns no masks, and no layers; a group layer owns layers and no
/// masks; every node is a layer or a mask, and never both.
pub proof fn lemma_node_kinds(node: NodeView)
    ensures
        node.is_mask() ==> node.masks().is_none() && node.layers().is_none(),
        node.layers().is_some() ==> node.masks().is_none(),
        node.masks().is_some() <==> node.is_paintable_layer(),
        node.is_layer() != node.is_mask(),
        node.is_paintable_layer() ==> node.is_layer(),
{
}

} // verus!
