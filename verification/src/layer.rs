//! The attributes of the twelve kinds of node, and the decoder of each
//! kind, which reads them from a tag.

use vstd::prelude::*;
use vstd::string::*;
use crate::attr::{
    bool_value, event_get_attr, get_attr, get_text, i32_value, parse_bool, parse_i32, parse_u32,
    parse_u8, parse_word_bool, text_attr, u32_value, u8_value, unescape_value, unescaped_value,
    word_bool_value,
};
use crate::color::{Colorspace, colorspace_named};
use crate::composite_op::{CompositeOp, composite_op_named};
use crate::error::{
    MetadataErrorReason, ReasonView, XmlError, XmlErrorView, lift, lifted, reason_result,
};
use crate::text::str_eq;
use crate::uuid::{Uuid, uuid_value};
use crate::xml::{Tag, TagView};

verus! {

/// Visibility of a node in the timeline.
#[derive(Debug, PartialEq, Eq, Structural, Clone, Copy, Hash)]
pub enum InTimeline {
    /// Node is visible in timeline. Holds whether onionskinning is enabled.
    True(bool),
    /// Node is not visible.
    False,
}

/// A result with the error as its model.
pub open spec fn plain_result<T>(r: Result<T, MetadataErrorReason>) -> Result<T, ReasonView> {
    match r {
        Ok(value) => Ok(value),
        Err(e) => Err(e@),
    }
}

/// The composition operation that a raw value names.
pub open spec fn composite_op_value(raw: Seq<char>) -> Result<CompositeOp, ReasonView> {
    match unescaped_value(raw) {
        Ok(text) => match composite_op_named(text) {
            Some(op) => Ok(op),
            None => Err(ReasonView::UnknownCompositeOp(text)),
        },
        Err(e) => Err(ReasonView::Xml(e)),
    }
}

/// The colorspace that a text names.
pub open spec fn colorspace_value(text: Seq<char>) -> Result<Colorspace, ReasonView> {
    match colorspace_named(text) {
        Some(colorspace) => Ok(colorspace),
        None => Err(ReasonView::UnknownColorspace(text)),
    }
}

/// The identifier that a text holds.
pub open spec fn uuid_of(text: Seq<char>) -> Result<Uuid, ReasonView> {
    match uuid_value(text) {
        Ok(value) => Ok(Uuid { value }),
        Err(message) => Err(ReasonView::ParseUuidError(message)),
    }
}

/// The timeline state of a node: `0` is not shown; `1` is shown, and then
/// the tag must say in `onionskin` whether onionskinning is enabled.
pub open spec fn in_timeline_value(text: Seq<char>, tag: TagView) -> Result<
    InTimeline,
    ReasonView,
> {
    if text == "0"@ {
        Ok(InTimeline::False)
    } else if text == "1"@ {
        match get_attr(tag, "onionskin"@) {
            Ok(raw) => match bool_value(raw) {
                Ok(onionskin) => Ok(InTimeline::True(onionskin)),
                Err(e) => Err(ReasonView::Xml(e)),
            },
            Err(e) => Err(ReasonView::Xml(e)),
        }
    } else {
        Err(ReasonView::Xml(XmlErrorView::ValueError(text)))
    }
}

/// Reads a composition operation from a raw value.
pub fn parse_composite_op(raw: &str) -> (r: Result<CompositeOp, MetadataErrorReason>)
    ensures
        plain_result(r) == composite_op_value(raw@),
{
    let text = lift(unescape_value(raw))?;
    match CompositeOp::from_str(text.as_str()) {
        Ok(op) => Ok(op),
        Err(e) => Err(MetadataErrorReason::UnknownCompositeOp(e)),
    }
}

/// Reads the colorspace of a node. An unknown name is an error.
pub fn parse_colorspace(text: &str) -> (r: Result<Colorspace, MetadataErrorReason>)
    ensures
        plain_result(r) == colorspace_value(text@),
{
    match Colorspace::try_from(text) {
        Ok(colorspace) => Ok(colorspace),
        Err(e) => Err(MetadataErrorReason::UnknownColorspace(e)),
    }
}

/// Reads an identifier.
pub fn parse_uuid(text: &str) -> (r: Result<Uuid, MetadataErrorReason>)
    ensures
        plain_result(r) == uuid_of(text@),
{
    match Uuid::from_str(text) {
        Ok(id) => Ok(id),
        Err(e) => Err(MetadataErrorReason::ParseUuidError(e)),
    }
}

/// Reads the timeline state of a node from the text of `intimeline`.
pub fn parse_in_timeline(input: &str, tag: &Tag) -> (r: Result<InTimeline, MetadataErrorReason>)
    ensures
        plain_result(r) == in_timeline_value(input@, tag@),
{
    if str_eq(input, "0") {
        Ok(InTimeline::False)
    } else if str_eq(input, "1") {
        let raw = lift(event_get_attr(tag, "onionskin"))?;
        let onionskin = lift(parse_bool(raw))?;
        Ok(InTimeline::True(onionskin))
    } else {
        Err(MetadataErrorReason::XmlError(XmlError::ValueError(input.to_owned())))
    }
}

/// Attributes of a transparency mask: it has none of its own.
#[derive(Debug, PartialEq, Eq, Structural, Clone, Copy)]
pub struct TransparencyMaskProps();

impl View for TransparencyMaskProps {
    type V = TransparencyMaskProps;

    open spec fn view(&self) -> TransparencyMaskProps {
        *self
    }
}

impl TransparencyMaskProps {
    pub fn new() -> (props: TransparencyMaskProps)
        ensures
            props == TransparencyMaskProps(),
    {
        TransparencyMaskProps()
    }
}

/// Attributes of a transform mask: it has none of its own.
#[derive(Debug, PartialEq, Eq, Structural, Clone, Copy)]
pub struct TransformMaskProps();

impl View for TransformMaskProps {
    type V = TransformMaskProps;

    open spec fn view(&self) -> TransformMaskProps {
        *self
    }
}

impl TransformMaskProps {
    pub fn new() -> (props: TransformMaskProps)
        ensures
            props == TransformMaskProps(),
    {
        TransformMaskProps()
    }
}

/// The attributes that every node has, whatever its kind.
#[derive(Debug, PartialEq, Eq)]
pub struct CommonNodeProps {
    /// Name of the node.
    pub name: String,
    /// Unique identifier of the node.
    pub uuid: Uuid,
    /// Name of the archive entry that holds the data of the node.
    pub filename: String,
    /// Whether the node is shown.
    pub visible: bool,
    /// Whether the node is locked against changes.
    pub locked: bool,
    /// Index of the color label.
    pub colorlabel: u32,
    /// Vertical position.
    pub y: i32,
    /// Horizontal position.
    pub x: i32,
    /// Whether the node is shown in the timeline.
    pub in_timeline: InTimeline,
}

/// Model of [`CommonNodeProps`].
pub ghost struct CommonNodePropsView {
    pub name: Seq<char>,
    pub uuid: Uuid,
    pub filename: Seq<char>,
    pub visible: bool,
    pub locked: bool,
    pub colorlabel: u32,
    pub y: i32,
    pub x: i32,
    pub in_timeline: InTimeline,
}

impl View for CommonNodeProps {
    type V = CommonNodePropsView;

    open spec fn view(&self) -> CommonNodePropsView {
        CommonNodePropsView {
            name: self.name@,
            uuid: self.uuid,
            filename: self.filename@,
            visible: self.visible,
            locked: self.locked,
            colorlabel: self.colorlabel,
            y: self.y,
            x: self.x,
            in_timeline: self.in_timeline,
        }
    }
}

impl Clone for CommonNodeProps {
    fn clone(&self) -> (copy: CommonNodeProps)
        ensures
            copy@ == self@,
    {
        CommonNodeProps {
            name: self.name.clone(),
            uuid: self.uuid,
            filename: self.filename.clone(),
            visible: self.visible,
            locked: self.locked,
            colorlabel: self.colorlabel,
            y: self.y,
            x: self.x,
            in_timeline: self.in_timeline,
        }
    }
}

/// What the attributes of a tag give as [`CommonNodeProps`]: every attribute is
/// first looked up, then every value is read, both in the order of the
/// fields, and the first failure is the result.
#[verifier::opaque]
pub open spec fn common_node_props(tag: TagView) -> Result<CommonNodePropsView, ReasonView> {
    let name_attr = lifted(text_attr(tag, "name"@));
    let uuid_attr = lifted(text_attr(tag, "uuid"@));
    let filename_attr = lifted(text_attr(tag, "filename"@));
    let visible_attr = lifted(get_attr(tag, "visible"@));
    let locked_attr = lifted(get_attr(tag, "locked"@));
    let colorlabel_attr = lifted(get_attr(tag, "colorlabel"@));
    let y_attr = lifted(get_attr(tag, "y"@));
    let x_attr = lifted(get_attr(tag, "x"@));
    let in_timeline_attr = lifted(text_attr(tag, "intimeline"@));
    let uuid = uuid_of(uuid_attr->Ok_0);
    let visible = lifted(bool_value(visible_attr->Ok_0));
    let locked = lifted(bool_value(locked_attr->Ok_0));
    let colorlabel = lifted(u32_value(colorlabel_attr->Ok_0));
    let y = lifted(i32_value(y_attr->Ok_0));
    let x = lifted(i32_value(x_attr->Ok_0));
    let in_timeline = in_timeline_value(in_timeline_attr->Ok_0, tag);
    if name_attr is Err {
        Err(name_attr->Err_0)
    } else if uuid_attr is Err {
        Err(uuid_attr->Err_0)
    } else if filename_attr is Err {
        Err(filename_attr->Err_0)
    } else if visible_attr is Err {
        Err(visible_attr->Err_0)
    } else if locked_attr is Err {
        Err(locked_attr->Err_0)
    } else if colorlabel_attr is Err {
        Err(colorlabel_attr->Err_0)
    } else if y_attr is Err {
        Err(y_attr->Err_0)
    } else if x_attr is Err {
        Err(x_attr->Err_0)
    } else if in_timeline_attr is Err {
        Err(in_timeline_attr->Err_0)
    } else if uuid is Err {
        Err(uuid->Err_0)
    } else if visible is Err {
        Err(visible->Err_0)
    } else if locked is Err {
        Err(locked->Err_0)
    } else if colorlabel is Err {
        Err(colorlabel->Err_0)
    } else if y is Err {
        Err(y->Err_0)
    } else if x is Err {
        Err(x->Err_0)
    } else if in_timeline is Err {
        Err(in_timeline->Err_0)
    } else {
        Ok(
            CommonNodePropsView {
                name: name_attr->Ok_0,
                uuid: uuid->Ok_0,
                filename: filename_attr->Ok_0,
                visible: visible->Ok_0,
                locked: locked->Ok_0,
                colorlabel: colorlabel->Ok_0,
                y: y->Ok_0,
                x: x->Ok_0,
                in_timeline: in_timeline->Ok_0,
            },
        )
    }
}

impl CommonNodeProps {
    /// Reads the attributes from a tag. The first failure ends the reading.
    pub fn parse_tag(tag: &Tag) -> (r: Result<CommonNodeProps, MetadataErrorReason>)
        ensures
            reason_result(r) == common_node_props(tag@),
    {
        reveal(common_node_props);
        let name_attr = lift(get_text(tag, "name"))?;
        let uuid_attr = lift(get_text(tag, "uuid"))?;
        let filename_attr = lift(get_text(tag, "filename"))?;
        let visible_attr = lift(event_get_attr(tag, "visible"))?;
        let locked_attr = lift(event_get_attr(tag, "locked"))?;
        let colorlabel_attr = lift(event_get_attr(tag, "colorlabel"))?;
        let y_attr = lift(event_get_attr(tag, "y"))?;
        let x_attr = lift(event_get_attr(tag, "x"))?;
        let in_timeline_attr = lift(get_text(tag, "intimeline"))?;
        let uuid = parse_uuid(uuid_attr.as_str())?;
        let visible = lift(parse_bool(visible_attr))?;
        let locked = lift(parse_bool(locked_attr))?;
        let colorlabel = lift(parse_u32(colorlabel_attr))?;
        let y = lift(parse_i32(y_attr))?;
        let x = lift(parse_i32(x_attr))?;
        let in_timeline = parse_in_timeline(in_timeline_attr.as_str(), tag)?;
        Ok(CommonNodeProps {
            name: name_attr,
            uuid,
            filename: filename_attr,
            visible,
            locked,
            colorlabel,
            y,
            x,
            in_timeline,
        })
    }
}

/// Attributes of a filter mask.
#[derive(Debug, PartialEq, Eq)]
pub struct FilterMaskProps {
    /// Name of the filter.
    pub filter_name: String,
    /// Version of the filter.
    pub filter_version: u32,
}

/// Model of [`FilterMaskProps`].
pub ghost struct FilterMaskPropsView {
    pub filter_name: Seq<char>,
    pub filter_version: u32,
}

impl View for FilterMaskProps {
    type V = FilterMaskPropsView;

    open spec fn view(&self) -> FilterMaskPropsView {
        FilterMaskPropsView {
            filter_name: self.filter_name@,
            filter_version: self.filter_version,
        }
    }
}

impl Clone for FilterMaskProps {
    fn clone(&self) -> (copy: FilterMaskProps)
        ensures
            copy@ == self@,
    {
        FilterMaskProps {
            filter_name: self.filter_name.clone(),
            filter_version: self.filter_version,
        }
    }
}

/// What the attributes of a tag give as [`FilterMaskProps`]: every attribute is
/// first looked up, then every value is read, both in the order of the
/// fields, and the first failure is the result.
#[verifier::opaque]
pub open spec fn filter_mask_props(tag: TagView) -> Result<FilterMaskPropsView, ReasonView> {
    let filter_name_attr = lifted(text_attr(tag, "filtername"@));
    let filter_version_attr = lifted(get_attr(tag, "filterversion"@));
    let filter_version = lifted(u32_value(filter_version_attr->Ok_0));
    if filter_name_attr is Err {
        Err(filter_name_attr->Err_0)
    } else if filter_version_attr is Err {
        Err(filter_version_attr->Err_0)
    } else if filter_version is Err {
        Err(filter_version->Err_0)
    } else {
        Ok(
            FilterMaskPropsView {
                filter_name: filter_name_attr->Ok_0,
                filter_version: filter_version->Ok_0,
            },
        )
    }
}

impl FilterMaskProps {
    /// Reads the attributes from a tag. The first failure ends the reading.
    pub fn parse_tag(tag: &Tag) -> (r: Result<FilterMaskProps, MetadataErrorReason>)
        ensures
            reason_result(r) == filter_mask_props(tag@),
    {
        reveal(filter_mask_props);
        let filter_name_attr = lift(get_text(tag, "filtername"))?;
        let filter_version_attr = lift(event_get_attr(tag, "filterversion"))?;
        let filter_version = lift(parse_u32(filter_version_attr))?;
        Ok(FilterMaskProps {
            filter_name: filter_name_attr,
            filter_version,
        })
    }
}

/// Attributes of a paint layer.
#[derive(Debug, PartialEq, Eq)]
pub struct PaintLayerProps {
    /// How the node is blended onto what lies under it.
    pub composite_op: CompositeOp,
    /// Opacity, from 0 (transparent) to 255.
    pub opacity: u8,
    /// Whether the node is shown collapsed in the layer list.
    pub collapsed: bool,
    /// Colorspace of the pixels.
    pub colorspace: Colorspace,
    /// Which channels are locked.
    pub channel_lock_flags: String,
    /// Which channels are active.
    pub channel_flags: String,
}

/// Model of [`PaintLayerProps`].
pub ghost struct PaintLayerPropsView {
    pub composite_op: CompositeOp,
    pub opacity: u8,
    pub collapsed: bool,
    pub colorspace: Colorspace,
    pub channel_lock_flags: Seq<char>,
    pub channel_flags: Seq<char>,
}

impl View for PaintLayerProps {
    type V = PaintLayerPropsView;

    open spec fn view(&self) -> PaintLayerPropsView {
        PaintLayerPropsView {
            composite_op: self.composite_op,
            opacity: self.opacity,
            collapsed: self.collapsed,
            colorspace: self.colorspace,
            channel_lock_flags: self.channel_lock_flags@,
            channel_flags: self.channel_flags@,
        }
    }
}

impl Clone for PaintLayerProps {
    fn clone(&self) -> (copy: PaintLayerProps)
        ensures
            copy@ == self@,
    {
        PaintLayerProps {
            composite_op: self.composite_op,
            opacity: self.opacity,
            collapsed: self.collapsed,
            colorspace: self.colorspace,
            channel_lock_flags: self.channel_lock_flags.clone(),
            channel_flags: self.channel_flags.clone(),
        }
    }
}

/// What the attributes of a tag give as [`PaintLayerProps`]: every attribute is
/// first looked up, then every value is read, both in the order of the
/// fields, and the first failure is the result.
#[verifier::opaque]
pub open spec fn paint_layer_props(tag: TagView) -> Result<PaintLayerPropsView, ReasonView> {
    let composite_op_attr = lifted(get_attr(tag, "compositeop"@));
    let opacity_attr = lifted(get_attr(tag, "opacity"@));
    let collapsed_attr = lifted(get_attr(tag, "collapsed"@));
    let colorspace_attr = lifted(text_attr(tag, "colorspacename"@));
    let channel_lock_flags_attr = lifted(text_attr(tag, "channellockflags"@));
    let channel_flags_attr = lifted(text_attr(tag, "channelflags"@));
    let composite_op = composite_op_value(composite_op_attr->Ok_0);
    let opacity = lifted(u8_value(opacity_attr->Ok_0));
    let collapsed = lifted(bool_value(collapsed_attr->Ok_0));
    let colorspace = colorspace_value(colorspace_attr->Ok_0);
    if composite_op_attr is Err {
        Err(composite_op_attr->Err_0)
    } else if opacity_attr is Err {
        Err(opacity_attr->Err_0)
    } else if collapsed_attr is Err {
        Err(collapsed_attr->Err_0)
    } else if colorspace_attr is Err {
        Err(colorspace_attr->Err_0)
    } else if channel_lock_flags_attr is Err {
        Err(channel_lock_flags_attr->Err_0)
    } else if channel_flags_attr is Err {
        Err(channel_flags_attr->Err_0)
    } else if composite_op is Err {
        Err(composite_op->Err_0)
    } else if opacity is Err {
        Err(opacity->Err_0)
    } else if collapsed is Err {
        Err(collapsed->Err_0)
    } else if colorspace is Err {
        Err(colorspace->Err_0)
    } else {
        Ok(
            PaintLayerPropsView {
                composite_op: composite_op->Ok_0,
                opacity: opacity->Ok_0,
                collapsed: collapsed->Ok_0,
                colorspace: colorspace->Ok_0,
                channel_lock_flags: channel_lock_flags_attr->Ok_0,
                channel_flags: channel_flags_attr->Ok_0,
            },
        )
    }
}

impl PaintLayerProps {
    /// Reads the attributes from a tag. The first failure ends the reading.
    pub fn parse_tag(tag: &Tag) -> (r: Result<PaintLayerProps, MetadataErrorReason>)
        ensures
            reason_result(r) == paint_layer_props(tag@),
    {
        reveal(paint_layer_props);
        let composite_op_attr = lift(event_get_attr(tag, "compositeop"))?;
        let opacity_attr = lift(event_get_attr(tag, "opacity"))?;
        let collapsed_attr = lift(event_get_attr(tag, "collapsed"))?;
        let colorspace_attr = lift(get_text(tag, "colorspacename"))?;
        let channel_lock_flags_attr = lift(get_text(tag, "channellockflags"))?;
        let channel_flags_attr = lift(get_text(tag, "channelflags"))?;
        let composite_op = parse_composite_op(composite_op_attr)?;
        let opacity = lift(parse_u8(opacity_attr))?;
        let collapsed = lift(parse_bool(collapsed_attr))?;
        let colorspace = parse_colorspace(colorspace_attr.as_str())?;
        Ok(PaintLayerProps {
            composite_op,
            opacity,
            collapsed,
            colorspace,
            channel_lock_flags: channel_lock_flags_attr,
            channel_flags: channel_flags_attr,
        })
    }
}

/// Attributes of a selection mask.
#[derive(Debug, PartialEq, Eq, Structural, Clone, Copy)]
pub struct SelectionMaskProps {
    /// Whether the selection is active.
    pub active: bool,
}

impl View for SelectionMaskProps {
    type V = SelectionMaskProps;

    open spec fn view(&self) -> SelectionMaskProps {
        *self
    }
}

/// What the attributes of a tag give as [`SelectionMaskProps`]: every attribute is
/// first looked up, then every value is read, both in the order of the
/// fields, and the first failure is the result.
#[verifier::opaque]
pub open spec fn selection_mask_props(tag: TagView) -> Result<SelectionMaskProps, ReasonView> {
    let active_attr = lifted(get_attr(tag, "active"@));
    let active = lifted(bool_value(active_attr->Ok_0));
    if active_attr is Err {
        Err(active_attr->Err_0)
    } else if active is Err {
        Err(active->Err_0)
    } else {
        Ok(
            SelectionMaskProps {
                active: active->Ok_0,
            },
        )
    }
}

impl SelectionMaskProps {
    /// Reads the attributes from a tag. The first failure ends the reading.
    pub fn parse_tag(tag: &Tag) -> (r: Result<SelectionMaskProps, MetadataErrorReason>)
        ensures
            reason_result(r) == selection_mask_props(tag@),
    {
        reveal(selection_mask_props);
        let active_attr = lift(event_get_attr(tag, "active"))?;
        let active = lift(parse_bool(active_attr))?;
        Ok(SelectionMaskProps {
            active,
        })
    }
}

/// Attributes of a file layer, which shows an image file outside the document.
#[derive(Debug, PartialEq, Eq)]
pub struct FileLayerProps {
    /// Whether the node is shown collapsed in the layer list.
    pub collapsed: bool,
    /// Name of the filter used for scaling.
    pub scaling_filter: String,
    /// Whether the image is scaled. Written as `true` or `false`.
    pub scale: bool,
    /// How the node is blended onto what lies under it.
    pub composite_op: CompositeOp,
    /// Opacity, from 0 (transparent) to 255.
    pub opacity: u8,
    /// Colorspace of the pixels.
    pub colorspace: Colorspace,
    /// How the image is scaled.
    pub scaling_method: u32,
    /// Path of the image file.
    pub source: String,
    /// Which channels are active.
    pub channel_flags: String,
}

/// Model of [`FileLayerProps`].
pub ghost struct FileLayerPropsView {
    pub collapsed: bool,
    pub scaling_filter: Seq<char>,
    pub scale: bool,
    pub composite_op: CompositeOp,
    pub opacity: u8,
    pub colorspace: Colorspace,
    pub scaling_method: u32,
    pub source: Seq<char>,
    pub channel_flags: Seq<char>,
}

impl View for FileLayerProps {
    type V = FileLayerPropsView;

    open spec fn view(&self) -> FileLayerPropsView {
        FileLayerPropsView {
            collapsed: self.collapsed,
            scaling_filter: self.scaling_filter@,
            scale: self.scale,
            composite_op: self.composite_op,
            opacity: self.opacity,
            colorspace: self.colorspace,
            scaling_method: self.scaling_method,
            source: self.source@,
            channel_flags: self.channel_flags@,
        }
    }
}

impl Clone for FileLayerProps {
    fn clone(&self) -> (copy: FileLayerProps)
        ensures
            copy@ == self@,
    {
        FileLayerProps {
            collapsed: self.collapsed,
            scaling_filter: self.scaling_filter.clone(),
            scale: self.scale,
            composite_op: self.composite_op,
            opacity: self.opacity,
            colorspace: self.colorspace,
            scaling_method: self.scaling_method,
            source: self.source.clone(),
            channel_flags: self.channel_flags.clone(),
        }
    }
}

/// What the attributes of a tag give as [`FileLayerProps`]: every attribute is
/// first looked up, then every value is read, both in the order of the
/// fields, and the first failure is the result.
#[verifier::opaque]
pub open spec fn file_layer_props(tag: TagView) -> Result<FileLayerPropsView, ReasonView> {
    let collapsed_attr = lifted(get_attr(tag, "collapsed"@));
    let scaling_filter_attr = lifted(text_attr(tag, "scalingfilter"@));
    let scale_attr = lifted(get_attr(tag, "scale"@));
    let composite_op_attr = lifted(get_attr(tag, "compositeop"@));
    let opacity_attr = lifted(get_attr(tag, "opacity"@));
    let colorspace_attr = lifted(text_attr(tag, "colorspacename"@));
    let scaling_method_attr = lifted(get_attr(tag, "scalingmethod"@));
    let source_attr = lifted(text_attr(tag, "source"@));
    let channel_flags_attr = lifted(text_attr(tag, "channelflags"@));
    let collapsed = lifted(bool_value(collapsed_attr->Ok_0));
    let scale = lifted(word_bool_value(scale_attr->Ok_0));
    let composite_op = composite_op_value(composite_op_attr->Ok_0);
    let opacity = lifted(u8_value(opacity_attr->Ok_0));
    let colorspace = colorspace_value(colorspace_attr->Ok_0);
    let scaling_method = lifted(u32_value(scaling_method_attr->Ok_0));
    if collapsed_attr is Err {
        Err(collapsed_attr->Err_0)
    } else if scaling_filter_attr is Err {
        Err(scaling_filter_attr->Err_0)
    } else if scale_attr is Err {
        Err(scale_attr->Err_0)
    } else if composite_op_attr is Err {
        Err(composite_op_attr->Err_0)
    } else if opacity_attr is Err {
        Err(opacity_attr->Err_0)
    } else if colorspace_attr is Err {
        Err(colorspace_attr->Err_0)
    } else if scaling_method_attr is Err {
        Err(scaling_method_attr->Err_0)
    } else if source_attr is Err {
        Err(source_attr->Err_0)
    } else if channel_flags_attr is Err {
        Err(channel_flags_attr->Err_0)
    } else if collapsed is Err {
        Err(collapsed->Err_0)
    } else if scale is Err {
        Err(scale->Err_0)
    } else if composite_op is Err {
        Err(composite_op->Err_0)
    } else if opacity is Err {
        Err(opacity->Err_0)
    } else if colorspace is Err {
        Err(colorspace->Err_0)
    } else if scaling_method is Err {
        Err(scaling_method->Err_0)
    } else {
        Ok(
            FileLayerPropsView {
                collapsed: collapsed->Ok_0,
                scaling_filter: scaling_filter_attr->Ok_0,
                scale: scale->Ok_0,
                composite_op: composite_op->Ok_0,
                opacity: opacity->Ok_0,
                colorspace: colorspace->Ok_0,
                scaling_method: scaling_method->Ok_0,
                source: source_attr->Ok_0,
                channel_flags: channel_flags_attr->Ok_0,
            },
        )
    }
}

impl FileLayerProps {
    /// Reads the attributes from a tag. The first failure ends the reading.
    pub fn parse_tag(tag: &Tag) -> (r: Result<FileLayerProps, MetadataErrorReason>)
        ensures
            reason_result(r) == file_layer_props(tag@),
    {
        reveal(file_layer_props);
        let collapsed_attr = lift(event_get_attr(tag, "collapsed"))?;
        let scaling_filter_attr = lift(get_text(tag, "scalingfilter"))?;
        let scale_attr = lift(event_get_attr(tag, "scale"))?;
        let composite_op_attr = lift(event_get_attr(tag, "compositeop"))?;
        let opacity_attr = lift(event_get_attr(tag, "opacity"))?;
        let colorspace_attr = lift(get_text(tag, "colorspacename"))?;
        let scaling_method_attr = lift(event_get_attr(tag, "scalingmethod"))?;
        let source_attr = lift(get_text(tag, "source"))?;
        let channel_flags_attr = lift(get_text(tag, "channelflags"))?;
        let collapsed = lift(parse_bool(collapsed_attr))?;
        let scale = lift(parse_word_bool(scale_attr))?;
        let composite_op = parse_composite_op(composite_op_attr)?;
        let opacity = lift(parse_u8(opacity_attr))?;
        let colorspace = parse_colorspace(colorspace_attr.as_str())?;
        let scaling_method = lift(parse_u32(scaling_method_attr))?;
        Ok(FileLayerProps {
            collapsed,
            scaling_filter: scaling_filter_attr,
            scale,
            composite_op,
            opacity,
            colorspace,
            scaling_method,
            source: source_attr,
            channel_flags: channel_flags_attr,
        })
    }
}

/// Attributes of a filter layer (`adjustmentlayer`).
#[derive(Debug, PartialEq, Eq)]
pub struct FilterLayerProps {
    /// Name of the filter.
    pub filter_name: String,
    /// Version of the filter.
    pub filter_version: u32,
    /// Which channels are active.
    pub channel_flags: String,
    /// Whether the node is shown collapsed in the layer list.
    pub collapsed: bool,
    /// How the node is blended onto what lies under it.
    pub composite_op: CompositeOp,
    /// Opacity, from 0 (transparent) to 255.
    pub opacity: u8,
}

/// Model of [`FilterLayerProps`].
pub ghost struct FilterLayerPropsView {
    pub filter_name: Seq<char>,
    pub filter_version: u32,
    pub channel_flags: Seq<char>,
    pub collapsed: bool,
    pub composite_op: CompositeOp,
    pub opacity: u8,
}

impl View for FilterLayerProps {
    type V = FilterLayerPropsView;

    open spec fn view(&self) -> FilterLayerPropsView {
        FilterLayerPropsView {
            filter_name: self.filter_name@,
            filter_version: self.filter_version,
            channel_flags: self.channel_flags@,
            collapsed: self.collapsed,
            composite_op: self.composite_op,
            opacity: self.opacity,
        }
    }
}

impl Clone for FilterLayerProps {
    fn clone(&self) -> (copy: FilterLayerProps)
        ensures
            copy@ == self@,
    {
        FilterLayerProps {
            filter_name: self.filter_name.clone(),
            filter_version: self.filter_version,
            channel_flags: self.channel_flags.clone(),
            collapsed: self.collapsed,
            composite_op: self.composite_op,
            opacity: self.opacity,
        }
    }
}

/// What the attributes of a tag give as [`FilterLayerProps`]: every attribute is
/// first looked up, then every value is read, both in the order of the
/// fields, and the first failure is the result.
#[verifier::opaque]
pub open spec fn filter_layer_props(tag: TagView) -> Result<FilterLayerPropsView, ReasonView> {
    let filter_name_attr = lifted(text_attr(tag, "filtername"@));
    let filter_version_attr = lifted(get_attr(tag, "filterversion"@));
    let channel_flags_attr = lifted(text_attr(tag, "channelflags"@));
    let collapsed_attr = lifted(get_attr(tag, "collapsed"@));
    let composite_op_attr = lifted(get_attr(tag, "compositeop"@));
    let opacity_attr = lifted(get_attr(tag, "opacity"@));
    let filter_version = lifted(u32_value(filter_version_attr->Ok_0));
    let collapsed = lifted(bool_value(collapsed_attr->Ok_0));
    let composite_op = composite_op_value(composite_op_attr->Ok_0);
    let opacity = lifted(u8_value(opacity_attr->Ok_0));
    if filter_name_attr is Err {
        Err(filter_name_attr->Err_0)
    } else if filter_version_attr is Err {
        Err(filter_version_attr->Err_0)
    } else if channel_flags_attr is Err {
        Err(channel_flags_attr->Err_0)
    } else if collapsed_attr is Err {
        Err(collapsed_attr->Err_0)
    } else if composite_op_attr is Err {
        Err(composite_op_attr->Err_0)
    } else if opacity_attr is Err {
        Err(opacity_attr->Err_0)
    } else if filter_version is Err {
        Err(filter_version->Err_0)
    } else if collapsed is Err {
        Err(collapsed->Err_0)
    } else if composite_op is Err {
        Err(composite_op->Err_0)
    } else if opacity is Err {
        Err(opacity->Err_0)
    } else {
        Ok(
            FilterLayerPropsView {
                filter_name: filter_name_attr->Ok_0,
                filter_version: filter_version->Ok_0,
                channel_flags: channel_flags_attr->Ok_0,
                collapsed: collapsed->Ok_0,
                composite_op: composite_op->Ok_0,
                opacity: opacity->Ok_0,
            },
        )
    }
}

impl FilterLayerProps {
    /// Reads the attributes from a tag. The first failure ends the reading.
    pub fn parse_tag(tag: &Tag) -> (r: Result<FilterLayerProps, MetadataErrorReason>)
        ensures
            reason_result(r) == filter_layer_props(tag@),
    {
        reveal(filter_layer_props);
        let filter_name_attr = lift(get_text(tag, "filtername"))?;
        let filter_version_attr = lift(event_get_attr(tag, "filterversion"))?;
        let channel_flags_attr = lift(get_text(tag, "channelflags"))?;
        let collapsed_attr = lift(event_get_attr(tag, "collapsed"))?;
        let composite_op_attr = lift(event_get_attr(tag, "compositeop"))?;
        let opacity_attr = lift(event_get_attr(tag, "opacity"))?;
        let filter_version = lift(parse_u32(filter_version_attr))?;
        let collapsed = lift(parse_bool(collapsed_attr))?;
        let composite_op = parse_composite_op(composite_op_attr)?;
        let opacity = lift(parse_u8(opacity_attr))?;
        Ok(FilterLayerProps {
            filter_name: filter_name_attr,
            filter_version,
            channel_flags: channel_flags_attr,
            collapsed,
            composite_op,
            opacity,
        })
    }
}

/// Attributes of a fill layer (`generatorlayer`).
#[derive(Debug, PartialEq, Eq)]
pub struct FillLayerProps {
    /// Opacity, from 0 (transparent) to 255.
    pub opacity: u8,
    /// How the node is blended onto what lies under it.
    pub composite_op: CompositeOp,
    /// Name of the generator.
    pub generator_name: String,
    /// Version of the generator.
    pub generator_version: u32,
    /// Which channels are active.
    pub channel_flags: String,
    /// Whether the node is shown collapsed in the layer list.
    pub collapsed: bool,
}

/// Model of [`FillLayerProps`].
pub ghost struct FillLayerPropsView {
    pub opacity: u8,
    pub composite_op: CompositeOp,
    pub generator_name: Seq<char>,
    pub generator_version: u32,
    pub channel_flags: Seq<char>,
    pub collapsed: bool,
}

impl View for FillLayerProps {
    type V = FillLayerPropsView;

    open spec fn view(&self) -> FillLayerPropsView {
        FillLayerPropsView {
            opacity: self.opacity,
            composite_op: self.composite_op,
            generator_name: self.generator_name@,
            generator_version: self.generator_version,
            channel_flags: self.channel_flags@,
            collapsed: self.collapsed,
        }
    }
}

impl Clone for FillLayerProps {
    fn clone(&self) -> (copy: FillLayerProps)
        ensures
            copy@ == self@,
    {
        FillLayerProps {
            opacity: self.opacity,
            composite_op: self.composite_op,
            generator_name: self.generator_name.clone(),
            generator_version: self.generator_version,
            channel_flags: self.channel_flags.clone(),
            collapsed: self.collapsed,
        }
    }
}

/// What the attributes of a tag give as [`FillLayerProps`]: every attribute is
/// first looked up, then every value is read, both in the order of the
/// fields, and the first failure is the result.
#[verifier::opaque]
pub open spec fn fill_layer_props(tag: TagView) -> Result<FillLayerPropsView, ReasonView> {
    let opacity_attr = lifted(get_attr(tag, "opacity"@));
    let composite_op_attr = lifted(get_attr(tag, "compositeop"@));
    let generator_name_attr = lifted(text_attr(tag, "generatorname"@));
    let generator_version_attr = lifted(get_attr(tag, "generatorversion"@));
    let channel_flags_attr = lifted(text_attr(tag, "channelflags"@));
    let collapsed_attr = lifted(get_attr(tag, "collapsed"@));
    let opacity = lifted(u8_value(opacity_attr->Ok_0));
    let composite_op = composite_op_value(composite_op_attr->Ok_0);
    let generator_version = lifted(u32_value(generator_version_attr->Ok_0));
    let collapsed = lifted(bool_value(collapsed_attr->Ok_0));
    if opacity_attr is Err {
        Err(opacity_attr->Err_0)
    } else if composite_op_attr is Err {
        Err(composite_op_attr->Err_0)
    } else if generator_name_attr is Err {
        Err(generator_name_attr->Err_0)
    } else if generator_version_attr is Err {
        Err(generator_version_attr->Err_0)
    } else if channel_flags_attr is Err {
        Err(channel_flags_attr->Err_0)
    } else if collapsed_attr is Err {
        Err(collapsed_attr->Err_0)
    } else if opacity is Err {
        Err(opacity->Err_0)
    } else if composite_op is Err {
        Err(composite_op->Err_0)
    } else if generator_version is Err {
        Err(generator_version->Err_0)
    } else if collapsed is Err {
        Err(collapsed->Err_0)
    } else {
        Ok(
            FillLayerPropsView {
                opacity: opacity->Ok_0,
                composite_op: composite_op->Ok_0,
                generator_name: generator_name_attr->Ok_0,
                generator_version: generator_version->Ok_0,
                channel_flags: channel_flags_attr->Ok_0,
                collapsed: collapsed->Ok_0,
            },
        )
    }
}

impl FillLayerProps {
    /// Reads the attributes from a tag. The first failure ends the reading.
    pub fn parse_tag(tag: &Tag) -> (r: Result<FillLayerProps, MetadataErrorReason>)
        ensures
            reason_result(r) == fill_layer_props(tag@),
    {
        reveal(fill_layer_props);
        let opacity_attr = lift(event_get_attr(tag, "opacity"))?;
        let composite_op_attr = lift(event_get_attr(tag, "compositeop"))?;
        let generator_name_attr = lift(get_text(tag, "generatorname"))?;
        let generator_version_attr = lift(event_get_attr(tag, "generatorversion"))?;
        let channel_flags_attr = lift(get_text(tag, "channelflags"))?;
        let collapsed_attr = lift(event_get_attr(tag, "collapsed"))?;
        let opacity = lift(parse_u8(opacity_attr))?;
        let composite_op = parse_composite_op(composite_op_attr)?;
        let generator_version = lift(parse_u32(generator_version_attr))?;
        let collapsed = lift(parse_bool(collapsed_attr))?;
        Ok(FillLayerProps {
            opacity,
            composite_op,
            generator_name: generator_name_attr,
            generator_version,
            channel_flags: channel_flags_attr,
            collapsed,
        })
    }
}

/// Attributes of a clone layer.
#[derive(Debug, PartialEq, Eq)]
pub struct CloneLayerProps {
    /// Kind of clone.
    pub clone_type: u32,
    /// Name of the layer that is cloned.
    pub clone_from: String,
    /// How the node is blended onto what lies under it.
    pub composite_op: CompositeOp,
    /// Opacity, from 0 (transparent) to 255.
    pub opacity: u8,
    /// Identifier of the layer that is cloned.
    pub clone_from_uuid: Uuid,
    /// Which channels are active.
    pub channel_flags: String,
    /// Whether the node is shown collapsed in the layer list.
    pub collapsed: bool,
}

/// Model of [`CloneLayerProps`].
pub ghost struct CloneLayerPropsView {
    pub clone_type: u32,
    pub clone_from: Seq<char>,
    pub composite_op: CompositeOp,
    pub opacity: u8,
    pub clone_from_uuid: Uuid,
    pub channel_flags: Seq<char>,
    pub collapsed: bool,
}

impl View for CloneLayerProps {
    type V = CloneLayerPropsView;

    open spec fn view(&self) -> CloneLayerPropsView {
        CloneLayerPropsView {
            clone_type: self.clone_type,
            clone_from: self.clone_from@,
            composite_op: self.composite_op,
            opacity: self.opacity,
            clone_from_uuid: self.clone_from_uuid,
            channel_flags: self.channel_flags@,
            collapsed: self.collapsed,
        }
    }
}

impl Clone for CloneLayerProps {
    fn clone(&self) -> (copy: CloneLayerProps)
        ensures
            copy@ == self@,
    {
        CloneLayerProps {
            clone_type: self.clone_type,
            clone_from: self.clone_from.clone(),
            composite_op: self.composite_op,
            opacity: self.opacity,
            clone_from_uuid: self.clone_from_uuid,
            channel_flags: self.channel_flags.clone(),
            collapsed: self.collapsed,
        }
    }
}

/// What the attributes of a tag give as [`CloneLayerProps`]: every attribute is
/// first looked up, then every value is read, both in the order of the
/// fields, and the first failure is the result.
#[verifier::opaque]
pub open spec fn clone_layer_props(tag: TagView) -> Result<CloneLayerPropsView, ReasonView> {
    let clone_type_attr = lifted(get_attr(tag, "clonetype"@));
    let clone_from_attr = lifted(text_attr(tag, "clonefrom"@));
    let composite_op_attr = lifted(get_attr(tag, "compositeop"@));
    let opacity_attr = lifted(get_attr(tag, "opacity"@));
    let clone_from_uuid_attr = lifted(text_attr(tag, "clonefromuuid"@));
    let channel_flags_attr = lifted(text_attr(tag, "channelflags"@));
    let collapsed_attr = lifted(get_attr(tag, "collapsed"@));
    let clone_type = lifted(u32_value(clone_type_attr->Ok_0));
    let composite_op = composite_op_value(composite_op_attr->Ok_0);
    let opacity = lifted(u8_value(opacity_attr->Ok_0));
    let clone_from_uuid = uuid_of(clone_from_uuid_attr->Ok_0);
    let collapsed = lifted(bool_value(collapsed_attr->Ok_0));
    if clone_type_attr is Err {
        Err(clone_type_attr->Err_0)
    } else if clone_from_attr is Err {
        Err(clone_from_attr->Err_0)
    } else if composite_op_attr is Err {
        Err(composite_op_attr->Err_0)
    } else if opacity_attr is Err {
        Err(opacity_attr->Err_0)
    } else if clone_from_uuid_attr is Err {
        Err(clone_from_uuid_attr->Err_0)
    } else if channel_flags_attr is Err {
        Err(channel_flags_attr->Err_0)
    } else if collapsed_attr is Err {
        Err(collapsed_attr->Err_0)
    } else if clone_type is Err {
        Err(clone_type->Err_0)
    } else if composite_op is Err {
        Err(composite_op->Err_0)
    } else if opacity is Err {
        Err(opacity->Err_0)
    } else if clone_from_uuid is Err {
        Err(clone_from_uuid->Err_0)
    } else if collapsed is Err {
        Err(collapsed->Err_0)
    } else {
        Ok(
            CloneLayerPropsView {
                clone_type: clone_type->Ok_0,
                clone_from: clone_from_attr->Ok_0,
                composite_op: composite_op->Ok_0,
                opacity: opacity->Ok_0,
                clone_from_uuid: clone_from_uuid->Ok_0,
                channel_flags: channel_flags_attr->Ok_0,
                collapsed: collapsed->Ok_0,
            },
        )
    }
}

impl CloneLayerProps {
    /// Reads the attributes from a tag. The first failure ends the reading.
    pub fn parse_tag(tag: &Tag) -> (r: Result<CloneLayerProps, MetadataErrorReason>)
        ensures
            reason_result(r) == clone_layer_props(tag@),
    {
        reveal(clone_layer_props);
        let clone_type_attr = lift(event_get_attr(tag, "clonetype"))?;
        let clone_from_attr = lift(get_text(tag, "clonefrom"))?;
        let composite_op_attr = lift(event_get_attr(tag, "compositeop"))?;
        let opacity_attr = lift(event_get_attr(tag, "opacity"))?;
        let clone_from_uuid_attr = lift(get_text(tag, "clonefromuuid"))?;
        let channel_flags_attr = lift(get_text(tag, "channelflags"))?;
        let collapsed_attr = lift(event_get_attr(tag, "collapsed"))?;
        let clone_type = lift(parse_u32(clone_type_attr))?;
        let composite_op = parse_composite_op(composite_op_attr)?;
        let opacity = lift(parse_u8(opacity_attr))?;
        let clone_from_uuid = parse_uuid(clone_from_uuid_attr.as_str())?;
        let collapsed = lift(parse_bool(collapsed_attr))?;
        Ok(CloneLayerProps {
            clone_type,
            clone_from: clone_from_attr,
            composite_op,
            opacity,
            clone_from_uuid,
            channel_flags: channel_flags_attr,
            collapsed,
        })
    }
}

/// Attributes of a colorize mask.
#[derive(Debug, PartialEq, Eq, Structural, Clone, Copy)]
pub struct ColorizeMaskProps {
    /// Whether coloring is limited to the device.
    pub limit_to_device: bool,
    /// Whether the coloring is shown.
    pub show_coloring: bool,
    /// Strength of the cleanup.
    pub cleanup: u8,
    /// Whether edges are detected.
    pub use_edge_detection: bool,
    /// Size of the edge detection.
    pub edge_detection_size: u32,
    /// Radius of the fuzzy selection.
    pub fuzzy_radius: u32,
    /// Whether the key strokes are edited.
    pub edit_keystrokes: bool,
    /// How the node is blended onto what lies under it.
    pub composite_op: CompositeOp,
    /// Colorspace of the pixels.
    pub colorspace: Colorspace,
}

impl View for ColorizeMaskProps {
    type V = ColorizeMaskProps;

    open spec fn view(&self) -> ColorizeMaskProps {
        *self
    }
}

/// What the attributes of a tag give as [`ColorizeMaskProps`]: every attribute is
/// first looked up, then every value is read, both in the order of the
/// fields, and the first failure is the result.
#[verifier::opaque]
pub open spec fn colorize_mask_props(tag: TagView) -> Result<ColorizeMaskProps, ReasonView> {
    let limit_to_device_attr = lifted(get_attr(tag, "limit-to-device"@));
    let show_coloring_attr = lifted(get_attr(tag, "show-coloring"@));
    let cleanup_attr = lifted(get_attr(tag, "cleanup"@));
    let use_edge_detection_attr = lifted(get_attr(tag, "use-edge-detection"@));
    let edge_detection_size_attr = lifted(get_attr(tag, "edge-detection-size"@));
    let fuzzy_radius_attr = lifted(get_attr(tag, "fuzzy-radius"@));
    let edit_keystrokes_attr = lifted(get_attr(tag, "edit-keystrokes"@));
    let composite_op_attr = lifted(get_attr(tag, "compositeop"@));
    let colorspace_attr = lifted(text_attr(tag, "colorspacename"@));
    let limit_to_device = lifted(bool_value(limit_to_device_attr->Ok_0));
    let show_coloring = lifted(bool_value(show_coloring_attr->Ok_0));
    let cleanup = lifted(u8_value(cleanup_attr->Ok_0));
    let use_edge_detection = lifted(bool_value(use_edge_detection_attr->Ok_0));
    let edge_detection_size = lifted(u32_value(edge_detection_size_attr->Ok_0));
    let fuzzy_radius = lifted(u32_value(fuzzy_radius_attr->Ok_0));
    let edit_keystrokes = lifted(bool_value(edit_keystrokes_attr->Ok_0));
    let composite_op = composite_op_value(composite_op_attr->Ok_0);
    let colorspace = colorspace_value(colorspace_attr->Ok_0);
    if limit_to_device_attr is Err {
        Err(limit_to_device_attr->Err_0)
    } else if show_coloring_attr is Err {
        Err(show_coloring_attr->Err_0)
    } else if cleanup_attr is Err {
        Err(cleanup_attr->Err_0)
    } else if use_edge_detection_attr is Err {
        Err(use_edge_detection_attr->Err_0)
    } else if edge_detection_size_attr is Err {
        Err(edge_detection_size_attr->Err_0)
    } else if fuzzy_radius_attr is Err {
        Err(fuzzy_radius_attr->Err_0)
    } else if edit_keystrokes_attr is Err {
        Err(edit_keystrokes_attr->Err_0)
    } else if composite_op_attr is Err {
        Err(composite_op_attr->Err_0)
    } else if colorspace_attr is Err {
        Err(colorspace_attr->Err_0)
    } else if limit_to_device is Err {
        Err(limit_to_device->Err_0)
    } else if show_coloring is Err {
        Err(show_coloring->Err_0)
    } else if cleanup is Err {
        Err(cleanup->Err_0)
    } else if use_edge_detection is Err {
        Err(use_edge_detection->Err_0)
    } else if edge_detection_size is Err {
        Err(edge_detection_size->Err_0)
    } else if fuzzy_radius is Err {
        Err(fuzzy_radius->Err_0)
    } else if edit_keystrokes is Err {
        Err(edit_keystrokes->Err_0)
    } else if composite_op is Err {
        Err(composite_op->Err_0)
    } else if colorspace is Err {
        Err(colorspace->Err_0)
    } else {
        Ok(
            ColorizeMaskProps {
                limit_to_device: limit_to_device->Ok_0,
                show_coloring: show_coloring->Ok_0,
                cleanup: cleanup->Ok_0,
                use_edge_detection: use_edge_detection->Ok_0,
                edge_detection_size: edge_detection_size->Ok_0,
                fuzzy_radius: fuzzy_radius->Ok_0,
                edit_keystrokes: edit_keystrokes->Ok_0,
                composite_op: composite_op->Ok_0,
                colorspace: colorspace->Ok_0,
            },
        )
    }
}

impl ColorizeMaskProps {
    /// Reads the attributes from a tag. The first failure ends the reading.
    pub fn parse_tag(tag: &Tag) -> (r: Result<ColorizeMaskProps, MetadataErrorReason>)
        ensures
            reason_result(r) == colorize_mask_props(tag@),
    {
        reveal(colorize_mask_props);
        let limit_to_device_attr = lift(event_get_attr(tag, "limit-to-device"))?;
        let show_coloring_attr = lift(event_get_attr(tag, "show-coloring"))?;
        let cleanup_attr = lift(event_get_attr(tag, "cleanup"))?;
        let use_edge_detection_attr = lift(event_get_attr(tag, "use-edge-detection"))?;
        let edge_detection_size_attr = lift(event_get_attr(tag, "edge-detection-size"))?;
        let fuzzy_radius_attr = lift(event_get_attr(tag, "fuzzy-radius"))?;
        let edit_keystrokes_attr = lift(event_get_attr(tag, "edit-keystrokes"))?;
        let composite_op_attr = lift(event_get_attr(tag, "compositeop"))?;
        let colorspace_attr = lift(get_text(tag, "colorspacename"))?;
        let limit_to_device = lift(parse_bool(limit_to_device_attr))?;
        let show_coloring = lift(parse_bool(show_coloring_attr))?;
        let cleanup = lift(parse_u8(cleanup_attr))?;
        let use_edge_detection = lift(parse_bool(use_edge_detection_attr))?;
        let edge_detection_size = lift(parse_u32(edge_detection_size_attr))?;
        let fuzzy_radius = lift(parse_u32(fuzzy_radius_attr))?;
        let edit_keystrokes = lift(parse_bool(edit_keystrokes_attr))?;
        let composite_op = parse_composite_op(composite_op_attr)?;
        let colorspace = parse_colorspace(colorspace_attr.as_str())?;
        Ok(ColorizeMaskProps {
            limit_to_device,
            show_coloring,
            cleanup,
            use_edge_detection,
            edge_detection_size,
            fuzzy_radius,
            edit_keystrokes,
            composite_op,
            colorspace,
        })
    }
}

/// Attributes of a vector layer (`shapelayer`).
#[derive(Debug, PartialEq, Eq)]
pub struct VectorLayerProps {
    /// How the node is blended onto what lies under it.
    pub composite_op: CompositeOp,
    /// Opacity, from 0 (transparent) to 255.
    pub opacity: u8,
    /// Which channels are active.
    pub channel_flags: String,
    /// Whether the node is shown collapsed in the layer list.
    pub collapsed: bool,
}

/// Model of [`VectorLayerProps`].
pub ghost struct VectorLayerPropsView {
    pub composite_op: CompositeOp,
    pub opacity: u8,
    pub channel_flags: Seq<char>,
    pub collapsed: bool,
}

impl View for VectorLayerProps {
    type V = VectorLayerPropsView;

    open spec fn view(&self) -> VectorLayerPropsView {
        VectorLayerPropsView {
            composite_op: self.composite_op,
            opacity: self.opacity,
            channel_flags: self.channel_flags@,
            collapsed: self.collapsed,
        }
    }
}

impl Clone for VectorLayerProps {
    fn clone(&self) -> (copy: VectorLayerProps)
        ensures
            copy@ == self@,
    {
        VectorLayerProps {
            composite_op: self.composite_op,
            opacity: self.opacity,
            channel_flags: self.channel_flags.clone(),
            collapsed: self.collapsed,
        }
    }
}

/// What the attributes of a tag give as [`VectorLayerProps`]: every attribute is
/// first looked up, then every value is read, both in the order of the
/// fields, and the first failure is the result.
#[verifier::opaque]
pub open spec fn vector_layer_props(tag: TagView) -> Result<VectorLayerPropsView, ReasonView> {
    let composite_op_attr = lifted(get_attr(tag, "compositeop"@));
    let opacity_attr = lifted(get_attr(tag, "opacity"@));
    let channel_flags_attr = lifted(text_attr(tag, "channelflags"@));
    let collapsed_attr = lifted(get_attr(tag, "collapsed"@));
    let composite_op = composite_op_value(composite_op_attr->Ok_0);
    let opacity = lifted(u8_value(opacity_attr->Ok_0));
    let collapsed = lifted(bool_value(collapsed_attr->Ok_0));
    if composite_op_attr is Err {
        Err(composite_op_attr->Err_0)
    } else if opacity_attr is Err {
        Err(opacity_attr->Err_0)
    } else if channel_flags_attr is Err {
        Err(channel_flags_attr->Err_0)
    } else if collapsed_attr is Err {
        Err(collapsed_attr->Err_0)
    } else if composite_op is Err {
        Err(composite_op->Err_0)
    } else if opacity is Err {
        Err(opacity->Err_0)
    } else if collapsed is Err {
        Err(collapsed->Err_0)
    } else {
        Ok(
            VectorLayerPropsView {
                composite_op: composite_op->Ok_0,
                opacity: opacity->Ok_0,
                channel_flags: channel_flags_attr->Ok_0,
                collapsed: collapsed->Ok_0,
            },
        )
    }
}

impl VectorLayerProps {
    /// Reads the attributes from a tag. The first failure ends the reading.
    pub fn parse_tag(tag: &Tag) -> (r: Result<VectorLayerProps, MetadataErrorReason>)
        ensures
            reason_result(r) == vector_layer_props(tag@),
    {
        reveal(vector_layer_props);
        let composite_op_attr = lift(event_get_attr(tag, "compositeop"))?;
        let opacity_attr = lift(event_get_attr(tag, "opacity"))?;
        let channel_flags_attr = lift(get_text(tag, "channelflags"))?;
        let collapsed_attr = lift(event_get_attr(tag, "collapsed"))?;
        let composite_op = parse_composite_op(composite_op_attr)?;
        let opacity = lift(parse_u8(opacity_attr))?;
        let collapsed = lift(parse_bool(collapsed_attr))?;
        Ok(VectorLayerProps {
            composite_op,
            opacity,
            channel_flags: channel_flags_attr,
            collapsed,
        })
    }
}

} // verus!
