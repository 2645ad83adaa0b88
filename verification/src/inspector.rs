//! The inspector: reading and writing the authored values of one node.
use vstd::prelude::*;

use crate::components::{
    NativeAlign, NativeConstraint, NativeLayout, NativeNode, NativeOverflow, NativePosition,
    NativeSize, NativeWrap, NodeView, TypographyView,
};
use crate::identifiers;
use crate::text;
use crate::values;

verus! {

/// The values that have a text field.
#[derive(Clone, Copy, Debug, PartialEq, Eq, Structural)]
pub enum InspectorValueField {
    Width,
    Height,
    Gap,
    Padding,
    Margin,
    Basis,
    MinWidth,
    MaxWidth,
    MinHeight,
    MaxHeight,
    GridColumns,
    GridRows,
    ColumnStart,
    ColumnSpan,
    RowStart,
    RowSpan,
    OffsetLeft,
    OffsetTop,
    OffsetRight,
    OffsetBottom,
    ZIndex,
    Opacity,
    Rotation,
    Radius,
    Background,
    Foreground,
    Border,
    Text,
    FontFamily,
    FontSize,
    FontWeight,
    LineHeight,
    Action,
}

/// The longest text of a node.
pub const MAX_TEXT_BYTES: usize = 16_384;

/// The last painted size of the selection, in whole pixels; absent where it was not painted.
#[derive(Debug)]
pub struct MeasuredSize {
    pub width: Option<String>,
    pub height: Option<String>,
}

/// The axes of a size.
#[derive(Clone, Copy, Debug, PartialEq, Eq, Structural)]
pub enum InspectorSizeAxis {
    Width,
    Height,
}

/// The axes of an alignment.
#[derive(Clone, Copy, Debug, PartialEq, Eq, Structural)]
pub enum InspectorAlignmentAxis {
    Align,
    Justify,
}

// ---------------------------------------------------------------------------
// Reading
// ---------------------------------------------------------------------------

/// A measured length, or "0" where nothing was painted.
pub open spec fn measured_text(measured: Option<Seq<char>>) -> Seq<char> {
    match measured {
        Some(pixels) => pixels,
        None => "0"@,
    }
}

/// A size field: the fixed size, or the measured one where the size follows content or parent.
pub open spec fn size_text(size: NativeSize, measured: Option<Seq<char>>) -> Seq<char> {
    match size {
        NativeSize::Fixed(value) => text::decimal_text(value as nat),
        NativeSize::Fill | NativeSize::Hug => measured_text(measured),
    }
}

/// An optional text, empty where there is none.
pub open spec fn text_or_empty(value: Option<Seq<char>>) -> Seq<char> {
    match value {
        Some(value) => value,
        None => ""@,
    }
}

/// What the field shows for a node.
pub open spec fn node_field_text(
    node: NodeView,
    width: Option<Seq<char>>,
    height: Option<Seq<char>>,
    field: InspectorValueField,
) -> Seq<char> {
    let layout = node.layout;
    match field {
        InspectorValueField::Width => size_text(layout.width, width),
        InspectorValueField::Height => size_text(layout.height, height),
        InspectorValueField::Gap => text::decimal_text(layout.gap as nat),
        InspectorValueField::Padding => text::decimal_text(layout.padding as nat),
        InspectorValueField::Margin => if layout.margin.top == layout.margin.right
            && layout.margin.top == layout.margin.bottom && layout.margin.top
            == layout.margin.left {
            text::decimal_text(layout.margin.top as nat)
        } else {
            "mixed"@
        },
        InspectorValueField::Basis => values::optional_number_text(
            values::as_number(layout.basis),
        ),
        InspectorValueField::MinWidth => values::optional_number_text(
            values::as_number(layout.min_width),
        ),
        InspectorValueField::MaxWidth => values::optional_number_text(
            values::as_number(layout.max_width),
        ),
        InspectorValueField::MinHeight => values::optional_number_text(
            values::as_number(layout.min_height),
        ),
        InspectorValueField::MaxHeight => values::optional_number_text(
            values::as_number(layout.max_height),
        ),
        InspectorValueField::GridColumns => text::decimal_text(layout.grid_columns as nat),
        InspectorValueField::GridRows => text::decimal_text(layout.grid_rows as nat),
        InspectorValueField::ColumnStart => values::optional_number_text(
            values::as_signed_number(layout.column_start),
        ),
        InspectorValueField::ColumnSpan => text::decimal_text(layout.column_span as nat),
        InspectorValueField::RowStart => values::optional_number_text(
            values::as_signed_number(layout.row_start),
        ),
        InspectorValueField::RowSpan => text::decimal_text(layout.row_span as nat),
        InspectorValueField::OffsetLeft => values::optional_number_text(
            values::as_signed_number(layout.offsets.left),
        ),
        InspectorValueField::OffsetTop => values::optional_number_text(
            values::as_signed_number(layout.offsets.top),
        ),
        InspectorValueField::OffsetRight => values::optional_number_text(
            values::as_signed_number(layout.offsets.right),
        ),
        InspectorValueField::OffsetBottom => values::optional_number_text(
            values::as_signed_number(layout.offsets.bottom),
        ),
        InspectorValueField::ZIndex => text::signed_text(layout.z_index as int),
        InspectorValueField::Opacity => text::decimal_text(layout.opacity_percent as nat),
        InspectorValueField::Rotation => text::signed_text(layout.rotation_degrees as int),
        InspectorValueField::Radius => text::decimal_text(node.appearance.radius as nat),
        InspectorValueField::Background => values::color_text(node.appearance.background),
        InspectorValueField::Foreground => values::color_text(Some(node.appearance.foreground)),
        InspectorValueField::Border => values::color_text(node.appearance.border),
        InspectorValueField::Text => text_or_empty(node.text),
        InspectorValueField::FontFamily => node.typography.family,
        InspectorValueField::FontSize => text::decimal_text(node.typography.size as nat),
        InspectorValueField::FontWeight => text::decimal_text(node.typography.weight as nat),
        InspectorValueField::LineHeight => text::decimal_text(node.typography.line_height as nat),
        InspectorValueField::Action => text_or_empty(node.action),
    }
}

/// What the field shows where no node is selected.
pub open spec fn empty_field_text(
    width: Option<Seq<char>>,
    height: Option<Seq<char>>,
    field: InspectorValueField,
) -> Seq<char> {
    match field {
        InspectorValueField::Width => measured_text(width),
        InspectorValueField::Height => measured_text(height),
        InspectorValueField::Gap | InspectorValueField::Padding | InspectorValueField::Margin
        | InspectorValueField::GridColumns | InspectorValueField::GridRows
        | InspectorValueField::ZIndex | InspectorValueField::Rotation
        | InspectorValueField::Radius => "0"@,
        InspectorValueField::ColumnSpan | InspectorValueField::RowSpan => "1"@,
        InspectorValueField::Opacity => "100"@,
        InspectorValueField::Background | InspectorValueField::Border => "transparent"@,
        InspectorValueField::Foreground => "#e7e9ee"@,
        InspectorValueField::FontFamily => "Geist"@,
        InspectorValueField::FontSize => "14"@,
        InspectorValueField::FontWeight => "400"@,
        InspectorValueField::LineHeight => "20"@,
        _ => ""@,
    }
}

/// What the field shows.
pub open spec fn field_text(
    node: Option<NodeView>,
    width: Option<Seq<char>>,
    height: Option<Seq<char>>,
    field: InspectorValueField,
) -> Seq<char> {
    match node {
        Some(node) => node_field_text(node, width, height, field),
        None => empty_field_text(width, height, field),
    }
}

fn measured_label(measured: &Option<String>) -> (out: String)
    ensures
        out@ == measured_text(text::text_view(*measured)),
{
    match measured {
        Some(pixels) => pixels.clone(),
        None => "0".to_owned(),
    }
}

fn size_label(size: NativeSize, measured: &Option<String>) -> (out: String)
    ensures
        out@ == size_text(size, text::text_view(*measured)),
{
    match size {
        NativeSize::Fixed(value) => text::decimal(value as u64),
        NativeSize::Fill | NativeSize::Hug => measured_label(measured),
    }
}

fn text_or_blank(value: &Option<String>) -> (out: String)
    ensures
        out@ == text_or_empty(text::text_view(*value)),
{
    match value {
        Some(value) => value.clone(),
        None => "".to_owned(),
    }
}

fn node_value(node: &NativeNode, measured: &MeasuredSize, field: InspectorValueField) -> (out:
    String)
    ensures
        out@ == node_field_text(
            node@,
            text::text_view(measured.width),
            text::text_view(measured.height),
            field,
        ),
{
    let layout = node.layout;
    match field {
        InspectorValueField::Width => size_label(layout.width, &measured.width),
        InspectorValueField::Height => size_label(layout.height, &measured.height),
        InspectorValueField::Gap => text::decimal(layout.gap as u64),
        InspectorValueField::Padding => text::decimal(layout.padding as u64),
        InspectorValueField::Margin => {
            let edges = layout.margin;
            if edges.top == edges.right && edges.top == edges.bottom && edges.top == edges.left {
                text::decimal(edges.top as u64)
            } else {
                "mixed".to_owned()
            }
        },
        InspectorValueField::Basis => values::optional_u16_value(layout.basis),
        InspectorValueField::MinWidth => values::optional_u16_value(layout.min_width),
        InspectorValueField::MaxWidth => values::optional_u16_value(layout.max_width),
        InspectorValueField::MinHeight => values::optional_u16_value(layout.min_height),
        InspectorValueField::MaxHeight => values::optional_u16_value(layout.max_height),
        InspectorValueField::GridColumns => text::decimal(layout.grid_columns as u64),
        InspectorValueField::GridRows => text::decimal(layout.grid_rows as u64),
        InspectorValueField::ColumnStart => values::optional_i16_value(layout.column_start),
        InspectorValueField::ColumnSpan => text::decimal(layout.column_span as u64),
        InspectorValueField::RowStart => values::optional_i16_value(layout.row_start),
        InspectorValueField::RowSpan => text::decimal(layout.row_span as u64),
        InspectorValueField::OffsetLeft => values::optional_i16_value(layout.offsets.left),
        InspectorValueField::OffsetTop => values::optional_i16_value(layout.offsets.top),
        InspectorValueField::OffsetRight => values::optional_i16_value(layout.offsets.right),
        InspectorValueField::OffsetBottom => values::optional_i16_value(layout.offsets.bottom),
        InspectorValueField::ZIndex => text::decimal_signed(layout.z_index as i64),
        InspectorValueField::Opacity => text::decimal(layout.opacity_percent as u64),
        InspectorValueField::Rotation => text::decimal_signed(layout.rotation_degrees as i64),
        InspectorValueField::Radius => text::decimal(node.appearance.radius as u64),
        InspectorValueField::Background => values::format_optional_color(
            node.appearance.background,
        ),
        InspectorValueField::Foreground => values::format_optional_color(
            Some(node.appearance.foreground),
        ),
        InspectorValueField::Border => values::format_optional_color(node.appearance.border),
        InspectorValueField::Text => text_or_blank(&node.text),
        InspectorValueField::FontFamily => node.typography.family.clone(),
        InspectorValueField::FontSize => text::decimal(node.typography.size as u64),
        InspectorValueField::FontWeight => text::decimal(node.typography.weight as u64),
        InspectorValueField::LineHeight => text::decimal(node.typography.line_height as u64),
        InspectorValueField::Action => text_or_blank(&node.action),
    }
}

fn empty_value(measured: &MeasuredSize, field: InspectorValueField) -> (out: String)
    ensures
        out@ == empty_field_text(
            text::text_view(measured.width),
            text::text_view(measured.height),
            field,
        ),
{
    match field {
        InspectorValueField::Width => measured_label(&measured.width),
        InspectorValueField::Height => measured_label(&measured.height),
        InspectorValueField::Gap | InspectorValueField::Padding | InspectorValueField::Margin
        | InspectorValueField::GridColumns | InspectorValueField::GridRows
        | InspectorValueField::ZIndex | InspectorValueField::Rotation
        | InspectorValueField::Radius => "0".to_owned(),
        InspectorValueField::ColumnSpan | InspectorValueField::RowSpan => "1".to_owned(),
        InspectorValueField::Opacity => "100".to_owned(),
        InspectorValueField::Background | InspectorValueField::Border => "transparent".to_owned(),
        InspectorValueField::Foreground => "#e7e9ee".to_owned(),
        InspectorValueField::FontFamily => "Geist".to_owned(),
        InspectorValueField::FontSize => "14".to_owned(),
        InspectorValueField::FontWeight => "400".to_owned(),
        InspectorValueField::LineHeight => "20".to_owned(),
        _ => "".to_owned(),
    }
}

/// The view of the selected node.
pub open spec fn node_view(node: Option<&NativeNode>) -> Option<NodeView> {
    match node {
        Some(node) => Some(node@),
        None => None,
    }
}

/// What the field shows.
pub fn inspector_value(
    node: Option<&NativeNode>,
    measured: &MeasuredSize,
    field: InspectorValueField,
) -> (out: String)
    ensures
        out@ == field_text(
            node_view(node),
            text::text_view(measured.width),
            text::text_view(measured.height),
            field,
        ),
{
    match node {
        Some(node) => node_value(node, measured, field),
        None => empty_value(measured, field),
    }
}

// ---------------------------------------------------------------------------
// Writing
// ---------------------------------------------------------------------------

/// What a field's text stands for.
#[derive(Debug)]
pub enum FieldChange {
    Number(u16),
    Signed(i16),
    OptionalNumber(Option<u16>),
    OptionalSigned(Option<i16>),
    Color(Option<u32>),
    Text(Option<String>),
}

/// What a change says.
#[verifier::ext_equal]
pub enum ChangeView {
    Number(u16),
    Signed(i16),
    OptionalNumber(Option<u16>),
    OptionalSigned(Option<i16>),
    Color(Option<u32>),
    Text(Option<Seq<char>>),
}

impl View for FieldChange {
    type V = ChangeView;

    open spec fn view(&self) -> ChangeView {
        match self {
            FieldChange::Number(n) => ChangeView::Number(*n),
            FieldChange::Signed(n) => ChangeView::Signed(*n),
            FieldChange::OptionalNumber(n) => ChangeView::OptionalNumber(*n),
            FieldChange::OptionalSigned(n) => ChangeView::OptionalSigned(*n),
            FieldChange::Color(c) => ChangeView::Color(*c),
            FieldChange::Text(t) => ChangeView::Text(text::text_view(*t)),
        }
    }
}

/// A number within bounds.
pub open spec fn number_change(
    value: Seq<char>,
    minimum: u16,
    maximum: u16,
    field: Seq<char>,
) -> Result<ChangeView, Seq<char>> {
    match values::bounded_u16(value, minimum, maximum) {
        Some(n) => Ok(ChangeView::Number(n)),
        None => Err(values::bounds_message(field, minimum as int, maximum as int)),
    }
}

/// A signed number within bounds.
pub open spec fn signed_change(
    value: Seq<char>,
    minimum: int,
    maximum: int,
    field: Seq<char>,
) -> Result<ChangeView, Seq<char>> {
    match values::bounded_i16(value, minimum, maximum) {
        Some(n) => Ok(ChangeView::Signed(n)),
        None => Err(values::bounds_message(field, minimum, maximum)),
    }
}

/// An optional number within bounds.
pub open spec fn optional_change(
    value: Seq<char>,
    minimum: u16,
    maximum: u16,
    field: Seq<char>,
) -> Result<ChangeView, Seq<char>> {
    if values::reads_automatic(value) {
        Ok(ChangeView::OptionalNumber(None))
    } else {
        match values::bounded_u16(value, minimum, maximum) {
            Some(n) => Ok(ChangeView::OptionalNumber(Some(n))),
            None => Err(values::bounds_message(field, minimum as int, maximum as int)),
        }
    }
}

/// An optional signed number within bounds.
pub open spec fn optional_signed_change(
    value: Seq<char>,
    minimum: int,
    maximum: int,
    field: Seq<char>,
) -> Result<ChangeView, Seq<char>> {
    if values::reads_automatic(value) {
        Ok(ChangeView::OptionalSigned(None))
    } else {
        match values::bounded_i16(value, minimum, maximum) {
            Some(n) => Ok(ChangeView::OptionalSigned(Some(n))),
            None => Err(values::bounds_message(field, minimum, maximum)),
        }
    }
}

/// An optional color.
pub open spec fn color_change(value: Seq<char>) -> Result<ChangeView, Seq<char>> {
    match values::color_value(value) {
        Ok(Some(n)) => Ok(ChangeView::Color(Some(n as u32))),
        Ok(None) => Ok(ChangeView::Color(None)),
        Err(reason) => Err(reason),
    }
}

/// The text, or none where it is empty.
pub open spec fn text_unless_empty(value: Seq<char>) -> Option<Seq<char>> {
    if value.len() == 0 {
        None
    } else {
        Some(value)
    }
}

/// What the text of a field stands for, or why it is refused.
pub open spec fn change_of(field: InspectorValueField, value: Seq<char>) -> Result<
    ChangeView,
    Seq<char>,
> {
    match field {
        InspectorValueField::Width | InspectorValueField::Height => number_change(
            value,
            1,
            4096,
            "size"@,
        ),
        InspectorValueField::Gap | InspectorValueField::Padding | InspectorValueField::Margin
        | InspectorValueField::Radius => number_change(value, 0, 1024, "spacing"@),
        InspectorValueField::Basis | InspectorValueField::MinWidth
        | InspectorValueField::MaxWidth | InspectorValueField::MinHeight
        | InspectorValueField::MaxHeight => optional_change(value, 0, 4096, "layout size"@),
        InspectorValueField::GridColumns | InspectorValueField::GridRows => number_change(
            value,
            0,
            64,
            "grid track count"@,
        ),
        InspectorValueField::ColumnSpan | InspectorValueField::RowSpan => number_change(
            value,
            1,
            64,
            "grid span"@,
        ),
        InspectorValueField::ColumnStart | InspectorValueField::RowStart
        | InspectorValueField::OffsetLeft | InspectorValueField::OffsetTop
        | InspectorValueField::OffsetRight | InspectorValueField::OffsetBottom => {
            optional_signed_change(value, -16384, 16384, "position"@)
        },
        InspectorValueField::ZIndex | InspectorValueField::Rotation => signed_change(
            value,
            -32767,
            32767,
            "transform"@,
        ),
        InspectorValueField::Opacity => number_change(value, 0, 100, "opacity"@),
        InspectorValueField::Background | InspectorValueField::Border => color_change(value),
        InspectorValueField::Foreground => if color_change(value)
            == Ok::<ChangeView, Seq<char>>(ChangeView::Color(None)) {
            Err("Foreground requires a #RRGGBB color"@)
        } else {
            color_change(value)
        },
        InspectorValueField::Text => if text::byte_len(value) > MAX_TEXT_BYTES {
            Err("Text exceeds the 16 KiB component bound"@)
        } else {
            Ok(ChangeView::Text(text_unless_empty(value)))
        },
        InspectorValueField::FontFamily => {
            let family = text::trimmed(value);
            if family.len() == 0 || text::byte_len(family) > 128 {
                Err("Font family must contain 1–128 characters"@)
            } else {
                Ok(ChangeView::Text(Some(family)))
            }
        },
        InspectorValueField::FontSize => number_change(value, 6, 512, "font size"@),
        InspectorValueField::FontWeight => match number_change(value, 100, 900, "font weight"@) {
            Ok(ChangeView::Number(n)) => if n % 50 != 0 {
                Err("Font weight must use increments of 50"@)
            } else {
                Ok(ChangeView::Number(n))
            },
            other => other,
        },
        InspectorValueField::LineHeight => number_change(value, 6, 1024, "line height"@),
        InspectorValueField::Action => {
            let action = text::trimmed(value);
            if action.len() > 0 && !identifiers::portable_identifier(action) {
                Err("Action must use a portable identifier"@)
            } else {
                Ok(ChangeView::Text(text_unless_empty(action)))
            }
        },
    }
}

/// How people are told of a change of this field.
pub open spec fn change_description(field: InspectorValueField) -> Seq<char> {
    match field {
        InspectorValueField::Width | InspectorValueField::Height => "Size changed"@,
        InspectorValueField::Gap | InspectorValueField::Padding | InspectorValueField::Margin
        | InspectorValueField::Radius => "Spacing changed"@,
        InspectorValueField::Basis | InspectorValueField::MinWidth
        | InspectorValueField::MaxWidth | InspectorValueField::MinHeight
        | InspectorValueField::MaxHeight => "Layout bound changed"@,
        InspectorValueField::GridColumns | InspectorValueField::GridRows => "Grid tracks changed"@,
        InspectorValueField::ColumnSpan | InspectorValueField::RowSpan => "Grid span changed"@,
        InspectorValueField::ColumnStart | InspectorValueField::RowStart
        | InspectorValueField::OffsetLeft | InspectorValueField::OffsetTop
        | InspectorValueField::OffsetRight | InspectorValueField::OffsetBottom => {
            "Position changed"@
        },
        InspectorValueField::ZIndex | InspectorValueField::Rotation => "Transform changed"@,
        InspectorValueField::Opacity => "Opacity changed"@,
        InspectorValueField::Background | InspectorValueField::Foreground
        | InspectorValueField::Border => "Color changed"@,
        InspectorValueField::Text => "Content changed"@,
        InspectorValueField::FontFamily => "Font family changed"@,
        InspectorValueField::FontSize => "Font size changed"@,
        InspectorValueField::FontWeight => "Font weight changed"@,
        InspectorValueField::LineHeight => "Line height changed"@,
        InspectorValueField::Action => "Action changed"@,
    }
}

/// The layout with one field changed.
pub open spec fn changed_layout(
    layout: NativeLayout,
    field: InspectorValueField,
    change: ChangeView,
) -> NativeLayout {
    match (field, change) {
        (InspectorValueField::Width, ChangeView::Number(n)) => NativeLayout {
            width: NativeSize::Fixed(n),
            ..layout
        },
        (InspectorValueField::Height, ChangeView::Number(n)) => NativeLayout {
            height: NativeSize::Fixed(n),
            ..layout
        },
        (InspectorValueField::Gap, ChangeView::Number(n)) => NativeLayout { gap: n, ..layout },
        (InspectorValueField::Padding, ChangeView::Number(n)) => NativeLayout {
            padding: n,
            ..layout
        },
        (InspectorValueField::Margin, ChangeView::Number(n)) => NativeLayout {
            margin: crate::components::NativeEdges { top: n, right: n, bottom: n, left: n },
            ..layout
        },
        (InspectorValueField::Basis, ChangeView::OptionalNumber(n)) => NativeLayout {
            basis: n,
            ..layout
        },
        (InspectorValueField::MinWidth, ChangeView::OptionalNumber(n)) => NativeLayout {
            min_width: n,
            ..layout
        },
        (InspectorValueField::MaxWidth, ChangeView::OptionalNumber(n)) => NativeLayout {
            max_width: n,
            ..layout
        },
        (InspectorValueField::MinHeight, ChangeView::OptionalNumber(n)) => NativeLayout {
            min_height: n,
            ..layout
        },
        (InspectorValueField::MaxHeight, ChangeView::OptionalNumber(n)) => NativeLayout {
            max_height: n,
            ..layout
        },
        (InspectorValueField::GridColumns, ChangeView::Number(n)) => NativeLayout {
            grid_columns: n,
            ..layout
        },
        (InspectorValueField::GridRows, ChangeView::Number(n)) => NativeLayout {
            grid_rows: n,
            ..layout
        },
        (InspectorValueField::ColumnSpan, ChangeView::Number(n)) => NativeLayout {
            column_span: n,
            ..layout
        },
        (InspectorValueField::RowSpan, ChangeView::Number(n)) => NativeLayout {
            row_span: n,
            ..layout
        },
        (InspectorValueField::ColumnStart, ChangeView::OptionalSigned(n)) => NativeLayout {
            column_start: n,
            ..layout
        },
        (InspectorValueField::RowStart, ChangeView::OptionalSigned(n)) => NativeLayout {
            row_start: n,
            ..layout
        },
        (InspectorValueField::OffsetLeft, ChangeView::OptionalSigned(n)) => NativeLayout {
            offsets: crate::components::NativeOffsets { left: n, ..layout.offsets },
            ..layout
        },
        (InspectorValueField::OffsetTop, ChangeView::OptionalSigned(n)) => NativeLayout {
            offsets: crate::components::NativeOffsets { top: n, ..layout.offsets },
            ..layout
        },
        (InspectorValueField::OffsetRight, ChangeView::OptionalSigned(n)) => NativeLayout {
            offsets: crate::components::NativeOffsets { right: n, ..layout.offsets },
            ..layout
        },
        (InspectorValueField::OffsetBottom, ChangeView::OptionalSigned(n)) => NativeLayout {
            offsets: crate::components::NativeOffsets { bottom: n, ..layout.offsets },
            ..layout
        },
        (InspectorValueField::ZIndex, ChangeView::Signed(n)) => NativeLayout {
            z_index: n,
            ..layout
        },
        (InspectorValueField::Rotation, ChangeView::Signed(n)) => NativeLayout {
            rotation_degrees: n,
            ..layout
        },
        (InspectorValueField::Opacity, ChangeView::Number(n)) => NativeLayout {
            opacity_percent: n as u8,
            ..layout
        },
        _ => layout,
    }
}

/// The node with one field changed.
pub open spec fn changed_node(
    node: NodeView,
    field: InspectorValueField,
    change: ChangeView,
) -> NodeView {
    match (field, change) {
        (InspectorValueField::Radius, ChangeView::Number(n)) => NodeView {
            appearance: crate::components::NativeAppearance { radius: n, ..node.appearance },
            ..node
        },
        (InspectorValueField::Background, ChangeView::Color(c)) => NodeView {
            appearance: crate::components::NativeAppearance { background: c, ..node.appearance },
            ..node
        },
        (InspectorValueField::Foreground, ChangeView::Color(Some(c))) => NodeView {
            appearance: crate::components::NativeAppearance { foreground: c, ..node.appearance },
            ..node
        },
        (InspectorValueField::Border, ChangeView::Color(c)) => NodeView {
            appearance: crate::components::NativeAppearance { border: c, ..node.appearance },
            ..node
        },
        (InspectorValueField::Text, ChangeView::Text(t)) => NodeView { text: t, ..node },
        (InspectorValueField::Action, ChangeView::Text(t)) => NodeView { action: t, ..node },
        (InspectorValueField::FontFamily, ChangeView::Text(Some(t))) => NodeView {
            typography: TypographyView { family: t, ..node.typography },
            ..node
        },
        (InspectorValueField::FontSize, ChangeView::Number(n)) => NodeView {
            typography: TypographyView { size: n, ..node.typography },
            ..node
        },
        (InspectorValueField::FontWeight, ChangeView::Number(n)) => NodeView {
            typography: TypographyView { weight: n, ..node.typography },
            ..node
        },
        (InspectorValueField::LineHeight, ChangeView::Number(n)) => NodeView {
            typography: TypographyView { line_height: n, ..node.typography },
            ..node
        },
        _ => NodeView { layout: changed_layout(node.layout, field, change), ..node },
    }
}

fn read_number(value: &str, minimum: u16, maximum: u16, field: &str) -> (result: Result<
    FieldChange,
    String,
>)
    ensures
        result_view(result) == number_change(value@, minimum, maximum, field@),
{
    match values::parse_bounded_u16(value, minimum, maximum, field) {
        Ok(n) => Ok(FieldChange::Number(n)),
        Err(reason) => Err(reason),
    }
}

/// The view of a reading.
pub open spec fn result_view(result: Result<FieldChange, String>) -> Result<ChangeView, Seq<char>> {
    match result {
        Ok(change) => Ok(change@),
        Err(reason) => Err(reason@),
    }
}

fn read_color(value: &str) -> (result: Result<FieldChange, String>)
    ensures
        result_view(result) == color_change(value@),
{
    match values::parse_optional_color(value) {
        Ok(color) => Ok(FieldChange::Color(color)),
        Err(reason) => Err(reason),
    }
}

fn read_text(value: &str) -> (out: FieldChange)
    ensures
        out@ == ChangeView::Text(text_unless_empty(value@)),
{
    if value.unicode_len() == 0 {
        FieldChange::Text(None)
    } else {
        FieldChange::Text(Some(value.to_owned()))
    }
}

/// What the text of a field stands for, or why it is refused.
pub fn read_change(field: InspectorValueField, value: &str) -> (result: Result<
    FieldChange,
    String,
>)
    ensures
        result_view(result) == change_of(field, value@),
{
    match field {
        InspectorValueField::Width | InspectorValueField::Height => read_number(
            value,
            1,
            4096,
            "size",
        ),
        InspectorValueField::Gap | InspectorValueField::Padding | InspectorValueField::Margin
        | InspectorValueField::Radius => read_number(value, 0, 1024, "spacing"),
        InspectorValueField::Basis | InspectorValueField::MinWidth
        | InspectorValueField::MaxWidth | InspectorValueField::MinHeight
        | InspectorValueField::MaxHeight => {
            match values::parse_optional_bounded_u16(value, 0, 4096, "layout size") {
                Ok(n) => Ok(FieldChange::OptionalNumber(n)),
                Err(reason) => Err(reason),
            }
        },
        InspectorValueField::GridColumns | InspectorValueField::GridRows => read_number(
            value,
            0,
            64,
            "grid track count",
        ),
        InspectorValueField::ColumnSpan | InspectorValueField::RowSpan => read_number(
            value,
            1,
            64,
            "grid span",
        ),
        InspectorValueField::ColumnStart | InspectorValueField::RowStart
        | InspectorValueField::OffsetLeft | InspectorValueField::OffsetTop
        | InspectorValueField::OffsetRight | InspectorValueField::OffsetBottom => {
            match values::parse_optional_bounded_i16(value, -16384, 16384, "position") {
                Ok(n) => Ok(FieldChange::OptionalSigned(n)),
                Err(reason) => Err(reason),
            }
        },
        InspectorValueField::ZIndex | InspectorValueField::Rotation => {
            match values::parse_bounded_i16(value, -32767, 32767, "transform") {
                Ok(n) => Ok(FieldChange::Signed(n)),
                Err(reason) => Err(reason),
            }
        },
        InspectorValueField::Opacity => read_number(value, 0, 100, "opacity"),
        InspectorValueField::Background | InspectorValueField::Border => read_color(value),
        InspectorValueField::Foreground => match read_color(value) {
            Ok(FieldChange::Color(None)) => Err("Foreground requires a #RRGGBB color".to_owned()),
            other => other,
        },
        InspectorValueField::Text => if text::bytes_in(value) > MAX_TEXT_BYTES {
            Err("Text exceeds the 16 KiB component bound".to_owned())
        } else {
            Ok(read_text(value))
        },
        InspectorValueField::FontFamily => {
            let family = text::trim(value);
            if family.unicode_len() == 0 || text::bytes_in(family) > 128 {
                Err("Font family must contain 1–128 characters".to_owned())
            } else {
                Ok(FieldChange::Text(Some(family.to_owned())))
            }
        },
        InspectorValueField::FontSize => read_number(value, 6, 512, "font size"),
        InspectorValueField::FontWeight => {
            match values::parse_bounded_u16(value, 100, 900, "font weight") {
                Ok(n) => if n % 50 != 0 {
                    Err("Font weight must use increments of 50".to_owned())
                } else {
                    Ok(FieldChange::Number(n))
                },
                Err(reason) => Err(reason),
            }
        },
        InspectorValueField::LineHeight => read_number(value, 6, 1024, "line height"),
        InspectorValueField::Action => {
            let action = text::trim(value);
            if action.unicode_len() > 0 && !identifiers::is_portable_identifier(action) {
                Err("Action must use a portable identifier".to_owned())
            } else {
                Ok(read_text(action))
            }
        },
    }
}

fn describe_change(field: InspectorValueField) -> (out: &'static str)
    ensures
        out@ == change_description(field),
{
    match field {
        InspectorValueField::Width | InspectorValueField::Height => "Size changed",
        InspectorValueField::Gap | InspectorValueField::Padding | InspectorValueField::Margin
        | InspectorValueField::Radius => "Spacing changed",
        InspectorValueField::Basis | InspectorValueField::MinWidth
        | InspectorValueField::MaxWidth | InspectorValueField::MinHeight
        | InspectorValueField::MaxHeight => "Layout bound changed",
        InspectorValueField::GridColumns | InspectorValueField::GridRows => "Grid tracks changed",
        InspectorValueField::ColumnSpan | InspectorValueField::RowSpan => "Grid span changed",
        InspectorValueField::ColumnStart | InspectorValueField::RowStart
        | InspectorValueField::OffsetLeft | InspectorValueField::OffsetTop
        | InspectorValueField::OffsetRight | InspectorValueField::OffsetBottom => {
            "Position changed"
        },
        InspectorValueField::ZIndex | InspectorValueField::Rotation => "Transform changed",
        InspectorValueField::Opacity => "Opacity changed",
        InspectorValueField::Background | InspectorValueField::Foreground
        | InspectorValueField::Border => "Color changed",
        InspectorValueField::Text => "Content changed",
        InspectorValueField::FontFamily => "Font family changed",
        InspectorValueField::FontSize => "Font size changed",
        InspectorValueField::FontWeight => "Font weight changed",
        InspectorValueField::LineHeight => "Line height changed",
        InspectorValueField::Action => "Action changed",
    }
}

fn apply_to_layout(layout: &mut NativeLayout, field: InspectorValueField, change: &FieldChange)
    requires
        field == InspectorValueField::Opacity ==> (change@ matches ChangeView::Number(n) ==> n
            <= 255),
    ensures
        *final(layout) == changed_layout(*old(layout), field, change@),
{
    match (field, change) {
        (InspectorValueField::Width, FieldChange::Number(n)) => {
            layout.width = NativeSize::Fixed(*n);
        },
        (InspectorValueField::Height, FieldChange::Number(n)) => {
            layout.height = NativeSize::Fixed(*n);
        },
        (InspectorValueField::Gap, FieldChange::Number(n)) => {
            layout.gap = *n;
        },
        (InspectorValueField::Padding, FieldChange::Number(n)) => {
            layout.padding = *n;
        },
        (InspectorValueField::Margin, FieldChange::Number(n)) => {
            layout.margin.top = *n;
            layout.margin.right = *n;
            layout.margin.bottom = *n;
            layout.margin.left = *n;
        },
        (InspectorValueField::Basis, FieldChange::OptionalNumber(n)) => {
            layout.basis = *n;
        },
        (InspectorValueField::MinWidth, FieldChange::OptionalNumber(n)) => {
            layout.min_width = *n;
        },
        (InspectorValueField::MaxWidth, FieldChange::OptionalNumber(n)) => {
            layout.max_width = *n;
        },
        (InspectorValueField::MinHeight, FieldChange::OptionalNumber(n)) => {
            layout.min_height = *n;
        },
        (InspectorValueField::MaxHeight, FieldChange::OptionalNumber(n)) => {
            layout.max_height = *n;
        },
        (InspectorValueField::GridColumns, FieldChange::Number(n)) => {
            layout.grid_columns = *n;
        },
        (InspectorValueField::GridRows, FieldChange::Number(n)) => {
            layout.grid_rows = *n;
        },
        (InspectorValueField::ColumnSpan, FieldChange::Number(n)) => {
            layout.column_span = *n;
        },
        (InspectorValueField::RowSpan, FieldChange::Number(n)) => {
            layout.row_span = *n;
        },
        (InspectorValueField::ColumnStart, FieldChange::OptionalSigned(n)) => {
            layout.column_start = *n;
        },
        (InspectorValueField::RowStart, FieldChange::OptionalSigned(n)) => {
            layout.row_start = *n;
        },
        (InspectorValueField::OffsetLeft, FieldChange::OptionalSigned(n)) => {
            layout.offsets.left = *n;
        },
        (InspectorValueField::OffsetTop, FieldChange::OptionalSigned(n)) => {
            layout.offsets.top = *n;
        },
        (InspectorValueField::OffsetRight, FieldChange::OptionalSigned(n)) => {
            layout.offsets.right = *n;
        },
        (InspectorValueField::OffsetBottom, FieldChange::OptionalSigned(n)) => {
            layout.offsets.bottom = *n;
        },
        (InspectorValueField::ZIndex, FieldChange::Signed(n)) => {
            layout.z_index = *n;
        },
        (InspectorValueField::Rotation, FieldChange::Signed(n)) => {
            layout.rotation_degrees = *n;
        },
        (InspectorValueField::Opacity, FieldChange::Number(n)) => {
            layout.opacity_percent = *n as u8;
        },
        _ => {},
    }
}

fn apply_change(node: &mut NativeNode, field: InspectorValueField, change: &FieldChange)
    requires
        field == InspectorValueField::Opacity ==> (change@ matches ChangeView::Number(n) ==> n
            <= 255),
    ensures
        final(node)@ == changed_node(old(node)@, field, change@),
        final(node).children == old(node).children,
{
    match (field, change) {
        (InspectorValueField::Radius, FieldChange::Number(n)) => {
            node.appearance.radius = *n;
        },
        (InspectorValueField::Background, FieldChange::Color(c)) => {
            node.appearance.background = *c;
        },
        (InspectorValueField::Foreground, FieldChange::Color(Some(c))) => {
            node.appearance.foreground = *c;
        },
        (InspectorValueField::Border, FieldChange::Color(c)) => {
            node.appearance.border = *c;
        },
        (InspectorValueField::Text, FieldChange::Text(t)) => {
            node.text = t.clone();
        },
        (InspectorValueField::Action, FieldChange::Text(t)) => {
            node.action = t.clone();
        },
        (InspectorValueField::FontFamily, FieldChange::Text(Some(t))) => {
            node.typography.family = t.clone();
        },
        (InspectorValueField::FontSize, FieldChange::Number(n)) => {
            node.typography.size = *n;
        },
        (InspectorValueField::FontWeight, FieldChange::Number(n)) => {
            node.typography.weight = *n;
        },
        (InspectorValueField::LineHeight, FieldChange::Number(n)) => {
            node.typography.line_height = *n;
        },
        _ => {
            let mut layout = node.layout;
            apply_to_layout(&mut layout, field, change);
            node.layout = layout;
        },
    }
}

/// What the inspector writes to.
#[derive(Debug)]
pub enum InspectorTarget {
    /// No component document is open.
    NoComponent,
    /// The selection names no node of the open component.
    NoNode,
    /// The selected node.
    Node(NativeNode),
}

impl InspectorTarget {
    /// The node, where there is one.
    pub open spec fn node(&self) -> Option<NodeView> {
        match self {
            InspectorTarget::Node(node) => Some(node@),
            _ => None,
        }
    }
}

/// What came of writing a field.
#[derive(Debug)]
pub enum InspectorOutcome {
    /// The field already shows this.
    Unchanged,
    /// The node with the new value, and how people are told.
    Edited { node: NativeNode, description: &'static str },
}

/// Whether the field counts as unchanged: it shows exactly this text or, for a color, this
/// text up to case and outer white space.
pub open spec fn shows(field: InspectorValueField, current: Seq<char>, value: Seq<char>) -> bool {
    ||| current == value
    ||| (field == InspectorValueField::Background || field == InspectorValueField::Foreground
        || field == InspectorValueField::Border) && text::same_ignoring_case(
        current,
        text::trimmed(value),
    )
}

/// Writes one field: nothing to do where the field shows the value already; else the value is
/// read, and the node gets it. The reason comes back where the value is refused or there is
/// no node to edit.
pub fn set_inspector_value(
    target: InspectorTarget,
    measured: &MeasuredSize,
    field: InspectorValueField,
    value: &str,
) -> (result: Result<InspectorOutcome, String>)
    ensures
        if shows(
            field,
            field_text(
                target.node(),
                text::text_view(measured.width),
                text::text_view(measured.height),
                field,
            ),
            value@,
        ) {
            result == Ok::<InspectorOutcome, String>(InspectorOutcome::Unchanged)
        } else {
            match (change_of(field, value@), target) {
                (Err(reason), _) => result is Err && result->Err_0@ == reason,
                (Ok(_), InspectorTarget::NoComponent) => result is Err && result->Err_0@
                    == "Open a component document to edit canonical values"@,
                (Ok(_), InspectorTarget::NoNode) => result is Err && result->Err_0@
                    == "The selected component node no longer exists"@,
                (Ok(change), InspectorTarget::Node(node)) => {
                    &&& result matches Ok(InspectorOutcome::Edited { node: edited, description })
                    &&& edited@ == changed_node(node@, field, change)
                    &&& edited.children == node.children
                    &&& description@ == change_description(field)
                },
            }
        },
{
    let current = match &target {
        InspectorTarget::Node(node) => inspector_value(Some(node), measured, field),
        InspectorTarget::NoComponent | InspectorTarget::NoNode => inspector_value(
            None,
            measured,
            field,
        ),
    };
    let is_color = matches!(
        field,
        InspectorValueField::Background | InspectorValueField::Foreground
        | InspectorValueField::Border
    );
    if text::same_text(current.as_str(), value) || (is_color && text::eq_ignoring_case(
        current.as_str(),
        text::trim(value),
    )) {
        return Ok(InspectorOutcome::Unchanged);
    }
    let change = match read_change(field, value) {
        Ok(change) => change,
        Err(reason) => return Err(reason),
    };
    match target {
        InspectorTarget::NoComponent => {
            Err("Open a component document to edit canonical values".to_owned())
        },
        InspectorTarget::NoNode => Err("The selected component node no longer exists".to_owned()),
        InspectorTarget::Node(node) => {
            let mut edited = node;
            apply_change(&mut edited, field, &change);
            Ok(InspectorOutcome::Edited { node: edited, description: describe_change(field) })
        },
    }
}

// ---------------------------------------------------------------------------
// Sizes, alignments and layout choices
// ---------------------------------------------------------------------------

/// Whether a size follows content or parent.
pub open spec fn is_intrinsic(size: NativeSize) -> bool {
    size == NativeSize::Fill || size == NativeSize::Hug
}

/// The size along one axis.
pub open spec fn size_along(layout: NativeLayout, axis: InspectorSizeAxis) -> NativeSize {
    match axis {
        InspectorSizeAxis::Width => layout.width,
        InspectorSizeAxis::Height => layout.height,
    }
}

/// Whether the selected node's size along `axis` follows content or parent.
pub fn inspector_axis_intrinsic(node: Option<&NativeNode>, axis: InspectorSizeAxis) -> (result:
    bool)
    ensures
        result == (node is Some && is_intrinsic(size_along(node->0.layout, axis))),
{
    match node {
        Some(node) => {
            let size = match axis {
                InspectorSizeAxis::Width => node.layout.width,
                InspectorSizeAxis::Height => node.layout.height,
            };
            matches!(size, NativeSize::Fill | NativeSize::Hug)
        },
        None => false,
    }
}

/// Sets the sizing policy along one axis; a fixed size of zero stands for the size as it was
/// last measured.
pub fn set_inspector_size(
    node: &mut NativeNode,
    axis: InspectorSizeAxis,
    size: NativeSize,
    measured_pixels: u16,
)
    ensures
        final(node).children == old(node).children,
        final(node)@ == (NodeView {
            layout: ({
                let chosen = if size == NativeSize::Fixed(0) {
                    NativeSize::Fixed(measured_pixels)
                } else {
                    size
                };
                match axis {
                    InspectorSizeAxis::Width => NativeLayout { width: chosen, ..old(node).layout },
                    InspectorSizeAxis::Height => NativeLayout {
                        height: chosen,
                        ..old(node).layout
                    },
                }
            }),
            ..old(node)@
        }),
{
    let chosen = if size == NativeSize::Fixed(0) {
        NativeSize::Fixed(measured_pixels)
    } else {
        size
    };
    match axis {
        InspectorSizeAxis::Width => {
            node.layout.width = chosen;
        },
        InspectorSizeAxis::Height => {
            node.layout.height = chosen;
        },
    }
}

/// Whether the node's sizing policy along `axis` is the one of `size`; the number of a fixed
/// size does not matter.
pub fn inspector_size_selected(
    node: Option<&NativeNode>,
    axis: InspectorSizeAxis,
    size: NativeSize,
) -> (result: bool)
    ensures
        result == (node is Some && {
            let current = size_along(node->0.layout, axis);
            ||| current == size
            ||| current is Fixed && size is Fixed
        }),
{
    match node {
        Some(node) => {
            let current = match axis {
                InspectorSizeAxis::Width => node.layout.width,
                InspectorSizeAxis::Height => node.layout.height,
            };
            match (current, size) {
                (NativeSize::Fill, NativeSize::Fill) => true,
                (NativeSize::Hug, NativeSize::Hug) => true,
                (NativeSize::Fixed(_), NativeSize::Fixed(_)) => true,
                _ => false,
            }
        },
        None => false,
    }
}

/// Sets the alignment along one axis.
pub fn set_inspector_alignment(
    node: &mut NativeNode,
    axis: InspectorAlignmentAxis,
    value: NativeAlign,
)
    ensures
        final(node).children == old(node).children,
        final(node)@ == (NodeView {
            layout: match axis {
                InspectorAlignmentAxis::Align => NativeLayout { align: value, ..old(node).layout },
                InspectorAlignmentAxis::Justify => NativeLayout {
                    justify: value,
                    ..old(node).layout
                },
            },
            ..old(node)@
        }),
{
    match axis {
        InspectorAlignmentAxis::Align => {
            node.layout.align = value;
        },
        InspectorAlignmentAxis::Justify => {
            node.layout.justify = value;
        },
    }
}

/// Whether the node's alignment along `axis` is `value`.
pub fn inspector_alignment_selected(
    node: Option<&NativeNode>,
    axis: InspectorAlignmentAxis,
    value: NativeAlign,
) -> (result: bool)
    ensures
        result == (node is Some && value == match axis {
            InspectorAlignmentAxis::Align => node->0.layout.align,
            InspectorAlignmentAxis::Justify => node->0.layout.justify,
        }),
{
    match node {
        Some(node) => match axis {
            InspectorAlignmentAxis::Align => node.layout.align == value,
            InspectorAlignmentAxis::Justify => node.layout.justify == value,
        },
        None => false,
    }
}

/// One layout behavior and the value to give it.
#[derive(Clone, Copy, Debug, PartialEq, Eq, Structural)]
pub enum InspectorLayoutChoice {
    Wrap(NativeWrap),
    Position(NativePosition),
    Overflow(NativeOverflow),
    HorizontalConstraint(NativeConstraint),
    VerticalConstraint(NativeConstraint),
    Grow(bool),
    Shrink(bool),
}

/// The layout with one behavior chosen.
pub open spec fn chosen_layout(layout: NativeLayout, choice: InspectorLayoutChoice) -> NativeLayout {
    match choice {
        InspectorLayoutChoice::Wrap(value) => NativeLayout { wrap: value, ..layout },
        InspectorLayoutChoice::Position(value) => NativeLayout { position: value, ..layout },
        InspectorLayoutChoice::Overflow(value) => NativeLayout { overflow: value, ..layout },
        InspectorLayoutChoice::HorizontalConstraint(value) => NativeLayout {
            horizontal_constraint: value,
            ..layout
        },
        InspectorLayoutChoice::VerticalConstraint(value) => NativeLayout {
            vertical_constraint: value,
            ..layout
        },
        InspectorLayoutChoice::Grow(value) => NativeLayout { grow: value, ..layout },
        InspectorLayoutChoice::Shrink(value) => NativeLayout { shrink: value, ..layout },
    }
}

/// Chooses one layout behavior.
pub fn set_inspector_layout_choice(node: &mut NativeNode, choice: InspectorLayoutChoice)
    ensures
        final(node).children == old(node).children,
        final(node)@ == (NodeView { layout: chosen_layout(old(node).layout, choice), ..old(node)@ }),
{
    match choice {
        InspectorLayoutChoice::Wrap(value) => {
            node.layout.wrap = value;
        },
        InspectorLayoutChoice::Position(value) => {
            node.layout.position = value;
        },
        InspectorLayoutChoice::Overflow(value) => {
            node.layout.overflow = value;
        },
        InspectorLayoutChoice::HorizontalConstraint(value) => {
            node.layout.horizontal_constraint = value;
        },
        InspectorLayoutChoice::VerticalConstraint(value) => {
            node.layout.vertical_constraint = value;
        },
        InspectorLayoutChoice::Grow(value) => {
            node.layout.grow = value;
        },
        InspectorLayoutChoice::Shrink(value) => {
            node.layout.shrink = value;
        },
    }
}

/// Whether the node already has this layout behavior.
pub fn inspector_layout_choice_selected(
    node: Option<&NativeNode>,
    choice: InspectorLayoutChoice,
) -> (result: bool)
    ensures
        result == (node is Some && chosen_layout(node->0.layout, choice) == node->0.layout),
{
    match node {
        Some(node) => match choice {
            InspectorLayoutChoice::Wrap(value) => node.layout.wrap == value,
            InspectorLayoutChoice::Position(value) => node.layout.position == value,
            InspectorLayoutChoice::Overflow(value) => node.layout.overflow == value,
            InspectorLayoutChoice::HorizontalConstraint(value) => {
                node.layout.horizontal_constraint == value
            },
            InspectorLayoutChoice::VerticalConstraint(value) => {
                node.layout.vertical_constraint == value
            },
            InspectorLayoutChoice::Grow(value) => node.layout.grow == value,
            InspectorLayoutChoice::Shrink(value) => node.layout.shrink == value,
        },
        None => false,
    }
}

/// The name of a layout choice among the studio's bindings.
pub open spec fn layout_choice_name(choice: InspectorLayoutChoice) -> Seq<char> {
    match choice {
        InspectorLayoutChoice::Wrap(NativeWrap::NoWrap) => "inspector_wrap_none"@,
        InspectorLayoutChoice::Wrap(NativeWrap::Wrap) => "inspector_wrap_wrap"@,
        InspectorLayoutChoice::Wrap(NativeWrap::WrapReverse) => "inspector_wrap_reverse"@,
        InspectorLayoutChoice::Position(NativePosition::Flow) => "inspector_position_flow"@,
        InspectorLayoutChoice::Position(NativePosition::Absolute) => "inspector_position_absolute"@,
        InspectorLayoutChoice::Overflow(NativeOverflow::Visible) => "inspector_overflow_visible"@,
        InspectorLayoutChoice::Overflow(NativeOverflow::Hidden) => "inspector_overflow_hidden"@,
        InspectorLayoutChoice::Overflow(NativeOverflow::Scroll) => "inspector_overflow_scroll"@,
        InspectorLayoutChoice::HorizontalConstraint(c) => "inspector_constraint_x_"@
            + constraint_name(c),
        InspectorLayoutChoice::VerticalConstraint(c) => "inspector_constraint_y_"@
            + constraint_name(c),
        InspectorLayoutChoice::Grow(false) => "inspector_grow_off"@,
        InspectorLayoutChoice::Grow(true) => "inspector_grow_on"@,
        InspectorLayoutChoice::Shrink(false) => "inspector_shrink_off"@,
        InspectorLayoutChoice::Shrink(true) => "inspector_shrink_on"@,
    }
}

/// The name of a constraint within a binding.
pub open spec fn constraint_name(constraint: NativeConstraint) -> Seq<char> {
    match constraint {
        NativeConstraint::Start => "start"@,
        NativeConstraint::Center => "center"@,
        NativeConstraint::End => "end"@,
        NativeConstraint::Scale => "scale"@,
        NativeConstraint::Stretch => "stretch"@,
    }
}

/// The layout choices in the order of their bindings.
pub open spec fn layout_choices() -> Seq<InspectorLayoutChoice> {
    seq![
        InspectorLayoutChoice::Wrap(NativeWrap::NoWrap),
        InspectorLayoutChoice::Wrap(NativeWrap::Wrap),
        InspectorLayoutChoice::Wrap(NativeWrap::WrapReverse),
        InspectorLayoutChoice::Position(NativePosition::Flow),
        InspectorLayoutChoice::Position(NativePosition::Absolute),
        InspectorLayoutChoice::Overflow(NativeOverflow::Visible),
        InspectorLayoutChoice::Overflow(NativeOverflow::Hidden),
        InspectorLayoutChoice::Overflow(NativeOverflow::Scroll),
        InspectorLayoutChoice::HorizontalConstraint(NativeConstraint::Start),
        InspectorLayoutChoice::HorizontalConstraint(NativeConstraint::Center),
        InspectorLayoutChoice::HorizontalConstraint(NativeConstraint::End),
        InspectorLayoutChoice::HorizontalConstraint(NativeConstraint::Scale),
        InspectorLayoutChoice::HorizontalConstraint(NativeConstraint::Stretch),
        InspectorLayoutChoice::VerticalConstraint(NativeConstraint::Start),
        InspectorLayoutChoice::VerticalConstraint(NativeConstraint::Center),
        InspectorLayoutChoice::VerticalConstraint(NativeConstraint::End),
        InspectorLayoutChoice::VerticalConstraint(NativeConstraint::Scale),
        InspectorLayoutChoice::VerticalConstraint(NativeConstraint::Stretch),
        InspectorLayoutChoice::Grow(false),
        InspectorLayoutChoice::Grow(true),
        InspectorLayoutChoice::Shrink(false),
        InspectorLayoutChoice::Shrink(true),
    ]
}

/// One name and the layout choice it stands for.
#[derive(Debug)]
pub struct LayoutChoiceBinding {
    pub name: String,
    pub choice: InspectorLayoutChoice,
}

fn constraint_label(constraint: NativeConstraint) -> (out: &'static str)
    ensures
        out@ == constraint_name(constraint),
{
    match constraint {
        NativeConstraint::Start => "start",
        NativeConstraint::Center => "center",
        NativeConstraint::End => "end",
        NativeConstraint::Scale => "scale",
        NativeConstraint::Stretch => "stretch",
    }
}

/// The name of a layout choice among the studio's bindings.
pub fn layout_choice_label(choice: InspectorLayoutChoice) -> (out: String)
    ensures
        out@ == layout_choice_name(choice),
{
    match choice {
        InspectorLayoutChoice::Wrap(NativeWrap::NoWrap) => "inspector_wrap_none".to_owned(),
        InspectorLayoutChoice::Wrap(NativeWrap::Wrap) => "inspector_wrap_wrap".to_owned(),
        InspectorLayoutChoice::Wrap(NativeWrap::WrapReverse) => {
            "inspector_wrap_reverse".to_owned()
        },
        InspectorLayoutChoice::Position(NativePosition::Flow) => {
            "inspector_position_flow".to_owned()
        },
        InspectorLayoutChoice::Position(NativePosition::Absolute) => {
            "inspector_position_absolute".to_owned()
        },
        InspectorLayoutChoice::Overflow(NativeOverflow::Visible) => {
            "inspector_overflow_visible".to_owned()
        },
        InspectorLayoutChoice::Overflow(NativeOverflow::Hidden) => {
            "inspector_overflow_hidden".to_owned()
        },
        InspectorLayoutChoice::Overflow(NativeOverflow::Scroll) => {
            "inspector_overflow_scroll".to_owned()
        },
        InspectorLayoutChoice::HorizontalConstraint(c) => text::join2(
            "inspector_constraint_x_",
            constraint_label(c),
        ),
        InspectorLayoutChoice::VerticalConstraint(c) => text::join2(
            "inspector_constraint_y_",
            constraint_label(c),
        ),
        InspectorLayoutChoice::Grow(on) => if on {
            "inspector_grow_on".to_owned()
        } else {
            "inspector_grow_off".to_owned()
        },
        InspectorLayoutChoice::Shrink(on) => if on {
            "inspector_shrink_on".to_owned()
        } else {
            "inspector_shrink_off".to_owned()
        },
    }
}

/// Every layout choice with its name, in order.
pub fn inspector_layout_choice_bindings() -> (out: Vec<LayoutChoiceBinding>)
    ensures
        out.len() == layout_choices().len(),
        forall|i: int|
            0 <= i < out.len() ==> (#[trigger] out[i]).choice == layout_choices()[i]
                && out[i].name@ == layout_choice_name(layout_choices()[i]),
{
    let choices: Vec<InspectorLayoutChoice> = vec![
        InspectorLayoutChoice::Wrap(NativeWrap::NoWrap),
        InspectorLayoutChoice::Wrap(NativeWrap::Wrap),
        InspectorLayoutChoice::Wrap(NativeWrap::WrapReverse),
        InspectorLayoutChoice::Position(NativePosition::Flow),
        InspectorLayoutChoice::Position(NativePosition::Absolute),
        InspectorLayoutChoice::Overflow(NativeOverflow::Visible),
        InspectorLayoutChoice::Overflow(NativeOverflow::Hidden),
        InspectorLayoutChoice::Overflow(NativeOverflow::Scroll),
        InspectorLayoutChoice::HorizontalConstraint(NativeConstraint::Start),
        InspectorLayoutChoice::HorizontalConstraint(NativeConstraint::Center),
        InspectorLayoutChoice::HorizontalConstraint(NativeConstraint::End),
        InspectorLayoutChoice::HorizontalConstraint(NativeConstraint::Scale),
        InspectorLayoutChoice::HorizontalConstraint(NativeConstraint::Stretch),
        InspectorLayoutChoice::VerticalConstraint(NativeConstraint::Start),
        InspectorLayoutChoice::VerticalConstraint(NativeConstraint::Center),
        InspectorLayoutChoice::VerticalConstraint(NativeConstraint::End),
        InspectorLayoutChoice::VerticalConstraint(NativeConstraint::Scale),
        InspectorLayoutChoice::VerticalConstraint(NativeConstraint::Stretch),
        InspectorLayoutChoice::Grow(false),
        InspectorLayoutChoice::Grow(true),
        InspectorLayoutChoice::Shrink(false),
        InspectorLayoutChoice::Shrink(true),
    ];
    proof {
        assert(choices@ =~= layout_choices());
    }
    let mut out: Vec<LayoutChoiceBinding> = Vec::new();
    let mut i: usize = 0;
    while i < choices.len()
        invariant
            i <= choices.len(),
            choices@ == layout_choices(),
            out.len() == i,
            forall|j: int|
                0 <= j < i ==> (#[trigger] out[j]).choice == layout_choices()[j] && out[j].name@
                    == layout_choice_name(layout_choices()[j]),
        decreases choices.len() - i,
    {
        out.push(
            LayoutChoiceBinding { name: layout_choice_label(choices[i]), choice: choices[i] },
        );
        i += 1;
    }
    out
}

proof fn lemma_hex_value_bound(s: Seq<char>, k: nat)
    requires
        text::all_hex(s),
        s.len() == k,
    ensures
        text::hex_value(s) < vstd::arithmetic::power::pow(16, k),
    decreases k,
{
    vstd::arithmetic::power::lemma_pow0(16);
    if k > 0 {
        assert(text::hex_digit_value(s[k - 1]) is Some);
        assert forall|i: int| 0 <= i < s.drop_last().len() implies text::hex_digit_value(
            #[trigger] s.drop_last()[i],
        ) is Some by {
            assert(text::hex_digit_value(s[i]) is Some);
        }
        lemma_hex_value_bound(s.drop_last(), (k - 1) as nat);
        assert(vstd::arithmetic::power::pow(16, k) == 16 * vstd::arithmetic::power::pow(
            16,
            (k - 1) as nat,
        )) by {
            reveal(vstd::arithmetic::power::pow);
        }
    }
}

proof fn lemma_color_bound(value: Seq<char>)
    requires
        values::color_value(value) matches Ok(Some(n)),
    ensures
        values::color_value(value)->Ok_0->0 < 0x100_0000,
{
    let digits = text::trimmed(value).skip(1);
    lemma_hex_value_bound(digits, 6);
    assert(vstd::arithmetic::power::pow(16, 6) == 0x100_0000) by {
        reveal(vstd::arithmetic::power::pow);
        reveal_with_fuel(vstd::arithmetic::power::pow, 7);
    }
}

/// What was written to a field is what reading the field gives back: the text that the field
/// shows afterwards stands for the same change.
pub proof fn law_written_value_reads_back(
    node: NodeView,
    width: Option<Seq<char>>,
    height: Option<Seq<char>>,
    field: InspectorValueField,
    value: Seq<char>,
)
    requires
        change_of(field, value) is Ok,
    ensures
        change_of(
            field,
            node_field_text(
                changed_node(node, field, change_of(field, value)->Ok_0),
                width,
                height,
                field,
            ),
        ) == change_of(field, value),
{
    let change = change_of(field, value)->Ok_0;
    reveal_strlit("");
    match change {
        ChangeView::Number(n) => {
            values::law_optional_u16_round_trip(Some(n), 0, u16::MAX);
            text::law_decimal_round_trip(n as nat);
        },
        ChangeView::Signed(n) => {
            values::law_optional_i16_round_trip(Some(n), i16::MIN, i16::MAX);
        },
        ChangeView::OptionalNumber(n) => {
            values::law_optional_u16_round_trip(n, 0, u16::MAX);
        },
        ChangeView::OptionalSigned(n) => {
            values::law_optional_i16_round_trip(n, i16::MIN, i16::MAX);
        },
        ChangeView::Color(c) => {
            if c is Some {
                lemma_color_bound(value);
            }
            values::law_color_round_trip(c);
        },
        ChangeView::Text(t) => {
            assert(text::byte_len(""@) == 0);
            text::law_trim_idempotent(value);
            assert(text::trimmed(""@) =~= ""@);
        },
    }
}

/// A number typed in its plain decimal form is shown as it was typed.
pub proof fn law_plain_decimal_is_shown_as_typed(
    node: NodeView,
    width: Option<Seq<char>>,
    height: Option<Seq<char>>,
    field: InspectorValueField,
    n: int,
)
    requires
        change_of(field, text::signed_text(n)) is Ok,
    ensures
        node_field_text(
            changed_node(node, field, change_of(field, text::signed_text(n))->Ok_0),
            width,
            height,
            field,
        ) == text::signed_text(n),
{
    let value = text::signed_text(n);
    values::lemma_number_text(n);
    text::law_signed_round_trip(n);
    if n >= 0 {
        text::law_decimal_round_trip(n as nat);
    }
    assert(text::unsigned_value(value) is Some ==> n >= 0);
}

/// What writing a text to a field makes of a node; nothing where the text is refused.
pub open spec fn typed(node: NodeView, field: InspectorValueField, value: Seq<char>) -> Option<
    NodeView,
> {
    match change_of(field, value) {
        Ok(change) => Some(changed_node(node, field, change)),
        Err(_) => None,
    }
}

proof fn lemma_plain_number(n: nat)
    ensures
        text::unsigned_value(text::trimmed(text::decimal_text(n))) == Some(n),
        !values::reads_automatic(text::decimal_text(n)),
{
    values::lemma_number_text(n as int);
    text::law_decimal_round_trip(n);
}

proof fn lemma_plain_signed(n: int)
    ensures
        text::signed_value(text::trimmed(text::signed_text(n))) == Some(n),
        !values::reads_automatic(text::signed_text(n)),
{
    values::lemma_number_text(n);
    text::law_signed_round_trip(n);
}

/// A number typed into a field is taken within the field's bounds, and it is what the part of
/// the node that the field names is afterwards; everything else of the node stays.
pub proof fn law_numbers_go_where_the_field_says(node: NodeView, n: nat)
    ensures
        typed(node, InspectorValueField::Width, text::decimal_text(n)) == (if 1 <= n <= 4096 {
            Some(
                NodeView { layout: NativeLayout { width: NativeSize::Fixed(n as u16), ..node.layout }, ..node },
            )
        } else {
            None
        }),
        typed(node, InspectorValueField::Height, text::decimal_text(n)) == (if 1 <= n <= 4096 {
            Some(
                NodeView { layout: NativeLayout { height: NativeSize::Fixed(n as u16), ..node.layout }, ..node },
            )
        } else {
            None
        }),
        typed(node, InspectorValueField::Gap, text::decimal_text(n)) == (if 0 <= n <= 1024 {
            Some(
                NodeView { layout: NativeLayout { gap: n as u16, ..node.layout }, ..node },
            )
        } else {
            None
        }),
        typed(node, InspectorValueField::Padding, text::decimal_text(n)) == (if 0 <= n <= 1024 {
            Some(
                NodeView { layout: NativeLayout { padding: n as u16, ..node.layout }, ..node },
            )
        } else {
            None
        }),
        typed(node, InspectorValueField::Margin, text::decimal_text(n)) == (if 0 <= n <= 1024 {
            Some(
                NodeView {
                layout: NativeLayout {
                    margin: crate::components::NativeEdges {
                        top: n as u16,
                        right: n as u16,
                        bottom: n as u16,
                        left: n as u16,
                    },
                    ..node.layout
                },
                ..node
            },
            )
        } else {
            None
        }),
        typed(node, InspectorValueField::Radius, text::decimal_text(n)) == (if 0 <= n <= 1024 {
            Some(
                NodeView {
                appearance: crate::components::NativeAppearance { radius: n as u16, ..node.appearance },
                ..node
            },
            )
        } else {
            None
        }),
        typed(node, InspectorValueField::GridColumns, text::decimal_text(n)) == (if 0 <= n <= 64 {
            Some(
                NodeView { layout: NativeLayout { grid_columns: n as u16, ..node.layout }, ..node },
            )
        } else {
            None
        }),
        typed(node, InspectorValueField::GridRows, text::decimal_text(n)) == (if 0 <= n <= 64 {
            Some(
                NodeView { layout: NativeLayout { grid_rows: n as u16, ..node.layout }, ..node },
            )
        } else {
            None
        }),
        typed(node, InspectorValueField::ColumnSpan, text::decimal_text(n)) == (if 1 <= n <= 64 {
            Some(
                NodeView { layout: NativeLayout { column_span: n as u16, ..node.layout }, ..node },
            )
        } else {
            None
        }),
        typed(node, InspectorValueField::RowSpan, text::decimal_text(n)) == (if 1 <= n <= 64 {
            Some(
                NodeView { layout: NativeLayout { row_span: n as u16, ..node.layout }, ..node },
            )
        } else {
            None
        }),
        typed(node, InspectorValueField::Opacity, text::decimal_text(n)) == (if 0 <= n <= 100 {
            Some(
                NodeView { layout: NativeLayout { opacity_percent: n as u8, ..node.layout }, ..node },
            )
        } else {
            None
        }),
        typed(node, InspectorValueField::FontSize, text::decimal_text(n)) == (if 6 <= n <= 512 {
            Some(
                NodeView { typography: TypographyView { size: n as u16, ..node.typography }, ..node },
            )
        } else {
            None
        }),
        typed(node, InspectorValueField::FontWeight, text::decimal_text(n)) == (if 100 <= n <= 900 && n % 50 == 0 {
            Some(
                NodeView { typography: TypographyView { weight: n as u16, ..node.typography }, ..node },
            )
        } else {
            None
        }),
        typed(node, InspectorValueField::LineHeight, text::decimal_text(n)) == (if 6 <= n <= 1024 {
            Some(
                NodeView { typography: TypographyView { line_height: n as u16, ..node.typography }, ..node },
            )
        } else {
            None
        }),
        typed(node, InspectorValueField::Basis, text::decimal_text(n)) == (if n <= 4096 {
            Some(
                NodeView { layout: NativeLayout { basis: Some(n as u16), ..node.layout }, ..node },
            )
        } else {
            None
        }),
        typed(node, InspectorValueField::MinWidth, text::decimal_text(n)) == (if n <= 4096 {
            Some(
                NodeView { layout: NativeLayout { min_width: Some(n as u16), ..node.layout }, ..node },
            )
        } else {
            None
        }),
        typed(node, InspectorValueField::MaxWidth, text::decimal_text(n)) == (if n <= 4096 {
            Some(
                NodeView { layout: NativeLayout { max_width: Some(n as u16), ..node.layout }, ..node },
            )
        } else {
            None
        }),
        typed(node, InspectorValueField::MinHeight, text::decimal_text(n)) == (if n <= 4096 {
            Some(
                NodeView { layout: NativeLayout { min_height: Some(n as u16), ..node.layout }, ..node },
            )
        } else {
            None
        }),
        typed(node, InspectorValueField::MaxHeight, text::decimal_text(n)) == (if n <= 4096 {
            Some(
                NodeView { layout: NativeLayout { max_height: Some(n as u16), ..node.layout }, ..node },
            )
        } else {
            None
        }),
{
    lemma_plain_number(n);
}

/// A signed number typed into a field is taken within the field's bounds, and it is what the
/// part of the node that the field names is afterwards; everything else of the node stays.
pub proof fn law_signed_numbers_go_where_the_field_says(node: NodeView, n: int)
    ensures
        typed(node, InspectorValueField::ZIndex, text::signed_text(n)) == (if -32767 <= n <= 32767 {
            Some(
                NodeView { layout: NativeLayout { z_index: n as i16, ..node.layout }, ..node },
            )
        } else {
            None
        }),
        typed(node, InspectorValueField::Rotation, text::signed_text(n)) == (if -32767 <= n <= 32767 {
            Some(
                NodeView { layout: NativeLayout { rotation_degrees: n as i16, ..node.layout }, ..node },
            )
        } else {
            None
        }),
        typed(node, InspectorValueField::ColumnStart, text::signed_text(n)) == (if -16384 <= n <= 16384 {
            Some(
                NodeView { layout: NativeLayout { column_start: Some(n as i16), ..node.layout }, ..node },
            )
        } else {
            None
        }),
        typed(node, InspectorValueField::RowStart, text::signed_text(n)) == (if -16384 <= n <= 16384 {
            Some(
                NodeView { layout: NativeLayout { row_start: Some(n as i16), ..node.layout }, ..node },
            )
        } else {
            None
        }),
        typed(node, InspectorValueField::OffsetLeft, text::signed_text(n)) == (if -16384 <= n <= 16384 {
            Some(
                NodeView {
                layout: NativeLayout {
                    offsets: crate::components::NativeOffsets { left: Some(n as i16), ..node.layout.offsets },
                    ..node.layout
                },
                ..node
            },
            )
        } else {
            None
        }),
        typed(node, InspectorValueField::OffsetTop, text::signed_text(n)) == (if -16384 <= n <= 16384 {
            Some(
                NodeView {
                layout: NativeLayout {
                    offsets: crate::components::NativeOffsets { top: Some(n as i16), ..node.layout.offsets },
                    ..node.layout
                },
                ..node
            },
            )
        } else {
            None
        }),
        typed(node, InspectorValueField::OffsetRight, text::signed_text(n)) == (if -16384 <= n <= 16384 {
            Some(
                NodeView {
                layout: NativeLayout {
                    offsets: crate::components::NativeOffsets { right: Some(n as i16), ..node.layout.offsets },
                    ..node.layout
                },
                ..node
            },
            )
        } else {
            None
        }),
        typed(node, InspectorValueField::OffsetBottom, text::signed_text(n)) == (if -16384 <= n <= 16384 {
            Some(
                NodeView {
                layout: NativeLayout {
                    offsets: crate::components::NativeOffsets { bottom: Some(n as i16), ..node.layout.offsets },
                    ..node.layout
                },
                ..node
            },
            )
        } else {
            None
        }),
{
    lemma_plain_signed(n);
}

/// An empty text, or "auto" in whatever case, unsets an optional bound or position and nothing
/// else.
pub proof fn law_automatic_fields_are_unset(node: NodeView, value: Seq<char>)
    requires
        text::trimmed(value).len() == 0 || text::same_ignoring_case(
            text::trimmed(value),
            "auto"@,
        ),
    ensures
        typed(node, InspectorValueField::Basis, value) == Some(
            NodeView { layout: NativeLayout { basis: None, ..node.layout }, ..node },
        ),
        typed(node, InspectorValueField::MinWidth, value) == Some(
            NodeView { layout: NativeLayout { min_width: None, ..node.layout }, ..node },
        ),
        typed(node, InspectorValueField::MaxWidth, value) == Some(
            NodeView { layout: NativeLayout { max_width: None, ..node.layout }, ..node },
        ),
        typed(node, InspectorValueField::MinHeight, value) == Some(
            NodeView { layout: NativeLayout { min_height: None, ..node.layout }, ..node },
        ),
        typed(node, InspectorValueField::MaxHeight, value) == Some(
            NodeView { layout: NativeLayout { max_height: None, ..node.layout }, ..node },
        ),
        typed(node, InspectorValueField::ColumnStart, value) == Some(
            NodeView { layout: NativeLayout { column_start: None, ..node.layout }, ..node },
        ),
        typed(node, InspectorValueField::RowStart, value) == Some(
            NodeView { layout: NativeLayout { row_start: None, ..node.layout }, ..node },
        ),
        typed(node, InspectorValueField::OffsetLeft, value) == Some(
            NodeView {
                layout: NativeLayout {
                    offsets: crate::components::NativeOffsets { left: None, ..node.layout.offsets },
                    ..node.layout
                },
                ..node
            },
        ),
        typed(node, InspectorValueField::OffsetTop, value) == Some(
            NodeView {
                layout: NativeLayout {
                    offsets: crate::components::NativeOffsets { top: None, ..node.layout.offsets },
                    ..node.layout
                },
                ..node
            },
        ),
        typed(node, InspectorValueField::OffsetRight, value) == Some(
            NodeView {
                layout: NativeLayout {
                    offsets: crate::components::NativeOffsets { right: None, ..node.layout.offsets },
                    ..node.layout
                },
                ..node
            },
        ),
        typed(node, InspectorValueField::OffsetBottom, value) == Some(
            NodeView {
                layout: NativeLayout {
                    offsets: crate::components::NativeOffsets { bottom: None, ..node.layout.offsets },
                    ..node.layout
                },
                ..node
            },
        ),
{
}

/// A color typed as its six hexadecimal digits is the color that the field names; "transparent"
/// unsets a background or a border and is refused as a foreground.
pub proof fn law_colors_go_where_the_field_says(node: NodeView, c: u32)
    requires
        c < 0x100_0000,
    ensures
        typed(node, InspectorValueField::Background, "#"@ + text::zero_padded(text::hex_text(c as nat), 6)) == Some(
            NodeView {
                appearance: crate::components::NativeAppearance { background: Some(c), ..node.appearance },
                ..node
            },
        ),
        typed(node, InspectorValueField::Foreground, "#"@ + text::zero_padded(text::hex_text(c as nat), 6)) == Some(
            NodeView {
                appearance: crate::components::NativeAppearance { foreground: c, ..node.appearance },
                ..node
            },
        ),
        typed(node, InspectorValueField::Border, "#"@ + text::zero_padded(text::hex_text(c as nat), 6)) == Some(
            NodeView {
                appearance: crate::components::NativeAppearance { border: Some(c), ..node.appearance },
                ..node
            },
        ),
        typed(node, InspectorValueField::Background, "transparent"@) == Some(
            NodeView {
                appearance: crate::components::NativeAppearance { background: None, ..node.appearance },
                ..node
            },
        ),
        typed(node, InspectorValueField::Border, "transparent"@) == Some(
            NodeView {
                appearance: crate::components::NativeAppearance { border: None, ..node.appearance },
                ..node
            },
        ),
        typed(node, InspectorValueField::Foreground, "transparent"@) is None,
{
    values::law_color_round_trip(Some(c));
    values::law_color_round_trip(None);
}

/// A text is the node's text as it was typed, none where it is empty; a font family and an
/// action are taken without outer white space.
pub proof fn law_texts_go_where_the_field_says(node: NodeView, value: Seq<char>)
    ensures
        typed(node, InspectorValueField::Text, value) == (if text::byte_len(value) > 16384 {
            None
        } else {
            Some(
                NodeView {
                    text: if value.len() == 0 {
                        None
                    } else {
                        Some(value)
                    },
                    ..node
                },
            )
        }),
        typed(node, InspectorValueField::FontFamily, value) == (if text::trimmed(value).len() == 0
            || text::byte_len(text::trimmed(value)) > 128 {
            None
        } else {
            Some(
                NodeView {
                    typography: TypographyView {
                        family: text::trimmed(value),
                        ..node.typography
                    },
                    ..node
                },
            )
        }),
        typed(node, InspectorValueField::Action, value) == (if text::trimmed(value).len() == 0 {
            Some(NodeView { action: None, ..node })
        } else if identifiers::portable_identifier(text::trimmed(value)) {
            Some(NodeView { action: Some(text::trimmed(value)), ..node })
        } else {
            None
        }),
{
}

/// A field shows the part of the node that it names.
pub proof fn law_fields_show_what_they_name(
    node: NodeView,
    width: Option<Seq<char>>,
    height: Option<Seq<char>>,
    size: u16,
)
    ensures
        node.layout.width == NativeSize::Fixed(size) ==> field_text(
            Some(node),
            width,
            height,
            InspectorValueField::Width,
        ) == text::decimal_text(size as nat),
        !(node.layout.width is Fixed) && width is Some ==> field_text(
            Some(node),
            width,
            height,
            InspectorValueField::Width,
        ) == width->0,
        node.layout.height == NativeSize::Fixed(size) ==> field_text(
            Some(node),
            width,
            height,
            InspectorValueField::Height,
        ) == text::decimal_text(size as nat),
        !(node.layout.height is Fixed) && height is Some ==> field_text(
            Some(node),
            width,
            height,
            InspectorValueField::Height,
        ) == height->0,
        field_text(Some(node), width, height, InspectorValueField::Gap) == text::decimal_text(node.layout.gap as nat),
        field_text(Some(node), width, height, InspectorValueField::Padding) == text::decimal_text(node.layout.padding as nat),
        field_text(Some(node), width, height, InspectorValueField::GridColumns) == text::decimal_text(node.layout.grid_columns as nat),
        field_text(Some(node), width, height, InspectorValueField::GridRows) == text::decimal_text(node.layout.grid_rows as nat),
        field_text(Some(node), width, height, InspectorValueField::ColumnSpan) == text::decimal_text(node.layout.column_span as nat),
        field_text(Some(node), width, height, InspectorValueField::RowSpan) == text::decimal_text(node.layout.row_span as nat),
        field_text(Some(node), width, height, InspectorValueField::Opacity) == text::decimal_text(node.layout.opacity_percent as nat),
        field_text(Some(node), width, height, InspectorValueField::Radius) == text::decimal_text(node.appearance.radius as nat),
        field_text(Some(node), width, height, InspectorValueField::FontSize) == text::decimal_text(node.typography.size as nat),
        field_text(Some(node), width, height, InspectorValueField::FontWeight) == text::decimal_text(node.typography.weight as nat),
        field_text(Some(node), width, height, InspectorValueField::LineHeight) == text::decimal_text(node.typography.line_height as nat),
        field_text(Some(node), width, height, InspectorValueField::ZIndex) == text::signed_text(node.layout.z_index as int),
        field_text(Some(node), width, height, InspectorValueField::Rotation) == text::signed_text(node.layout.rotation_degrees as int),
        field_text(Some(node), width, height, InspectorValueField::Basis) == (match node.layout.basis {
            Some(n) => text::signed_text(n as int),
            None => ""@,
        }),
        field_text(Some(node), width, height, InspectorValueField::MinWidth) == (match node.layout.min_width {
            Some(n) => text::signed_text(n as int),
            None => ""@,
        }),
        field_text(Some(node), width, height, InspectorValueField::MaxWidth) == (match node.layout.max_width {
            Some(n) => text::signed_text(n as int),
            None => ""@,
        }),
        field_text(Some(node), width, height, InspectorValueField::MinHeight) == (match node.layout.min_height {
            Some(n) => text::signed_text(n as int),
            None => ""@,
        }),
        field_text(Some(node), width, height, InspectorValueField::MaxHeight) == (match node.layout.max_height {
            Some(n) => text::signed_text(n as int),
            None => ""@,
        }),
        field_text(Some(node), width, height, InspectorValueField::ColumnStart) == (match node.layout.column_start {
            Some(n) => text::signed_text(n as int),
            None => ""@,
        }),
        field_text(Some(node), width, height, InspectorValueField::RowStart) == (match node.layout.row_start {
            Some(n) => text::signed_text(n as int),
            None => ""@,
        }),
        field_text(Some(node), width, height, InspectorValueField::OffsetLeft) == (match node.layout.offsets.left {
            Some(n) => text::signed_text(n as int),
            None => ""@,
        }),
        field_text(Some(node), width, height, InspectorValueField::OffsetTop) == (match node.layout.offsets.top {
            Some(n) => text::signed_text(n as int),
            None => ""@,
        }),
        field_text(Some(node), width, height, InspectorValueField::OffsetRight) == (match node.layout.offsets.right {
            Some(n) => text::signed_text(n as int),
            None => ""@,
        }),
        field_text(Some(node), width, height, InspectorValueField::OffsetBottom) == (match node.layout.offsets.bottom {
            Some(n) => text::signed_text(n as int),
            None => ""@,
        }),
        field_text(Some(node), width, height, InspectorValueField::Background) == (match node.appearance.background {
            Some(c) => "#"@ + text::zero_padded(text::hex_text(c as nat), 6),
            None => "transparent"@,
        }),
        field_text(Some(node), width, height, InspectorValueField::Border) == (match node.appearance.border {
            Some(c) => "#"@ + text::zero_padded(text::hex_text(c as nat), 6),
            None => "transparent"@,
        }),
        field_text(Some(node), width, height, InspectorValueField::Foreground) == "#"@ + text::zero_padded(
            text::hex_text(node.appearance.foreground as nat),
            6,
        ),
        field_text(Some(node), width, height, InspectorValueField::FontFamily) == node.typography.family,
        field_text(Some(node), width, height, InspectorValueField::Text) == (match node.text {
            Some(t) => t,
            None => ""@,
        }),
        field_text(Some(node), width, height, InspectorValueField::Action) == (match node.action {
            Some(t) => t,
            None => ""@,
        }),
        node.layout.margin == (crate::components::NativeEdges {
            top: size,
            right: size,
            bottom: size,
            left: size,
        }) ==> field_text(Some(node), width, height, InspectorValueField::Margin)
            == text::decimal_text(size as nat),
        !(node.layout.margin.top == node.layout.margin.right && node.layout.margin.right
            == node.layout.margin.bottom && node.layout.margin.bottom
            == node.layout.margin.left) ==> field_text(
            Some(node),
            width,
            height,
            InspectorValueField::Margin,
        ) == "mixed"@,
{
}

/// Writing one field leaves what every other field shows as it was.
pub proof fn law_other_fields_keep_their_values(
    node: NodeView,
    width: Option<Seq<char>>,
    height: Option<Seq<char>>,
    field: InspectorValueField,
    change: ChangeView,
    other: InspectorValueField,
)
    requires
        other != field,
    ensures
        node_field_text(changed_node(node, field, change), width, height, other)
            == node_field_text(node, width, height, other),
{
}

/// Choosing a behavior selects it; choosing it again changes nothing.
pub proof fn law_chosen_layout(layout: NativeLayout, choice: InspectorLayoutChoice)
    ensures
        chosen_layout(chosen_layout(layout, choice), choice) == chosen_layout(layout, choice),
{
}

/// Every layout choice has a binding.
pub proof fn law_layout_choices_complete(choice: InspectorLayoutChoice)
    ensures
        layout_choices().contains(choice),
{
    let all = layout_choices();
    match choice {
        InspectorLayoutChoice::Wrap(w) => {
            assert(all[0] == InspectorLayoutChoice::Wrap(NativeWrap::NoWrap) && all[1]
                == InspectorLayoutChoice::Wrap(NativeWrap::Wrap) && all[2]
                == InspectorLayoutChoice::Wrap(NativeWrap::WrapReverse));
            assert(w == NativeWrap::NoWrap || w == NativeWrap::Wrap || w
                == NativeWrap::WrapReverse);
        },
        InspectorLayoutChoice::Position(p) => {
            assert(all[3] == InspectorLayoutChoice::Position(NativePosition::Flow) && all[4]
                == InspectorLayoutChoice::Position(NativePosition::Absolute));
            assert(p == NativePosition::Flow || p == NativePosition::Absolute);
        },
        InspectorLayoutChoice::Overflow(o) => {
            assert(all[5] == InspectorLayoutChoice::Overflow(NativeOverflow::Visible) && all[6]
                == InspectorLayoutChoice::Overflow(NativeOverflow::Hidden) && all[7]
                == InspectorLayoutChoice::Overflow(NativeOverflow::Scroll));
            assert(o == NativeOverflow::Visible || o == NativeOverflow::Hidden || o
                == NativeOverflow::Scroll);
        },
        InspectorLayoutChoice::HorizontalConstraint(c) => {
            let i: int = match c {
                NativeConstraint::Start => 8,
                NativeConstraint::Center => 9,
                NativeConstraint::End => 10,
                NativeConstraint::Scale => 11,
                NativeConstraint::Stretch => 12,
            };
            assert(all[i] == choice);
        },
        InspectorLayoutChoice::VerticalConstraint(c) => {
            let i: int = match c {
                NativeConstraint::Start => 13,
                NativeConstraint::Center => 14,
                NativeConstraint::End => 15,
                NativeConstraint::Scale => 16,
                NativeConstraint::Stretch => 17,
            };
            assert(all[i] == choice);
        },
        InspectorLayoutChoice::Grow(on) => {
            assert(all[18] == InspectorLayoutChoice::Grow(false) && all[19]
                == InspectorLayoutChoice::Grow(true));
        },
        InspectorLayoutChoice::Shrink(on) => {
            assert(all[20] == InspectorLayoutChoice::Shrink(false) && all[21]
                == InspectorLayoutChoice::Shrink(true));
        },
    }
}

/// A behavior is chosen in its own place of the layout, and nothing else of the layout changes.
pub proof fn law_choices_go_where_they_belong(
    layout: NativeLayout,
    wrap: NativeWrap,
    position: NativePosition,
    overflow: NativeOverflow,
    constraint: NativeConstraint,
    on: bool,
)
    ensures
        ({
            let out = chosen_layout(layout, InspectorLayoutChoice::Wrap(wrap));
            out.wrap == wrap && out == (NativeLayout { wrap: out.wrap, ..layout })
        }),
        ({
            let out = chosen_layout(layout, InspectorLayoutChoice::Position(position));
            out.position == position && out == (NativeLayout { position: out.position, ..layout })
        }),
        ({
            let out = chosen_layout(layout, InspectorLayoutChoice::Overflow(overflow));
            out.overflow == overflow && out == (NativeLayout { overflow: out.overflow, ..layout })
        }),
        ({
            let out = chosen_layout(
                layout,
                InspectorLayoutChoice::HorizontalConstraint(constraint),
            );
            out.horizontal_constraint == constraint && out == (NativeLayout {
                horizontal_constraint: out.horizontal_constraint,
                ..layout
            })
        }),
        ({
            let out = chosen_layout(layout, InspectorLayoutChoice::VerticalConstraint(constraint));
            out.vertical_constraint == constraint && out == (NativeLayout {
                vertical_constraint: out.vertical_constraint,
                ..layout
            })
        }),
        ({
            let out = chosen_layout(layout, InspectorLayoutChoice::Grow(on));
            out.grow == on && out == (NativeLayout { grow: out.grow, ..layout })
        }),
        ({
            let out = chosen_layout(layout, InspectorLayoutChoice::Shrink(on));
            out.shrink == on && out == (NativeLayout { shrink: out.shrink, ..layout })
        }),
{
}

/// A size follows content or parent unless it is fixed, and is the width along the first axis and
/// the height along the second.
pub proof fn law_sizes_along_the_axes(layout: NativeLayout, pixels: u16)
    ensures
        size_along(layout, InspectorSizeAxis::Width) == layout.width,
        size_along(layout, InspectorSizeAxis::Height) == layout.height,
        is_intrinsic(NativeSize::Hug),
        is_intrinsic(NativeSize::Fill),
        !is_intrinsic(NativeSize::Fixed(pixels)),
{
}

/// A field counts as unchanged just where it shows the text as it stands; a color also where only
/// case and white space around it differ.
pub proof fn law_unchanged_fields(field: InspectorValueField, current: Seq<char>, value: Seq<char>)
    ensures
        shows(field, current, current),
        !(field is Background) && !(field is Foreground) && !(field is Border) ==> (shows(
            field,
            current,
            value,
        ) <==> current == value),
        (field is Background || field is Foreground || field is Border) && current != value ==> (
        shows(field, current, value) <==> text::same_ignoring_case(current, text::trimmed(value))),
{
}

/// Without a selected node the sizes show what was painted, and the other fields the values that a
/// fresh node has.
pub proof fn law_empty_fields(width: Option<Seq<char>>, height: Option<Seq<char>>)
    ensures
        width is Some ==> empty_field_text(width, height, InspectorValueField::Width) == width->0,
        width is None ==> empty_field_text(width, height, InspectorValueField::Width) == "0"@,
        height is Some ==> empty_field_text(width, height, InspectorValueField::Height)
            == height->0,
        height is None ==> empty_field_text(width, height, InspectorValueField::Height) == "0"@,
        empty_field_text(width, height, InspectorValueField::Gap) == "0"@,
        empty_field_text(width, height, InspectorValueField::Padding) == "0"@,
        empty_field_text(width, height, InspectorValueField::Margin) == "0"@,
        empty_field_text(width, height, InspectorValueField::GridColumns) == "0"@,
        empty_field_text(width, height, InspectorValueField::GridRows) == "0"@,
        empty_field_text(width, height, InspectorValueField::ZIndex) == "0"@,
        empty_field_text(width, height, InspectorValueField::Rotation) == "0"@,
        empty_field_text(width, height, InspectorValueField::Radius) == "0"@,
        empty_field_text(width, height, InspectorValueField::ColumnSpan) == "1"@,
        empty_field_text(width, height, InspectorValueField::RowSpan) == "1"@,
        empty_field_text(width, height, InspectorValueField::Opacity) == "100"@,
        empty_field_text(width, height, InspectorValueField::Background) == "transparent"@,
        empty_field_text(width, height, InspectorValueField::Border) == "transparent"@,
        empty_field_text(width, height, InspectorValueField::Foreground) == "#e7e9ee"@,
        empty_field_text(width, height, InspectorValueField::FontFamily) == "Geist"@,
        empty_field_text(width, height, InspectorValueField::FontSize) == "14"@,
        empty_field_text(width, height, InspectorValueField::FontWeight) == "400"@,
        empty_field_text(width, height, InspectorValueField::LineHeight) == "20"@,
        empty_field_text(width, height, InspectorValueField::Text) == ""@,
        empty_field_text(width, height, InspectorValueField::Action) == ""@,
        empty_field_text(width, height, InspectorValueField::Basis) == ""@,
{
}

/// Each constraint has its word.
pub proof fn law_constraints_are_named(x: NativeConstraint)
    ensures
        x is Start ==> constraint_name(x) == "start"@,
        x is Center ==> constraint_name(x) == "center"@,
        x is End ==> constraint_name(x) == "end"@,
        x is Scale ==> constraint_name(x) == "scale"@,
        x is Stretch ==> constraint_name(x) == "stretch"@,
{
}

/// A layout choice is bound under its place and its value.
pub proof fn law_choices_are_named(choice: InspectorLayoutChoice, constraint: NativeConstraint)
    ensures
        layout_choice_name(InspectorLayoutChoice::Wrap(NativeWrap::NoWrap))
            == "inspector_wrap_none"@,
        layout_choice_name(InspectorLayoutChoice::Wrap(NativeWrap::Wrap)) == "inspector_wrap_wrap"@,
        layout_choice_name(InspectorLayoutChoice::Wrap(NativeWrap::WrapReverse))
            == "inspector_wrap_reverse"@,
        layout_choice_name(InspectorLayoutChoice::Position(NativePosition::Flow))
            == "inspector_position_flow"@,
        layout_choice_name(InspectorLayoutChoice::Position(NativePosition::Absolute))
            == "inspector_position_absolute"@,
        layout_choice_name(InspectorLayoutChoice::Overflow(NativeOverflow::Visible))
            == "inspector_overflow_visible"@,
        layout_choice_name(InspectorLayoutChoice::Overflow(NativeOverflow::Hidden))
            == "inspector_overflow_hidden"@,
        layout_choice_name(InspectorLayoutChoice::Overflow(NativeOverflow::Scroll))
            == "inspector_overflow_scroll"@,
        layout_choice_name(InspectorLayoutChoice::HorizontalConstraint(constraint))
            == "inspector_constraint_x_"@ + constraint_name(constraint),
        layout_choice_name(InspectorLayoutChoice::VerticalConstraint(constraint))
            == "inspector_constraint_y_"@ + constraint_name(constraint),
        layout_choice_name(InspectorLayoutChoice::Grow(true)) == "inspector_grow_on"@,
        layout_choice_name(InspectorLayoutChoice::Grow(false)) == "inspector_grow_off"@,
        layout_choice_name(InspectorLayoutChoice::Shrink(true)) == "inspector_shrink_on"@,
        layout_choice_name(InspectorLayoutChoice::Shrink(false)) == "inspector_shrink_off"@,
{
}

} // verus!
