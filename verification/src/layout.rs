//! Layout properties of a widget node, as a scene description records
//! them.
//!
//! The host layout engine measures lengths in fractional pixels or
//! percentages; every length the demos use is a whole number, so the
//! model stores whole pixels and whole percents.

use vstd::prelude::*;

verus! {

/// A length, in whole pixels or whole percent of the parent.
#[derive(Clone, Copy, PartialEq, Eq, Debug)]
pub enum Val {
    /// Let the layout engine choose.
    Auto,
    /// A whole number of pixels.
    Px(u32),
    /// A whole percentage of the parent's extent.
    Percent(u32),
}

/// Main-axis distribution of children.
#[derive(Clone, Copy, PartialEq, Eq, Debug)]
pub enum JustifyContent {
    /// The layout engine's default distribution.
    Unset,
    /// Pack children around the centre.
    Center,
    /// Pack children toward the end.
    End,
    /// Pack children toward the start of the flex axis.
    FlexStart,
    /// Distribute children with equal space around each.
    SpaceAround,
}

/// Cross-axis alignment of children.
#[derive(Clone, Copy, PartialEq, Eq, Debug)]
pub enum AlignItems {
    /// The layout engine's default alignment.
    Unset,
    /// Align children to the centre.
    Center,
    /// Align children to the start.
    Start,
    /// Align children to the end.
    End,
    /// Align children to the start of the flex axis.
    FlexStart,
}

/// Direction of the main flex axis.
#[derive(Clone, Copy, PartialEq, Eq, Debug)]
pub enum FlexDirection {
    /// Lay children out in a row (the layout engine's default).
    Row,
    /// Lay children out in a column.
    Column,
}

/// Whether a node is positioned in flow or absolutely.
#[derive(Clone, Copy, PartialEq, Eq, Debug)]
pub enum PositionType {
    /// In-flow relative positioning (the layout engine's default).
    Relative,
    /// Absolute positioning against the nearest positioned ancestor.
    Absolute,
}

/// Main-axis alignment of items within their grid/flex tracks.
#[derive(Clone, Copy, PartialEq, Eq, Debug)]
pub enum JustifyItems {
    /// The layout engine's default.
    Unset,
    /// Justify items toward the end.
    End,
}

/// Cross-axis distribution of wrapped lines.
#[derive(Clone, Copy, PartialEq, Eq, Debug)]
pub enum AlignContent {
    /// The layout engine's default.
    Unset,
    /// Centre the lines.
    Center,
}

/// The layout properties a demo node sets. Every demo node uses a
/// flex display; margin, padding and border are uniform rectangles, so
/// one length each suffices.
#[derive(Clone, Copy, PartialEq, Eq, Debug)]
pub struct Layout {
    /// Node width.
    pub width: Val,
    /// Node height.
    pub height: Val,
    /// Main-axis distribution of children.
    pub justify_content: JustifyContent,
    /// Cross-axis alignment of children.
    pub align_items: AlignItems,
    /// Direction of the main flex axis.
    pub flex_direction: FlexDirection,
    /// Uniform outer margin.
    pub margin: Val,
    /// Uniform inner padding.
    pub padding: Val,
    /// Uniform border width.
    pub border: Val,
    /// In-flow or absolute positioning.
    pub position_type: PositionType,
    /// Offset from the top edge (absolute positioning).
    pub top: Val,
    /// Offset from the left edge (absolute positioning).
    pub left: Val,
    /// Gap between rows of children.
    pub row_gap: Val,
    /// Main-axis alignment of items in their tracks.
    pub justify_items: JustifyItems,
    /// Cross-axis distribution of wrapped lines.
    pub align_content: AlignContent,
}

impl Layout {
    /// The layout a node has before a demo sets any property.
    pub open spec fn spec_default() -> Layout {
        Layout {
            width: Val::Auto,
            height: Val::Auto,
            justify_content: JustifyContent::Unset,
            align_items: AlignItems::Unset,
            flex_direction: FlexDirection::Row,
            margin: Val::Auto,
            padding: Val::Auto,
            border: Val::Auto,
            position_type: PositionType::Relative,
            top: Val::Auto,
            left: Val::Auto,
            row_gap: Val::Auto,
            justify_items: JustifyItems::Unset,
            align_content: AlignContent::Unset,
        }
    }
}

impl Default for Layout {
    /// Returns the untouched layout.
    fn default() -> (l: Layout)
        ensures
            l == Layout::spec_default(),
    {
        Layout {
            width: Val::Auto,
            height: Val::Auto,
            justify_content: JustifyContent::Unset,
            align_items: AlignItems::Unset,
            flex_direction: FlexDirection::Row,
            margin: Val::Auto,
            padding: Val::Auto,
            border: Val::Auto,
            position_type: PositionType::Relative,
            top: Val::Auto,
            left: Val::Auto,
            row_gap: Val::Auto,
            justify_items: JustifyItems::Unset,
            align_content: AlignContent::Unset,
        }
    }
}

} // verus!
