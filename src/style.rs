//! Layout attributes of a node, as plain values the host turns into its own
//! style type.
use vstd::prelude::*;

verus! {

/// A length: automatic, in pixels, or in percent of the parent.
#[derive(Clone, Copy, Debug, PartialEq, Eq, Structural)]
pub enum Val {
    Auto,
    Px(u32),
    Percent(u32),
}

/// Four lengths around a node (padding, margin or border widths).
#[derive(Clone, Copy, Debug, PartialEq, Eq, Structural)]
pub struct UiRect {
    pub left: Val,
    pub right: Val,
    pub top: Val,
    pub bottom: Val,
}

impl UiRect {
    pub open spec fn all_spec(v: Val) -> UiRect {
        UiRect { left: v, right: v, top: v, bottom: v }
    }

    /// The same length on all four sides.
    pub fn all(v: Val) -> (r: UiRect)
        ensures
            r == UiRect::all_spec(v),
    {
        UiRect { left: v, right: v, top: v, bottom: v }
    }

    pub fn new(left: Val, right: Val, top: Val, bottom: Val) -> (r: UiRect)
        ensures
            r == (UiRect { left, right, top, bottom }),
    {
        UiRect { left, right, top, bottom }
    }

    pub open spec fn zero_spec() -> UiRect {
        UiRect { left: Val::Px(0), right: Val::Px(0), top: Val::Px(0), bottom: Val::Px(0) }
    }

    /// Zero pixels on every side.
    pub fn zero() -> (r: UiRect)
        ensures
            r == UiRect::zero_spec(),
    {
        UiRect::all(Val::Px(0))
    }
}

#[derive(Clone, Copy, Debug, PartialEq, Eq, Structural)]
pub enum FlexDirection {
    Row,
    Column,
    RowReverse,
    ColumnReverse,
}

#[derive(Clone, Copy, Debug, PartialEq, Eq, Structural)]
pub enum FlexWrap {
    NoWrap,
    Wrap,
    WrapReverse,
}

#[derive(Clone, Copy, Debug, PartialEq, Eq, Structural)]
pub enum AlignSelf {
    Auto,
    Start,
    End,
    FlexStart,
    FlexEnd,
    Center,
    Baseline,
    Stretch,
}

#[derive(Clone, Copy, Debug, PartialEq, Eq, Structural)]
pub enum AlignContent {
    Default,
    Start,
    End,
    FlexStart,
    FlexEnd,
    Center,
    Stretch,
    SpaceBetween,
    SpaceEvenly,
    SpaceAround,
}

/// The layout attributes that the library sets on a node.
#[derive(Clone, Copy, Debug, PartialEq, Eq, Structural)]
pub struct NodeStyle {
    pub width: Val,
    pub height: Val,
    pub flex_direction: FlexDirection,
    pub flex_wrap: FlexWrap,
    pub flex_basis: Val,
    pub align_self: AlignSelf,
    pub align_content: AlignContent,
    pub padding: UiRect,
    pub margin: UiRect,
    pub border: UiRect,
}

impl NodeStyle {
    pub open spec fn filling_spec() -> NodeStyle {
        NodeStyle {
            width: Val::Percent(100),
            height: Val::Percent(100),
            flex_direction: FlexDirection::Row,
            flex_wrap: FlexWrap::NoWrap,
            flex_basis: Val::Auto,
            align_self: AlignSelf::Auto,
            align_content: AlignContent::Default,
            padding: UiRect::zero_spec(),
            margin: UiRect::zero_spec(),
            border: UiRect::zero_spec(),
        }
    }

    /// A node that fills its parent, lays its children out in a row and has
    /// no padding, margin or border.
    pub fn filling() -> (r: NodeStyle)
        ensures
            r == NodeStyle::filling_spec(),
    {
        NodeStyle {
            width: Val::Percent(100),
            height: Val::Percent(100),
            flex_direction: FlexDirection::Row,
            flex_wrap: FlexWrap::NoWrap,
            flex_basis: Val::Auto,
            align_self: AlignSelf::Auto,
            align_content: AlignContent::Default,
            padding: UiRect::zero(),
            margin: UiRect::zero(),
            border: UiRect::zero(),
        }
    }
}

impl NodeStyle {
    pub open spec fn leaf_spec() -> NodeStyle {
        NodeStyle {
            width: Val::Auto,
            height: Val::Auto,
            ..NodeStyle::filling_spec()
        }
    }

    /// A node sized by its own content.
    pub fn leaf() -> (r: NodeStyle)
        ensures
            r == NodeStyle::leaf_spec(),
    {
        NodeStyle { width: Val::Auto, height: Val::Auto, ..NodeStyle::filling() }
    }
}

/// The largest fill portion whose percentage still fits in a `u32`.
pub const MAX_FILL_PORTION: u32 = 42949672;

/// The flex basis that gives a node `portion` shares of its parent's main
/// axis: one share is a hundred percent.
pub fn fill_portion_basis(portion: u32) -> (r: Val)
    requires
        portion <= MAX_FILL_PORTION,
    ensures
        r == Val::Percent((portion * 100) as u32),
{
    Val::Percent(portion * 100)
}

} // verus!
