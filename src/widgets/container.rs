//! The universal composite: a styled rectangular region with children.
use vstd::prelude::*;
use crate::colour::Colour;
use crate::layout::AspectRatio;
use crate::style::{
    fill_portion_basis, AlignContent, AlignSelf, FlexDirection, FlexWrap, NodeStyle, UiRect, Val,
    MAX_FILL_PORTION,
};
use crate::theme::{PaintMode, Theme};
use super::WidgetNode;

verus! {

/// A styled region that lays its children out in a direction. Rows,
/// columns, labels and buttons are all built on it.
pub struct Container {
    pub children: Vec<WidgetNode>,
    pub style: NodeStyle,
    pub theme: Theme,
    pub custom_padding: Option<UiRect>,
    pub custom_margin: Option<UiRect>,
    pub aspect_ratio: Option<AspectRatio>,
    pub paint_mode: PaintMode,
    /// The named owner this node claims, if any.
    pub owner: Option<u64>,
}

impl Container {
    pub open spec fn new_spec(c: Container) -> bool {
        &&& c.children@.len() == 0
        &&& c.style == NodeStyle::filling_spec()
        &&& c.theme == Theme::Auto
        &&& c.custom_padding is None
        &&& c.custom_margin is None
        &&& c.aspect_ratio is None
        &&& c.paint_mode == PaintMode::BackgroundContainer
        &&& c.owner is None
    }

    /// An empty region that fills its parent, inherits its theme and paints
    /// the container background.
    pub fn new() -> (r: Container)
        ensures
            Container::new_spec(r),
    {
        Container {
            children: Vec::new(),
            style: NodeStyle::filling(),
            theme: Theme::Auto,
            custom_padding: None,
            custom_margin: None,
            aspect_ratio: None,
            paint_mode: PaintMode::BackgroundContainer,
            owner: None,
        }
    }

    /// Appends a child.
    pub fn push(self, child: WidgetNode) -> (r: Container)
        ensures
            r.children@ == self.children@.push(child),
            r == (Container { children: r.children, ..self }),
    {
        let mut s = self;
        s.children.push(child);
        s
    }

    pub open spec fn with_size_spec(self, width: Val, height: Val) -> Container {
        Container { style: NodeStyle { width, height, ..self.style }, ..self }
    }

    /// Sets the width and the height.
    pub fn with_size(self, width: Val, height: Val) -> (r: Container)
        ensures
            r == self.with_size_spec(width, height),
    {
        let style = NodeStyle { width, height, ..self.style };
        Container { style, ..self }
    }

    pub open spec fn with_paint_mode_spec(self, paint_mode: PaintMode) -> Container {
        Container { paint_mode, ..self }
    }

    /// Sets how the node paints its background.
    pub fn with_paint_mode(self, paint_mode: PaintMode) -> (r: Container)
        ensures
            r == self.with_paint_mode_spec(paint_mode),
    {
        Container { paint_mode, ..self }
    }

    pub open spec fn with_colour_spec(self, background: Colour, foreground: Colour) -> Container {
        Container { theme: Theme::Custom(background, foreground), ..self }
    }

    /// Paints the node with these colours instead of a palette role.
    pub fn with_colour(self, background: Colour, foreground: Colour) -> (r: Container)
        ensures
            r == self.with_colour_spec(background, foreground),
    {
        Container { theme: Theme::Custom(background, foreground), ..self }
    }

    pub open spec fn with_border_spec(self, border: UiRect) -> Container {
        Container { style: NodeStyle { border, ..self.style }, ..self }
    }

    /// Sets the border widths.
    pub fn with_border(self, border: UiRect) -> (r: Container)
        ensures
            r == self.with_border_spec(border),
    {
        let style = NodeStyle { border, ..self.style };
        Container { style, ..self }
    }

    pub open spec fn with_aspect_ratio_spec(self, aspect_ratio: AspectRatio) -> Container {
        Container { aspect_ratio: Some(aspect_ratio), ..self }
    }

    /// Keeps the node at this width-to-height ratio; not to be combined with
    /// a fill portion.
    pub fn with_aspect_ratio(self, aspect_ratio: AspectRatio) -> (r: Container)
        requires
            aspect_ratio.wf(),
        ensures
            r == self.with_aspect_ratio_spec(aspect_ratio),
    {
        Container { aspect_ratio: Some(aspect_ratio), ..self }
    }

    pub open spec fn with_direction_spec(self, direction: FlexDirection) -> Container {
        Container { style: NodeStyle { flex_direction: direction, ..self.style }, ..self }
    }

    /// Sets the direction children are laid out in.
    pub fn with_direction(self, direction: FlexDirection) -> (r: Container)
        ensures
            r == self.with_direction_spec(direction),
    {
        let style = NodeStyle { flex_direction: direction, ..self.style };
        Container { style, ..self }
    }

    pub open spec fn with_wrap_spec(self, wrap: FlexWrap) -> Container {
        Container { style: NodeStyle { flex_wrap: wrap, ..self.style }, ..self }
    }

    /// Sets how children wrap.
    pub fn with_wrap(self, wrap: FlexWrap) -> (r: Container)
        ensures
            r == self.with_wrap_spec(wrap),
    {
        let style = NodeStyle { flex_wrap: wrap, ..self.style };
        Container { style, ..self }
    }

    pub open spec fn with_align_self_spec(self, align_self: AlignSelf) -> Container {
        Container { style: NodeStyle { align_self, ..self.style }, ..self }
    }

    /// Sets the node's own alignment, overriding the parent's.
    pub fn with_align_self(self, align_self: AlignSelf) -> (r: Container)
        ensures
            r == self.with_align_self_spec(align_self),
    {
        let style = NodeStyle { align_self, ..self.style };
        Container { style, ..self }
    }

    pub open spec fn with_align_content_spec(self, align_content: AlignContent) -> Container {
        Container { style: NodeStyle { align_content, ..self.style }, ..self }
    }

    /// Sets how lines of children are aligned.
    pub fn with_align_content(self, align_content: AlignContent) -> (r: Container)
        ensures
            r == self.with_align_content_spec(align_content),
    {
        let style = NodeStyle { align_content, ..self.style };
        Container { style, ..self }
    }

    pub open spec fn with_padding_spec(self, padding: UiRect) -> Container {
        Container {
            custom_padding: Some(padding),
            style: NodeStyle { padding, ..self.style },
            ..self
        }
    }

    /// Sets a padding that overrides the theme's.
    pub fn with_padding(self, padding: UiRect) -> (r: Container)
        ensures
            r == self.with_padding_spec(padding),
    {
        let style = NodeStyle { padding, ..self.style };
        Container { custom_padding: Some(padding), style, ..self }
    }

    pub open spec fn with_margin_spec(self, margin: UiRect) -> Container {
        Container { custom_margin: Some(margin), style: NodeStyle { margin, ..self.style }, ..self }
    }

    /// Sets a margin that overrides the theme's.
    pub fn with_margin(self, margin: UiRect) -> (r: Container)
        ensures
            r == self.with_margin_spec(margin),
    {
        let style = NodeStyle { margin, ..self.style };
        Container { custom_margin: Some(margin), style, ..self }
    }

    pub open spec fn with_fill_portion_spec(self, fill_portion: u32) -> Container {
        Container {
            style: NodeStyle {
                flex_basis: Val::Percent((fill_portion * 100) as u32),
                ..self.style
            },
            ..self
        }
    }

    /// Takes `fill_portion` shares of the parent's main axis, a share being
    /// a hundred percent of it.
    pub fn with_fill_portion(self, fill_portion: u32) -> (r: Container)
        requires
            fill_portion <= MAX_FILL_PORTION,
        ensures
            r == self.with_fill_portion_spec(fill_portion),
    {
        let style = NodeStyle { flex_basis: fill_portion_basis(fill_portion), ..self.style };
        Container { style, ..self }
    }

    pub open spec fn with_fill_hundredths_spec(self, hundredths: u32) -> Container {
        Container { style: NodeStyle { flex_basis: Val::Percent(hundredths), ..self.style }, ..self }
    }

    /// Takes `hundredths` hundredths of a share of the parent's main axis:
    /// 50 is half a share, 250 two and a half.
    pub fn with_fill_hundredths(self, hundredths: u32) -> (r: Container)
        ensures
            r == self.with_fill_hundredths_spec(hundredths),
    {
        let style = NodeStyle { flex_basis: Val::Percent(hundredths), ..self.style };
        Container { style, ..self }
    }

    pub open spec fn with_theme_spec(self, theme: Theme) -> Container {
        Container { theme, ..self }
    }

    /// Sets the declared theme.
    pub fn with_theme(self, theme: Theme) -> (r: Container)
        ensures
            r == self.with_theme_spec(theme),
    {
        Container { theme, ..self }
    }

    pub open spec fn with_owner_spec(self, owner: u64) -> Container {
        Container { owner: Some(owner), ..self }
    }

    /// Claims `owner` as the named section this node and its descendants
    /// belong to.
    pub fn with_owner(self, owner: u64) -> (r: Container)
        ensures
            r == self.with_owner_spec(owner),
    {
        Container { owner: Some(owner), ..self }
    }
}

/// An empty region taking `size` shares of its parent's main axis.
pub fn create_space(size: u32) -> (r: Container)
    requires
        size <= MAX_FILL_PORTION,
    ensures
        Container::new_spec(Container { style: NodeStyle::filling_spec(), ..r }),
        r.style == (NodeStyle {
            flex_basis: Val::Percent((size * 100) as u32),
            ..NodeStyle::filling_spec()
        }),
{
    Container::new().with_fill_portion(size)
}

} // verus!
