//! A container that lays its children out horizontally.
use vstd::prelude::*;
use crate::colour::Colour;
use crate::layout::AspectRatio;
use crate::style::{AlignContent, AlignSelf, FlexDirection, FlexWrap, UiRect, MAX_FILL_PORTION};
use crate::theme::{PaintMode, Theme};
use super::{Container, WidgetNode};

verus! {

/// A container laying out its children left to right.
pub struct Row {
    pub container: Container,
}

impl Row {
    /// An empty row.
    pub fn new() -> (r: Row)
        ensures
            Container::new_spec(r.container.with_direction_spec(FlexDirection::Row)),
            r.container.style.flex_direction == FlexDirection::Row,
    {
        Row { container: Container::new().with_direction(FlexDirection::Row) }
    }

    /// Appends a child.
    pub fn push(self, child: WidgetNode) -> (r: Row)
        ensures
            r.container.children@ == self.container.children@.push(child),
            r.container == (Container { children: r.container.children, ..self.container }),
    {
        Row { container: self.container.push(child) }
    }

    pub open spec fn with_paint_mode_spec(self, paint_mode: PaintMode) -> Row {
        Row { container: self.container.with_paint_mode_spec(paint_mode) }
    }

    /// Sets how the node paints its background.
    pub fn with_paint_mode(self, paint_mode: PaintMode) -> (r: Row)
        ensures
            r == self.with_paint_mode_spec(paint_mode),
    {
        Row { container: self.container.with_paint_mode(paint_mode) }
    }

    pub open spec fn with_colour_spec(self, background: Colour, foreground: Colour) -> Row {
        Row { container: self.container.with_colour_spec(background, foreground) }
    }

    /// Paints the node with these colours instead of a palette role.
    pub fn with_colour(self, background: Colour, foreground: Colour) -> (r: Row)
        ensures
            r == self.with_colour_spec(background, foreground),
    {
        Row { container: self.container.with_colour(background, foreground) }
    }

    pub open spec fn with_border_spec(self, border: UiRect) -> Row {
        Row { container: self.container.with_border_spec(border) }
    }

    /// Sets the border widths.
    pub fn with_border(self, border: UiRect) -> (r: Row)
        ensures
            r == self.with_border_spec(border),
    {
        Row { container: self.container.with_border(border) }
    }

    pub open spec fn with_aspect_ratio_spec(self, aspect_ratio: AspectRatio) -> Row {
        Row { container: self.container.with_aspect_ratio_spec(aspect_ratio) }
    }

    /// Keeps the node at this width-to-height ratio; not to be combined with a fill portion.
    pub fn with_aspect_ratio(self, aspect_ratio: AspectRatio) -> (r: Row)
        requires
            aspect_ratio.wf(),
        ensures
            r == self.with_aspect_ratio_spec(aspect_ratio),
    {
        Row { container: self.container.with_aspect_ratio(aspect_ratio) }
    }

    pub open spec fn with_direction_spec(self, direction: FlexDirection) -> Row {
        Row { container: self.container.with_direction_spec(direction) }
    }

    /// Sets the direction children are laid out in.
    pub fn with_direction(self, direction: FlexDirection) -> (r: Row)
        ensures
            r == self.with_direction_spec(direction),
    {
        Row { container: self.container.with_direction(direction) }
    }

    pub open spec fn with_wrap_spec(self, wrap: FlexWrap) -> Row {
        Row { container: self.container.with_wrap_spec(wrap) }
    }

    /// Sets how children wrap.
    pub fn with_wrap(self, wrap: FlexWrap) -> (r: Row)
        ensures
            r == self.with_wrap_spec(wrap),
    {
        Row { container: self.container.with_wrap(wrap) }
    }

    pub open spec fn with_align_self_spec(self, align_self: AlignSelf) -> Row {
        Row { container: self.container.with_align_self_spec(align_self) }
    }

    /// Sets the node's own alignment, overriding the parent's.
    pub fn with_align_self(self, align_self: AlignSelf) -> (r: Row)
        ensures
            r == self.with_align_self_spec(align_self),
    {
        Row { container: self.container.with_align_self(align_self) }
    }

    pub open spec fn with_align_content_spec(self, align_content: AlignContent) -> Row {
        Row { container: self.container.with_align_content_spec(align_content) }
    }

    /// Sets how lines of children are aligned.
    pub fn with_align_content(self, align_content: AlignContent) -> (r: Row)
        ensures
            r == self.with_align_content_spec(align_content),
    {
        Row { container: self.container.with_align_content(align_content) }
    }

    pub open spec fn with_padding_spec(self, padding: UiRect) -> Row {
        Row { container: self.container.with_padding_spec(padding) }
    }

    /// Sets a padding that overrides the theme's.
    pub fn with_padding(self, padding: UiRect) -> (r: Row)
        ensures
            r == self.with_padding_spec(padding),
    {
        Row { container: self.container.with_padding(padding) }
    }

    pub open spec fn with_margin_spec(self, margin: UiRect) -> Row {
        Row { container: self.container.with_margin_spec(margin) }
    }

    /// Sets a margin that overrides the theme's.
    pub fn with_margin(self, margin: UiRect) -> (r: Row)
        ensures
            r == self.with_margin_spec(margin),
    {
        Row { container: self.container.with_margin(margin) }
    }

    pub open spec fn with_fill_portion_spec(self, fill_portion: u32) -> Row {
        Row { container: self.container.with_fill_portion_spec(fill_portion) }
    }

    /// Takes `fill_portion` shares of the parent's main axis.
    pub fn with_fill_portion(self, fill_portion: u32) -> (r: Row)
        requires
            fill_portion <= MAX_FILL_PORTION,
        ensures
            r == self.with_fill_portion_spec(fill_portion),
    {
        Row { container: self.container.with_fill_portion(fill_portion) }
    }

    pub open spec fn with_fill_hundredths_spec(self, hundredths: u32) -> Row {
        Row { container: self.container.with_fill_hundredths_spec(hundredths) }
    }

    /// Takes `hundredths` hundredths of a share of the parent's main axis.
    pub fn with_fill_hundredths(self, hundredths: u32) -> (r: Row)
        ensures
            r == self.with_fill_hundredths_spec(hundredths),
    {
        Row { container: self.container.with_fill_hundredths(hundredths) }
    }

    pub open spec fn with_theme_spec(self, theme: Theme) -> Row {
        Row { container: self.container.with_theme_spec(theme) }
    }

    /// Sets the declared theme.
    pub fn with_theme(self, theme: Theme) -> (r: Row)
        ensures
            r == self.with_theme_spec(theme),
    {
        Row { container: self.container.with_theme(theme) }
    }

    pub open spec fn with_owner_spec(self, owner: u64) -> Row {
        Row { container: self.container.with_owner_spec(owner) }
    }

    /// Claims `owner` as the named section this node and its descendants belong to.
    pub fn with_owner(self, owner: u64) -> (r: Row)
        ensures
            r == self.with_owner_spec(owner),
    {
        Row { container: self.container.with_owner(owner) }
    }

}

} // verus!
