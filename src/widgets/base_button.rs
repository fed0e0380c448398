//! An interactive container that takes focus and reacts to presses.
use vstd::prelude::*;
use crate::colour::Colour;
use crate::layout::AspectRatio;
use crate::style::{AlignContent, AlignSelf, FlexDirection, FlexWrap, UiRect, MAX_FILL_PORTION};
use crate::theme::{PaintMode, Theme};
use super::{Container, WidgetNode};

verus! {

/// A container that takes part in focus and interaction. With auto style
/// on, the host recolours it when it is focused or pressed.
pub struct BaseButton {
    pub container: Container,
    /// Whether the host recolours the button on focus and press.
    pub auto_style: bool,
}

impl BaseButton {
    /// An empty button that paints its role's background, without auto
    /// style.
    pub fn new() -> (r: BaseButton)
        ensures
            Container::new_spec(r.container.with_paint_mode_spec(PaintMode::BackgroundContainer)),
            r.container.paint_mode == PaintMode::Background,
            !r.auto_style,
    {
        BaseButton {
            container: Container::new().with_paint_mode(PaintMode::Background),
            auto_style: false,
        }
    }

    /// Appends a child.
    pub fn push(self, child: WidgetNode) -> (r: BaseButton)
        ensures
            r.container.children@ == self.container.children@.push(child),
            r.container == (Container { children: r.container.children, ..self.container }),
            r.auto_style == self.auto_style,
    {
        BaseButton { container: self.container.push(child), auto_style: self.auto_style }
    }

    /// Turns the automatic focus and press colouring on or off.
    pub fn with_auto_style(self, should_auto_style: bool) -> (r: BaseButton)
        ensures
            r == (BaseButton { auto_style: should_auto_style, ..self }),
    {
        BaseButton { auto_style: should_auto_style, ..self }
    }

    pub open spec fn with_paint_mode_spec(self, paint_mode: PaintMode) -> BaseButton {
        BaseButton { container: self.container.with_paint_mode_spec(paint_mode), ..self }
    }

    /// Sets how the node paints its background.
    pub fn with_paint_mode(self, paint_mode: PaintMode) -> (r: BaseButton)
        ensures
            r == self.with_paint_mode_spec(paint_mode),
    {
        BaseButton { container: self.container.with_paint_mode(paint_mode), ..self }
    }

    pub open spec fn with_colour_spec(self, background: Colour, foreground: Colour) -> BaseButton {
        BaseButton { container: self.container.with_colour_spec(background, foreground), ..self }
    }

    /// Paints the node with these colours instead of a palette role.
    pub fn with_colour(self, background: Colour, foreground: Colour) -> (r: BaseButton)
        ensures
            r == self.with_colour_spec(background, foreground),
    {
        BaseButton { container: self.container.with_colour(background, foreground), ..self }
    }

    pub open spec fn with_border_spec(self, border: UiRect) -> BaseButton {
        BaseButton { container: self.container.with_border_spec(border), ..self }
    }

    /// Sets the border widths.
    pub fn with_border(self, border: UiRect) -> (r: BaseButton)
        ensures
            r == self.with_border_spec(border),
    {
        BaseButton { container: self.container.with_border(border), ..self }
    }

    pub open spec fn with_aspect_ratio_spec(self, aspect_ratio: AspectRatio) -> BaseButton {
        BaseButton { container: self.container.with_aspect_ratio_spec(aspect_ratio), ..self }
    }

    /// Keeps the node at this width-to-height ratio; not to be combined with a fill portion.
    pub fn with_aspect_ratio(self, aspect_ratio: AspectRatio) -> (r: BaseButton)
        requires
            aspect_ratio.wf(),
        ensures
            r == self.with_aspect_ratio_spec(aspect_ratio),
    {
        BaseButton { container: self.container.with_aspect_ratio(aspect_ratio), ..self }
    }

    pub open spec fn with_direction_spec(self, direction: FlexDirection) -> BaseButton {
        BaseButton { container: self.container.with_direction_spec(direction), ..self }
    }

    /// Sets the direction children are laid out in.
    pub fn with_direction(self, direction: FlexDirection) -> (r: BaseButton)
        ensures
            r == self.with_direction_spec(direction),
    {
        BaseButton { container: self.container.with_direction(direction), ..self }
    }

    pub open spec fn with_wrap_spec(self, wrap: FlexWrap) -> BaseButton {
        BaseButton { container: self.container.with_wrap_spec(wrap), ..self }
    }

    /// Sets how children wrap.
    pub fn with_wrap(self, wrap: FlexWrap) -> (r: BaseButton)
        ensures
            r == self.with_wrap_spec(wrap),
    {
        BaseButton { container: self.container.with_wrap(wrap), ..self }
    }

    pub open spec fn with_align_self_spec(self, align_self: AlignSelf) -> BaseButton {
        BaseButton { container: self.container.with_align_self_spec(align_self), ..self }
    }

    /// Sets the node's own alignment, overriding the parent's.
    pub fn with_align_self(self, align_self: AlignSelf) -> (r: BaseButton)
        ensures
            r == self.with_align_self_spec(align_self),
    {
        BaseButton { container: self.container.with_align_self(align_self), ..self }
    }

    pub open spec fn with_align_content_spec(self, align_content: AlignContent) -> BaseButton {
        BaseButton { container: self.container.with_align_content_spec(align_content), ..self }
    }

    /// Sets how lines of children are aligned.
    pub fn with_align_content(self, align_content: AlignContent) -> (r: BaseButton)
        ensures
            r == self.with_align_content_spec(align_content),
    {
        BaseButton { container: self.container.with_align_content(align_content), ..self }
    }

    pub open spec fn with_padding_spec(self, padding: UiRect) -> BaseButton {
        BaseButton { container: self.container.with_padding_spec(padding), ..self }
    }

    /// Sets a padding that overrides the theme's.
    pub fn with_padding(self, padding: UiRect) -> (r: BaseButton)
        ensures
            r == self.with_padding_spec(padding),
    {
        BaseButton { container: self.container.with_padding(padding), ..self }
    }

    pub open spec fn with_margin_spec(self, margin: UiRect) -> BaseButton {
        BaseButton { container: self.container.with_margin_spec(margin), ..self }
    }

    /// Sets a margin that overrides the theme's.
    pub fn with_margin(self, margin: UiRect) -> (r: BaseButton)
        ensures
            r == self.with_margin_spec(margin),
    {
        BaseButton { container: self.container.with_margin(margin), ..self }
    }

    pub open spec fn with_fill_portion_spec(self, fill_portion: u32) -> BaseButton {
        BaseButton { container: self.container.with_fill_portion_spec(fill_portion), ..self }
    }

    /// Takes `fill_portion` shares of the parent's main axis.
    pub fn with_fill_portion(self, fill_portion: u32) -> (r: BaseButton)
        requires
            fill_portion <= MAX_FILL_PORTION,
        ensures
            r == self.with_fill_portion_spec(fill_portion),
    {
        BaseButton { container: self.container.with_fill_portion(fill_portion), ..self }
    }

    pub open spec fn with_fill_hundredths_spec(self, hundredths: u32) -> BaseButton {
        BaseButton { container: self.container.with_fill_hundredths_spec(hundredths), ..self }
    }

    /// Takes `hundredths` hundredths of a share of the parent's main axis.
    pub fn with_fill_hundredths(self, hundredths: u32) -> (r: BaseButton)
        ensures
            r == self.with_fill_hundredths_spec(hundredths),
    {
        BaseButton { container: self.container.with_fill_hundredths(hundredths), ..self }
    }

    pub open spec fn with_theme_spec(self, theme: Theme) -> BaseButton {
        BaseButton { container: self.container.with_theme_spec(theme), ..self }
    }

    /// Sets the declared theme.
    pub fn with_theme(self, theme: Theme) -> (r: BaseButton)
        ensures
            r == self.with_theme_spec(theme),
    {
        BaseButton { container: self.container.with_theme(theme), ..self }
    }

    pub open spec fn with_owner_spec(self, owner: u64) -> BaseButton {
        BaseButton { container: self.container.with_owner_spec(owner), ..self }
    }

    /// Claims `owner` as the named section this node and its descendants belong to.
    pub fn with_owner(self, owner: u64) -> (r: BaseButton)
        ensures
            r == self.with_owner_spec(owner),
    {
        BaseButton { container: self.container.with_owner(owner), ..self }
    }

}

} // verus!
