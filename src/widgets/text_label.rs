//! A container holding a single line of text.
use vstd::prelude::*;
use crate::colour::Colour;
use crate::layout::AspectRatio;
use crate::style::{AlignContent, AlignSelf, FlexDirection, FlexWrap, UiRect, MAX_FILL_PORTION};
use crate::theme::{FontId, PaintMode, Theme};
use super::Container;

verus! {

/// The font size a label's text starts with when the caller fixes none.
pub const BASE_TEXT_SIZE: u32 = 16;

/// A container with one text leaf. Unless a size is fixed, the text is
/// sized from the container's height by the resize pass.
pub struct TextLabel {
    pub container: Container,
    pub text: String,
    pub custom_font: Option<FontId>,
    /// If set, the text keeps this size instead of following the container.
    pub fixed_text_size: Option<u32>,
}

impl TextLabel {
    /// The container of a new label: a row with its content centred.
    pub open spec fn label_container_spec(c: Container) -> bool {
        Container::new_spec(
            c.with_direction_spec(FlexDirection::Row).with_align_content_spec(
                AlignContent::Default,
            ),
        ) && c.style.flex_direction == FlexDirection::Row && c.style.align_content
            == AlignContent::Center
    }

    /// A label showing `text`.
    pub fn new(text: String) -> (r: TextLabel)
        ensures
            TextLabel::label_container_spec(r.container),
            r.text == text,
            r.custom_font is None,
            r.fixed_text_size is None,
    {
        TextLabel {
            container: Container::new().with_direction(FlexDirection::Row).with_align_content(
                AlignContent::Center,
            ),
            text,
            custom_font: None,
            fixed_text_size: None,
        }
    }

    /// Draws the text with `font` instead of the theme's font.
    pub fn with_font(self, font: FontId) -> (r: TextLabel)
        ensures
            r == (TextLabel { custom_font: Some(font), ..self }),
    {
        TextLabel { custom_font: Some(font), ..self }
    }

    /// Fixes the text size instead of following the container's height.
    pub fn with_text_size(self, text_size: u32) -> (r: TextLabel)
        ensures
            r == (TextLabel { fixed_text_size: Some(text_size), ..self }),
    {
        TextLabel { fixed_text_size: Some(text_size), ..self }
    }

    pub open spec fn with_paint_mode_spec(self, paint_mode: PaintMode) -> TextLabel {
        TextLabel { container: self.container.with_paint_mode_spec(paint_mode), ..self }
    }

    /// Sets how the node paints its background.
    pub fn with_paint_mode(self, paint_mode: PaintMode) -> (r: TextLabel)
        ensures
            r == self.with_paint_mode_spec(paint_mode),
    {
        TextLabel { container: self.container.with_paint_mode(paint_mode), ..self }
    }

    pub open spec fn with_colour_spec(self, background: Colour, foreground: Colour) -> TextLabel {
        TextLabel { container: self.container.with_colour_spec(background, foreground), ..self }
    }

    /// Paints the node with these colours instead of a palette role.
    pub fn with_colour(self, background: Colour, foreground: Colour) -> (r: TextLabel)
        ensures
            r == self.with_colour_spec(background, foreground),
    {
        TextLabel { container: self.container.with_colour(background, foreground), ..self }
    }

    pub open spec fn with_border_spec(self, border: UiRect) -> TextLabel {
        TextLabel { container: self.container.with_border_spec(border), ..self }
    }

    /// Sets the border widths.
    pub fn with_border(self, border: UiRect) -> (r: TextLabel)
        ensures
            r == self.with_border_spec(border),
    {
        TextLabel { container: self.container.with_border(border), ..self }
    }

    pub open spec fn with_aspect_ratio_spec(self, aspect_ratio: AspectRatio) -> TextLabel {
        TextLabel { container: self.container.with_aspect_ratio_spec(aspect_ratio), ..self }
    }

    /// Keeps the node at this width-to-height ratio; not to be combined with a fill portion.
    pub fn with_aspect_ratio(self, aspect_ratio: AspectRatio) -> (r: TextLabel)
        requires
            aspect_ratio.wf(),
        ensures
            r == self.with_aspect_ratio_spec(aspect_ratio),
    {
        TextLabel { container: self.container.with_aspect_ratio(aspect_ratio), ..self }
    }

    pub open spec fn with_direction_spec(self, direction: FlexDirection) -> TextLabel {
        TextLabel { container: self.container.with_direction_spec(direction), ..self }
    }

    /// Sets the direction children are laid out in.
    pub fn with_direction(self, direction: FlexDirection) -> (r: TextLabel)
        ensures
            r == self.with_direction_spec(direction),
    {
        TextLabel { container: self.container.with_direction(direction), ..self }
    }

    pub open spec fn with_wrap_spec(self, wrap: FlexWrap) -> TextLabel {
        TextLabel { container: self.container.with_wrap_spec(wrap), ..self }
    }

    /// Sets how children wrap.
    pub fn with_wrap(self, wrap: FlexWrap) -> (r: TextLabel)
        ensures
            r == self.with_wrap_spec(wrap),
    {
        TextLabel { container: self.container.with_wrap(wrap), ..self }
    }

    pub open spec fn with_align_self_spec(self, align_self: AlignSelf) -> TextLabel {
        TextLabel { container: self.container.with_align_self_spec(align_self), ..self }
    }

    /// Sets the node's own alignment, overriding the parent's.
    pub fn with_align_self(self, align_self: AlignSelf) -> (r: TextLabel)
        ensures
            r == self.with_align_self_spec(align_self),
    {
        TextLabel { container: self.container.with_align_self(align_self), ..self }
    }

    pub open spec fn with_align_content_spec(self, align_content: AlignContent) -> TextLabel {
        TextLabel { container: self.container.with_align_content_spec(align_content), ..self }
    }

    /// Sets how lines of children are aligned.
    pub fn with_align_content(self, align_content: AlignContent) -> (r: TextLabel)
        ensures
            r == self.with_align_content_spec(align_content),
    {
        TextLabel { container: self.container.with_align_content(align_content), ..self }
    }

    pub open spec fn with_padding_spec(self, padding: UiRect) -> TextLabel {
        TextLabel { container: self.container.with_padding_spec(padding), ..self }
    }

    /// Sets a padding that overrides the theme's.
    pub fn with_padding(self, padding: UiRect) -> (r: TextLabel)
        ensures
            r == self.with_padding_spec(padding),
    {
        TextLabel { container: self.container.with_padding(padding), ..self }
    }

    pub open spec fn with_margin_spec(self, margin: UiRect) -> TextLabel {
        TextLabel { container: self.container.with_margin_spec(margin), ..self }
    }

    /// Sets a margin that overrides the theme's.
    pub fn with_margin(self, margin: UiRect) -> (r: TextLabel)
        ensures
            r == self.with_margin_spec(margin),
    {
        TextLabel { container: self.container.with_margin(margin), ..self }
    }

    pub open spec fn with_fill_portion_spec(self, fill_portion: u32) -> TextLabel {
        TextLabel { container: self.container.with_fill_portion_spec(fill_portion), ..self }
    }

    /// Takes `fill_portion` shares of the parent's main axis.
    pub fn with_fill_portion(self, fill_portion: u32) -> (r: TextLabel)
        requires
            fill_portion <= MAX_FILL_PORTION,
        ensures
            r == self.with_fill_portion_spec(fill_portion),
    {
        TextLabel { container: self.container.with_fill_portion(fill_portion), ..self }
    }

    pub open spec fn with_fill_hundredths_spec(self, hundredths: u32) -> TextLabel {
        TextLabel { container: self.container.with_fill_hundredths_spec(hundredths), ..self }
    }

    /// Takes `hundredths` hundredths of a share of the parent's main axis.
    pub fn with_fill_hundredths(self, hundredths: u32) -> (r: TextLabel)
        ensures
            r == self.with_fill_hundredths_spec(hundredths),
    {
        TextLabel { container: self.container.with_fill_hundredths(hundredths), ..self }
    }

    pub open spec fn with_theme_spec(self, theme: Theme) -> TextLabel {
        TextLabel { container: self.container.with_theme_spec(theme), ..self }
    }

    /// Sets the declared theme.
    pub fn with_theme(self, theme: Theme) -> (r: TextLabel)
        ensures
            r == self.with_theme_spec(theme),
    {
        TextLabel { container: self.container.with_theme(theme), ..self }
    }

    pub open spec fn with_owner_spec(self, owner: u64) -> TextLabel {
        TextLabel { container: self.container.with_owner_spec(owner), ..self }
    }

    /// Claims `owner` as the named section this node and its descendants belong to.
    pub fn with_owner(self, owner: u64) -> (r: TextLabel)
        ensures
            r == self.with_owner_spec(owner),
    {
        TextLabel { container: self.container.with_owner(owner), ..self }
    }

}

} // verus!
