//! A button with a text label.
use vstd::prelude::*;
use crate::colour::Colour;
use crate::layout::AspectRatio;
use crate::style::{AlignContent, AlignSelf, FlexDirection, FlexWrap, UiRect, MAX_FILL_PORTION};
use crate::theme::{PaintMode, Theme};
use super::{BaseButton, Container, TextLabel};

verus! {

/// A button with a text label inside it. The label is built below the
/// button and inherits the button's theme.
pub struct TextButton {
    pub base_button: BaseButton,
    pub label: TextLabel,
}

impl TextButton {
    /// An auto-styled button showing `text` on an invisible label.
    pub fn new(text: String) -> (r: TextButton)
        ensures
            Container::new_spec(r.base_button.container.with_paint_mode_spec(PaintMode::BackgroundContainer)),
            r.base_button.container.paint_mode == PaintMode::Background,
            r.base_button.auto_style,
            TextLabel::label_container_spec(r.label.container.with_paint_mode_spec(PaintMode::BackgroundContainer)),
            r.label.container.paint_mode == PaintMode::Invisible,
            r.label.text == text,
            r.label.custom_font is None,
            r.label.fixed_text_size is None,
    {
        TextButton {
            base_button: BaseButton::new().with_auto_style(true),
            label: TextLabel::new(text).with_paint_mode(PaintMode::Invisible),
        }
    }

    pub open spec fn with_paint_mode_spec(self, paint_mode: PaintMode) -> TextButton {
        TextButton { base_button: self.base_button.with_paint_mode_spec(paint_mode), ..self }
    }

    /// Sets how the node paints its background.
    pub fn with_paint_mode(self, paint_mode: PaintMode) -> (r: TextButton)
        ensures
            r == self.with_paint_mode_spec(paint_mode),
    {
        TextButton { base_button: self.base_button.with_paint_mode(paint_mode), ..self }
    }

    pub open spec fn with_colour_spec(self, background: Colour, foreground: Colour) -> TextButton {
        TextButton { base_button: self.base_button.with_colour_spec(background, foreground), ..self }
    }

    /// Paints the node with these colours instead of a palette role.
    pub fn with_colour(self, background: Colour, foreground: Colour) -> (r: TextButton)
        ensures
            r == self.with_colour_spec(background, foreground),
    {
        TextButton { base_button: self.base_button.with_colour(background, foreground), ..self }
    }

    pub open spec fn with_border_spec(self, border: UiRect) -> TextButton {
        TextButton { base_button: self.base_button.with_border_spec(border), ..self }
    }

    /// Sets the border widths.
    pub fn with_border(self, border: UiRect) -> (r: TextButton)
        ensures
            r == self.with_border_spec(border),
    {
        TextButton { base_button: self.base_button.with_border(border), ..self }
    }

    pub open spec fn with_aspect_ratio_spec(self, aspect_ratio: AspectRatio) -> TextButton {
        TextButton { base_button: self.base_button.with_aspect_ratio_spec(aspect_ratio), ..self }
    }

    /// Keeps the node at this width-to-height ratio; not to be combined with a fill portion.
    pub fn with_aspect_ratio(self, aspect_ratio: AspectRatio) -> (r: TextButton)
        requires
            aspect_ratio.wf(),
        ensures
            r == self.with_aspect_ratio_spec(aspect_ratio),
    {
        TextButton { base_button: self.base_button.with_aspect_ratio(aspect_ratio), ..self }
    }

    pub open spec fn with_direction_spec(self, direction: FlexDirection) -> TextButton {
        TextButton { base_button: self.base_button.with_direction_spec(direction), ..self }
    }

    /// Sets the direction children are laid out in.
    pub fn with_direction(self, direction: FlexDirection) -> (r: TextButton)
        ensures
            r == self.with_direction_spec(direction),
    {
        TextButton { base_button: self.base_button.with_direction(direction), ..self }
    }

    pub open spec fn with_wrap_spec(self, wrap: FlexWrap) -> TextButton {
        TextButton { base_button: self.base_button.with_wrap_spec(wrap), ..self }
    }

    /// Sets how children wrap.
    pub fn with_wrap(self, wrap: FlexWrap) -> (r: TextButton)
        ensures
            r == self.with_wrap_spec(wrap),
    {
        TextButton { base_button: self.base_button.with_wrap(wrap), ..self }
    }

    pub open spec fn with_align_self_spec(self, align_self: AlignSelf) -> TextButton {
        TextButton { base_button: self.base_button.with_align_self_spec(align_self), ..self }
    }

    /// Sets the node's own alignment, overriding the parent's.
    pub fn with_align_self(self, align_self: AlignSelf) -> (r: TextButton)
        ensures
            r == self.with_align_self_spec(align_self),
    {
        TextButton { base_button: self.base_button.with_align_self(align_self), ..self }
    }

    pub open spec fn with_align_content_spec(self, align_content: AlignContent) -> TextButton {
        TextButton { base_button: self.base_button.with_align_content_spec(align_content), ..self }
    }

    /// Sets how lines of children are aligned.
    pub fn with_align_content(self, align_content: AlignContent) -> (r: TextButton)
        ensures
            r == self.with_align_content_spec(align_content),
    {
        TextButton { base_button: self.base_button.with_align_content(align_content), ..self }
    }

    pub open spec fn with_padding_spec(self, padding: UiRect) -> TextButton {
        TextButton { base_button: self.base_button.with_padding_spec(padding), ..self }
    }

    /// Sets a padding that overrides the theme's.
    pub fn with_padding(self, padding: UiRect) -> (r: TextButton)
        ensures
            r == self.with_padding_spec(padding),
    {
        TextButton { base_button: self.base_button.with_padding(padding), ..self }
    }

    pub open spec fn with_margin_spec(self, margin: UiRect) -> TextButton {
        TextButton { base_button: self.base_button.with_margin_spec(margin), ..self }
    }

    /// Sets a margin that overrides the theme's.
    pub fn with_margin(self, margin: UiRect) -> (r: TextButton)
        ensures
            r == self.with_margin_spec(margin),
    {
        TextButton { base_button: self.base_button.with_margin(margin), ..self }
    }

    pub open spec fn with_fill_portion_spec(self, fill_portion: u32) -> TextButton {
        TextButton { base_button: self.base_button.with_fill_portion_spec(fill_portion), ..self }
    }

    /// Takes `fill_portion` shares of the parent's main axis.
    pub fn with_fill_portion(self, fill_portion: u32) -> (r: TextButton)
        requires
            fill_portion <= MAX_FILL_PORTION,
        ensures
            r == self.with_fill_portion_spec(fill_portion),
    {
        TextButton { base_button: self.base_button.with_fill_portion(fill_portion), ..self }
    }

    pub open spec fn with_fill_hundredths_spec(self, hundredths: u32) -> TextButton {
        TextButton { base_button: self.base_button.with_fill_hundredths_spec(hundredths), ..self }
    }

    /// Takes `hundredths` hundredths of a share of the parent's main axis.
    pub fn with_fill_hundredths(self, hundredths: u32) -> (r: TextButton)
        ensures
            r == self.with_fill_hundredths_spec(hundredths),
    {
        TextButton { base_button: self.base_button.with_fill_hundredths(hundredths), ..self }
    }

    pub open spec fn with_theme_spec(self, theme: Theme) -> TextButton {
        TextButton { base_button: self.base_button.with_theme_spec(theme), ..self }
    }

    /// Sets the declared theme.
    pub fn with_theme(self, theme: Theme) -> (r: TextButton)
        ensures
            r == self.with_theme_spec(theme),
    {
        TextButton { base_button: self.base_button.with_theme(theme), ..self }
    }

    pub open spec fn with_owner_spec(self, owner: u64) -> TextButton {
        TextButton { base_button: self.base_button.with_owner_spec(owner), ..self }
    }

    /// Claims `owner` as the named section this node and its descendants belong to.
    pub fn with_owner(self, owner: u64) -> (r: TextButton)
        ensures
            r == self.with_owner_spec(owner),
    {
        TextButton { base_button: self.base_button.with_owner(owner), ..self }
    }

}

} // verus!
