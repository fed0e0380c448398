//! A label whose text the user edits.
use vstd::prelude::*;
use crate::colour::Colour;
use crate::layout::AspectRatio;
use crate::style::{AlignContent, AlignSelf, FlexDirection, FlexWrap, UiRect, Val, MAX_FILL_PORTION};
use crate::theme::{PaintMode, Theme};
use super::TextLabel;

verus! {

/// A bordered label with an editable text buffer. While the buffer is empty
/// the placeholder, if any, is shown.
pub struct TextInput {
    pub label: TextLabel,
    pub placeholder: Option<String>,
    pub allows_newlines: bool,
}

impl TextInput {
    /// An input showing `text`, which also serves as the placeholder.
    pub fn new(text: Option<String>) -> (r: TextInput)
        ensures
            TextLabel::label_container_spec(r.label.container.with_border_spec(UiRect::zero_spec())),
            r.label.container.style.border == UiRect::all_spec(Val::Percent(3)),
            r.label.text@ == (match text { Some(t) => t@, None => Seq::<char>::empty() }),
            r.label.custom_font is None,
            r.label.fixed_text_size is None,
            r.placeholder == text,
            !r.allows_newlines,
    {
        let shown = match &text {
            Some(t) => t.clone(),
            None => String::new(),
        };
        TextInput {
            label: TextLabel::new(shown).with_border(UiRect::all(Val::Percent(3))),
            placeholder: text,
            allows_newlines: false,
        }
    }

    /// Lets Enter insert a line break.
    pub fn allows_newlines(self, allows_newlines: bool) -> (r: TextInput)
        ensures
            r == (TextInput { allows_newlines, ..self }),
    {
        TextInput { allows_newlines, ..self }
    }

    pub open spec fn with_paint_mode_spec(self, paint_mode: PaintMode) -> TextInput {
        TextInput { label: self.label.with_paint_mode_spec(paint_mode), ..self }
    }

    /// Sets how the node paints its background.
    pub fn with_paint_mode(self, paint_mode: PaintMode) -> (r: TextInput)
        ensures
            r == self.with_paint_mode_spec(paint_mode),
    {
        TextInput { label: self.label.with_paint_mode(paint_mode), ..self }
    }

    pub open spec fn with_colour_spec(self, background: Colour, foreground: Colour) -> TextInput {
        TextInput { label: self.label.with_colour_spec(background, foreground), ..self }
    }

    /// Paints the node with these colours instead of a palette role.
    pub fn with_colour(self, background: Colour, foreground: Colour) -> (r: TextInput)
        ensures
            r == self.with_colour_spec(background, foreground),
    {
        TextInput { label: self.label.with_colour(background, foreground), ..self }
    }

    pub open spec fn with_border_spec(self, border: UiRect) -> TextInput {
        TextInput { label: self.label.with_border_spec(border), ..self }
    }

    /// Sets the border widths.
    pub fn with_border(self, border: UiRect) -> (r: TextInput)
        ensures
            r == self.with_border_spec(border),
    {
        TextInput { label: self.label.with_border(border), ..self }
    }

    pub open spec fn with_aspect_ratio_spec(self, aspect_ratio: AspectRatio) -> TextInput {
        TextInput { label: self.label.with_aspect_ratio_spec(aspect_ratio), ..self }
    }

    /// Keeps the node at this width-to-height ratio; not to be combined with a fill portion.
    pub fn with_aspect_ratio(self, aspect_ratio: AspectRatio) -> (r: TextInput)
        requires
            aspect_ratio.wf(),
        ensures
            r == self.with_aspect_ratio_spec(aspect_ratio),
    {
        TextInput { label: self.label.with_aspect_ratio(aspect_ratio), ..self }
    }

    pub open spec fn with_direction_spec(self, direction: FlexDirection) -> TextInput {
        TextInput { label: self.label.with_direction_spec(direction), ..self }
    }

    /// Sets the direction children are laid out in.
    pub fn with_direction(self, direction: FlexDirection) -> (r: TextInput)
        ensures
            r == self.with_direction_spec(direction),
    {
        TextInput { label: self.label.with_direction(direction), ..self }
    }

    pub open spec fn with_wrap_spec(self, wrap: FlexWrap) -> TextInput {
        TextInput { label: self.label.with_wrap_spec(wrap), ..self }
    }

    /// Sets how children wrap.
    pub fn with_wrap(self, wrap: FlexWrap) -> (r: TextInput)
        ensures
            r == self.with_wrap_spec(wrap),
    {
        TextInput { label: self.label.with_wrap(wrap), ..self }
    }

    pub open spec fn with_align_self_spec(self, align_self: AlignSelf) -> TextInput {
        TextInput { label: self.label.with_align_self_spec(align_self), ..self }
    }

    /// Sets the node's own alignment, overriding the parent's.
    pub fn with_align_self(self, align_self: AlignSelf) -> (r: TextInput)
        ensures
            r == self.with_align_self_spec(align_self),
    {
        TextInput { label: self.label.with_align_self(align_self), ..self }
    }

    pub open spec fn with_align_content_spec(self, align_content: AlignContent) -> TextInput {
        TextInput { label: self.label.with_align_content_spec(align_content), ..self }
    }

    /// Sets how lines of children are aligned.
    pub fn with_align_content(self, align_content: AlignContent) -> (r: TextInput)
        ensures
            r == self.with_align_content_spec(align_content),
    {
        TextInput { label: self.label.with_align_content(align_content), ..self }
    }

    pub open spec fn with_padding_spec(self, padding: UiRect) -> TextInput {
        TextInput { label: self.label.with_padding_spec(padding), ..self }
    }

    /// Sets a padding that overrides the theme's.
    pub fn with_padding(self, padding: UiRect) -> (r: TextInput)
        ensures
            r == self.with_padding_spec(padding),
    {
        TextInput { label: self.label.with_padding(padding), ..self }
    }

    pub open spec fn with_margin_spec(self, margin: UiRect) -> TextInput {
        TextInput { label: self.label.with_margin_spec(margin), ..self }
    }

    /// Sets a margin that overrides the theme's.
    pub fn with_margin(self, margin: UiRect) -> (r: TextInput)
        ensures
            r == self.with_margin_spec(margin),
    {
        TextInput { label: self.label.with_margin(margin), ..self }
    }

    pub open spec fn with_fill_portion_spec(self, fill_portion: u32) -> TextInput {
        TextInput { label: self.label.with_fill_portion_spec(fill_portion), ..self }
    }

    /// Takes `fill_portion` shares of the parent's main axis.
    pub fn with_fill_portion(self, fill_portion: u32) -> (r: TextInput)
        requires
            fill_portion <= MAX_FILL_PORTION,
        ensures
            r == self.with_fill_portion_spec(fill_portion),
    {
        TextInput { label: self.label.with_fill_portion(fill_portion), ..self }
    }

    pub open spec fn with_fill_hundredths_spec(self, hundredths: u32) -> TextInput {
        TextInput { label: self.label.with_fill_hundredths_spec(hundredths), ..self }
    }

    /// Takes `hundredths` hundredths of a share of the parent's main axis.
    pub fn with_fill_hundredths(self, hundredths: u32) -> (r: TextInput)
        ensures
            r == self.with_fill_hundredths_spec(hundredths),
    {
        TextInput { label: self.label.with_fill_hundredths(hundredths), ..self }
    }

    pub open spec fn with_theme_spec(self, theme: Theme) -> TextInput {
        TextInput { label: self.label.with_theme_spec(theme), ..self }
    }

    /// Sets the declared theme.
    pub fn with_theme(self, theme: Theme) -> (r: TextInput)
        ensures
            r == self.with_theme_spec(theme),
    {
        TextInput { label: self.label.with_theme(theme), ..self }
    }

    pub open spec fn with_owner_spec(self, owner: u64) -> TextInput {
        TextInput { label: self.label.with_owner_spec(owner), ..self }
    }

    /// Claims `owner` as the named section this node and its descendants belong to.
    pub fn with_owner(self, owner: u64) -> (r: TextInput)
        ensures
            r == self.with_owner_spec(owner),
    {
        TextInput { label: self.label.with_owner(owner), ..self }
    }

}

} // verus!
