//! A toggle: a square text button showing a mark when checked.
use vstd::prelude::*;
use crate::colour::Colour;
use crate::layout::AspectRatio;
use crate::style::{AlignContent, AlignSelf, FlexDirection, FlexWrap, UiRect, Val, MAX_FILL_PORTION};
use crate::theme::{PaintMode, Theme};
use crate::interaction::Interaction;
use crate::scene::{Scene, SpawnedNode, TextSection};
use super::builder::checkbox_glyph;
use super::realize::glyph_spec;
use super::TextButton;

verus! {

/// Whether a check box is checked.
#[derive(Clone, Copy, Debug, PartialEq, Eq, Structural, Default)]
pub struct CheckBoxState {
    pub checked: bool,
}

/// A square, bordered text button whose label shows "X" when checked and a
/// space when not.
pub struct CheckBox {
    pub text_button: TextButton,
    pub initial_checked_state: bool,
}

impl CheckBox {
    /// An unchecked box.
    pub fn new() -> (r: CheckBox)
        ensures
            r.text_button.base_button.container.children@.len() == 0,
            r.text_button.label.container.children@.len() == 0,
            r.text_button.base_button.container.aspect_ratio == Some(AspectRatio { width: 1, height: 1 }),
            r.text_button.base_button.container.paint_mode == PaintMode::BackgroundContainer,
            r.text_button.base_button.container.style.border == UiRect::all_spec(Val::Percent(10)),
            r.text_button.base_button.auto_style,
            r.text_button.label.container.paint_mode == PaintMode::Invisible,
            !r.initial_checked_state,
    {
        let text_button = TextButton::new(String::from_str(" "))
            .with_aspect_ratio(AspectRatio::square())
            .with_paint_mode(PaintMode::BackgroundContainer)
            .with_border(UiRect::all(Val::Percent(10)));
        CheckBox { text_button, initial_checked_state: false }
    }

    /// Sets whether the box starts checked.
    pub fn with_checked(self, checked: bool) -> (r: CheckBox)
        ensures
            r == (CheckBox { initial_checked_state: checked, ..self }),
    {
        CheckBox { initial_checked_state: checked, ..self }
    }

    pub open spec fn with_paint_mode_spec(self, paint_mode: PaintMode) -> CheckBox {
        CheckBox { text_button: self.text_button.with_paint_mode_spec(paint_mode), ..self }
    }

    /// Sets how the node paints its background.
    pub fn with_paint_mode(self, paint_mode: PaintMode) -> (r: CheckBox)
        ensures
            r == self.with_paint_mode_spec(paint_mode),
    {
        CheckBox { text_button: self.text_button.with_paint_mode(paint_mode), ..self }
    }

    pub open spec fn with_colour_spec(self, background: Colour, foreground: Colour) -> CheckBox {
        CheckBox { text_button: self.text_button.with_colour_spec(background, foreground), ..self }
    }

    /// Paints the node with these colours instead of a palette role.
    pub fn with_colour(self, background: Colour, foreground: Colour) -> (r: CheckBox)
        ensures
            r == self.with_colour_spec(background, foreground),
    {
        CheckBox { text_button: self.text_button.with_colour(background, foreground), ..self }
    }

    pub open spec fn with_border_spec(self, border: UiRect) -> CheckBox {
        CheckBox { text_button: self.text_button.with_border_spec(border), ..self }
    }

    /// Sets the border widths.
    pub fn with_border(self, border: UiRect) -> (r: CheckBox)
        ensures
            r == self.with_border_spec(border),
    {
        CheckBox { text_button: self.text_button.with_border(border), ..self }
    }

    pub open spec fn with_aspect_ratio_spec(self, aspect_ratio: AspectRatio) -> CheckBox {
        CheckBox { text_button: self.text_button.with_aspect_ratio_spec(aspect_ratio), ..self }
    }

    /// Keeps the node at this width-to-height ratio; not to be combined with a fill portion.
    pub fn with_aspect_ratio(self, aspect_ratio: AspectRatio) -> (r: CheckBox)
        requires
            aspect_ratio.wf(),
        ensures
            r == self.with_aspect_ratio_spec(aspect_ratio),
    {
        CheckBox { text_button: self.text_button.with_aspect_ratio(aspect_ratio), ..self }
    }

    pub open spec fn with_direction_spec(self, direction: FlexDirection) -> CheckBox {
        CheckBox { text_button: self.text_button.with_direction_spec(direction), ..self }
    }

    /// Sets the direction children are laid out in.
    pub fn with_direction(self, direction: FlexDirection) -> (r: CheckBox)
        ensures
            r == self.with_direction_spec(direction),
    {
        CheckBox { text_button: self.text_button.with_direction(direction), ..self }
    }

    pub open spec fn with_wrap_spec(self, wrap: FlexWrap) -> CheckBox {
        CheckBox { text_button: self.text_button.with_wrap_spec(wrap), ..self }
    }

    /// Sets how children wrap.
    pub fn with_wrap(self, wrap: FlexWrap) -> (r: CheckBox)
        ensures
            r == self.with_wrap_spec(wrap),
    {
        CheckBox { text_button: self.text_button.with_wrap(wrap), ..self }
    }

    pub open spec fn with_align_self_spec(self, align_self: AlignSelf) -> CheckBox {
        CheckBox { text_button: self.text_button.with_align_self_spec(align_self), ..self }
    }

    /// Sets the node's own alignment, overriding the parent's.
    pub fn with_align_self(self, align_self: AlignSelf) -> (r: CheckBox)
        ensures
            r == self.with_align_self_spec(align_self),
    {
        CheckBox { text_button: self.text_button.with_align_self(align_self), ..self }
    }

    pub open spec fn with_align_content_spec(self, align_content: AlignContent) -> CheckBox {
        CheckBox { text_button: self.text_button.with_align_content_spec(align_content), ..self }
    }

    /// Sets how lines of children are aligned.
    pub fn with_align_content(self, align_content: AlignContent) -> (r: CheckBox)
        ensures
            r == self.with_align_content_spec(align_content),
    {
        CheckBox { text_button: self.text_button.with_align_content(align_content), ..self }
    }

    pub open spec fn with_padding_spec(self, padding: UiRect) -> CheckBox {
        CheckBox { text_button: self.text_button.with_padding_spec(padding), ..self }
    }

    /// Sets a padding that overrides the theme's.
    pub fn with_padding(self, padding: UiRect) -> (r: CheckBox)
        ensures
            r == self.with_padding_spec(padding),
    {
        CheckBox { text_button: self.text_button.with_padding(padding), ..self }
    }

    pub open spec fn with_margin_spec(self, margin: UiRect) -> CheckBox {
        CheckBox { text_button: self.text_button.with_margin_spec(margin), ..self }
    }

    /// Sets a margin that overrides the theme's.
    pub fn with_margin(self, margin: UiRect) -> (r: CheckBox)
        ensures
            r == self.with_margin_spec(margin),
    {
        CheckBox { text_button: self.text_button.with_margin(margin), ..self }
    }

    pub open spec fn with_fill_portion_spec(self, fill_portion: u32) -> CheckBox {
        CheckBox { text_button: self.text_button.with_fill_portion_spec(fill_portion), ..self }
    }

    /// Takes `fill_portion` shares of the parent's main axis.
    pub fn with_fill_portion(self, fill_portion: u32) -> (r: CheckBox)
        requires
            fill_portion <= MAX_FILL_PORTION,
        ensures
            r == self.with_fill_portion_spec(fill_portion),
    {
        CheckBox { text_button: self.text_button.with_fill_portion(fill_portion), ..self }
    }

    pub open spec fn with_fill_hundredths_spec(self, hundredths: u32) -> CheckBox {
        CheckBox { text_button: self.text_button.with_fill_hundredths_spec(hundredths), ..self }
    }

    /// Takes `hundredths` hundredths of a share of the parent's main axis.
    pub fn with_fill_hundredths(self, hundredths: u32) -> (r: CheckBox)
        ensures
            r == self.with_fill_hundredths_spec(hundredths),
    {
        CheckBox { text_button: self.text_button.with_fill_hundredths(hundredths), ..self }
    }

    pub open spec fn with_theme_spec(self, theme: Theme) -> CheckBox {
        CheckBox { text_button: self.text_button.with_theme_spec(theme), ..self }
    }

    /// Sets the declared theme.
    pub fn with_theme(self, theme: Theme) -> (r: CheckBox)
        ensures
            r == self.with_theme_spec(theme),
    {
        CheckBox { text_button: self.text_button.with_theme(theme), ..self }
    }

    pub open spec fn with_owner_spec(self, owner: u64) -> CheckBox {
        CheckBox { text_button: self.text_button.with_owner_spec(owner), ..self }
    }

    /// Claims `owner` as the named section this node and its descendants belong to.
    pub fn with_owner(self, owner: u64) -> (r: CheckBox)
        ensures
            r == self.with_owner_spec(owner),
    {
        CheckBox { text_button: self.text_button.with_owner(owner), ..self }
    }

}

/// Flips a check box when it is pressed.
pub fn toggle_checkbox(state: &mut CheckBoxState, interaction: Interaction)
    ensures
        final(state).checked == if interaction == Interaction::Pressed {
            !old(state).checked
        } else {
            old(state).checked
        },
{
    if interaction == Interaction::Pressed {
        state.checked = !state.checked;
    }
}

/// The text leaf of the check box at `e`: the first child of its first
/// child, if that path exists and ends at a text.
pub open spec fn checkbox_text_leaf(s: Seq<SpawnedNode>, e: int) -> Option<int> {
    if 0 <= e < s.len() && s[e].children@.len() >= 1 {
        let c = s[e].children@[0] as int;
        if 0 <= c < s.len() && s[c].children@.len() >= 1 {
            let t = s[c].children@[0] as int;
            if 0 <= t < s.len() && s[t].text is Some {
                Some(t)
            } else {
                None
            }
        } else {
            None
        }
    } else {
        None
    }
}

/// Rewrites the text of the check box at `entity` to show `state`. Only
/// that text changes; every other node is left as it was.
pub fn handle_checkbox_toggle(scene: &mut Scene, entity: usize, state: &CheckBoxState)
    requires
        checkbox_text_leaf(old(scene).nodes@, entity as int) is Some,
    ensures
        ({
            let t = checkbox_text_leaf(old(scene).nodes@, entity as int)->0;
            let old_node = old(scene).nodes@[t];
            let new_node = final(scene).nodes@[t];
            &&& final(scene).nodes@.len() == old(scene).nodes@.len()
            &&& forall|i: int|
                0 <= i < final(scene).nodes@.len() && i != t ==> final(scene).nodes@[i] == old(
                    scene,
                ).nodes@[i]
            &&& new_node == (SpawnedNode { text: new_node.text, ..old_node })
            &&& new_node.text matches Some(sec) && {
                &&& sec.value@ == glyph_spec(state.checked)
                &&& sec == (TextSection { value: sec.value, ..old_node.text->0 })
            }
        }),
{
    let c = scene.nodes[entity].children[0];
    let t = scene.nodes[c].children[0];
    let mut text: Option<TextSection> = None;
    std::mem::swap(&mut text, &mut scene.nodes[t].text);
    match text {
        Some(section) => {
            let value = checkbox_glyph(state.checked);
            scene.nodes[t].text = Some(TextSection { value, ..section });
        },
        None => {},
    }
}

} // verus!
