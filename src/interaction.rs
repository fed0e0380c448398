//! What happens after a build: check boxes toggling, buttons recolouring on
//! focus and press, and text inputs being edited.
use vstd::prelude::*;

verus! {

/// How the pointer is interacting with a node.
#[derive(Clone, Copy, Debug, PartialEq, Eq, Structural)]
pub enum Interaction {
    Pressed,
    Hovered,
    /// Neither pressed nor hovered.
    Idle,
}

/// The focus state a navigation backend reports for a focusable node.
#[derive(Clone, Copy, Debug, PartialEq, Eq, Structural)]
pub enum FocusState {
    /// Focused, and pressed by keyboard or gamepad.
    Active,
    Focused,
    Prioritized,
    Blocked,
    Inert,
}

/// Keyboard activation: a focused node is pressed when Return was just
/// pressed; any other node keeps its interaction.
pub fn send_pressed_on_keyboard(
    focus: FocusState,
    return_just_pressed: bool,
    interaction: &mut Interaction,
)
    ensures
        *final(interaction) == if focus == FocusState::Focused && return_just_pressed {
            Interaction::Pressed
        } else {
            *old(interaction)
        },
{
    if focus == FocusState::Focused && return_just_pressed {
        *interaction = Interaction::Pressed;
    }
}

/// A change of a colour's lightness, in hundredths.
#[derive(Clone, Copy, Debug, PartialEq, Eq, Structural)]
pub enum ColourShift {
    Unchanged,
    Lighten(u32),
    Darken(u32),
}

/// How an auto-styled button's background departs from its theme's: darker
/// while pressed, lighter while focused, lighter still while active.
/// Buttons without auto style keep their colour.
pub open spec fn button_shift_spec(auto_styled: bool, focus: FocusState, pressed: bool) -> ColourShift {
    if !auto_styled {
        ColourShift::Unchanged
    } else if pressed {
        ColourShift::Darken(10)
    } else {
        match focus {
            FocusState::Focused => ColourShift::Lighten(10),
            FocusState::Active => ColourShift::Lighten(25),
            _ => ColourShift::Unchanged,
        }
    }
}

pub fn button_shift(auto_styled: bool, focus: FocusState, interaction: Interaction) -> (r:
    ColourShift)
    ensures
        r == button_shift_spec(auto_styled, focus, interaction == Interaction::Pressed),
{
    if !auto_styled {
        ColourShift::Unchanged
    } else if interaction == Interaction::Pressed {
        ColourShift::Darken(10)
    } else {
        match focus {
            FocusState::Focused => ColourShift::Lighten(10),
            FocusState::Active => ColourShift::Lighten(25),
            _ => ColourShift::Unchanged,
        }
    }
}

/// The text buffer of a text input.
#[derive(Default)]
pub struct EditableText {
    pub text: Vec<char>,
}

/// Where in the buffer the next character goes, in characters.
#[derive(Clone, Copy, Debug, PartialEq, Eq, Structural, Default)]
pub struct EditCursor {
    pub position: usize,
}

/// The placeholder a text input shows while its buffer is empty.
pub struct PlaceholderText {
    pub text: String,
}

/// The editing keys a text input reacts to.
#[derive(Clone, Copy, Debug, PartialEq, Eq, Structural)]
pub enum EditKey {
    Backspace,
    Delete,
    ArrowLeft,
    ArrowRight,
    Enter,
    Home,
    End,
}

/// A control character (Unicode category Cc).
pub open spec fn is_control_spec(c: char) -> bool {
    (c as u32) <= 0x1f || (0x7f <= (c as u32) && (c as u32) <= 0x9f)
}

pub fn is_control(c: char) -> (r: bool)
    ensures
        r == is_control_spec(c),
{
    let v = c as u32;
    v <= 0x1f || (0x7f <= v && v <= 0x9f)
}

/// The buffer and cursor after `key`.
pub open spec fn edit_key_spec(text: Seq<char>, pos: int, key: EditKey, allows_newlines: bool) -> (
    Seq<char>,
    int,
) {
    match key {
        EditKey::Backspace => if pos > 0 {
            (text.remove(pos - 1), pos - 1)
        } else {
            (text, pos)
        },
        EditKey::Delete => if pos < text.len() {
            (text.remove(pos), pos)
        } else {
            (text, pos)
        },
        EditKey::ArrowLeft => if pos > 0 {
            (text, pos - 1)
        } else {
            (text, pos)
        },
        EditKey::ArrowRight => if pos < text.len() {
            (text, pos + 1)
        } else {
            (text, pos)
        },
        EditKey::Enter => if allows_newlines {
            (text.insert(pos, '\n'), pos + 1)
        } else {
            (text, pos)
        },
        EditKey::Home => (text, 0),
        EditKey::End => (text, text.len() as int),
    }
}

/// The characters of `typed` that are not control characters, in order.
pub open spec fn printable(typed: Seq<char>) -> Seq<char>
    decreases typed.len(),
{
    if typed.len() == 0 {
        Seq::empty()
    } else {
        let rest = printable(typed.drop_last());
        if is_control_spec(typed.last()) {
            rest
        } else {
            rest.push(typed.last())
        }
    }
}

/// Applies one editing key to the buffer and the cursor.
pub fn apply_edit_key(
    text: &mut EditableText,
    cursor: &mut EditCursor,
    key: EditKey,
    allows_newlines: bool,
)
    requires
        old(cursor).position <= old(text).text@.len(),
    ensures
        (final(text).text@, final(cursor).position as int) == edit_key_spec(
            old(text).text@,
            old(cursor).position as int,
            key,
            allows_newlines,
        ),
        final(cursor).position <= final(text).text@.len(),
{
    let pos = cursor.position;
    match key {
        EditKey::Backspace => {
            if pos > 0 {
                text.text.remove(pos - 1);
                cursor.position = pos - 1;
            }
        },
        EditKey::Delete => {
            if pos < text.text.len() {
                text.text.remove(pos);
            }
        },
        EditKey::ArrowLeft => {
            if pos > 0 {
                cursor.position = pos - 1;
            }
        },
        EditKey::ArrowRight => {
            if pos < text.text.len() {
                cursor.position = pos + 1;
            }
        },
        EditKey::Enter => {
            if allows_newlines {
                text.text.insert(pos, '\n');
                let n = text.text.len();
                assert(pos < n);
                cursor.position = pos + 1;
            }
        },
        EditKey::Home => {
            cursor.position = 0;
        },
        EditKey::End => {
            cursor.position = text.text.len();
        },
    }
}

/// Inserts the printable characters of `typed` at the cursor, which moves
/// past them.
pub fn insert_typed(text: &mut EditableText, cursor: &mut EditCursor, typed: &Vec<char>)
    requires
        old(cursor).position <= old(text).text@.len(),
    ensures
        final(text).text@ == old(text).text@.subrange(0, old(cursor).position as int) + printable(
            typed@,
        ) + old(text).text@.subrange(old(cursor).position as int, old(text).text@.len() as int),
        final(cursor).position == old(cursor).position + printable(typed@).len(),
        final(cursor).position <= final(text).text@.len(),
{
    let ghost start = cursor.position as int;
    let ghost before = text.text@;
    let mut i: usize = 0;
    while i < typed.len()
        invariant
            0 <= start <= before.len(),
            i <= typed@.len(),
            text.text@ == before.subrange(0, start) + printable(typed@.subrange(0, i as int))
                + before.subrange(start, before.len() as int),
            cursor.position == start + printable(typed@.subrange(0, i as int)).len(),
        decreases typed@.len() - i,
    {
        let c = typed[i];
        let ghost prefix = typed@.subrange(0, i as int);
        assert(typed@.subrange(0, i + 1).drop_last() =~= prefix);
        assert(typed@.subrange(0, i + 1).last() == c);
        if !is_control(c) {
            let pos = cursor.position;
            text.text.insert(pos, c);
            let n = text.text.len();
            assert(pos < n);
            cursor.position = pos + 1;
            assert(text.text@ =~= before.subrange(0, start) + printable(
                typed@.subrange(0, i + 1),
            ) + before.subrange(start, before.len() as int));
        }
        i = i + 1;
    }
    assert(typed@.subrange(0, typed@.len() as int) =~= typed@);
}

/// One frame of input for a text input: nothing unless it has focus; then
/// the editing key, if any, and then the typed characters.
pub fn handle_text_input(
    text: &mut EditableText,
    cursor: &mut EditCursor,
    focused: bool,
    key: Option<EditKey>,
    allows_newlines: bool,
    typed: &Vec<char>,
)
    requires
        old(cursor).position <= old(text).text@.len(),
    ensures
        final(cursor).position <= final(text).text@.len(),
        !focused ==> final(text).text@ == old(text).text@ && *final(cursor) == *old(cursor),
        focused ==> {
            let (t1, p1) = match key {
                Some(k) => edit_key_spec(
                    old(text).text@,
                    old(cursor).position as int,
                    k,
                    allows_newlines,
                ),
                None => (old(text).text@, old(cursor).position as int),
            };
            &&& final(text).text@ == t1.subrange(0, p1) + printable(typed@) + t1.subrange(
                p1,
                t1.len() as int,
            )
            &&& final(cursor).position == p1 + printable(typed@).len()
        },
{
    if !focused {
        return;
    }
    match key {
        Some(k) => apply_edit_key(text, cursor, k, allows_newlines),
        None => {},
    }
    insert_typed(text, cursor, typed);
}

/// Whether a text input shows its placeholder: it has one and its buffer
/// is empty.
pub fn shows_placeholder(text: &EditableText, placeholder: &Option<PlaceholderText>) -> (r: bool)
    ensures
        r == (text.text@.len() == 0 && placeholder is Some),
{
    text.text.len() == 0 && placeholder.is_some()
}

} // verus!
