use ui_builder::colour::Colour;
use ui_builder::hierarchy::UIHierarchy;
use ui_builder::interaction::{
    apply_edit_key, button_shift, handle_text_input, insert_typed, is_control,
    send_pressed_on_keyboard, shows_placeholder, ColourShift, EditCursor, EditKey, EditableText,
    FocusState, Interaction, PlaceholderText,
};
use ui_builder::layout::{auto_text_size, fit_aspect_ratio, AspectRatio};
use ui_builder::scene::Scene;
use ui_builder::theme::ThemeData;
use ui_builder::widgets::{
    handle_checkbox_toggle, toggle_checkbox, CheckBox, CheckBoxState, ParentData, WidgetNode,
};

fn editable(s: &str, pos: usize) -> (EditableText, EditCursor) {
    (EditableText { text: s.chars().collect() }, EditCursor { position: pos })
}

fn text(t: &EditableText) -> String {
    t.text.iter().collect()
}

#[test]
fn pressing_flips_a_checkbox() {
    let mut s = CheckBoxState { checked: false };
    toggle_checkbox(&mut s, Interaction::Pressed);
    assert!(s.checked);
    toggle_checkbox(&mut s, Interaction::Hovered);
    assert!(s.checked);
    toggle_checkbox(&mut s, Interaction::Idle);
    assert!(s.checked);
    toggle_checkbox(&mut s, Interaction::Pressed);
    assert!(!s.checked);
}

#[test]
fn toggled_checkbox_rewrites_its_text() {
    let c = Colour::rgb(0, 0, 0);
    let td = ThemeData {
        base: c,
        base_foreground: c,
        base_container: c,
        base_container_foreground: c,
        primary: c,
        primary_foreground: c,
        primary_container: c,
        primary_container_foreground: c,
        secondary: c,
        secondary_foreground: c,
        secondary_container: c,
        secondary_container_foreground: c,
        tertiary: c,
        tertiary_foreground: c,
        tertiary_container: c,
        tertiary_container_foreground: c,
        disabled: c,
        disabled_foreground: c,
        destructive: c,
        destructive_foreground: c,
        default_font: None,
        default_padding: None,
        default_margin: None,
    };
    let mut h = UIHierarchy::new(1);
    let mut scene = Scene::new();
    let e = WidgetNode::CheckBox(CheckBox::new()).build(&mut h, &td, ParentData::default(), &mut scene);
    let mut state = CheckBoxState { checked: false };
    toggle_checkbox(&mut state, Interaction::Pressed);
    handle_checkbox_toggle(&mut scene, e, &state);
    let leaf = scene.node(scene.node(e).children[0]).children[0];
    assert_eq!(scene.node(leaf).text.as_ref().unwrap().value, "X");
    toggle_checkbox(&mut state, Interaction::Pressed);
    handle_checkbox_toggle(&mut scene, e, &state);
    assert_eq!(scene.node(leaf).text.as_ref().unwrap().value, " ");
}

#[test]
fn buttons_recolour_only_with_auto_style() {
    assert_eq!(button_shift(false, FocusState::Focused, Interaction::Pressed), ColourShift::Unchanged);
    assert_eq!(button_shift(true, FocusState::Focused, Interaction::Pressed), ColourShift::Darken(10));
    assert_eq!(button_shift(true, FocusState::Focused, Interaction::Hovered), ColourShift::Lighten(10));
    assert_eq!(button_shift(true, FocusState::Active, Interaction::Idle), ColourShift::Lighten(25));
    assert_eq!(button_shift(true, FocusState::Inert, Interaction::Idle), ColourShift::Unchanged);
}

#[test]
fn backspace_and_delete_remove_around_the_cursor() {
    let (mut t, mut c) = editable("abcd", 2);
    apply_edit_key(&mut t, &mut c, EditKey::Backspace, false);
    assert_eq!((text(&t), c.position), ("acd".to_string(), 1));
    apply_edit_key(&mut t, &mut c, EditKey::Delete, false);
    assert_eq!((text(&t), c.position), ("ad".to_string(), 1));
    let (mut t, mut c) = editable("ab", 0);
    apply_edit_key(&mut t, &mut c, EditKey::Backspace, false);
    assert_eq!((text(&t), c.position), ("ab".to_string(), 0));
    let (mut t, mut c) = editable("ab", 2);
    apply_edit_key(&mut t, &mut c, EditKey::Delete, false);
    assert_eq!((text(&t), c.position), ("ab".to_string(), 2));
}

#[test]
fn arrows_home_and_end_move_the_cursor() {
    let (mut t, mut c) = editable("abc", 1);
    apply_edit_key(&mut t, &mut c, EditKey::ArrowRight, false);
    assert_eq!(c.position, 2);
    apply_edit_key(&mut t, &mut c, EditKey::End, false);
    assert_eq!(c.position, 3);
    apply_edit_key(&mut t, &mut c, EditKey::ArrowRight, false);
    assert_eq!(c.position, 3);
    apply_edit_key(&mut t, &mut c, EditKey::Home, false);
    assert_eq!(c.position, 0);
    apply_edit_key(&mut t, &mut c, EditKey::ArrowLeft, false);
    assert_eq!(c.position, 0);
    assert_eq!(text(&t), "abc");
}

#[test]
fn enter_inserts_a_newline_only_when_allowed() {
    let (mut t, mut c) = editable("ab", 1);
    apply_edit_key(&mut t, &mut c, EditKey::Enter, false);
    assert_eq!((text(&t), c.position), ("ab".to_string(), 1));
    apply_edit_key(&mut t, &mut c, EditKey::Enter, true);
    assert_eq!((text(&t), c.position), ("a\nb".to_string(), 2));
}

#[test]
fn typed_characters_skip_control_characters() {
    let (mut t, mut c) = editable("ad", 1);
    let typed: Vec<char> = vec!['b', '\u{8}', 'c', '\u{7f}'];
    insert_typed(&mut t, &mut c, &typed);
    assert_eq!((text(&t), c.position), ("abcd".to_string(), 3));
    assert!(is_control('\u{0}'));
    assert!(is_control('\u{9f}'));
    assert!(!is_control(' '));
    assert!(!is_control('é'));
}

#[test]
fn unfocused_inputs_ignore_typing() {
    let (mut t, mut c) = editable("ab", 2);
    handle_text_input(&mut t, &mut c, false, Some(EditKey::Backspace), false, &vec!['x']);
    assert_eq!((text(&t), c.position), ("ab".to_string(), 2));
    handle_text_input(&mut t, &mut c, true, Some(EditKey::Backspace), false, &vec!['x', 'y']);
    assert_eq!((text(&t), c.position), ("axy".to_string(), 3));
}

#[test]
fn placeholder_shows_only_for_an_empty_buffer() {
    let ph = Some(PlaceholderText { text: "name".to_string() });
    assert!(shows_placeholder(&EditableText::default(), &ph));
    assert!(!shows_placeholder(&EditableText { text: vec!['a'] }, &ph));
    assert!(!shows_placeholder(&EditableText::default(), &None));
}

#[test]
fn aspect_ratio_keeps_the_shorter_side() {
    let half = AspectRatio::new(2, 1);
    assert_eq!(fit_aspect_ratio(100, 300, half), Some((100, 50)));
    assert_eq!(fit_aspect_ratio(300, 100, half), Some((200, 100)));
    assert_eq!(fit_aspect_ratio(80, 80, AspectRatio::square()), None);
}

#[test]
fn auto_text_size_follows_the_height() {
    assert_eq!(auto_text_size(90, None), 40);
    assert_eq!(auto_text_size(100, Some(AspectRatio::square())), 25);
    assert_eq!(auto_text_size(100, Some(AspectRatio::new(2, 1))), 50);
}

#[test]
fn return_presses_only_the_focused_node() {
    let mut i = Interaction::Idle;
    send_pressed_on_keyboard(FocusState::Prioritized, true, &mut i);
    assert_eq!(i, Interaction::Idle);
    send_pressed_on_keyboard(FocusState::Focused, false, &mut i);
    assert_eq!(i, Interaction::Idle);
    send_pressed_on_keyboard(FocusState::Focused, true, &mut i);
    assert_eq!(i, Interaction::Pressed);
}
