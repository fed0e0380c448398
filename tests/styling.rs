use ui_builder::colour::Colour;
use ui_builder::layout::AspectRatio;
use ui_builder::scene::Scene;
use ui_builder::style::{AlignContent, AlignSelf, FlexDirection, FlexWrap, UiRect, Val};
use ui_builder::theme::{PaintMode, Theme};
use ui_builder::widgets::{
    create_space, BaseButton, CheckBox, Column, Container, Row, TextButton, TextInput, TextLabel,
    WidgetNode,
};

#[test]
fn container_builders_set_their_fields() {
    let red = Colour::rgb(255, 0, 0);
    let black = Colour::rgb(0, 0, 0);
    let c = Container::new()
        .with_size(Val::Px(10), Val::Percent(50))
        .with_paint_mode(PaintMode::Background)
        .with_border(UiRect::all(Val::Px(1)))
        .with_aspect_ratio(AspectRatio::new(16, 9))
        .with_direction(FlexDirection::Column)
        .with_wrap(FlexWrap::Wrap)
        .with_align_self(AlignSelf::End)
        .with_align_content(AlignContent::SpaceAround)
        .with_padding(UiRect::all(Val::Px(2)))
        .with_margin(UiRect::all(Val::Px(3)))
        .with_fill_portion(3)
        .with_colour(red, black)
        .with_owner(9);
    assert_eq!(c.style.width, Val::Px(10));
    assert_eq!(c.style.height, Val::Percent(50));
    assert_eq!(c.paint_mode, PaintMode::Background);
    assert_eq!(c.style.border, UiRect::all(Val::Px(1)));
    assert_eq!(c.aspect_ratio, Some(AspectRatio::new(16, 9)));
    assert_eq!(c.style.flex_direction, FlexDirection::Column);
    assert_eq!(c.style.flex_wrap, FlexWrap::Wrap);
    assert_eq!(c.style.align_self, AlignSelf::End);
    assert_eq!(c.style.align_content, AlignContent::SpaceAround);
    assert_eq!(c.custom_padding, Some(UiRect::all(Val::Px(2))));
    assert_eq!(c.custom_margin, Some(UiRect::all(Val::Px(3))));
    assert_eq!(c.style.flex_basis, Val::Percent(300));
    assert_eq!(c.theme, Theme::Custom(red, black));
    assert_eq!(c.owner, Some(9));
}

#[test]
fn new_widgets_start_from_their_defaults() {
    let c = Container::new();
    assert_eq!(c.theme, Theme::Auto);
    assert_eq!(c.paint_mode, PaintMode::BackgroundContainer);
    assert_eq!(c.style.width, Val::Percent(100));
    assert_eq!(Row::new().container.style.flex_direction, FlexDirection::Row);
    assert_eq!(Column::new().container.style.flex_direction, FlexDirection::Column);
    let l = TextLabel::new("a".to_string());
    assert_eq!(l.container.style.align_content, AlignContent::Center);
    let b = BaseButton::new();
    assert_eq!(b.container.paint_mode, PaintMode::Background);
    assert!(!b.auto_style);
    let tb = TextButton::new("t".to_string());
    assert!(tb.base_button.auto_style);
    assert_eq!(tb.label.container.paint_mode, PaintMode::Invisible);
    let cb = CheckBox::new();
    assert!(!cb.initial_checked_state);
    assert_eq!(cb.text_button.base_button.container.paint_mode, PaintMode::BackgroundContainer);
    assert_eq!(
        cb.text_button.base_button.container.style.border,
        UiRect::all(Val::Percent(10))
    );
    let ti = TextInput::new(None);
    assert!(!ti.allows_newlines);
    assert_eq!(ti.placeholder, None);
}

#[test]
fn wrappers_forward_to_their_container() {
    let r = Row::new().with_theme(Theme::Primary).with_fill_portion(2);
    assert_eq!(r.container.theme, Theme::Primary);
    assert_eq!(r.container.style.flex_basis, Val::Percent(200));
    let cb = CheckBox::new().with_theme(Theme::Secondary).with_checked(true);
    assert_eq!(cb.text_button.base_button.container.theme, Theme::Secondary);
    assert!(cb.initial_checked_state);
    let ti = TextInput::new(Some("p".to_string())).with_padding(UiRect::all(Val::Px(5)));
    assert_eq!(ti.label.container.custom_padding, Some(UiRect::all(Val::Px(5))));
    let b = BaseButton::new().push(WidgetNode::Container(create_space(1)));
    assert_eq!(b.container.children.len(), 1);
    let from: WidgetNode = Container::new().into();
    assert!(matches!(from, WidgetNode::Container(_)));
}

#[test]
fn spaces_take_their_share() {
    assert_eq!(create_space(4).style.flex_basis, Val::Percent(400));
    assert_eq!(create_space(0).style.flex_basis, Val::Percent(0));
}

#[test]
fn children_of_a_missing_entity_is_none() {
    let scene = Scene::new();
    assert!(scene.children_of(0).is_none());
    assert_eq!(scene.len(), 0);
}

#[test]
fn fractional_fill_portions_use_hundredths() {
    assert_eq!(Container::new().with_fill_hundredths(50).style.flex_basis, Val::Percent(50));
    assert_eq!(Row::new().with_fill_hundredths(250).container.style.flex_basis, Val::Percent(250));
    let cb = CheckBox::new().with_fill_hundredths(75);
    assert_eq!(cb.text_button.base_button.container.style.flex_basis, Val::Percent(75));
}
