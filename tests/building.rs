use ui_builder::colour::Colour;
use ui_builder::hierarchy::UIHierarchy;
use ui_builder::layout::AspectRatio;
use ui_builder::scene::{NodeKind, Scene};
use ui_builder::style::{UiRect, Val};
use ui_builder::theme::{FontId, PaintMode, Theme, ThemeData};
use ui_builder::widgets::{
    create_space, BaseButton, CheckBox, Column, Container, ParentData, Row, TextButton, TextInput,
    TextLabel, WidgetNode,
};

fn grey(v: u8) -> Colour {
    Colour::rgb(v, v, v)
}

fn palette() -> ThemeData {
    ThemeData {
        base: grey(1),
        base_foreground: grey(2),
        base_container: grey(3),
        base_container_foreground: grey(4),
        primary: grey(11),
        primary_foreground: grey(12),
        primary_container: grey(13),
        primary_container_foreground: grey(14),
        secondary: grey(21),
        secondary_foreground: grey(22),
        secondary_container: grey(23),
        secondary_container_foreground: grey(24),
        tertiary: grey(31),
        tertiary_foreground: grey(32),
        tertiary_container: grey(33),
        tertiary_container_foreground: grey(34),
        disabled: grey(41),
        disabled_foreground: grey(42),
        destructive: grey(51),
        destructive_foreground: grey(52),
        default_font: None,
        default_padding: None,
        default_margin: None,
    }
}

const ROOT: u64 = 100;

fn build(w: WidgetNode, td: &ThemeData) -> (usize, Scene, UIHierarchy) {
    let mut h = UIHierarchy::new(ROOT);
    let mut scene = Scene::new();
    let e = w.build(&mut h, td, ParentData::default(), &mut scene);
    (e, scene, h)
}

fn text_of(scene: &Scene, e: usize) -> String {
    scene.node(e).text.as_ref().expect("a text leaf").value.clone()
}

#[test]
fn row_of_spaces_and_coloured_columns() {
    let red = Colour::rgb(255, 0, 0);
    let green = Colour::rgb(0, 255, 0);
    let white = Colour::rgb(255, 255, 255);
    let column_a = Column::new().with_colour(red, white);
    let column_b = Column::new().with_colour(green, white);
    let middle = Column::new()
        .push(WidgetNode::Container(create_space(1)))
        .push(WidgetNode::Column(column_a))
        .push(WidgetNode::Column(column_b))
        .push(WidgetNode::Container(create_space(1)))
        .with_fill_portion(2);
    let row = Row::new()
        .push(WidgetNode::Container(create_space(1)))
        .push(WidgetNode::Column(middle))
        .push(WidgetNode::Container(create_space(1)));
    let td = palette();
    let (e, scene, _) = build(WidgetNode::Row(row), &td);

    let root = scene.node(e);
    assert_eq!(root.children.len(), 3);
    let bases: Vec<Val> = root.children.iter().map(|&c| scene.node(c).style.flex_basis).collect();
    assert_eq!(bases, vec![Val::Percent(100), Val::Percent(200), Val::Percent(100)]);

    let mid = scene.node(root.children[1]);
    assert_eq!(mid.children.len(), 4);
    let a = scene.node(mid.children[1]);
    let b = scene.node(mid.children[2]);
    assert_eq!(a.background, red);
    assert_eq!(b.background, green);
    assert_eq!(a.border_colour, red);
    assert_eq!(a.theme, Some(Theme::Custom(red, white)));
    assert!(a.children.is_empty() && b.children.is_empty());
    assert_eq!(scene.len(), 8);
}

#[test]
fn auto_root_is_drawn_with_base() {
    let td = palette();
    let (e, scene, _) = build(WidgetNode::Container(Container::new()), &td);
    let n = scene.node(e);
    assert_eq!(n.theme, Some(Theme::Base));
    assert_eq!(n.background, td.base_container);
    assert_eq!(n.border_colour, td.base);
    assert_eq!(n.owner, Some(ROOT));
    assert!(!n.claims_owner);
}

#[test]
fn children_inherit_the_parent_theme() {
    let td = palette();
    let outer = Column::new()
        .with_theme(Theme::Secondary)
        .push(WidgetNode::Container(Container::new()))
        .push(WidgetNode::Container(Container::new().with_theme(Theme::Tertiary)));
    let (e, scene, _) = build(WidgetNode::Column(outer), &td);
    let kids = &scene.node(e).children;
    assert_eq!(scene.node(kids[0]).theme, Some(Theme::Secondary));
    assert_eq!(scene.node(kids[0]).background, td.secondary_container);
    assert_eq!(scene.node(kids[1]).theme, Some(Theme::Tertiary));
}

#[test]
fn invisible_nodes_paint_nothing() {
    let td = palette();
    let c = Container::new().with_theme(Theme::Primary).with_paint_mode(PaintMode::Invisible);
    let (e, scene, _) = build(WidgetNode::Container(c), &td);
    assert_eq!(scene.node(e).background, Colour::none());
    assert_eq!(scene.node(e).border_colour, Colour::none());
}

#[test]
fn padding_and_margin_come_from_the_node_then_the_theme() {
    let mut td = palette();
    td.default_padding = Some(UiRect::all(Val::Px(4)));
    td.default_margin = Some(UiRect::all(Val::Px(6)));
    let own = UiRect::all(Val::Px(9));
    let c = Container::new().with_padding(own);
    let (e, scene, _) = build(WidgetNode::Container(c), &td);
    assert_eq!(scene.node(e).style.padding, own);
    assert_eq!(scene.node(e).style.margin, UiRect::all(Val::Px(6)));
}

#[test]
fn named_owners_are_registered_and_marked() {
    let td = palette();
    let inner = Container::new().with_owner(2);
    let outer = Column::new().with_owner(1).push(WidgetNode::Container(inner)).push(
        WidgetNode::Container(Container::new()),
    );
    let (e, scene, h) = build(WidgetNode::Column(outer), &td);
    let n = scene.node(e);
    assert_eq!(n.owner, Some(1));
    assert!(n.claims_owner);
    assert_eq!(scene.node(n.children[0]).owner, Some(2));
    assert!(scene.node(n.children[0]).claims_owner);
    assert_eq!(scene.node(n.children[1]).owner, Some(1));
    assert!(!scene.node(n.children[1]).claims_owner);
    assert_eq!(h.parent_of(1), Some(ROOT));
    assert_eq!(h.parent_of(2), Some(1));
    assert_eq!(h.len(), 3);
}

#[test]
fn building_twice_reuses_registered_owners() {
    let td = palette();
    let mut h = UIHierarchy::new(ROOT);
    let mut scene = Scene::new();
    let make = || WidgetNode::Container(Container::new().with_owner(5));
    let first = make().build(&mut h, &td, ParentData::default(), &mut scene);
    let second = make().build(&mut h, &td, ParentData::default(), &mut scene);
    assert_ne!(first, second);
    assert_eq!(h.len(), 2);
    assert_eq!(h.parent_of(5), Some(ROOT));
}

#[test]
fn label_puts_its_text_in_a_leaf() {
    let mut td = palette();
    td.default_font = Some(FontId(3));
    let label = TextLabel::new("Hello".to_string()).with_theme(Theme::Primary);
    let (e, scene, _) = build(WidgetNode::TextLabel(label), &td);
    let n = scene.node(e);
    assert!(n.auto_sized_text);
    assert_eq!(n.children.len(), 1);
    let t = scene.node(n.children[0]);
    assert_eq!(t.kind, NodeKind::Text);
    let sec = t.text.as_ref().unwrap();
    assert_eq!(sec.value, "Hello");
    assert_eq!(sec.colour, td.primary_container_foreground);
    assert_eq!(sec.font, Some(FontId(3)));
    assert_eq!(sec.fixed_size, None);
}

#[test]
fn fixed_text_size_turns_off_auto_sizing() {
    let td = palette();
    let label = TextLabel::new("x".to_string()).with_text_size(20).with_font(FontId(8));
    let (e, scene, _) = build(WidgetNode::TextLabel(label), &td);
    assert!(!scene.node(e).auto_sized_text);
    let sec = scene.node(scene.node(e).children[0]).text.as_ref().unwrap();
    assert_eq!(sec.fixed_size, Some(20));
    assert_eq!(sec.font, Some(FontId(8)));
}

#[test]
fn text_button_places_its_label_below_the_button() {
    let td = palette();
    let tb = TextButton::new("Play".to_string()).with_theme(Theme::Tertiary);
    let (e, scene, _) = build(WidgetNode::TextButton(tb), &td);
    let b = scene.node(e);
    assert_eq!(b.kind, NodeKind::Button);
    assert!(b.decorations.focusable);
    assert!(b.decorations.auto_styled);
    assert_eq!(b.background, td.tertiary);
    assert_eq!(b.border_colour, td.tertiary_container);
    let label = scene.node(b.children[0]);
    assert_eq!(label.theme, Some(Theme::Tertiary));
    assert_eq!(label.background, Colour::none());
    assert_eq!(text_of(&scene, label.children[0]), "Play");
}

#[test]
fn base_button_is_not_auto_styled_by_default() {
    let td = palette();
    let (e, scene, _) = build(WidgetNode::BaseButton(BaseButton::new()), &td);
    assert!(scene.node(e).decorations.focusable);
    assert!(!scene.node(e).decorations.auto_styled);
    let (e2, scene2, _) = build(WidgetNode::BaseButton(BaseButton::new().with_auto_style(true)), &td);
    assert!(scene2.node(e2).decorations.auto_styled);
}

#[test]
fn checked_box_shows_a_cross() {
    let td = palette();
    let (e, scene, _) = build(WidgetNode::CheckBox(CheckBox::new().with_checked(true)), &td);
    let b = scene.node(e);
    assert_eq!(b.decorations.checkbox, Some(true));
    assert_eq!(b.children.len(), 1);
    let c = scene.node(b.children[0]);
    assert_eq!(c.children.len(), 1);
    assert_eq!(text_of(&scene, c.children[0]), "X");
    assert_eq!(b.aspect_ratio, Some(AspectRatio::square()));
}

#[test]
fn unchecked_box_shows_a_space() {
    let td = palette();
    let (e, scene, _) = build(WidgetNode::CheckBox(CheckBox::new()), &td);
    let b = scene.node(e);
    assert_eq!(b.decorations.checkbox, Some(false));
    let c = scene.node(b.children[0]);
    assert_eq!(c.children.len(), 1);
    assert_eq!(text_of(&scene, c.children[0]), " ");
}

#[test]
fn text_input_carries_its_editing_state() {
    let td = palette();
    let input = TextInput::new(Some("Your name".to_string())).allows_newlines(true);
    let (e, scene, _) = build(WidgetNode::TextInput(input), &td);
    let n = scene.node(e);
    assert!(n.decorations.editable);
    assert!(n.decorations.focusable);
    assert!(n.decorations.allows_newlines);
    assert_eq!(n.decorations.placeholder.as_deref(), Some("Your name"));
    assert_eq!(n.style.border, UiRect::all(Val::Percent(3)));
    assert_eq!(text_of(&scene, n.children[0]), "Your name");

    let (e2, scene2, _) = build(WidgetNode::TextInput(TextInput::new(None)), &td);
    assert_eq!(scene2.node(e2).decorations.placeholder, None);
    assert_eq!(text_of(&scene2, scene2.node(e2).children[0]), "");
}

#[test]
fn existing_entities_are_attached_as_they_are() {
    let td = palette();
    let mut h = UIHierarchy::new(ROOT);
    let mut scene = Scene::new();
    let first = WidgetNode::Container(Container::new()).build(
        &mut h,
        &td,
        ParentData::default(),
        &mut scene,
    );
    let row = Row::new().push(WidgetNode::Entity(first));
    let e = WidgetNode::Row(row).build(&mut h, &td, ParentData::default(), &mut scene);
    assert_eq!(scene.node(e).children, vec![first]);
    assert_eq!(scene.len(), 2);
}

#[test]
fn second_build_spawns_only_new_nodes() {
    let td = palette();
    let mut h = UIHierarchy::new(ROOT);
    let mut scene = Scene::new();
    let make = || {
        WidgetNode::Row(
            Row::new()
                .push(WidgetNode::TextLabel(TextLabel::new("a".to_string())))
                .push(WidgetNode::Container(create_space(1))),
        )
    };
    make().build(&mut h, &td, ParentData::default(), &mut scene);
    let first_len = scene.len();
    let e = make().build(&mut h, &td, ParentData::default(), &mut scene);
    let mut stack = vec![e];
    while let Some(n) = stack.pop() {
        assert!(n >= first_len);
        stack.extend(scene.node(n).children.iter().copied());
    }
}

#[test]
fn button_claiming_nothing_leaves_the_index_alone() {
    let td = palette();
    let (_, _, h) = build(WidgetNode::BaseButton(BaseButton::new()), &td);
    assert_eq!(h.len(), 1);
    let (_, _, h2) = build(WidgetNode::BaseButton(BaseButton::new().with_owner(4)), &td);
    assert_eq!(h2.len(), 2);
    assert_eq!(h2.parent_of(4), Some(ROOT));
}
