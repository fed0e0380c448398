use ui_builder::colour::Colour;
use ui_builder::theme::{
    paint_colours, preset_for_mode, text_colour, PaintMode, SystemMode, Theme, ThemeData,
    ThemePreset,
};
use ui_builder::widgets::ParentData;

fn grey(v: u8) -> Colour {
    Colour::rgb(v, v, v)
}

fn palette() -> ThemeData {
    ThemeData {
        base: grey(1),
        base_foreground: grey(2),
        base_container: grey(3),
        base_container_foreground: grey(4),
        primary: grey(11),
        primary_foreground: grey(12),
        primary_container: grey(13),
        primary_container_foreground: grey(14),
        secondary: grey(21),
        secondary_foreground: grey(22),
        secondary_container: grey(23),
        secondary_container_foreground: grey(24),
        tertiary: grey(31),
        tertiary_foreground: grey(32),
        tertiary_container: grey(33),
        tertiary_container_foreground: grey(34),
        disabled: grey(41),
        disabled_foreground: grey(42),
        destructive: grey(51),
        destructive_foreground: grey(52),
        default_font: None,
        default_padding: None,
        default_margin: None,
    }
}

#[test]
fn roles_look_up_their_palette_entries() {
    let td = palette();
    assert_eq!(Theme::Primary.get_background(&td), grey(11));
    assert_eq!(Theme::Secondary.get_foreground(&td), grey(22));
    assert_eq!(Theme::Tertiary.get_background_container(&td), grey(33));
    assert_eq!(Theme::Base.get_foreground_container(&td), grey(4));
}

#[test]
fn custom_theme_bypasses_the_palette() {
    let td = palette();
    let red = Colour::rgb(255, 0, 0);
    let white = Colour::rgb(255, 255, 255);
    let custom = Theme::Custom(red, white);
    assert_eq!(custom.get_background(&td), red);
    assert_eq!(custom.get_background_container(&td), red);
    assert_eq!(custom.get_foreground(&td), white);
    assert_eq!(custom.get_foreground_container(&td), white);
}

#[test]
fn paint_modes_pick_fill_and_border() {
    let td = palette();
    assert_eq!(paint_colours(Theme::Primary, PaintMode::Background, &td), (grey(11), grey(13)));
    assert_eq!(
        paint_colours(Theme::Primary, PaintMode::BackgroundContainer, &td),
        (grey(13), grey(11))
    );
    assert_eq!(text_colour(Theme::Primary, PaintMode::BackgroundContainer, &td), grey(14));
    assert_eq!(text_colour(Theme::Primary, PaintMode::Background, &td), grey(12));
}

#[test]
fn invisible_paint_is_transparent_for_every_theme() {
    let td = palette();
    let themes = [
        Theme::Base,
        Theme::Primary,
        Theme::Secondary,
        Theme::Tertiary,
        Theme::Custom(Colour::rgb(1, 2, 3), Colour::rgb(4, 5, 6)),
    ];
    for t in themes {
        let (fill, border) = paint_colours(t, PaintMode::Invisible, &td);
        assert_eq!(fill.alpha, 0);
        assert_eq!(border.alpha, 0);
    }
}

#[test]
fn light_desktops_get_the_light_palette() {
    assert_eq!(preset_for_mode(SystemMode::Light), ThemePreset::Light);
    assert_eq!(preset_for_mode(SystemMode::Dark), ThemePreset::Dark);
    assert_eq!(preset_for_mode(SystemMode::Unspecified), ThemePreset::Dark);
}

#[test]
fn auto_resolves_to_the_last_concrete_theme() {
    for t in [Theme::Base, Theme::Primary, Theme::Secondary, Theme::Tertiary] {
        let pd = ParentData::new(t, Theme::Auto, 0);
        assert_eq!(pd.resolve_theme(), t);
    }
}

#[test]
fn concrete_parent_theme_resolves_to_itself() {
    let pd = ParentData::new(Theme::Primary, Theme::Tertiary, 3);
    assert_eq!(pd.resolve_theme(), Theme::Tertiary);
}

#[test]
fn from_current_then_resolve_gives_the_theme_back() {
    let pd = ParentData::new(Theme::Secondary, Theme::Auto, 2);
    let custom = Theme::Custom(Colour::rgb(9, 9, 9), Colour::rgb(1, 1, 1));
    for t in [Theme::Base, Theme::Primary, custom] {
        let child = pd.from_current(t);
        assert_eq!(child.resolve_theme(), t);
        assert_eq!(child.current_theme, t);
        assert_eq!(child.z_index, 2);
    }
    assert_eq!(pd.from_current(Theme::Auto).resolve_theme(), pd.resolve_theme());
    assert_eq!(pd.from_current(Theme::Auto).last_theme, Theme::Secondary);
}

#[test]
fn root_context_resolves_to_base() {
    let pd = ParentData::default();
    assert_eq!(pd.resolve_theme(), Theme::Base);
    assert_eq!(pd.parent_owner, None);
    assert_eq!(pd.z_index, 0);
}
