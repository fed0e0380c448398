//! Themes: the colour role a node paints with, the palette it is looked up
//! in, and how a paint mode turns the two into fill and border colours.
use vstd::prelude::*;
use crate::colour::Colour;
use crate::style::UiRect;

verus! {

/// The colour role a widget paints itself with.
#[derive(Clone, Copy, Debug, PartialEq, Eq, Structural)]
pub enum Theme {
    Base,
    Primary,
    Secondary,
    Tertiary,
    /// Explicit background and foreground colours, bypassing the palette.
    Custom(Colour, Colour),
    /// Inherit the theme of the nearest ancestor.
    Auto,
}

/// Whether a node fills with its role's background, with the role's
/// container background, or paints nothing.
#[derive(Clone, Copy, Debug, PartialEq, Eq, Structural)]
pub enum PaintMode {
    Background,
    BackgroundContainer,
    Invisible,
}

/// A handle the host assigned to a loaded font.
#[derive(Clone, Copy, Debug, PartialEq, Eq, Structural)]
pub struct FontId(pub u32);

/// A palette: four roles with a background, a foreground and a container
/// variant of each, the disabled and destructive colours, and optional
/// defaults for fonts, padding and margin.
#[derive(Clone, Copy, Debug, PartialEq, Eq, Structural)]
pub struct ThemeData {
    pub base: Colour,
    pub base_foreground: Colour,
    pub base_container: Colour,
    pub base_container_foreground: Colour,
    pub primary: Colour,
    pub primary_foreground: Colour,
    pub primary_container: Colour,
    pub primary_container_foreground: Colour,
    pub secondary: Colour,
    pub secondary_foreground: Colour,
    pub secondary_container: Colour,
    pub secondary_container_foreground: Colour,
    pub tertiary: Colour,
    pub tertiary_foreground: Colour,
    pub tertiary_container: Colour,
    pub tertiary_container_foreground: Colour,
    pub disabled: Colour,
    pub disabled_foreground: Colour,
    pub destructive: Colour,
    pub destructive_foreground: Colour,
    /// Used by every text that does not name a font of its own.
    pub default_font: Option<FontId>,
    /// Used by every node that does not set a padding of its own.
    pub default_padding: Option<UiRect>,
    /// Used by every node that does not set a margin of its own.
    pub default_margin: Option<UiRect>,
}

/// The theme a node is drawn with, as a marker on the node.
#[derive(Clone, Copy, Debug, PartialEq, Eq, Structural)]
pub struct CurrentTheme(pub Theme);

/// The colour lookups below are for concrete themes only: `Auto` is always
/// resolved against the parent first. Their spec functions give `Auto` the
/// base colours only so as to be total; no lookup ever reaches that case.
impl Theme {
    pub open spec fn is_concrete(self) -> bool {
        self != Theme::Auto
    }

    pub open spec fn background_spec(self, td: ThemeData) -> Colour {
        match self {
            Theme::Base => td.base,
            Theme::Primary => td.primary,
            Theme::Secondary => td.secondary,
            Theme::Tertiary => td.tertiary,
            Theme::Custom(background, _) => background,
            Theme::Auto => td.base,
        }
    }

    pub open spec fn foreground_spec(self, td: ThemeData) -> Colour {
        match self {
            Theme::Base => td.base_foreground,
            Theme::Primary => td.primary_foreground,
            Theme::Secondary => td.secondary_foreground,
            Theme::Tertiary => td.tertiary_foreground,
            Theme::Custom(_, foreground) => foreground,
            Theme::Auto => td.base_foreground,
        }
    }

    pub open spec fn background_container_spec(self, td: ThemeData) -> Colour {
        match self {
            Theme::Base => td.base_container,
            Theme::Primary => td.primary_container,
            Theme::Secondary => td.secondary_container,
            Theme::Tertiary => td.tertiary_container,
            Theme::Custom(background, _) => background,
            Theme::Auto => td.base_container,
        }
    }

    pub open spec fn foreground_container_spec(self, td: ThemeData) -> Colour {
        match self {
            Theme::Base => td.base_container_foreground,
            Theme::Primary => td.primary_container_foreground,
            Theme::Secondary => td.secondary_container_foreground,
            Theme::Tertiary => td.tertiary_container_foreground,
            Theme::Custom(_, foreground) => foreground,
            Theme::Auto => td.base_container_foreground,
        }
    }

    /// The role's background colour; a custom theme gives its own.
    pub fn get_background(&self, theme: &ThemeData) -> (r: Colour)
        requires
            self.is_concrete(),
        ensures
            r == self.background_spec(*theme),
    {
        match self {
            Theme::Base => theme.base,
            Theme::Primary => theme.primary,
            Theme::Secondary => theme.secondary,
            Theme::Tertiary => theme.tertiary,
            Theme::Custom(background, _) => *background,
            Theme::Auto => {
                proof {
                    assert(false);
                }
                theme.base
            },
        }
    }

    /// The role's foreground colour; a custom theme gives its own.
    pub fn get_foreground(&self, theme: &ThemeData) -> (r: Colour)
        requires
            self.is_concrete(),
        ensures
            r == self.foreground_spec(*theme),
    {
        match self {
            Theme::Base => theme.base_foreground,
            Theme::Primary => theme.primary_foreground,
            Theme::Secondary => theme.secondary_foreground,
            Theme::Tertiary => theme.tertiary_foreground,
            Theme::Custom(_, foreground) => *foreground,
            Theme::Auto => {
                proof {
                    assert(false);
                }
                theme.base_foreground
            },
        }
    }

    /// The role's container background; a custom theme gives its background.
    pub fn get_background_container(&self, theme: &ThemeData) -> (r: Colour)
        requires
            self.is_concrete(),
        ensures
            r == self.background_container_spec(*theme),
    {
        match self {
            Theme::Base => theme.base_container,
            Theme::Primary => theme.primary_container,
            Theme::Secondary => theme.secondary_container,
            Theme::Tertiary => theme.tertiary_container,
            Theme::Custom(background, _) => *background,
            Theme::Auto => {
                proof {
                    assert(false);
                }
                theme.base_container
            },
        }
    }

    /// The role's container foreground; a custom theme gives its foreground.
    pub fn get_foreground_container(&self, theme: &ThemeData) -> (r: Colour)
        requires
            self.is_concrete(),
        ensures
            r == self.foreground_container_spec(*theme),
    {
        match self {
            Theme::Base => theme.base_container_foreground,
            Theme::Primary => theme.primary_container_foreground,
            Theme::Secondary => theme.secondary_container_foreground,
            Theme::Tertiary => theme.tertiary_container_foreground,
            Theme::Custom(_, foreground) => *foreground,
            Theme::Auto => {
                proof {
                    assert(false);
                }
                theme.base_container_foreground
            },
        }
    }
}

/// The fill colour of a node painted with `theme` in `mode`.
pub open spec fn fill_spec(theme: Theme, mode: PaintMode, td: ThemeData) -> Colour {
    match mode {
        PaintMode::Background => theme.background_spec(td),
        PaintMode::BackgroundContainer => theme.background_container_spec(td),
        PaintMode::Invisible => Colour::none_spec(),
    }
}

/// The border colour of a node painted with `theme` in `mode`: the other
/// background role, so that fill and border stand apart.
pub open spec fn border_spec(theme: Theme, mode: PaintMode, td: ThemeData) -> Colour {
    match mode {
        PaintMode::Background => theme.background_container_spec(td),
        PaintMode::BackgroundContainer => theme.background_spec(td),
        PaintMode::Invisible => Colour::none_spec(),
    }
}

/// The colour of text drawn on a node painted with `theme` in `mode`.
pub open spec fn text_colour_spec(theme: Theme, mode: PaintMode, td: ThemeData) -> Colour {
    match mode {
        PaintMode::BackgroundContainer => theme.foreground_container_spec(td),
        _ => theme.foreground_spec(td),
    }
}

/// Fill and border colour of a node painted with `theme` in `mode`.
pub fn paint_colours(theme: Theme, mode: PaintMode, td: &ThemeData) -> (r: (Colour, Colour))
    requires
        theme.is_concrete(),
    ensures
        r.0 == fill_spec(theme, mode, *td),
        r.1 == border_spec(theme, mode, *td),
{
    match mode {
        PaintMode::Background => (theme.get_background(td), theme.get_background_container(td)),
        PaintMode::BackgroundContainer => (
            theme.get_background_container(td),
            theme.get_background(td),
        ),
        PaintMode::Invisible => (Colour::none(), Colour::none()),
    }
}

/// The colour of text drawn on a node painted with `theme` in `mode`.
pub fn text_colour(theme: Theme, mode: PaintMode, td: &ThemeData) -> (r: Colour)
    requires
        theme.is_concrete(),
    ensures
        r == text_colour_spec(theme, mode, *td),
{
    match mode {
        PaintMode::BackgroundContainer => theme.get_foreground_container(td),
        _ => theme.get_foreground(td),
    }
}

/// An invisible node is fully transparent, fill and border, whatever its
/// theme and whatever the palette.
pub proof fn lemma_invisible_is_transparent(theme: Theme, td: ThemeData)
    ensures
        fill_spec(theme, PaintMode::Invisible, td).is_transparent(),
        border_spec(theme, PaintMode::Invisible, td).is_transparent(),
{
}

/// The light-or-dark preference that the desktop reports.
#[derive(Clone, Copy, Debug, PartialEq, Eq, Structural)]
pub enum SystemMode {
    Dark,
    Light,
    Unspecified,
}

/// The built-in palettes.
#[derive(Clone, Copy, Debug, PartialEq, Eq, Structural)]
pub enum ThemePreset {
    Dark,
    Light,
    Transparent,
}

/// The palette used when the caller names none: light on a light desktop,
/// dark otherwise.
pub fn preset_for_mode(mode: SystemMode) -> (r: ThemePreset)
    ensures
        r == (if mode == SystemMode::Light { ThemePreset::Light } else { ThemePreset::Dark }),
{
    match mode {
        SystemMode::Light => ThemePreset::Light,
        _ => ThemePreset::Dark,
    }
}

} // verus!
