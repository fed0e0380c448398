//! The context a node hands down to its children while a tree is built.
use vstd::prelude::*;
use crate::theme::Theme;

verus! {

/// What a node passes to each of its children: the nearest named owner, the
/// last concrete theme above it, the parent's own declared theme, and the
/// z index.
#[derive(Clone, Copy, Debug, PartialEq, Eq, Structural)]
pub struct ParentData {
    /// The nearest ancestor that claimed a named owner, if any.
    pub parent_owner: Option<u64>,
    /// The last concrete theme in the tree; never `Theme::Auto`.
    pub last_theme: Theme,
    /// The parent's declared theme (may be `Theme::Auto` or custom).
    pub current_theme: Theme,
    /// The z index of the parent.
    pub z_index: i8,
}

impl ParentData {
    pub open spec fn wf(self) -> bool {
        self.last_theme.is_concrete()
    }

    pub open spec fn resolve_theme_spec(self) -> Theme {
        if self.current_theme == Theme::Auto {
            self.last_theme
        } else {
            self.current_theme
        }
    }

    pub open spec fn from_current_spec(self, current_theme: Theme) -> ParentData {
        ParentData {
            parent_owner: self.parent_owner,
            last_theme: if current_theme == Theme::Auto {
                self.resolve_theme_spec()
            } else {
                current_theme
            },
            current_theme,
            z_index: self.z_index,
        }
    }

    pub open spec fn with_owner_spec(self, owner: u64) -> ParentData {
        ParentData { parent_owner: Some(owner), ..self }
    }

    pub open spec fn default_spec() -> ParentData {
        ParentData {
            parent_owner: None,
            last_theme: Theme::Base,
            current_theme: Theme::Auto,
            z_index: 0,
        }
    }

    /// A context with no named owner above it.
    pub fn new(last_theme: Theme, current_theme: Theme, z_index: i8) -> (r: Self)
        requires
            last_theme.is_concrete(),
        ensures
            r == (ParentData { parent_owner: None, last_theme, current_theme, z_index }),
            r.wf(),
    {
        ParentData { parent_owner: None, last_theme, current_theme, z_index }
    }

    /// The theme a child declared `Theme::Auto` inherits: the parent's own
    /// theme, or the last concrete one when the parent is `Auto` too.
    pub fn resolve_theme(&self) -> (r: Theme)
        requires
            self.wf(),
        ensures
            r == self.resolve_theme_spec(),
            r.is_concrete(),
    {
        if self.current_theme == Theme::Auto {
            self.last_theme
        } else {
            self.current_theme
        }
    }

    /// The context a node declared with `current_theme` hands to its
    /// children. `self` is left as it is: siblings each get their own copy.
    pub fn from_current(&self, current_theme: Theme) -> (r: Self)
        requires
            self.wf(),
        ensures
            r == self.from_current_spec(current_theme),
            r.wf(),
    {
        let last_theme = match current_theme {
            Theme::Auto => self.resolve_theme(),
            _ => current_theme,
        };
        ParentData {
            parent_owner: self.parent_owner,
            last_theme,
            current_theme,
            z_index: self.z_index,
        }
    }

    /// The same context below a node that claimed `owner`.
    pub fn with_owner(&self, owner: u64) -> (r: Self)
        ensures
            r == self.with_owner_spec(owner),
    {
        ParentData { parent_owner: Some(owner), ..*self }
    }

    /// The context of a root: no owner, nothing declared, `Theme::Base` as
    /// the last concrete theme.
    pub fn root() -> (r: Self)
        ensures
            r == ParentData::default_spec(),
            r.wf(),
    {
        ParentData {
            parent_owner: None,
            last_theme: Theme::Base,
            current_theme: Theme::Auto,
            z_index: 0,
        }
    }
}

impl Default for ParentData {
    fn default() -> (r: Self)
        ensures
            r == ParentData::default_spec(),
    {
        ParentData::root()
    }
}

/// The theme a node declared with `own` ends up with under `pd`.
pub open spec fn effective_theme(own: Theme, pd: ParentData) -> Theme {
    if own == Theme::Auto {
        pd.resolve_theme_spec()
    } else {
        own
    }
}

/// A declared concrete theme is kept as it is, whatever the context; `Auto`
/// under a parent that is itself `Auto` resolves to the last concrete theme.
pub proof fn lemma_resolution_keeps_concrete(t: Theme, pd: ParentData)
    requires
        pd.wf(),
    ensures
        t.is_concrete() ==> effective_theme(t, pd) == t,
        pd.current_theme.is_concrete() ==> pd.resolve_theme_spec() == pd.current_theme,
        pd.current_theme == Theme::Auto ==> pd.resolve_theme_spec() == pd.last_theme,
        effective_theme(Theme::Auto, pd) == pd.resolve_theme_spec(),
        effective_theme(t, pd).is_concrete(),
{
}

/// Handing a theme down and resolving it again gives that theme back; handing
/// down `Auto` resolves to what the parent itself resolves to.
pub proof fn lemma_from_current_resolves(pd: ParentData, t: Theme)
    requires
        pd.wf(),
    ensures
        pd.from_current_spec(t).wf(),
        t.is_concrete() ==> pd.from_current_spec(t).resolve_theme_spec() == t,
        pd.from_current_spec(Theme::Auto).resolve_theme_spec() == pd.resolve_theme_spec(),
        pd.from_current_spec(t).parent_owner == pd.parent_owner,
        pd.from_current_spec(t).z_index == pd.z_index,
{
}

/// A root declared `Auto`, with no parent, is drawn with the base role.
pub proof fn lemma_auto_root_is_base()
    ensures
        ParentData::default_spec().wf(),
        effective_theme(Theme::Auto, ParentData::default_spec()) == Theme::Base,
        ParentData::default_spec().resolve_theme_spec() == Theme::Base,
{
}

} // verus!
