//! Building: turning a widget description into spawned nodes.
//!
//! A build walks the description depth first. At each node it claims the
//! node's named owner in the ownership index, resolves the node's theme
//! against its parent, builds the children with the node as their context,
//! and spawns the node with its children attached. What a build produces is
//! stated by `realizes`: the subtree below the returned entity is the
//! description, drawn under the given context.
use vstd::prelude::*;
use crate::colour::Colour;
use crate::hierarchy::HierarchyModel;
use crate::scene::{
    scene_extends, Decorations, NodeKind, Scene, SpawnedNode, TextSection,
};
use crate::style::{NodeStyle, UiRect};
use crate::theme::{
    PaintMode,
    border_spec, fill_spec, paint_colours, text_colour, text_colour_spec, FontId, Theme,
    ThemeData,
};
use super::parent_data::effective_theme;
use super::{CheckBox, Container, ParentData, TextLabel, WidgetNode};

verus! {

/// The padding a node gets: its own, else the theme's, else its style's.
pub open spec fn padding_spec(c: Container, td: ThemeData) -> UiRect {
    match c.custom_padding {
        Some(p) => p,
        None => match td.default_padding {
            Some(p) => p,
            None => c.style.padding,
        },
    }
}

/// The margin a node gets: its own, else the theme's, else its style's.
pub open spec fn margin_spec(c: Container, td: ThemeData) -> UiRect {
    match c.custom_margin {
        Some(m) => m,
        None => match td.default_margin {
            Some(m) => m,
            None => c.style.margin,
        },
    }
}

pub open spec fn node_style_spec(c: Container, td: ThemeData) -> NodeStyle {
    NodeStyle { padding: padding_spec(c, td), margin: margin_spec(c, td), ..c.style }
}

/// The context below a node, after it claimed its named owner.
pub open spec fn claimed(c: Container, pd: ParentData) -> ParentData {
    match c.owner {
        Some(o) => pd.with_owner_spec(o),
        None => pd,
    }
}

/// The owner marker of a node in context `pd`: the nearest named owner, or
/// the root owner.
pub open spec fn owner_marker(pd: ParentData, root: u64) -> u64 {
    match pd.parent_owner {
        Some(o) => o,
        None => root,
    }
}

/// The context a node hands to its children.
pub open spec fn child_context(c: Container, pd: ParentData) -> ParentData {
    claimed(c, pd).from_current_spec(c.theme)
}

pub open spec fn plain_deco() -> Decorations {
    Decorations {
        focusable: false,
        auto_styled: false,
        checkbox: None,
        editable: false,
        placeholder: None,
        allows_newlines: false,
    }
}

pub open spec fn button_deco(auto_style: bool, checkbox: Option<bool>) -> Decorations {
    Decorations {
        focusable: true,
        auto_styled: auto_style,
        checkbox,
        editable: false,
        placeholder: None,
        allows_newlines: false,
    }
}

/// The text a check box shows.
pub open spec fn glyph_spec(checked: bool) -> Seq<char> {
    if checked {
        seq!['X']
    } else {
        seq![' ']
    }
}

/// Node `n` is the node of `c` drawn in context `pd`, children aside.
pub open spec fn shell_matches(
    n: SpawnedNode,
    c: Container,
    kind: NodeKind,
    pd: ParentData,
    td: ThemeData,
    root: u64,
) -> bool {
    let theme = effective_theme(c.theme, pd);
    &&& n.kind == kind
    &&& n.style == node_style_spec(c, td)
    &&& n.background == fill_spec(theme, c.paint_mode, td)
    &&& n.border_colour == border_spec(theme, c.paint_mode, td)
    &&& n.text is None
    &&& n.owner == Some(owner_marker(claimed(c, pd), root))
    &&& n.claims_owner == c.owner is Some
    &&& n.theme == Some(theme)
    &&& n.aspect_ratio == c.aspect_ratio
}

/// Entity `e` of scene `s` realises widget `w` in context `pd`. Every node
/// of the subtree but the attached entities was spawned at or after `base`.
pub open spec fn realizes(
    s: Seq<SpawnedNode>,
    e: int,
    w: WidgetNode,
    pd: ParentData,
    td: ThemeData,
    root: u64,
    base: int,
) -> bool
    decreases w,
{
    match w {
        WidgetNode::Entity(id) => e == id && 0 <= e < s.len(),
        WidgetNode::Container(c) => shell_realizes(
            s,
            e,
            c,
            NodeKind::Node,
            plain_deco(),
            0,
            false,
            pd,
            td,
            root,
            base,
        ),
        WidgetNode::Row(r) => shell_realizes(
            s,
            e,
            r.container,
            NodeKind::Node,
            plain_deco(),
            0,
            false,
            pd,
            td,
            root,
            base,
        ),
        WidgetNode::Column(c) => shell_realizes(
            s,
            e,
            c.container,
            NodeKind::Node,
            plain_deco(),
            0,
            false,
            pd,
            td,
            root,
            base,
        ),
        WidgetNode::TextLabel(l) => label_realizes(s, e, l, l.text@, plain_deco(), pd, td, root, base),
        WidgetNode::BaseButton(b) => shell_realizes(
            s,
            e,
            b.container,
            NodeKind::Button,
            button_deco(b.auto_style, None),
            0,
            false,
            pd,
            td,
            root,
            base,
        ),
        WidgetNode::TextButton(tb) => {
            &&& shell_realizes(
                s,
                e,
                tb.base_button.container,
                NodeKind::Button,
                button_deco(tb.base_button.auto_style, None),
                1,
                false,
                pd,
                td,
                root,
                base,
            )
            &&& label_realizes(
                s,
                s[e].children@[tb.base_button.container.children@.len() as int] as int,
                tb.label,
                tb.label.text@,
                plain_deco(),
                child_context(tb.base_button.container, pd),
                td,
                root,
                base,
            )
        },
        WidgetNode::TextInput(ti) => label_realizes(
            s,
            e,
            ti.label,
            ti.label.text@,
            Decorations {
                focusable: true,
                auto_styled: false,
                checkbox: None,
                editable: true,
                placeholder: ti.placeholder,
                allows_newlines: ti.allows_newlines,
            },
            pd,
            td,
            root,
            base,
        ),
        WidgetNode::CheckBox(cb) => {
            &&& shell_realizes(
                s,
                e,
                cb.text_button.base_button.container,
                NodeKind::Button,
                button_deco(
                    cb.text_button.base_button.auto_style,
                    Some(cb.initial_checked_state),
                ),
                1,
                false,
                pd,
                td,
                root,
                base,
            )
            &&& label_realizes(
                s,
                s[e].children@[cb.text_button.base_button.container.children@.len() as int] as int,
                cb.text_button.label,
                glyph_spec(cb.initial_checked_state),
                plain_deco(),
                child_context(cb.text_button.base_button.container, pd),
                td,
                root,
                base,
            )
        },
    }
}

/// Entity `e` is the node of `c` in context `pd`, with `deco` attached; its
/// first children realise `c`'s children, and `extra` more follow them. The
/// node was spawned at or after `base`.
pub open spec fn shell_realizes(
    s: Seq<SpawnedNode>,
    e: int,
    c: Container,
    kind: NodeKind,
    deco: Decorations,
    extra: nat,
    auto_sized: bool,
    pd: ParentData,
    td: ThemeData,
    root: u64,
    base: int,
) -> bool
    decreases c,
{
    &&& base <= e < s.len()
    &&& 0 <= e
    &&& shell_matches(s[e], c, kind, pd, td, root)
    &&& s[e].decorations.same_as(deco)
    &&& s[e].auto_sized_text == auto_sized
    &&& s[e].children@.len() == c.children@.len() + extra
    &&& children_realize(s, s[e].children@, c.children@, child_context(c, pd), td, root, base)
}

/// The first entities of `ids` realise the widgets of `ws`, in order.
pub open spec fn children_realize(
    s: Seq<SpawnedNode>,
    ids: Seq<usize>,
    ws: Seq<WidgetNode>,
    pd: ParentData,
    td: ThemeData,
    root: u64,
    base: int,
) -> bool
    decreases ws,
{
    &&& ws.len() <= ids.len()
    &&& forall|i: int| 0 <= i < ws.len() ==> realizes(s, ids[i] as int, ws[i], pd, td, root, base)
}

/// Entity `e` is the container of label `l` showing `text`: its children
/// are those of the container followed by the text leaf.
pub open spec fn label_realizes(
    s: Seq<SpawnedNode>,
    e: int,
    l: TextLabel,
    text: Seq<char>,
    deco: Decorations,
    pd: ParentData,
    td: ThemeData,
    root: u64,
    base: int,
) -> bool
    decreases l,
{
    &&& shell_realizes(
        s,
        e,
        l.container,
        NodeKind::Node,
        deco,
        1,
        l.fixed_text_size is None,
        pd,
        td,
        root,
        base,
    )
    &&& s[e].children@[l.container.children@.len() as int] >= base
    &&& text_leaf_matches(
        s,
        s[e].children@[l.container.children@.len() as int] as int,
        l,
        text,
        pd,
        td,
    )
}

/// Entity `t` is the text leaf of label `l` showing `text` in context `pd`.
pub open spec fn text_leaf_matches(
    s: Seq<SpawnedNode>,
    t: int,
    l: TextLabel,
    text: Seq<char>,
    pd: ParentData,
    td: ThemeData,
) -> bool {
    let theme = effective_theme(l.container.theme, pd);
    &&& 0 <= t < s.len()
    &&& s[t].kind == NodeKind::Text
    &&& s[t].style == NodeStyle::leaf_spec()
    &&& s[t].background == fill_spec(theme, l.container.paint_mode, td)
    &&& s[t].border_colour == Colour::none_spec()
    &&& s[t].owner is None
    &&& !s[t].claims_owner
    &&& s[t].theme is None
    &&& s[t].aspect_ratio is None
    &&& !s[t].auto_sized_text
    &&& s[t].decorations.same_as(plain_deco())
    &&& s[t].children@.len() == 0
    &&& s[t].text matches Some(sec) && {
        &&& sec.value@ == text
        &&& sec.colour == text_colour_spec(theme, l.container.paint_mode, td)
        &&& sec.font == match l.custom_font {
            Some(f) => Some(f),
            None => td.default_font,
        }
        &&& sec.fixed_size == l.fixed_text_size
    }
}


/// Every attached entity in `w` is below `n`.
pub open spec fn entities_within(w: WidgetNode, n: nat) -> bool
    decreases w,
{
    match w {
        WidgetNode::Entity(id) => id < n,
        WidgetNode::Container(c) => all_entities_within(c.children@, n),
        WidgetNode::Row(r) => all_entities_within(r.container.children@, n),
        WidgetNode::Column(c) => all_entities_within(c.container.children@, n),
        WidgetNode::TextLabel(l) => all_entities_within(l.container.children@, n),
        WidgetNode::BaseButton(b) => all_entities_within(b.container.children@, n),
        WidgetNode::TextButton(tb) => all_entities_within(tb.base_button.container.children@, n)
            && all_entities_within(tb.label.container.children@, n),
        WidgetNode::TextInput(ti) => all_entities_within(ti.label.container.children@, n),
        WidgetNode::CheckBox(cb) => all_entities_within(
            cb.text_button.base_button.container.children@,
            n,
        ) && all_entities_within(cb.text_button.label.container.children@, n),
    }
}

pub open spec fn all_entities_within(ws: Seq<WidgetNode>, n: nat) -> bool
    decreases ws,
{
    forall|i: int| 0 <= i < ws.len() ==> entities_within(ws[i], n)
}

proof fn lemma_extends_index(s1: Seq<SpawnedNode>, s2: Seq<SpawnedNode>, e: int)
    requires
        scene_extends(s2, s1),
        0 <= e < s1.len(),
    ensures
        s2[e] == s1[e],
{
    assert(s2.subrange(0, s1.len() as int)[e] == s2[e]);
}

/// What a scene realises stays realised when more nodes are spawned.
pub proof fn lemma_realizes_extends(
    s1: Seq<SpawnedNode>,
    s2: Seq<SpawnedNode>,
    e: int,
    w: WidgetNode,
    pd: ParentData,
    td: ThemeData,
    root: u64,
    base: int,
)
    requires
        scene_extends(s2, s1),
        realizes(s1, e, w, pd, td, root, base),
    ensures
        realizes(s2, e, w, pd, td, root, base),
    decreases w,
{
    match w {
        WidgetNode::Entity(id) => {},
        WidgetNode::Container(c) => {
            lemma_shell_extends(s1, s2, e, c, NodeKind::Node, plain_deco(), 0, false, pd, td, root, base);
        },
        WidgetNode::Row(r) => {
            lemma_shell_extends(
                s1,
                s2,
                e,
                r.container,
                NodeKind::Node,
                plain_deco(),
                0,
                false,
                pd,
                td,
                root,
                base,
            );
        },
        WidgetNode::Column(c) => {
            lemma_shell_extends(
                s1,
                s2,
                e,
                c.container,
                NodeKind::Node,
                plain_deco(),
                0,
                false,
                pd,
                td,
                root,
                base,
            );
        },
        WidgetNode::TextLabel(l) => {
            lemma_label_extends(s1, s2, e, l, l.text@, plain_deco(), pd, td, root, base);
        },
        WidgetNode::BaseButton(b) => {
            lemma_shell_extends(
                s1,
                s2,
                e,
                b.container,
                NodeKind::Button,
                button_deco(b.auto_style, None),
                0,
                false,
                pd,
                td,
                root,
                base,
            );
        },
        WidgetNode::TextButton(tb) => {
            lemma_shell_extends(
                s1,
                s2,
                e,
                tb.base_button.container,
                NodeKind::Button,
                button_deco(tb.base_button.auto_style, None),
                1,
                false,
                pd,
                td,
                root,
                base,
            );
            lemma_extends_index(s1, s2, e);
            lemma_label_extends(
                s1,
                s2,
                s1[e].children@[tb.base_button.container.children@.len() as int] as int,
                tb.label,
                tb.label.text@,
                plain_deco(),
                child_context(tb.base_button.container, pd),
                td,
                root,
                base,
            );
        },
        WidgetNode::TextInput(ti) => {
            lemma_label_extends(
                s1,
                s2,
                e,
                ti.label,
                ti.label.text@,
                Decorations {
                    focusable: true,
                    auto_styled: false,
                    checkbox: None,
                    editable: true,
                    placeholder: ti.placeholder,
                    allows_newlines: ti.allows_newlines,
                },
                pd,
                td,
                root,
                base,
            );
        },
        WidgetNode::CheckBox(cb) => {
            lemma_shell_extends(
                s1,
                s2,
                e,
                cb.text_button.base_button.container,
                NodeKind::Button,
                button_deco(
                    cb.text_button.base_button.auto_style,
                    Some(cb.initial_checked_state),
                ),
                1,
                false,
                pd,
                td,
                root,
                base,
            );
            lemma_extends_index(s1, s2, e);
            lemma_label_extends(
                s1,
                s2,
                s1[e].children@[cb.text_button.base_button.container.children@.len() as int] as int,
                cb.text_button.label,
                glyph_spec(cb.initial_checked_state),
                plain_deco(),
                child_context(cb.text_button.base_button.container, pd),
                td,
                root,
                base,
            );
        },
    }
}

pub proof fn lemma_shell_extends(
    s1: Seq<SpawnedNode>,
    s2: Seq<SpawnedNode>,
    e: int,
    c: Container,
    kind: NodeKind,
    deco: Decorations,
    extra: nat,
    auto_sized: bool,
    pd: ParentData,
    td: ThemeData,
    root: u64,
    base: int,
)
    requires
        scene_extends(s2, s1),
        shell_realizes(s1, e, c, kind, deco, extra, auto_sized, pd, td, root, base),
    ensures
        shell_realizes(s2, e, c, kind, deco, extra, auto_sized, pd, td, root, base),
    decreases c,
{
    lemma_extends_index(s1, s2, e);
    lemma_children_extends(s1, s2, s1[e].children@, c.children@, child_context(c, pd), td, root, base);
}

pub proof fn lemma_children_extends(
    s1: Seq<SpawnedNode>,
    s2: Seq<SpawnedNode>,
    ids: Seq<usize>,
    ws: Seq<WidgetNode>,
    pd: ParentData,
    td: ThemeData,
    root: u64,
    base: int,
)
    requires
        scene_extends(s2, s1),
        children_realize(s1, ids, ws, pd, td, root, base),
    ensures
        children_realize(s2, ids, ws, pd, td, root, base),
    decreases ws,
{
    assert forall|i: int| 0 <= i < ws.len() implies realizes(s2, ids[i] as int, ws[i], pd, td, root, base) by {
        lemma_realizes_extends(s1, s2, ids[i] as int, ws[i], pd, td, root, base);
    }
}

pub proof fn lemma_label_extends(
    s1: Seq<SpawnedNode>,
    s2: Seq<SpawnedNode>,
    e: int,
    l: TextLabel,
    text: Seq<char>,
    deco: Decorations,
    pd: ParentData,
    td: ThemeData,
    root: u64,
    base: int,
)
    requires
        scene_extends(s2, s1),
        label_realizes(s1, e, l, text, deco, pd, td, root, base),
    ensures
        label_realizes(s2, e, l, text, deco, pd, td, root, base),
    decreases l,
{
    lemma_shell_extends(
        s1,
        s2,
        e,
        l.container,
        NodeKind::Node,
        deco,
        1,
        l.fixed_text_size is None,
        pd,
        td,
        root,
        base,
    );
    lemma_extends_index(s1, s2, e);
    let t = s1[e].children@[l.container.children@.len() as int] as int;
    lemma_extends_index(s1, s2, t);
}

/// A check box with no extra children (as `CheckBox::new` makes it, with
/// any styling) builds into a fixed three-level shape: the button entity
/// has one child, a container, whose one child is the text leaf, which
/// shows "X" when the box starts checked and a single space when not.
pub proof fn lemma_checkbox_shape(
    s: Seq<SpawnedNode>,
    e: int,
    cb: CheckBox,
    pd: ParentData,
    td: ThemeData,
    root: u64,
    base: int,
)
    requires
        realizes(s, e, WidgetNode::CheckBox(cb), pd, td, root, base),
        cb.text_button.base_button.container.children@.len() == 0,
        cb.text_button.label.container.children@.len() == 0,
    ensures
        0 <= e < s.len(),
        s[e].kind == NodeKind::Button,
        s[e].decorations.checkbox == Some(cb.initial_checked_state),
        s[e].children@.len() == 1,
        ({
            let c = s[e].children@[0] as int;
            &&& 0 <= c < s.len()
            &&& s[c].kind == NodeKind::Node
            &&& s[c].children@.len() == 1
            &&& {
                let t = s[c].children@[0] as int;
                &&& 0 <= t < s.len()
                &&& s[t].kind == NodeKind::Text
                &&& s[t].children@.len() == 0
                &&& s[t].text matches Some(sec) && sec.value@ == (if cb.initial_checked_state {
                    seq!['X']
                } else {
                    seq![' ']
                })
            }
        }),
{
    let b = cb.text_button.base_button.container;
    let l = cb.text_button.label;
    assert(shell_realizes(
        s,
        e,
        b,
        NodeKind::Button,
        button_deco(cb.text_button.base_button.auto_style, Some(cb.initial_checked_state)),
        1,
        false,
        pd,
        td,
        root,
        base,
    ));
    let c = s[e].children@[0] as int;
    assert(label_realizes(
        s,
        c,
        l,
        glyph_spec(cb.initial_checked_state),
        plain_deco(),
        child_context(b, pd),
        td,
        root,
        base,
    ));
    assert(shell_realizes(
        s,
        c,
        l.container,
        NodeKind::Node,
        plain_deco(),
        1,
        l.fixed_text_size is None,
        child_context(b, pd),
        td,
        root,
        base,
    ));
}

/// A root declared `Auto` and built with the root context is drawn with
/// the base role: its theme marker and its colours are those of
/// `Theme::Base`.
pub proof fn lemma_auto_root_builds_base(
    s: Seq<SpawnedNode>,
    e: int,
    c: Container,
    kind: NodeKind,
    deco: Decorations,
    extra: nat,
    auto_sized: bool,
    td: ThemeData,
    root: u64,
    base: int,
)
    requires
        c.theme == Theme::Auto,
        shell_realizes(s, e, c, kind, deco, extra, auto_sized, ParentData::default_spec(), td, root, base),
    ensures
        s[e].theme == Some(Theme::Base),
        s[e].background == fill_spec(Theme::Base, c.paint_mode, td),
        s[e].border_colour == border_spec(Theme::Base, c.paint_mode, td),
{
}

/// A node built with `PaintMode::Invisible` is fully transparent, fill and
/// border, whatever its theme, its context and the palette.
pub proof fn lemma_invisible_node_is_transparent(
    s: Seq<SpawnedNode>,
    e: int,
    c: Container,
    kind: NodeKind,
    deco: Decorations,
    extra: nat,
    auto_sized: bool,
    pd: ParentData,
    td: ThemeData,
    root: u64,
    base: int,
)
    requires
        c.paint_mode == PaintMode::Invisible,
        shell_realizes(s, e, c, kind, deco, extra, auto_sized, pd, td, root, base),
    ensures
        s[e].background.is_transparent(),
        s[e].border_colour.is_transparent(),
{
}

/// Every named owner claimed anywhere in `w` is in the index `m`.
pub open spec fn claims_registered(w: WidgetNode, m: HierarchyModel) -> bool
    decreases w,
{
    match w {
        WidgetNode::Entity(_) => true,
        WidgetNode::Container(c) => container_claims_registered(c, m),
        WidgetNode::Row(r) => container_claims_registered(r.container, m),
        WidgetNode::Column(c) => container_claims_registered(c.container, m),
        WidgetNode::TextLabel(l) => container_claims_registered(l.container, m),
        WidgetNode::BaseButton(b) => container_claims_registered(b.container, m),
        WidgetNode::TextButton(tb) => container_claims_registered(tb.base_button.container, m)
            && container_claims_registered(tb.label.container, m),
        WidgetNode::TextInput(ti) => container_claims_registered(ti.label.container, m),
        WidgetNode::CheckBox(cb) => container_claims_registered(
            cb.text_button.base_button.container,
            m,
        ) && container_claims_registered(cb.text_button.label.container, m),
    }
}

pub open spec fn container_claims_registered(c: Container, m: HierarchyModel) -> bool
    decreases c,
{
    &&& (c.owner matches Some(o) ==> m.contains(o))
    &&& all_claims_registered(c.children@, m)
}

pub open spec fn all_claims_registered(ws: Seq<WidgetNode>, m: HierarchyModel) -> bool
    decreases ws,
{
    forall|i: int| 0 <= i < ws.len() ==> claims_registered(ws[i], m)
}

pub proof fn lemma_contains_extends(m1: HierarchyModel, m2: HierarchyModel, o: u64)
    requires
        m2.extends(m1),
        m1.contains(o),
    ensures
        m2.contains(o),
{
    let i = choose|i: int| 0 <= i < m1.owners.len() && m1.owners[i] == o;
    assert(m2.owners.subrange(0, m1.owners.len() as int)[i] == m2.owners[i]);
    assert(m2.owners[i] == o);
}

/// Registered owners stay registered as the index grows.
pub proof fn lemma_claims_extends(m1: HierarchyModel, m2: HierarchyModel, w: WidgetNode)
    requires
        m2.extends(m1),
        claims_registered(w, m1),
    ensures
        claims_registered(w, m2),
    decreases w,
{
    match w {
        WidgetNode::Entity(_) => {},
        WidgetNode::Container(c) => lemma_container_claims_extends(m1, m2, c),
        WidgetNode::Row(r) => lemma_container_claims_extends(m1, m2, r.container),
        WidgetNode::Column(c) => lemma_container_claims_extends(m1, m2, c.container),
        WidgetNode::TextLabel(l) => lemma_container_claims_extends(m1, m2, l.container),
        WidgetNode::BaseButton(b) => lemma_container_claims_extends(m1, m2, b.container),
        WidgetNode::TextButton(tb) => {
            lemma_container_claims_extends(m1, m2, tb.base_button.container);
            lemma_container_claims_extends(m1, m2, tb.label.container);
        },
        WidgetNode::TextInput(ti) => lemma_container_claims_extends(m1, m2, ti.label.container),
        WidgetNode::CheckBox(cb) => {
            lemma_container_claims_extends(m1, m2, cb.text_button.base_button.container);
            lemma_container_claims_extends(m1, m2, cb.text_button.label.container);
        },
    }
}

pub proof fn lemma_container_claims_extends(m1: HierarchyModel, m2: HierarchyModel, c: Container)
    requires
        m2.extends(m1),
        container_claims_registered(c, m1),
    ensures
        container_claims_registered(c, m2),
    decreases c,
{
    if let Some(o) = c.owner {
        lemma_contains_extends(m1, m2, o);
    }
    lemma_all_claims_extends(m1, m2, c.children@);
}

pub proof fn lemma_all_claims_extends(m1: HierarchyModel, m2: HierarchyModel, ws: Seq<WidgetNode>)
    requires
        m2.extends(m1),
        all_claims_registered(ws, m1),
    ensures
        all_claims_registered(ws, m2),
    decreases ws,
{
    assert forall|i: int| 0 <= i < ws.len() implies claims_registered(ws[i], m2) by {
        lemma_claims_extends(m1, m2, ws[i]);
    }
}

/// The index after `c` claims its named owner, if it has one, in context
/// `pd`: the owner is registered below the nearest named owner above, or
/// below the root owner when there is none.
pub open spec fn claim_index(c: Container, pd: ParentData, m: HierarchyModel) -> HierarchyModel {
    match c.owner {
        Some(o) => m.register(o, owner_marker(pd, m.root)),
        None => m,
    }
}

/// The index after building `w` in context `pd`: every claim of the tree
/// registered in build order, parents before children, children in order.
pub open spec fn index_after(w: WidgetNode, pd: ParentData, m: HierarchyModel) -> HierarchyModel
    decreases w,
{
    match w {
        WidgetNode::Entity(_) => m,
        WidgetNode::Container(c) => container_index_after(c, pd, m),
        WidgetNode::Row(r) => container_index_after(r.container, pd, m),
        WidgetNode::Column(c) => container_index_after(c.container, pd, m),
        WidgetNode::TextLabel(l) => container_index_after(l.container, pd, m),
        WidgetNode::BaseButton(b) => container_index_after(b.container, pd, m),
        WidgetNode::TextButton(tb) => container_index_after(
            tb.label.container,
            child_context(tb.base_button.container, pd),
            container_index_after(tb.base_button.container, pd, m),
        ),
        WidgetNode::TextInput(ti) => container_index_after(ti.label.container, pd, m),
        WidgetNode::CheckBox(cb) => container_index_after(
            cb.text_button.label.container,
            child_context(cb.text_button.base_button.container, pd),
            container_index_after(cb.text_button.base_button.container, pd, m),
        ),
    }
}

/// The index after `c` claims its owner and its children are built.
pub open spec fn container_index_after(c: Container, pd: ParentData, m: HierarchyModel) -> HierarchyModel
    decreases c,
{
    all_index_after(c.children@, child_context(c, pd), claim_index(c, pd, m))
}

/// The index after building each of `ws`, in order, in context `pd`.
pub open spec fn all_index_after(ws: Seq<WidgetNode>, pd: ParentData, m: HierarchyModel) -> HierarchyModel
    decreases ws,
{
    if ws.len() == 0 {
        m
    } else {
        index_after(
            ws[ws.len() - 1],
            pd,
            all_index_after(ws.subrange(0, ws.len() - 1), pd, m),
        )
    }
}

/// The root owner always holds the first slot.
pub proof fn lemma_root_is_registered(m: HierarchyModel)
    requires
        m.wf(),
    ensures
        m.contains(m.root),
        m.slot_of(m.root) == 0,
{
    assert(m.owners[0] == m.root);
    let i = m.slot_of(m.root);
    assert(0 <= i < m.owners.len() && m.owners[i] == m.owners[0]);
}

/// How a node's claim changes the index. A node that claims nothing leaves
/// it as it is, and so does a claim of an owner already in it. A new owner
/// is appended as a child of the one node of the nearest named owner above
/// (of the root owner when there is none), provided that node is in the
/// index: every earlier node keeps its owner and parent, and no new
/// top-level node appears. A node without children changes the index by
/// its claim alone.
pub proof fn lemma_claim_attaches_below_parent(c: Container, pd: ParentData, m: HierarchyModel)
    requires
        m.wf(),
        m.contains(owner_marker(pd, m.root)),
    ensures
        c.owner is None ==> claim_index(c, pd, m) == m,
        c.owner matches Some(o) ==> (m.contains(o) ==> claim_index(c, pd, m) == m),
        c.owner matches Some(o) ==> (!m.contains(o) && m.has_room() ==> {
            let m1 = claim_index(c, pd, m);
            &&& m1.owners == m.owners.push(o)
            &&& m1.parents == m.parents.push(Some(m.slot_of(owner_marker(pd, m.root)) as nat))
            &&& m1.extends(m)
            &&& m1.wf()
        }),
        pd.parent_owner is None ==> m.slot_of(owner_marker(pd, m.root)) == 0,
        c.children@.len() == 0 ==> container_index_after(c, pd, m) == claim_index(c, pd, m),
{
    lemma_root_is_registered(m);
    if let Some(o) = c.owner {
        crate::hierarchy::lemma_register_wf(m, o, owner_marker(pd, m.root));
    }
}

} // verus!
