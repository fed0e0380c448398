//! The build pass: realises widget descriptions into a scene.
use vstd::prelude::*;
use crate::colour::Colour;
use crate::hierarchy::{lemma_extends_trans, lemma_register_wf, UIHierarchy};
use crate::scene::{
    lemma_scene_extends_trans, scene_extends, Decorations, NodeKind, Scene, SpawnedNode,
    TextSection,
};
use crate::style::NodeStyle;
use crate::theme::{paint_colours, text_colour, Theme, ThemeData};
use super::parent_data::effective_theme;
use super::realize::{
    all_entities_within, button_deco, child_context, children_realize, claimed, entities_within,
    glyph_spec, label_realizes, lemma_children_extends, lemma_label_extends,
    lemma_realizes_extends, plain_deco, realizes, shell_matches, shell_realizes,
    text_leaf_matches, all_claims_registered, all_index_after, claim_index,
    container_index_after, index_after, claims_registered, container_claims_registered,
    lemma_all_claims_extends, lemma_claims_extends,
    lemma_contains_extends,
};
use super::{CheckBox, Container, ParentData, TextButton, TextLabel, WidgetNode};

verus! {

/// The text a check box shows: "X" when checked, a space when not.
pub fn checkbox_glyph(checked: bool) -> (r: String)
    ensures
        r@ == glyph_spec(checked),
{
    if checked {
        let r = String::from_str("X");
        proof {
            reveal_strlit("X");
        }
        assert(r@ =~= seq!['X']);
        r
    } else {
        let r = String::from_str(" ");
        proof {
            reveal_strlit(" ");
        }
        assert(r@ =~= seq![' ']);
        r
    }
}

/// Claims the node's named owner, if it has one: registers it below the
/// nearest named owner (or the root) and returns the context below it.
fn claim(c: &Container, h: &mut UIHierarchy, pd: ParentData) -> (r: ParentData)
    requires
        old(h).wf(),
        pd.wf(),
    ensures
        final(h).wf(),
        final(h)@.extends(old(h)@),
        r == claimed(*c, pd),
        r.wf(),
        final(h)@ == claim_index(*c, pd, old(h)@),
        final(h)@.has_room() ==> (c.owner matches Some(o) ==> final(h)@.contains(o)),
{
    match c.owner {
        Some(o) => {
            let parent = match pd.parent_owner {
                Some(p) => p,
                None => h.root_owner(),
            };
            let ghost before = h@;
            proof {
                h.lemma_model_wf();
            }
            let _ = h.register(o, parent);
            proof {
                lemma_register_wf(before, o, parent);
            }
            pd.with_owner(o)
        },
        None => {
            assert(h@.owners.subrange(0, h@.owners.len() as int) =~= h@.owners);
            assert(h@.parents.subrange(0, h@.parents.len() as int) =~= h@.parents);
            pd
        },
    }
}

fn resolve(own: Theme, pd: ParentData) -> (r: Theme)
    requires
        pd.wf(),
    ensures
        r == effective_theme(own, pd),
        r.is_concrete(),
{
    if own == Theme::Auto {
        pd.resolve_theme()
    } else {
        own
    }
}

/// Spawns the node of `c` in context `pd` (`cpd` once its owner is
/// claimed) with the given children and decorations.
fn spawn_shell(
    c: &Container,
    kind: NodeKind,
    deco: Decorations,
    auto_sized: bool,
    children: Vec<usize>,
    pd: ParentData,
    cpd: ParentData,
    root: u64,
    td: &ThemeData,
    scene: &mut Scene,
) -> (e: usize)
    requires
        old(scene).wf(),
        pd.wf(),
        cpd == claimed(*c, pd),
        forall|j: int| 0 <= j < children@.len() ==> children@[j] < old(scene).nodes@.len(),
    ensures
        final(scene).wf(),
        scene_extends(final(scene).nodes@, old(scene).nodes@),
        e == old(scene).nodes@.len(),
        final(scene).nodes@.len() == e + 1,
        shell_matches(final(scene).nodes@[e as int], *c, kind, pd, *td, root),
        final(scene).nodes@[e as int].decorations == deco,
        final(scene).nodes@[e as int].auto_sized_text == auto_sized,
        final(scene).nodes@[e as int].children == children,
{
    let theme = resolve(c.theme, pd);
    let (background, border_colour) = paint_colours(theme, c.paint_mode, td);
    let padding = match c.custom_padding {
        Some(p) => p,
        None => match td.default_padding {
            Some(p) => p,
            None => c.style.padding,
        },
    };
    let margin = match c.custom_margin {
        Some(m) => m,
        None => match td.default_margin {
            Some(m) => m,
            None => c.style.margin,
        },
    };
    let owner = match cpd.parent_owner {
        Some(o) => o,
        None => root,
    };
    let node = SpawnedNode {
        kind,
        style: NodeStyle { padding, margin, ..c.style },
        background,
        border_colour,
        text: None,
        owner: Some(owner),
        claims_owner: c.owner.is_some(),
        theme: Some(theme),
        aspect_ratio: c.aspect_ratio,
        auto_sized_text: auto_sized,
        decorations: deco,
        children,
    };
    scene.spawn(node)
}

/// Spawns the text leaf of label `l`, showing `text`.
fn spawn_text(l: &TextLabel, text: String, pd: ParentData, td: &ThemeData, scene: &mut Scene) -> (t:
    usize)
    requires
        old(scene).wf(),
        pd.wf(),
    ensures
        final(scene).wf(),
        scene_extends(final(scene).nodes@, old(scene).nodes@),
        t == old(scene).nodes@.len(),
        final(scene).nodes@.len() == t + 1,
        text_leaf_matches(final(scene).nodes@, t as int, *l, text@, pd, *td),
{
    let theme = resolve(l.container.theme, pd);
    let (background, _) = paint_colours(theme, l.container.paint_mode, td);
    let colour = text_colour(theme, l.container.paint_mode, td);
    let font = match l.custom_font {
        Some(f) => Some(f),
        None => td.default_font,
    };
    let section = TextSection { value: text, colour, font, fixed_size: l.fixed_text_size };
    let node = SpawnedNode {
        kind: NodeKind::Text,
        style: NodeStyle::leaf(),
        background,
        border_colour: Colour::none(),
        text: Some(section),
        owner: None,
        claims_owner: false,
        theme: None,
        aspect_ratio: None,
        auto_sized_text: false,
        decorations: Decorations::plain(),
        children: Vec::new(),
    };
    scene.spawn(node)
}

proof fn lemma_children_ids_push(
    s: Seq<crate::scene::SpawnedNode>,
    ids: Seq<usize>,
    x: usize,
    ws: Seq<WidgetNode>,
    pd: ParentData,
    td: ThemeData,
    root: u64,
    base: int,
)
    requires
        children_realize(s, ids, ws, pd, td, root, base),
    ensures
        children_realize(s, ids.push(x), ws, pd, td, root, base),
{
    assert forall|i: int| 0 <= i < ws.len() implies realizes(
        s,
        ids.push(x)[i] as int,
        ws[i],
        pd,
        td,
        root,
        base,
    ) by {
        assert(ids.push(x)[i] == ids[i]);
    }
}

/// Builds each of `children` in context `pd`, in order, and returns their
/// entities.
fn build_children(
    children: &Vec<WidgetNode>,
    h: &mut UIHierarchy,
    td: &ThemeData,
    pd: ParentData,
    scene: &mut Scene,
    Ghost(n): Ghost<nat>,
) -> (ids: Vec<usize>)
    requires
        old(h).wf(),
        old(scene).wf(),
        pd.wf(),
        n <= old(scene).nodes@.len(),
        all_entities_within(children@, n),
    ensures
        final(h).wf(),
        final(h)@.extends(old(h)@),
        final(scene).wf(),
        scene_extends(final(scene).nodes@, old(scene).nodes@),
        ids@.len() == children@.len(),
        children_realize(final(scene).nodes@, ids@, children@, pd, *td, old(h)@.root, n as int),
        forall|j: int| 0 <= j < ids@.len() ==> ids@[j] < final(scene).nodes@.len(),
        final(h)@.has_room() ==> all_claims_registered(children@, final(h)@),
        final(h)@ == all_index_after(children@, pd, old(h)@),
    decreases children@,
{
    let ghost root = h@.root;
    let ghost h0 = h@;
    let ghost s0 = scene.nodes@;
    let mut ids: Vec<usize> = Vec::new();
    let mut i: usize = 0;
    proof {
        assert(h@.owners.subrange(0, h@.owners.len() as int) =~= h@.owners);
        assert(h@.parents.subrange(0, h@.parents.len() as int) =~= h@.parents);
        assert(scene.nodes@.subrange(0, scene.nodes@.len() as int) =~= scene.nodes@);
    }
    while i < children.len()
        invariant
            h.wf(),
            h@.extends(h0),
            h0.root == root,
            scene.wf(),
            scene_extends(scene.nodes@, s0),
            n <= s0.len(),
            pd.wf(),
            all_entities_within(children@, n),
            i <= children@.len(),
            ids@.len() == i,
            forall|j: int|
                0 <= j < i ==> realizes(scene.nodes@, ids@[j] as int, children@[j], pd, *td, root, n as int),
            h@.has_room() ==> forall|j: int| 0 <= j < i ==> claims_registered(children@[j], h@),
            h@ == all_index_after(children@.subrange(0, i as int), pd, h0),
        decreases children@.len() - i,
    {
        let ghost h1 = h@;
        let ghost s1 = scene.nodes@;
        assert(entities_within(children@[i as int], n));
        let e = children[i].build_within(h, td, pd, scene, Ghost(n));
        proof {
            let ws = children@.subrange(0, i + 1);
            assert(ws.subrange(0, i as int) =~= children@.subrange(0, i as int));
            assert(ws[i as int] == children@[i as int]);
            lemma_extends_trans(h0, h1, h@);
            lemma_scene_extends_trans(s0, s1, scene.nodes@);
            assert forall|j: int| 0 <= j < i implies realizes(
                scene.nodes@,
                ids@[j] as int,
                children@[j],
                pd,
                *td,
                root,
                n as int,
            ) by {
                lemma_realizes_extends(s1, scene.nodes@, ids@[j] as int, children@[j], pd, *td, root, n as int);
            }
            if h@.has_room() {
                assert(h1.has_room());
                assert forall|j: int| 0 <= j < i + 1 implies claims_registered(children@[j], h@) by {
                    if j < i {
                        lemma_claims_extends(h1, h@, children@[j]);
                    }
                }
            }
        }
        ids.push(e);
        i = i + 1;
    }
    proof {
        assert(children@.subrange(0, children@.len() as int) =~= children@);
        if h@.has_room() {
            assert forall|j: int| 0 <= j < children@.len() implies claims_registered(
                children@[j],
                h@,
            ) by {
                assert(0 <= j < i);
            }
        }
        assert forall|j: int| 0 <= j < ids@.len() implies ids@[j] < scene.nodes@.len() by {
            assert(realizes(scene.nodes@, ids@[j] as int, children@[j], pd, *td, root, n as int));
            match children@[j] {
                WidgetNode::Entity(_) => {},
                WidgetNode::TextLabel(l) => {},
                WidgetNode::TextInput(ti) => {},
                _ => {},
            }
        }
    }
    ids
}

/// Builds a plain region, row, column or base button: `c` with `deco`.
fn build_shell(
    c: &Container,
    kind: NodeKind,
    deco: Decorations,
    h: &mut UIHierarchy,
    td: &ThemeData,
    pd: ParentData,
    scene: &mut Scene,
    Ghost(n): Ghost<nat>,
) -> (e: usize)
    requires
        old(h).wf(),
        old(scene).wf(),
        pd.wf(),
        n <= old(scene).nodes@.len(),
        all_entities_within(c.children@, n),
    ensures
        final(h).wf(),
        final(h)@.extends(old(h)@),
        final(scene).wf(),
        scene_extends(final(scene).nodes@, old(scene).nodes@),
        shell_realizes(final(scene).nodes@, e as int, *c, kind, deco, 0, false, pd, *td, old(h)@.root, n as int),
        final(h)@.has_room() ==> container_claims_registered(*c, final(h)@),
        e >= old(scene).nodes@.len(),
        final(h)@ == container_index_after(*c, pd, old(h)@),
    decreases c,
{
    let ghost h0 = h@;
    let ghost s0 = scene.nodes@;
    let root = h.root_owner();
    let cpd = claim(c, h, pd);
    let ghost h1 = h@;
    let child_pd = cpd.from_current(c.theme);
    let ids = build_children(&c.children, h, td, child_pd, scene, Ghost(n));
    let ghost idv = ids@;
    let ghost s1 = scene.nodes@;
    let ghost dv = deco;
    let e = spawn_shell(c, kind, deco, false, ids, pd, cpd, root, td, scene);
    proof {
        lemma_extends_trans(h0, h1, h@);
        if h@.has_room() {
            if let Some(o) = c.owner {
                lemma_contains_extends(h1, h@, o);
            }
        }
        lemma_scene_extends_trans(s0, s1, scene.nodes@);
        lemma_children_extends(s1, scene.nodes@, idv, c.children@, child_pd, *td, root, n as int);
        assert(scene.nodes@[e as int].decorations.same_as(dv));
    }
    e
}

/// Builds label `l` showing `text`, with `deco` on its container.
fn build_label(
    l: &TextLabel,
    text: String,
    deco: Decorations,
    h: &mut UIHierarchy,
    td: &ThemeData,
    pd: ParentData,
    scene: &mut Scene,
    Ghost(n): Ghost<nat>,
) -> (e: usize)
    requires
        old(h).wf(),
        old(scene).wf(),
        pd.wf(),
        n <= old(scene).nodes@.len(),
        all_entities_within(l.container.children@, n),
    ensures
        final(h).wf(),
        final(h)@.extends(old(h)@),
        final(scene).wf(),
        scene_extends(final(scene).nodes@, old(scene).nodes@),
        label_realizes(final(scene).nodes@, e as int, *l, text@, deco, pd, *td, old(h)@.root, n as int),
        final(h)@.has_room() ==> container_claims_registered(l.container, final(h)@),
        e >= old(scene).nodes@.len(),
        final(h)@ == container_index_after(l.container, pd, old(h)@),
    decreases l,
{
    let ghost h0 = h@;
    let ghost s0 = scene.nodes@;
    let root = h.root_owner();
    let cpd = claim(&l.container, h, pd);
    let ghost h1 = h@;
    let child_pd = cpd.from_current(l.container.theme);
    let mut ids = build_children(&l.container.children, h, td, child_pd, scene, Ghost(n));
    let ghost s1 = scene.nodes@;
    let ghost tv = text@;
    let t = spawn_text(l, text, pd, td, scene);
    let ghost s2 = scene.nodes@;
    let ghost idv = ids@;
    ids.push(t);
    let ghost idv2 = ids@;
    let ghost dv = deco;
    let e = spawn_shell(
        &l.container,
        NodeKind::Node,
        deco,
        l.fixed_text_size.is_none(),
        ids,
        pd,
        cpd,
        root,
        td,
        scene,
    );
    proof {
        lemma_extends_trans(h0, h1, h@);
        if h@.has_room() {
            if let Some(o) = l.container.owner {
                lemma_contains_extends(h1, h@, o);
            }
        }
        lemma_scene_extends_trans(s0, s1, s2);
        lemma_scene_extends_trans(s0, s2, scene.nodes@);
        lemma_scene_extends_trans(s1, s2, scene.nodes@);
        lemma_children_extends(s1, scene.nodes@, idv, l.container.children@, child_pd, *td, root, n as int);
        lemma_children_ids_push(scene.nodes@, idv, t, l.container.children@, child_pd, *td, root, n as int);
        assert(idv2 == idv.push(t));
        assert(scene.nodes@[e as int].decorations.same_as(dv));
        assert(scene.nodes@[e as int].children@[l.container.children@.len() as int] == t);
        assert(scene.nodes@[t as int] == s2[t as int]);
    }
    e
}

/// Builds text button `tb` with `text` on its label and, for a check box,
/// its initial state on the button.
fn build_text_button(
    tb: &TextButton,
    text: String,
    checkbox: Option<bool>,
    h: &mut UIHierarchy,
    td: &ThemeData,
    pd: ParentData,
    scene: &mut Scene,
    Ghost(n): Ghost<nat>,
) -> (e: usize)
    requires
        old(h).wf(),
        old(scene).wf(),
        pd.wf(),
        n <= old(scene).nodes@.len(),
        all_entities_within(tb.base_button.container.children@, n),
        all_entities_within(tb.label.container.children@, n),
    ensures
        final(h).wf(),
        final(h)@.extends(old(h)@),
        final(scene).wf(),
        scene_extends(final(scene).nodes@, old(scene).nodes@),
        shell_realizes(
            final(scene).nodes@,
            e as int,
            tb.base_button.container,
            NodeKind::Button,
            button_deco(tb.base_button.auto_style, checkbox),
            1,
            false,
            pd,
            *td,
            old(h)@.root,
            n as int,
        ),
        label_realizes(
            final(scene).nodes@,
            final(scene).nodes@[e as int].children@[tb.base_button.container.children@.len() as int] as int,
            tb.label,
            text@,
            plain_deco(),
            child_context(tb.base_button.container, pd),
            *td,
            old(h)@.root,
            n as int,
        ),
        final(h)@.has_room() ==> container_claims_registered(tb.base_button.container, final(h)@)
            && container_claims_registered(tb.label.container, final(h)@),
        e >= old(scene).nodes@.len(),
        final(h)@ == container_index_after(
            tb.label.container,
            child_context(tb.base_button.container, pd),
            container_index_after(tb.base_button.container, pd, old(h)@),
        ),
    decreases tb,
{
    let ghost h0 = h@;
    let ghost s0 = scene.nodes@;
    let root = h.root_owner();
    let b = &tb.base_button;
    let cpd = claim(&b.container, h, pd);
    let ghost h1 = h@;
    let child_pd = cpd.from_current(b.container.theme);
    let mut ids = build_children(&b.container.children, h, td, child_pd, scene, Ghost(n));
    let ghost h2 = h@;
    let ghost s1 = scene.nodes@;
    let label = build_label(&tb.label, text, Decorations::plain(), h, td, child_pd, scene, Ghost(n));
    let ghost s2 = scene.nodes@;
    let ghost idv = ids@;
    ids.push(label);
    let ghost idv2 = ids@;
    let deco = Decorations {
        focusable: true,
        auto_styled: b.auto_style,
        checkbox,
        editable: false,
        placeholder: None,
        allows_newlines: false,
    };
    let e = spawn_shell(&b.container, NodeKind::Button, deco, false, ids, pd, cpd, root, td, scene);
    proof {
        lemma_extends_trans(h0, h1, h2);
        lemma_extends_trans(h0, h2, h@);
        lemma_extends_trans(h1, h2, h@);
        if h@.has_room() {
            assert(h2.has_room());
            if let Some(o) = b.container.owner {
                lemma_contains_extends(h1, h@, o);
            }
            lemma_all_claims_extends(h2, h@, b.container.children@);
        }
        lemma_scene_extends_trans(s0, s1, s2);
        lemma_scene_extends_trans(s0, s2, scene.nodes@);
        lemma_scene_extends_trans(s1, s2, scene.nodes@);
        lemma_children_extends(s1, scene.nodes@, idv, b.container.children@, child_pd, *td, root, n as int);
        lemma_children_ids_push(scene.nodes@, idv, label, b.container.children@, child_pd, *td, root, n as int);
        assert(idv2 == idv.push(label));
        assert(scene.nodes@[e as int].children@[b.container.children@.len() as int] == label);
        lemma_label_extends(
            s2,
            scene.nodes@,
            label as int,
            tb.label,
            text@,
            plain_deco(),
            child_pd,
            *td,
            root,
            n as int,
        );
    }
    e
}

fn all_entities_below(ws: &Vec<WidgetNode>, n: usize) -> (r: bool)
    ensures
        r == all_entities_within(ws@, n as nat),
    decreases ws@,
{
    let mut i: usize = 0;
    while i < ws.len()
        invariant
            i <= ws@.len(),
            forall|j: int| 0 <= j < i ==> entities_within(#[trigger] ws@[j], n as nat),
        decreases ws@.len() - i,
    {
        if !ws[i].entities_below(n) {
            return false;
        }
        i = i + 1;
    }
    true
}

impl WidgetNode {
    /// Whether every attached entity in this widget is below `n`, so that
    /// it can be built into a scene of `n` nodes.
    pub fn entities_below(&self, n: usize) -> (r: bool)
        ensures
            r == entities_within(*self, n as nat),
        decreases self,
    {
        match self {
            WidgetNode::Entity(id) => *id < n,
            WidgetNode::Container(c) => all_entities_below(&c.children, n),
            WidgetNode::Row(r) => all_entities_below(&r.container.children, n),
            WidgetNode::Column(c) => all_entities_below(&c.container.children, n),
            WidgetNode::TextLabel(l) => all_entities_below(&l.container.children, n),
            WidgetNode::BaseButton(b) => all_entities_below(&b.container.children, n),
            WidgetNode::TextButton(tb) => all_entities_below(&tb.base_button.container.children, n)
                && all_entities_below(&tb.label.container.children, n),
            WidgetNode::TextInput(ti) => all_entities_below(&ti.label.container.children, n),
            WidgetNode::CheckBox(cb) => all_entities_below(
                &cb.text_button.base_button.container.children,
                n,
            ) && all_entities_below(&cb.text_button.label.container.children, n),
        }
    }

    /// Builds this widget into `scene` in context `parent_data`, claiming
    /// named owners in `hierarchy`, and returns the entity at the root of
    /// what was built. The nodes already in the scene are left as they are,
    /// and the subtree below the returned entity realises this widget; all
    /// its nodes but attached entities are new, so building twice gives two
    /// separate subtrees. The index becomes `index_after`: each claim
    /// registered, in build order, below the nearest claimed owner above it
    /// or below the root owner; a widget that claims nothing leaves it as
    /// it was.
    pub fn build(
        &self,
        hierarchy: &mut UIHierarchy,
        theme_data: &ThemeData,
        parent_data: ParentData,
        scene: &mut Scene,
    ) -> (e: usize)
        requires
            old(hierarchy).wf(),
            old(scene).wf(),
            parent_data.wf(),
            entities_within(*self, old(scene).nodes@.len()),
        ensures
            final(hierarchy).wf(),
            final(hierarchy)@.extends(old(hierarchy)@),
            final(scene).wf(),
            scene_extends(final(scene).nodes@, old(scene).nodes@),
            e < final(scene).nodes@.len(),
            realizes(
                final(scene).nodes@,
                e as int,
                *self,
                parent_data,
                *theme_data,
                old(hierarchy)@.root,
                old(scene).nodes@.len() as int,
            ),
            final(hierarchy)@.has_room() ==> claims_registered(*self, final(hierarchy)@),
            final(hierarchy)@ == index_after(*self, parent_data, old(hierarchy)@),
            !(*self is Entity) ==> e >= old(scene).nodes@.len(),
    {
        let ghost n = scene.nodes@.len();
        let e = self.build_within(hierarchy, theme_data, parent_data, scene, Ghost(n));
        proof {
            match self {
                WidgetNode::TextLabel(l) => {},
                WidgetNode::TextInput(ti) => {},
                _ => {},
            }
        }
        e
    }

    fn build_within(
        &self,
        h: &mut UIHierarchy,
        td: &ThemeData,
        pd: ParentData,
        scene: &mut Scene,
        Ghost(n): Ghost<nat>,
    ) -> (e: usize)
        requires
            old(h).wf(),
            old(scene).wf(),
            pd.wf(),
            n <= old(scene).nodes@.len(),
            entities_within(*self, n),
        ensures
            final(h).wf(),
            final(h)@.extends(old(h)@),
            final(scene).wf(),
            scene_extends(final(scene).nodes@, old(scene).nodes@),
            realizes(final(scene).nodes@, e as int, *self, pd, *td, old(h)@.root, n as int),
            final(h)@.has_room() ==> claims_registered(*self, final(h)@),
            final(h)@ == index_after(*self, pd, old(h)@),
            !(*self is Entity) ==> e >= old(scene).nodes@.len(),
        decreases self,
    {
        match self {
            WidgetNode::Entity(id) => {
                proof {
                    assert(h@.owners.subrange(0, h@.owners.len() as int) =~= h@.owners);
                    assert(h@.parents.subrange(0, h@.parents.len() as int) =~= h@.parents);
                    assert(scene.nodes@.subrange(0, scene.nodes@.len() as int) =~= scene.nodes@);
                }
                *id
            },
            WidgetNode::Container(c) => build_shell(
                c,
                NodeKind::Node,
                Decorations::plain(),
                h,
                td,
                pd,
                scene,
                Ghost(n),
            ),
            WidgetNode::Row(r) => build_shell(
                &r.container,
                NodeKind::Node,
                Decorations::plain(),
                h,
                td,
                pd,
                scene,
                Ghost(n),
            ),
            WidgetNode::Column(c) => build_shell(
                &c.container,
                NodeKind::Node,
                Decorations::plain(),
                h,
                td,
                pd,
                scene,
                Ghost(n),
            ),
            WidgetNode::TextLabel(l) => build_label(
                l,
                l.text.clone(),
                Decorations::plain(),
                h,
                td,
                pd,
                scene,
                Ghost(n),
            ),
            WidgetNode::BaseButton(b) => {
                let deco = Decorations {
                    focusable: true,
                    auto_styled: b.auto_style,
                    checkbox: None,
                    editable: false,
                    placeholder: None,
                    allows_newlines: false,
                };
                build_shell(&b.container, NodeKind::Button, deco, h, td, pd, scene, Ghost(n))
            },
            WidgetNode::TextButton(tb) => build_text_button(
                tb,
                tb.label.text.clone(),
                None,
                h,
                td,
                pd,
                scene,
                Ghost(n),
            ),
            WidgetNode::TextInput(ti) => {
                let placeholder = match &ti.placeholder {
                    Some(p) => Some(p.clone()),
                    None => None,
                };
                let deco = Decorations {
                    focusable: true,
                    auto_styled: false,
                    checkbox: None,
                    editable: true,
                    placeholder,
                    allows_newlines: ti.allows_newlines,
                };
                build_label(&ti.label, ti.label.text.clone(), deco, h, td, pd, scene, Ghost(n))
            },
            WidgetNode::CheckBox(cb) => build_text_button(
                &cb.text_button,
                checkbox_glyph(cb.initial_checked_state),
                Some(cb.initial_checked_state),
                h,
                td,
                pd,
                scene,
                Ghost(n),
            ),
        }
    }
}

} // verus!
