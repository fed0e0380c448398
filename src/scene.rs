//! The scene: the record of the nodes a build asks the host to spawn, in the
//! order they were spawned, each with its attributes and its children.
use vstd::prelude::*;
use crate::colour::Colour;
use crate::layout::AspectRatio;
use crate::style::NodeStyle;
use crate::theme::{FontId, Theme};

verus! {

/// What the host spawns for a node.
#[derive(Clone, Copy, Debug, PartialEq, Eq, Structural)]
pub enum NodeKind {
    /// A plain rectangular region.
    Node,
    /// A region that takes part in interaction and focus.
    Button,
    /// A text leaf.
    Text,
}

/// The text of a text leaf and how it is drawn.
pub struct TextSection {
    pub value: String,
    pub colour: Colour,
    pub font: Option<FontId>,
    /// The size fixed by the caller; `None` leaves it to the resize pass.
    pub fixed_size: Option<u32>,
}

/// Interactive state a widget attaches to its node.
pub struct Decorations {
    pub focusable: bool,
    /// The host recolours the node on focus and press.
    pub auto_styled: bool,
    /// The initial state of a check box.
    pub checkbox: Option<bool>,
    /// The node holds an editable text buffer, empty at first, with its
    /// cursor at the start.
    pub editable: bool,
    pub placeholder: Option<String>,
    pub allows_newlines: bool,
}

pub open spec fn opt_view(s: Option<String>) -> Option<Seq<char>> {
    match s {
        Some(t) => Some(t@),
        None => None,
    }
}

impl Decorations {
    pub open spec fn plain_spec(d: Decorations) -> bool {
        &&& !d.focusable
        &&& !d.auto_styled
        &&& d.checkbox is None
        &&& !d.editable
        &&& d.placeholder is None
        &&& !d.allows_newlines
    }

    /// Whether two decorations say the same, texts compared by content.
    pub open spec fn same_as(self, other: Decorations) -> bool {
        &&& self.focusable == other.focusable
        &&& self.auto_styled == other.auto_styled
        &&& self.checkbox == other.checkbox
        &&& self.editable == other.editable
        &&& opt_view(self.placeholder) == opt_view(other.placeholder)
        &&& self.allows_newlines == other.allows_newlines
    }

    /// No interactive state.
    pub fn plain() -> (r: Decorations)
        ensures
            Decorations::plain_spec(r),
    {
        Decorations {
            focusable: false,
            auto_styled: false,
            checkbox: None,
            editable: false,
            placeholder: None,
            allows_newlines: false,
        }
    }

    pub fn copy(&self) -> (r: Decorations)
        ensures
            r.same_as(*self),
    {
        let placeholder = match &self.placeholder {
            Some(p) => Some(p.clone()),
            None => None,
        };
        Decorations {
            focusable: self.focusable,
            auto_styled: self.auto_styled,
            checkbox: self.checkbox,
            editable: self.editable,
            placeholder,
            allows_newlines: self.allows_newlines,
        }
    }
}

/// One spawned node.
pub struct SpawnedNode {
    pub kind: NodeKind,
    pub style: NodeStyle,
    pub background: Colour,
    pub border_colour: Colour,
    /// The text of a text leaf.
    pub text: Option<TextSection>,
    /// The named owner the node belongs to; text leaves have none.
    pub owner: Option<u64>,
    /// Whether the node itself claimed `owner` as a named section.
    pub claims_owner: bool,
    /// The theme the node was drawn with.
    pub theme: Option<Theme>,
    pub aspect_ratio: Option<AspectRatio>,
    /// The resize pass sets the size of this node's text from its height.
    pub auto_sized_text: bool,
    pub decorations: Decorations,
    /// Children, in order.
    pub children: Vec<usize>,
}

/// The spawned nodes, in spawn order; an entity is an index into it.
pub struct Scene {
    pub nodes: Vec<SpawnedNode>,
}

/// Every child of a node was spawned before it.
pub open spec fn scene_wf(nodes: Seq<SpawnedNode>) -> bool {
    forall|i: int, j: int|
        0 <= i < nodes.len() && 0 <= j < nodes[i].children@.len() ==> #[trigger] nodes[i].children@[j]
            < i
}

/// `later` is `earlier` with nodes spawned after it.
pub open spec fn scene_extends(later: Seq<SpawnedNode>, earlier: Seq<SpawnedNode>) -> bool {
    &&& earlier.len() <= later.len()
    &&& later.subrange(0, earlier.len() as int) == earlier
}

/// Spawning in two steps spawns in one.
pub proof fn lemma_scene_extends_trans(a: Seq<SpawnedNode>, b: Seq<SpawnedNode>, c: Seq<SpawnedNode>)
    requires
        scene_extends(b, a),
        scene_extends(c, b),
    ensures
        scene_extends(c, a),
{
    assert(c.subrange(0, a.len() as int) =~= c.subrange(0, b.len() as int).subrange(
        0,
        a.len() as int,
    ));
}

impl Scene {
    pub open spec fn wf(&self) -> bool {
        scene_wf(self.nodes@)
    }

    /// A scene with no nodes.
    pub fn new() -> (r: Scene)
        ensures
            r.nodes@.len() == 0,
            r.wf(),
    {
        Scene { nodes: Vec::new() }
    }

    pub fn len(&self) -> (r: usize)
        ensures
            r == self.nodes@.len(),
    {
        self.nodes.len()
    }

    /// The node of entity `e`.
    pub fn node(&self, e: usize) -> (r: &SpawnedNode)
        requires
            e < self.nodes@.len(),
        ensures
            *r == self.nodes@[e as int],
    {
        &self.nodes[e]
    }

    /// The children of entity `e`, or `None` if there is no such entity.
    pub fn children_of(&self, e: usize) -> (r: Option<&Vec<usize>>)
        ensures
            r is Some <==> e < self.nodes@.len(),
            r matches Some(c) ==> *c == self.nodes@[e as int].children,
    {
        if e < self.nodes.len() {
            Some(&self.nodes[e].children)
        } else {
            None
        }
    }

    /// Spawns `node`, whose children must all exist already, and returns
    /// its entity.
    pub fn spawn(&mut self, node: SpawnedNode) -> (e: usize)
        requires
            old(self).wf(),
            forall|j: int| 0 <= j < node.children@.len() ==> node.children@[j] < old(self).nodes@.len(),
        ensures
            final(self).wf(),
            final(self).nodes@ == old(self).nodes@.push(node),
            scene_extends(final(self).nodes@, old(self).nodes@),
            e == old(self).nodes@.len(),
    {
        let e = self.nodes.len();
        self.nodes.push(node);
        proof {
            assert forall|i: int, j: int|
                0 <= i < self.nodes@.len() && 0 <= j < self.nodes@[i].children@.len() implies #[trigger] self.nodes@[i].children@[j]
                < i by {
                if i < e {
                    assert(self.nodes@[i] == old(self).nodes@[i]);
                }
            }
        }
        assert(self.nodes@.subrange(0, e as int) =~= old(self).nodes@);
        e
    }
}

} // verus!
