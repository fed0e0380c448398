//! The ownership index: a tree of named owners, kept in an `indextree`
//! arena, that mirrors how the named sections of a UI nest.
use vstd::prelude::*;
use indextree::{Arena, NodeId};

verus! {

/// `indextree`'s arena, opaque here: its contents are known through the
/// names below.
#[verifier::external_type_specification]
#[verifier::external_body]
#[verifier::reject_recursive_types(T)]
pub struct ExArena<T>(indextree::Arena<T>);

/// `indextree`'s node id, opaque here.
#[verifier::external_type_specification]
#[verifier::external_body]
pub struct ExNodeId(indextree::NodeId);

/// The owner held in each slot of the arena, by zero-based slot.
pub uninterp spec fn arena_owners(a: indextree::Arena<u64>) -> Seq<u64>;

/// The zero-based slot of each slot's parent, by zero-based slot.
pub uninterp spec fn arena_parents(a: indextree::Arena<u64>) -> Seq<Option<nat>>;

/// Whether no slot of the arena has ever been removed.
pub uninterp spec fn arena_all_live(a: indextree::Arena<u64>) -> bool;

/// The id that addresses a zero-based slot of the arena.
pub uninterp spec fn arena_slot_id(a: indextree::Arena<u64>, slot: nat) -> indextree::NodeId;

/// Relies on `indextree::Arena::new`: an arena with no slots.
#[verifier::external_body]
fn new_arena() -> (a: Arena<u64>)
    ensures
        arena_owners(a) == Seq::<u64>::empty(),
        arena_parents(a) == Seq::<Option<nat>>::empty(),
        arena_all_live(a),
{
    Arena::new()
}

/// Relies on `indextree::Arena::new_node`: when no removed slot can be
/// reused, the node takes a new slot at the end, with no parent, and the ids
/// of the other slots stay valid. It panics only when the slot count would
/// not fit in a `usize`.
#[verifier::external_body]
fn new_root_node(a: &mut Arena<u64>, owner: u64) -> (id: NodeId)
    requires
        arena_all_live(*old(a)),
        arena_owners(*old(a)).len() < usize::MAX,
    ensures
        arena_all_live(*final(a)),
        arena_owners(*final(a)) == arena_owners(*old(a)).push(owner),
        arena_parents(*final(a)) == arena_parents(*old(a)).push(None),
        id == arena_slot_id(*final(a), arena_owners(*old(a)).len()),
        forall|k: nat|
            k < arena_owners(*old(a)).len() ==> #[trigger] arena_slot_id(*final(a), k)
                == arena_slot_id(*old(a), k),
{
    a.new_node(owner)
}

/// Relies on `indextree::NodeId::append_value`: a new node in a new slot at
/// the end, appended as the last child of `parent`; the ids of the other
/// slots stay valid. It panics only when `parent` is not live or the slot
/// count would not fit in a `usize`.
#[verifier::external_body]
fn new_child_node(a: &mut Arena<u64>, parent: NodeId, owner: u64) -> (id: NodeId)
    requires
        arena_all_live(*old(a)),
        arena_owners(*old(a)).len() < usize::MAX,
        exists|p: nat| p < arena_owners(*old(a)).len() && parent == arena_slot_id(*old(a), p),
    ensures
        arena_all_live(*final(a)),
        arena_owners(*final(a)) == arena_owners(*old(a)).push(owner),
        forall|p: nat|
            p < arena_owners(*old(a)).len() && parent == arena_slot_id(*old(a), p)
                ==> arena_parents(*final(a)) == arena_parents(*old(a)).push(Some(p)),
        id == arena_slot_id(*final(a), arena_owners(*old(a)).len()),
        forall|k: nat|
            k < arena_owners(*old(a)).len() ==> #[trigger] arena_slot_id(*final(a), k)
                == arena_slot_id(*old(a), k),
{
    parent.append_value(owner, a)
}

/// Relies on `indextree::Arena::get_data`: the owner held in a live slot.
#[verifier::external_body]
fn owner_in_node(a: &Arena<u64>, id: NodeId) -> (r: Option<u64>)
    ensures
        forall|p: nat|
            arena_all_live(*a) && p < arena_owners(*a).len() && id == arena_slot_id(*a, p)
                ==> r == Some(arena_owners(*a)[p as int]),
{
    a.get_data(id).copied()
}

/// Relies on `indextree::NodeId::parent`, with the parent's one-based slot
/// taken by `usize::from`. It panics only for an id outside the arena.
#[verifier::external_body]
fn parent_slot(a: &Arena<u64>, id: NodeId) -> (r: Option<usize>)
    requires
        exists|p: nat| p < arena_owners(*a).len() && id == arena_slot_id(*a, p),
    ensures
        forall|p: nat|
            arena_all_live(*a) && p < arena_owners(*a).len() && id == arena_slot_id(*a, p)
                ==> match arena_parents(*a)[p as int] {
                Some(q) => r == Some((q + 1) as usize),
                None => r.is_none(),
            },
{
    id.parent(a).map(usize::from)
}

/// The marker of the named owner an entity belongs to.
#[derive(Clone, Copy, Debug, PartialEq, Eq, Structural)]
pub struct UIOwner(pub u64);

/// The shape of the ownership index: the owner in each slot and the slot of
/// its parent, and the root owner the index was made with.
pub struct HierarchyModel {
    pub owners: Seq<u64>,
    pub parents: Seq<Option<nat>>,
    pub root: u64,
}

impl HierarchyModel {
    /// One slot per owner, the root owner first and parentless, every parent
    /// in an earlier slot.
    pub open spec fn wf(self) -> bool {
        &&& self.owners.len() >= 1
        &&& self.parents.len() == self.owners.len()
        &&& self.owners[0] == self.root
        &&& self.parents[0] is None
        &&& self.owners.no_duplicates()
        &&& forall|i: int|
            0 <= i < self.parents.len() && (#[trigger] self.parents[i]) is Some ==> self.parents[i]->0
                < i
    }

    pub open spec fn contains(self, owner: u64) -> bool {
        self.owners.contains(owner)
    }

    /// The slot that holds `owner`.
    pub open spec fn slot_of(self, owner: u64) -> int {
        choose|i: int| 0 <= i < self.owners.len() && self.owners[i] == owner
    }

    /// Whether two more owners fit in the index.
    pub open spec fn has_room(self) -> bool {
        self.owners.len() + 2 < usize::MAX
    }

    /// The model after `owner` is registered below `parent`; a full index
    /// is left as it is.
    pub open spec fn register(self, owner: u64, parent: u64) -> HierarchyModel {
        if self.contains(owner) || !self.has_room() {
            self
        } else if self.contains(parent) {
            HierarchyModel {
                owners: self.owners.push(owner),
                parents: self.parents.push(Some(self.slot_of(parent) as nat)),
                root: self.root,
            }
        } else if parent == owner {
            HierarchyModel {
                owners: self.owners.push(owner),
                parents: self.parents.push(None),
                root: self.root,
            }
        } else {
            HierarchyModel {
                owners: self.owners.push(parent).push(owner),
                parents: self.parents.push(None).push(Some(self.owners.len())),
                root: self.root,
            }
        }
    }

    /// `self` is `earlier` with slots added after it.
    pub open spec fn extends(self, earlier: HierarchyModel) -> bool {
        &&& self.root == earlier.root
        &&& earlier.owners.len() <= self.owners.len()
        &&& earlier.parents.len() <= self.parents.len()
        &&& self.owners.subrange(0, earlier.owners.len() as int) == earlier.owners
        &&& self.parents.subrange(0, earlier.parents.len() as int) == earlier.parents
    }
}

/// The tree of named owners. Each owner has one node; owners are only ever
/// added, never moved or removed.
pub struct UIHierarchy {
    arena: Arena<u64>,
    ids: Vec<NodeId>,
    root: u64,
}

impl View for UIHierarchy {
    type V = HierarchyModel;

    closed spec fn view(&self) -> HierarchyModel {
        HierarchyModel {
            owners: arena_owners(self.arena),
            parents: arena_parents(self.arena),
            root: self.root,
        }
    }
}

impl UIHierarchy {
    /// The model is well formed and every slot's id is kept in `ids`.
    pub closed spec fn wf(&self) -> bool {
        &&& self@.wf()
        &&& arena_all_live(self.arena)
        &&& self.ids@.len() == arena_owners(self.arena).len()
        &&& forall|k: nat|
            k < self.ids@.len() ==> self.ids@[k as int] == #[trigger] arena_slot_id(self.arena, k)
    }

    /// A well-formed index has a well-formed model.
    pub proof fn lemma_model_wf(&self)
        requires
            self.wf(),
        ensures
            self@.wf(),
    {
    }

    /// An index that holds the root owner alone.
    pub fn new(root: u64) -> (r: UIHierarchy)
        ensures
            r.wf(),
            r@.owners == seq![root],
            r@.parents == seq![Option::<nat>::None],
            r@.root == root,
    {
        let mut arena = new_arena();
        let id = new_root_node(&mut arena, root);
        let mut ids: Vec<NodeId> = Vec::new();
        ids.push(id);
        let r = UIHierarchy { arena, ids, root };
        assert(r@.owners =~= seq![root]);
        assert(r@.parents =~= seq![Option::<nat>::None]);
        r
    }

    /// The owner of the whole tree.
    pub fn root_owner(&self) -> (r: u64)
        ensures
            r == self@.root,
    {
        self.root
    }

    /// The number of owners in the index.
    pub fn len(&self) -> (r: usize)
        requires
            self.wf(),
        ensures
            r == self@.owners.len(),
    {
        self.ids.len()
    }

    /// The slot that holds `owner`, if any.
    pub fn find(&self, owner: u64) -> (r: Option<usize>)
        requires
            self.wf(),
        ensures
            r is Some <==> self@.contains(owner),
            r matches Some(i) ==> i < self@.owners.len() && self@.owners[i as int] == owner
                && i == self@.slot_of(owner),
    {
        let n = self.ids.len();
        let mut i: usize = 0;
        while i < n
            invariant
                self.wf(),
                n == self.ids@.len(),
                i <= n,
                forall|j: int| 0 <= j < i ==> self@.owners[j] != owner,
            decreases n - i,
        {
            let found = owner_in_node(&self.arena, self.ids[i]);
            assert(self.ids@[i as int] == arena_slot_id(self.arena, i as nat));
            if found == Some(owner) {
                proof {
                    self.lemma_slot_of(i as int);
                }
                return Some(i);
            }
            i = i + 1;
        }
        proof {
            if self@.contains(owner) {
                let j = choose|j: int| 0 <= j < self@.owners.len() && self@.owners[j] == owner;
                assert(self@.owners[j] == owner);
            }
        }
        None
    }

    proof fn lemma_slot_of(&self, i: int)
        requires
            self.wf(),
            0 <= i < self@.owners.len(),
        ensures
            self@.slot_of(self@.owners[i]) == i,
    {
        let o = self@.owners[i];
        assert(self@.owners[i] == o);
        let j = self@.slot_of(o);
        assert(0 <= j < self@.owners.len() && self@.owners[j] == o);
    }

    /// Registers `owner` below `parent`: an owner that is already in the
    /// index stays where it is; otherwise `parent` is added at the top
    /// level if it is missing, and `owner` is appended as its child.
    /// Returns the slot of `owner`, or `None` when it is missing and the
    /// index has no room for it.
    pub fn register(&mut self, owner: u64, parent: u64) -> (r: Option<usize>)
        requires
            old(self).wf(),
        ensures
            final(self).wf(),
            final(self)@ == old(self)@.register(owner, parent),
            final(self)@.extends(old(self)@),
            r is Some <==> final(self)@.contains(owner),
            r matches Some(i) ==> i < final(self)@.owners.len() && final(self)@.owners[i as int]
                == owner && i == final(self)@.slot_of(owner),
    {
        proof {
            lemma_register_wf(self@, owner, parent);
        }
        match self.find(owner) {
            Some(i) => {
                return Some(i);
            },
            None => {},
        }
        let n = self.ids.len();
        if n >= usize::MAX - 2 {
            return None;
        }
        let parent_id = match self.find(parent) {
            Some(p) => {
                assert(self.ids@[p as int] == arena_slot_id(self.arena, p as nat));
                self.ids[p]
            },
            None => {
                let id = new_root_node(&mut self.arena, parent);
                self.ids.push(id);
                assert(self@.owners =~= old(self)@.owners.push(parent));
                if parent == owner {
                    assert(self@ == old(self)@.register(owner, parent));
                    proof {
                        self.lemma_slot_of(n as int);
                    }
                    return Some(n);
                }
                id
            },
        };
        let ghost before = self@;
        let ghost pslot: nat = if old(self)@.contains(parent) {
            old(self)@.slot_of(parent) as nat
        } else {
            n as nat
        };
        assert(parent_id == arena_slot_id(self.arena, pslot));
        let m = self.ids.len();
        let id = new_child_node(&mut self.arena, parent_id, owner);
        self.ids.push(id);
        assert(self@.owners =~= before.owners.push(owner));
        assert(self@.parents =~= before.parents.push(Some(pslot)));
        assert(self@ == old(self)@.register(owner, parent));
        proof {
            self.lemma_slot_of(m as int);
        }
        Some(m)
    }

    /// The owner that `owner` was registered below, if it is in the index
    /// and is not at the top level.
    pub fn parent_of(&self, owner: u64) -> (r: Option<u64>)
        requires
            self.wf(),
        ensures
            r == (if self@.contains(owner) {
                match self@.parents[self@.slot_of(owner)] {
                    Some(q) => Some(self@.owners[q as int]),
                    None => None,
                }
            } else {
                None
            }),
    {
        match self.find(owner) {
            None => None,
            Some(i) => {
                assert(self.ids@[i as int] == arena_slot_id(self.arena, i as nat));
                match parent_slot(&self.arena, self.ids[i]) {
                    None => None,
                    Some(q1) => {
                        let q = q1 - 1;
                        assert(self.ids@[q as int] == arena_slot_id(self.arena, q as nat));
                        owner_in_node(&self.arena, self.ids[q])
                    },
                }
            },
        }
    }
}

/// Adding slots in two steps adds them in one.
pub proof fn lemma_extends_trans(a: HierarchyModel, b: HierarchyModel, c: HierarchyModel)
    requires
        b.extends(a),
        c.extends(b),
    ensures
        c.extends(a),
{
    assert(c.owners.subrange(0, a.owners.len() as int) =~= c.owners.subrange(
        0,
        b.owners.len() as int,
    ).subrange(0, a.owners.len() as int));
    assert(c.parents.subrange(0, a.parents.len() as int) =~= c.parents.subrange(
        0,
        b.parents.len() as int,
    ).subrange(0, a.parents.len() as int));
}

/// Registering keeps the model well formed and only adds slots.
pub proof fn lemma_register_wf(m: HierarchyModel, owner: u64, parent: u64)
    requires
        m.wf(),
    ensures
        m.register(owner, parent).wf(),
        m.register(owner, parent).extends(m),
        m.has_room() || m.contains(owner) ==> m.register(owner, parent).contains(owner),
{
    let r = m.register(owner, parent);
    if m.contains(owner) || !m.has_room() {
        assert(r.owners.subrange(0, m.owners.len() as int) =~= m.owners);
        assert(r.parents.subrange(0, m.parents.len() as int) =~= m.parents);
    } else if m.contains(parent) {
        let s = m.slot_of(parent);
        assert(0 <= s < m.owners.len() && m.owners[s] == parent);
        assert(r.owners.subrange(0, m.owners.len() as int) =~= m.owners);
        assert(r.parents.subrange(0, m.parents.len() as int) =~= m.parents);
        assert(r.owners[m.owners.len() as int] == owner);
    } else if parent == owner {
        assert(r.owners.subrange(0, m.owners.len() as int) =~= m.owners);
        assert(r.parents.subrange(0, m.parents.len() as int) =~= m.parents);
        assert(r.owners[m.owners.len() as int] == owner);
    } else {
        let mid = m.owners.push(parent);
        assert(mid.no_duplicates());
        assert(r.owners.subrange(0, m.owners.len() as int) =~= m.owners);
        assert(r.parents.subrange(0, m.parents.len() as int) =~= m.parents);
        assert(r.owners[m.owners.len() as int + 1] == owner);
    }
}

/// Once an owner is in the index, registering it again, below any parent,
/// changes nothing and gives back its one slot; every owner registered
/// later below it is attached to that same slot, and the slot itself never
/// moves.
pub proof fn lemma_registration_is_stable(
    m: HierarchyModel,
    owner: u64,
    parent: u64,
    other_parent: u64,
    child: u64,
)
    requires
        m.wf(),
        m.owners.len() + 4 < usize::MAX,
    ensures
        ({
            let m1 = m.register(owner, parent);
            &&& m1.wf()
            &&& m1.contains(owner)
            &&& m1.register(owner, other_parent) == m1
            &&& m.contains(owner) ==> m1 == m
            &&& (!m1.contains(child) ==> {
                let m2 = m1.register(child, owner);
                &&& m2.wf()
                &&& m2.owners.len() == m1.owners.len() + 1
                &&& m2.parents.last() == Some(m1.slot_of(owner) as nat)
                &&& m2.slot_of(owner) == m1.slot_of(owner)
            })
        }),
{
    lemma_register_wf(m, owner, parent);
    let m1 = m.register(owner, parent);
    if !m1.contains(child) {
        lemma_register_wf(m1, child, owner);
        let m2 = m1.register(child, owner);
        let s = m1.slot_of(owner);
        assert(0 <= s < m1.owners.len() && m1.owners[s] == owner);
        assert(m2.owners[s] == owner);
        let s2 = m2.slot_of(owner);
        assert(0 <= s2 < m2.owners.len() && m2.owners[s2] == owner);
    }
}

} // verus!
