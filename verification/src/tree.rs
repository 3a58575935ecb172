//! The tile tree: a persisted hierarchical container of panes (leaves holding
//! tab content) and tab-group containers (ordered sequences of child tiles),
//! addressed by stable tile identifiers.
//!
//! Identifiers are allocation indices: every insertion appends a node and
//! nothing is ever removed short of replacing the whole tree, so an identifier
//! is unique within a tree instance and never reused. A container is always
//! created after its children, so every child identifier is strictly below its
//! parent's: the structure is acyclic by construction.

use vstd::prelude::*;

use crate::tabs::Tab;

verus! {

/// A stable, opaque identifier of one node in the tree.
#[derive(Clone, Copy, Debug, PartialEq, Eq, Structural)]
pub struct TileId {
    pub value: usize,
}

/// One node: a leaf pane holding tab content, or a tab-group container
/// holding a nonempty ordered sequence of children, of which one is the
/// active (selected) tab.
#[derive(Clone, Debug, PartialEq, Eq)]
pub enum Tile {
    Pane(Tab),
    Container { children: Vec<TileId>, active: usize },
}

/// The children of a node; empty for a pane.
pub open spec fn tile_children(t: Tile) -> Seq<TileId> {
    match t {
        Tile::Container { children, .. } => children@,
        Tile::Pane(_) => Seq::empty(),
    }
}

/// The index of a container's active child; zero for a pane.
pub open spec fn tile_active(t: Tile) -> int {
    match t {
        Tile::Container { active, .. } => active as int,
        Tile::Pane(_) => 0,
    }
}

/// Node `i` is structurally sound: a container has at least one child, its
/// active index selects one of them, and every child identifier is strictly
/// below `i` (children are created before their parent).
pub open spec fn node_ok(s: Seq<Tile>, i: int) -> bool {
    s[i] is Container ==> {
        &&& tile_children(s[i]).len() > 0
        &&& tile_active(s[i]) < tile_children(s[i]).len()
        &&& forall|k: int|
            0 <= k < tile_children(s[i]).len() ==> (#[trigger] tile_children(s[i])[k]).value < i
    }
}

/// Every node is structurally sound.
pub open spec fn nodes_ok(s: Seq<Tile>) -> bool {
    forall|i: int| 0 <= i < s.len() ==> #[trigger] node_ok(s, i)
}

/// Identifier `id` is listed as the `k`-th child of container `i`.
pub open spec fn child_slot(s: Seq<Tile>, i: int, k: int, id: TileId) -> bool {
    &&& 0 <= i < s.len()
    &&& 0 <= k < tile_children(s[i]).len()
    &&& tile_children(s[i])[k] == id
}

/// Identifier `id` is a child of some container in `s`.
pub open spec fn is_child(s: Seq<Tile>, id: TileId) -> bool {
    exists|i: int, k: int| child_slot(s, i, k, id)
}

/// No identifier occupies two child slots: every non-root tile has at most
/// one parent container, and appears in it once.
pub open spec fn parents_unique(s: Seq<Tile>) -> bool {
    forall|i: int, k: int, j: int, l: int, id: TileId|
        #[trigger] child_slot(s, i, k, id) && #[trigger] child_slot(s, j, l, id) ==> i == j && k
            == l
}

/// A tree of tiles: the nodes in allocation order, and the designated root.
#[derive(Clone, Debug, PartialEq, Eq)]
pub struct Tree {
    pub nodes: Vec<Tile>,
    pub root_id: Option<TileId>,
}

impl Tree {
    /// The identifier addresses a node of this tree.
    pub open spec fn valid_id(self, id: TileId) -> bool {
        id.value < self.nodes@.len()
    }

    /// Structural well-formedness: every node is sound and the designated
    /// root, if any, addresses a node.
    pub open spec fn well_formed(self) -> bool {
        &&& nodes_ok(self.nodes@)
        &&& match self.root_id {
            Option::Some(r) => r.value < self.nodes@.len(),
            Option::None => true,
        }
    }

    /// The rooted-tree shape on top of structural soundness: no tile has two
    /// parents and the root is nobody's child, so every tile is reachable
    /// through at most one path.
    pub open spec fn single_parent(self) -> bool {
        &&& parents_unique(self.nodes@)
        &&& match self.root_id {
            Option::Some(r) => !is_child(self.nodes@, r),
            Option::None => true,
        }
    }

    /// The empty tree: no nodes, no root.
    pub fn new() -> (t: Tree)
        ensures
            t.nodes@ == Seq::<Tile>::empty(),
            t.root_id is None,
            t.well_formed(),
            t.single_parent(),
    {
        let t = Tree { nodes: Vec::new(), root_id: None };
        proof {
            assert(t.nodes@ =~= Seq::<Tile>::empty());
        }
        t
    }

    /// Allocate a new pane node wrapping `tab`; returns its fresh identifier.
    /// Never fails: allocation is unbounded within memory limits.
    pub fn insert_pane(&mut self, tab: Tab) -> (id: TileId)
        requires
            old(self).well_formed(),
        ensures
            id.value == old(self).nodes@.len(),
            final(self).nodes@ == old(self).nodes@.push(Tile::Pane(tab)),
            final(self).root_id == old(self).root_id,
            final(self).well_formed(),
            old(self).single_parent() ==> final(self).single_parent(),
    {
        let id = TileId { value: self.nodes.len() };
        self.nodes.push(Tile::Pane(tab));
        proof {
            lemma_push_preserves(old(self).nodes@, Tile::Pane(tab));
        }
        id
    }

    /// Create a tab-group container over the given children, which must all
    /// be present in the tree already, be distinct, and not be claimed by any
    /// other container or be the root: a precondition, not a runtime check —
    /// violating it is a programmer error.
    pub fn insert_tab_container(&mut self, children: Vec<TileId>) -> (id: TileId)
        requires
            old(self).well_formed(),
            children@.len() > 0,
            forall|k: int|
                0 <= k < children@.len() ==> (#[trigger] children@[k]).value < old(
                    self,
                ).nodes@.len(),
            forall|k: int|
                0 <= k < children@.len() ==> !is_child(old(self).nodes@, #[trigger] children@[k]),
            forall|k: int, l: int|
                0 <= k < children@.len() && 0 <= l < children@.len() && children@[k] == children@[l]
                    ==> k == l,
            forall|k: int|
                0 <= k < children@.len() ==> old(self).root_id != Some(#[trigger] children@[k]),
        ensures
            id.value == old(self).nodes@.len(),
            final(self).nodes@ == old(self).nodes@.push(
                (Tile::Container { children, active: 0 }),
            ),
            final(self).root_id == old(self).root_id,
            final(self).well_formed(),
            old(self).single_parent() ==> final(self).single_parent(),
    {
        let ghost old_tree = *self;
        let id = TileId { value: self.nodes.len() };
        let ghost tile = (Tile::Container { children: children, active: 0 });
        self.nodes.push(Tile::Container { children, active: 0 });
        proof {
            lemma_container_push(old_tree, *self, tile);
        }
        id
    }

    /// Designate `id`, which must be present and unclaimed, as the root.
    pub fn set_root(&mut self, id: TileId)
        requires
            old(self).well_formed(),
            id.value < old(self).nodes@.len(),
            !is_child(old(self).nodes@, id),
        ensures
            final(self).nodes@ == old(self).nodes@,
            final(self).root_id == Some(id),
            final(self).well_formed(),
            parents_unique(old(self).nodes@) ==> final(self).single_parent(),
    {
        self.root_id = Some(id);
    }

    /// The designated root, or none while the tree is empty.
    pub fn root(&self) -> (r: Option<TileId>)
        ensures
            r == self.root_id,
    {
        self.root_id
    }

    /// Decide structural well-formedness. Trees read back from persisted
    /// state pass through this check before anything else relies on them.
    pub fn check_structure(&self) -> (b: bool)
        ensures
            b == self.well_formed(),
    {
        match self.root_id {
            Some(r) => {
                if r.value >= self.nodes.len() {
                    return false;
                }
            },
            None => {},
        }
        let n = self.nodes.len();
        let mut i: usize = 0;
        while i < n
            invariant
                n == self.nodes@.len(),
                i <= n,
                forall|p: int| 0 <= p < i ==> #[trigger] node_ok(self.nodes@, p),
                match self.root_id {
                    Option::Some(r) => r.value < self.nodes@.len(),
                    Option::None => true,
                },
            decreases n - i,
        {
            match &self.nodes[i] {
                Tile::Pane(_) => {
                    proof {
                        assert(node_ok(self.nodes@, i as int));
                    }
                },
                Tile::Container { children, active } => {
                    if children.len() == 0 {
                        proof {
                            assert(!node_ok(self.nodes@, i as int));
                        }
                        return false;
                    }
                    if *active >= children.len() {
                        proof {
                            assert(!node_ok(self.nodes@, i as int));
                        }
                        return false;
                    }
                    let m = children.len();
                    let mut k: usize = 0;
                    while k < m
                        invariant
                            m == children@.len(),
                            k <= m,
                            i < self.nodes@.len(),
                            children@ == tile_children(self.nodes@[i as int]),
                            forall|q: int| 0 <= q < k ==> (#[trigger] children@[q]).value < i,
                        decreases m - k,
                    {
                        if children[k].value >= i {
                            proof {
                                assert(tile_children(self.nodes@[i as int])[k as int].value
                                    >= i);
                                assert(!node_ok(self.nodes@, i as int));
                            }
                            return false;
                        }
                        k = k + 1;
                    }
                    proof {
                        assert(node_ok(self.nodes@, i as int));
                    }
                },
            }
            i = i + 1;
        }
        true
    }

    /// The identifiers on the active path: from the root, through each
    /// container's selected child, down to the visible pane.
    pub open spec fn active_path(self) -> Seq<TileId> {
        match self.root_id {
            Option::Some(r) => active_path_from(self.nodes@, r),
            Option::None => Seq::empty(),
        }
    }

    /// All tiles currently visible along the active path from the root, in
    /// root-to-leaf order.
    pub fn active_tiles(&self) -> (r: Vec<TileId>)
        requires
            self.well_formed(),
        ensures
            r@ == self.active_path(),
    {
        let mut r: Vec<TileId> = Vec::new();
        let mut cur: TileId = match self.root_id {
            Some(root) => root,
            None => {
                proof {
                    assert(r@ =~= self.active_path());
                }
                return r;
            },
        };
        loop
            invariant
                self.well_formed(),
                cur.value < self.nodes@.len(),
                r@ + active_path_from(self.nodes@, cur) == self.active_path(),
            decreases cur.value,
        {
            r.push(cur);
            let idx: usize = cur.value;
            match &self.nodes[idx] {
                Tile::Pane(_) => {
                    proof {
                        assert(active_path_from(self.nodes@, cur) =~= seq![cur]);
                        assert(r@ =~= self.active_path());
                    }
                    return r;
                },
                Tile::Container { children, active } => {
                    proof {
                        assert(node_ok(self.nodes@, cur.value as int));
                        assert(tile_children(self.nodes@[cur.value as int])[*active as int]
                            == children@[*active as int]);
                    }
                    let next = children[*active];
                    proof {
                        assert(active_path_from(self.nodes@, cur) == seq![cur]
                            + active_path_from(self.nodes@, next));
                        assert(r@ + active_path_from(self.nodes@, next) =~= self.active_path());
                    }
                    cur = next;
                },
            }
        }
    }
}

/// The active path starting at `id`: `id` itself, then, below a container,
/// the path from its selected child. Meaningful for structurally sound nodes,
/// where a child's identifier is strictly below its parent's.
pub open spec fn active_path_from(s: Seq<Tile>, id: TileId) -> Seq<TileId>
    decreases id.value,
    when nodes_ok(s) && id.value < s.len()
    via active_path_from_decreases
{
    if s[id.value as int] is Pane {
        seq![id]
    } else {
        seq![id] + active_path_from(
            s,
            tile_children(s[id.value as int])[tile_active(s[id.value as int])],
        )
    }
}

#[via_fn]
proof fn active_path_from_decreases(s: Seq<Tile>, id: TileId) {
    assert(node_ok(s, id.value as int));
}

/// One step along the active path: `a` is a container of `s` and `b` is its
/// selected child.
pub open spec fn path_step(s: Seq<Tile>, a: TileId, b: TileId) -> bool {
    &&& a.value < s.len()
    &&& s[a.value as int] is Container
    &&& b == tile_children(s[a.value as int])[tile_active(s[a.value as int])]
}

/// Law: in a well-formed tree with a root, the active path is nonempty,
/// starts at the root, descends one selected child per step, every identifier
/// on it addresses a node, and it ends at the visible pane.
pub proof fn lemma_active_path_shape(t: Tree, r: TileId)
    requires
        t.well_formed(),
        t.root_id == Some(r),
    ensures
        t.active_path().len() > 0,
        t.active_path()[0] == r,
        forall|p: int|
            0 <= p < t.active_path().len() ==> (#[trigger] t.active_path()[p]).value
                < t.nodes@.len(),
        t.nodes@[t.active_path().last().value as int] is Pane,
        forall|p: int|
            0 <= p < t.active_path().len() - 1 ==> path_step(
                t.nodes@,
                #[trigger] t.active_path()[p],
                t.active_path()[p + 1],
            ),
{
    lemma_active_path_from_shape(t.nodes@, r);
}

proof fn lemma_active_path_from_shape(s: Seq<Tile>, id: TileId)
    requires
        nodes_ok(s),
        id.value < s.len(),
    ensures
        active_path_from(s, id).len() > 0,
        active_path_from(s, id)[0] == id,
        forall|p: int|
            0 <= p < active_path_from(s, id).len() ==> (#[trigger] active_path_from(s, id)[p]).value
                < s.len(),
        s[active_path_from(s, id).last().value as int] is Pane,
        forall|p: int|
            0 <= p < active_path_from(s, id).len() - 1 ==> path_step(
                s,
                #[trigger] active_path_from(s, id)[p],
                active_path_from(s, id)[p + 1],
            ),
    decreases id.value,
{
    assert(node_ok(s, id.value as int));
    let path = active_path_from(s, id);
    if s[id.value as int] is Pane {
        assert(path =~= seq![id]);
    } else {
        let next = tile_children(s[id.value as int])[tile_active(s[id.value as int])];
        lemma_active_path_from_shape(s, next);
        let sub = active_path_from(s, next);
        assert(path =~= seq![id] + sub);
        assert(path_step(s, id, next));
        assert forall|p: int| 0 <= p < path.len() - 1 implies path_step(
            s,
            #[trigger] path[p],
            path[p + 1],
        ) by {
            if p == 0 {
                assert(path[0] == id);
                assert(path[1] == sub[0]);
            } else {
                assert(path[p] == sub[p - 1]);
                assert(path[p + 1] == sub[p]);
                assert(path_step(s, sub[p - 1], sub[p]));
            }
        }
        assert(path.last() == sub.last());
    }
}

/// Appending a pane node keeps every node sound and claims no child slot.
proof fn lemma_push_preserves(s: Seq<Tile>, t: Tile)
    requires
        nodes_ok(s),
        t is Pane,
    ensures
        nodes_ok(s.push(t)),
        parents_unique(s) ==> parents_unique(s.push(t)),
        forall|id: TileId| is_child(s.push(t), id) ==> is_child(s, id),
{
    let s2 = s.push(t);
    assert forall|i: int| 0 <= i < s2.len() implies #[trigger] node_ok(s2, i) by {
        if i < s.len() {
            assert(node_ok(s, i));
            assert(s2[i] == s[i]);
        } else {
            assert(s2[i] == t);
        }
    }
    assert forall|id: TileId| is_child(s2, id) implies is_child(s, id) by {
        let (i, k) = choose|i: int, k: int| child_slot(s2, i, k, id);
        assert(child_slot(s2, i, k, id));
        if i < s.len() {
            assert(s2[i] == s[i]);
            assert(child_slot(s, i, k, id));
        } else {
            assert(s2[i] == t);
        }
    }
    if parents_unique(s) {
        assert forall|i: int, k: int, j: int, l: int, id: TileId|
            #[trigger] child_slot(s2, i, k, id) && #[trigger] child_slot(
                s2,
                j,
                l,
                id,
            ) implies i == j && k == l by {
            assert(s2[i] == s[i]);
            assert(s2[j] == s[j]);
            assert(child_slot(s, i, k, id));
            assert(child_slot(s, j, l, id));
        }
    }
}

/// Appending a container whose children are present, distinct, unclaimed and
/// not the root keeps the tree well formed and the parent map injective.
proof fn lemma_container_push(t0: Tree, t1: Tree, tile: Tile)
    requires
        t0.well_formed(),
        tile is Container,
        tile_active(tile) == 0,
        tile_children(tile).len() > 0,
        forall|k: int|
            0 <= k < tile_children(tile).len() ==> (#[trigger] tile_children(tile)[k]).value
                < t0.nodes@.len(),
        forall|k: int|
            0 <= k < tile_children(tile).len() ==> !is_child(
                t0.nodes@,
                #[trigger] tile_children(tile)[k],
            ),
        forall|k: int, l: int|
            0 <= k < tile_children(tile).len() && 0 <= l < tile_children(tile).len()
                && tile_children(tile)[k] == tile_children(tile)[l] ==> k == l,
        forall|k: int|
            0 <= k < tile_children(tile).len() ==> t0.root_id != Some(
                #[trigger] tile_children(tile)[k],
            ),
        t1.nodes@ == t0.nodes@.push(tile),
        t1.root_id == t0.root_id,
    ensures
        t1.well_formed(),
        t0.single_parent() ==> t1.single_parent(),
{
    let s = t0.nodes@;
    let s2 = t1.nodes@;
    let n = s.len() as int;
    assert forall|i: int| 0 <= i < s2.len() implies #[trigger] node_ok(s2, i) by {
        if i < n {
            assert(node_ok(s, i));
            assert(s2[i] == s[i]);
        } else {
            assert(s2[i] == tile);
        }
    }
    if t0.single_parent() {
        assert forall|i: int, k: int, j: int, l: int, id: TileId|
            #[trigger] child_slot(s2, i, k, id) && #[trigger] child_slot(
                s2,
                j,
                l,
                id,
            ) implies i == j && k == l by {
            if i < n && j < n {
                assert(s2[i] == s[i]);
                assert(s2[j] == s[j]);
                assert(child_slot(s, i, k, id));
                assert(child_slot(s, j, l, id));
            } else if i == n && j == n {
                assert(s2[i] == tile);
                assert(tile_children(tile)[k] == tile_children(tile)[l]);
            } else if i == n && j < n {
                assert(s2[j] == s[j]);
                assert(child_slot(s, j, l, id));
                assert(tile_children(tile)[k] == id);
                assert(!is_child(s, id));
            } else {
                assert(s2[i] == s[i]);
                assert(child_slot(s, i, k, id));
                assert(tile_children(tile)[l] == id);
                assert(!is_child(s, id));
            }
        }
        match t1.root_id {
            Option::Some(r) => {
                assert(!is_child(s2, r)) by {
                    if is_child(s2, r) {
                        let (i, k) = choose|i: int, k: int| child_slot(s2, i, k, r);
                        assert(child_slot(s2, i, k, r));
                        if i < n {
                            assert(s2[i] == s[i]);
                            assert(child_slot(s, i, k, r));
                        } else {
                            assert(s2[i] == tile);
                            assert(tile_children(tile)[k] == r);
                        }
                    }
                }
            },
            Option::None => {},
        }
    }
}

} // verus!
