//! The per-frame tree behavior: a policy object the tile tree consults while
//! rendering. It resolves titles and closeability, and carries the one-slot
//! deferred "add child" request. A render pass holds only shared access to
//! the tree, so a mutation wished for during the pass is recorded here and
//! performed by the shell after the pass completes: the slot holds at most
//! one request, a later one overwrites an earlier one within the same frame,
//! and draining empties it.

use vstd::prelude::*;

use crate::tabs::Tab;
use crate::tree::TileId;
use crate::tree::Tree;
use crate::tree::Tile;

verus! {

/// What the one-slot request holds after a new request is recorded:
/// the new request, whatever was there before.
pub open spec fn slot_after_request(slot: Option<TileId>, parent: TileId) -> Option<TileId> {
    Some(parent)
}

/// What draining returns and leaves behind: the pending request, and an
/// empty slot.
pub open spec fn slot_after_drain(slot: Option<TileId>) -> (Option<TileId>, Option<TileId>) {
    (slot, None)
}

/// The stateless-per-frame policy consulted by the tile tree, plus the
/// one-slot deferred mutation channel. The shared application context it
/// forwards into tab render calls is a runtime handle owned by the shell,
/// re-fed before each render pass and after any full-state reset; it is not
/// part of the verified state.
#[derive(Clone, Copy, Debug, PartialEq, Eq)]
pub struct TreeBehavior {
    /// The container a new child should be added to, if a render pass
    /// requested one this frame.
    pub add_child_to: Option<TileId>,
}

impl TreeBehavior {
    /// Record a deferred request to add a child to container `parent`.
    /// Within one frame a later request overwrites an earlier one.
    pub fn request_add_child(&mut self, parent: TileId)
        ensures
            final(self).add_child_to == slot_after_request(old(self).add_child_to, parent),
    {
        self.add_child_to = Some(parent);
    }

    /// Drain the pending request: returns it and leaves the slot empty.
    /// The shell calls this once per frame, after the render pass.
    pub fn take_add_child(&mut self) -> (r: Option<TileId>)
        ensures
            r == slot_after_drain(old(self).add_child_to).0,
            final(self).add_child_to == slot_after_drain(old(self).add_child_to).1,
    {
        let r = self.add_child_to;
        self.add_child_to = None;
        r
    }

    /// Resolve a tile's display title: a pane answers with its tab's own
    /// title; a tab-group container is labelled `Tabs`.
    pub fn tab_title_for_tile(&self, tree: &Tree, id: TileId) -> (r: String)
        requires
            tree.valid_id(id),
        ensures
            r@ == title_for_tile_spec(*tree, id),
    {
        match &tree.nodes[id.value] {
            Tile::Pane(tab) => tab.title(),
            Tile::Container { .. } => {
                let s = String::from_str("Tabs");
                proof {
                    reveal_strlit("Tabs");
                    assert(s@ =~= title_for_tile_spec(*tree, id));
                }
                s
            },
        }
    }

    /// Whether a tab may be closed: delegated to the tab itself.
    pub fn is_closeable(&self, tab: &Tab) -> (r: bool)
        ensures
            r == tab.closeable_spec(),
    {
        tab.is_closeable()
    }
}

impl Default for TreeBehavior {
    /// A fresh behavior: no pending request.
    fn default() -> (r: Self)
        ensures
            r.add_child_to is None,
    {
        TreeBehavior { add_child_to: None }
    }
}

/// The title a tile resolves to: the tab's title for a pane, `Tabs` for a
/// container.
pub open spec fn title_for_tile_spec(tree: Tree, id: TileId) -> Seq<char> {
    match tree.nodes@[id.value as int] {
        Tile::Pane(tab) => tab.title_spec(),
        Tile::Container { .. } => seq!['T', 'a', 'b', 's'],
    }
}

/// Law: of two requests recorded within the same frame, only the second is
/// observed at drain time, and after the drain the slot is empty.
pub proof fn lemma_second_request_wins(slot: Option<TileId>, first: TileId, second: TileId)
    ensures
        slot_after_drain(slot_after_request(slot_after_request(slot, first), second)).0 == Some(
            second,
        ),
        slot_after_drain(slot_after_request(slot_after_request(slot, first), second)).1
            == None::<TileId>,
{
}

} // verus!
