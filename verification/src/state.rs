//! The session state the shell owns: the tile tree, the per-frame tree
//! behavior, the side-panel flag and the window registry — plus its persisted
//! shape. The persisted shape carries serializable fields only; the runtime
//! state adds the transient behavior (and, outside this crate, the runtime
//! handles), rebuilt from the persisted shape at load time.

use vstd::prelude::*;

use crate::behavior::TreeBehavior;
use crate::tabs::Tab;
use crate::tabs::TabBomImporter;
use crate::tabs::TabContent;
use crate::tabs::TabKind;
use crate::tree::Tile;
use crate::tree::child_slot;
use crate::tree::is_child;
use crate::tree::TileId;
use crate::tree::Tree;
use crate::tree::tile_active;
use crate::tree::tile_children;
use crate::windows::UniqueWindows;
use crate::windows::default_windows_seq;
use crate::windows::spec_restore;
use crate::windows::window_kind_count;

verus! {

/// The canonical empty workspace: three panes — two importer tabs and one
/// placeholder, with ordinals 0, 1, 2 in creation order — grouped under a
/// single tab-group container that is the root.
pub open spec fn is_default_workspace(t: Tree) -> bool {
    &&& t.nodes@.len() == 4
    &&& t.nodes@[0] == Tile::Pane(
        (Tab { ordinal: 0, content: TabContent::BomImporter(
            (TabBomImporter { bom_instance: None }),
        ) }),
    )
    &&& t.nodes@[1] == Tile::Pane(
        (Tab { ordinal: 1, content: TabContent::BomImporter(
            (TabBomImporter { bom_instance: None }),
        ) }),
    )
    &&& t.nodes@[2] == Tile::Pane((Tab { ordinal: 2, content: TabContent::PlaceholderB }))
    &&& t.nodes@[3] is Container
    &&& tile_children(t.nodes@[3]) == seq![
        (TileId { value: 0 }),
        (TileId { value: 1 }),
        (TileId { value: 2 }),
    ]
    &&& tile_active(t.nodes@[3]) == 0
    &&& t.root_id == Some((TileId { value: 3 }))
}

/// Build the default workspace tree: used at first run and on any
/// validation-triggered reset.
pub fn default_workspace() -> (t: Tree)
    ensures
        is_default_workspace(t),
        t.well_formed(),
        t.single_parent(),
{
    let mut t = Tree::new();
    let mut ordinal: u64 = 0;
    let a = t.insert_pane(Tab::from_kind(TabKind::BomImporter, ordinal));
    ordinal = ordinal + 1;
    let b = t.insert_pane(Tab::from_kind(TabKind::BomImporter, ordinal));
    ordinal = ordinal + 1;
    let c = t.insert_pane(Tab::from_kind(TabKind::PlaceholderB, ordinal));
    let mut children: Vec<TileId> = Vec::new();
    children.push(a);
    children.push(b);
    children.push(c);
    proof {
        assert(children@ =~= seq![
            (TileId { value: 0 }),
            (TileId { value: 1 }),
            (TileId { value: 2 }),
        ]);
        assert forall|k: int| 0 <= k < children@.len() implies !is_child(
            t.nodes@,
            #[trigger] children@[k],
        ) by {
            lemma_panes_claim_nothing(t.nodes@, children@[k]);
        }
    }
    let root = t.insert_tab_container(children);
    proof {
        assert(!is_child(t.nodes@, root)) by {
            if is_child(t.nodes@, root) {
                let (i, k) = choose|i: int, k: int| child_slot(t.nodes@, i, k, root);
                assert(child_slot(t.nodes@, i, k, root));
                if i < 3 {
                    assert(t.nodes@[i] is Pane);
                } else {
                    assert(tile_children(t.nodes@[3])[k].value < 3);
                }
            }
        }
    }
    t.set_root(root);
    t
}

/// A sequence of panes claims no child slot.
proof fn lemma_panes_claim_nothing(s: Seq<Tile>, id: TileId)
    requires
        forall|i: int| 0 <= i < s.len() ==> s[i] is Pane,
    ensures
        !is_child(s, id),
{
    if is_child(s, id) {
        let (i, k) = choose|i: int, k: int| child_slot(s, i, k, id);
        assert(child_slot(s, i, k, id));
        assert(s[i] is Pane);
    }
}

/// The session state the shell owns for the lifetime of the UI session.
#[derive(Clone, Debug, PartialEq, Eq)]
pub struct State {
    pub tabs: Tree,
    /// Transient per-frame policy; excluded from persisted state and rebuilt
    /// fresh on every load and reset.
    pub tabs_behavior: TreeBehavior,
    pub side_panel_expanded: bool,
    pub windows: UniqueWindows,
}

/// The persisted shape of the session state: serializable fields only. The
/// tree behavior and every runtime handle are excluded and re-attached by the
/// shell after a load.
#[derive(Clone, Debug, PartialEq, Eq)]
pub struct PersistedState {
    pub tabs: Tree,
    pub side_panel_expanded: bool,
    pub windows: UniqueWindows,
}

/// The persisted shape of a state: the same data minus the transient
/// behavior.
pub open spec fn spec_to_persisted(s: State) -> PersistedState {
    PersistedState { tabs: s.tabs, side_panel_expanded: s.side_panel_expanded, windows: s.windows }
}

/// Everything `restore_state` promises of its result, as a predicate over
/// the persisted input and the restored state.
pub open spec fn restore_post(p: Option<PersistedState>, s: State) -> bool {
    &&& s.tabs.well_formed()
    &&& s.tabs_behavior.add_child_to is None
    &&& match p {
        Option::None => {
            &&& is_default_workspace(s.tabs)
            &&& s.side_panel_expanded == true
            &&& s.windows.windows@ == default_windows_seq()
        },
        Option::Some(ps) => {
            &&& s.side_panel_expanded == ps.side_panel_expanded
            &&& s.windows.windows@ == spec_restore(ps.windows.windows@)
            &&& (ps.tabs.well_formed() ==> s.tabs == ps.tabs)
            &&& (!ps.tabs.well_formed() ==> is_default_workspace(s.tabs))
        },
    }
}

impl State {
    /// The persisted shape of this state; the transient behavior is dropped.
    pub fn to_persisted(self) -> (r: PersistedState)
        ensures
            r == spec_to_persisted(self),
    {
        PersistedState {
            tabs: self.tabs,
            side_panel_expanded: self.side_panel_expanded,
            windows: self.windows,
        }
    }

    /// Restore a session from what the host storage yielded, or none when
    /// nothing usable was persisted. Every structural-invariant violation
    /// heals by full reset rather than partial repair: a missing record
    /// yields the default state; a malformed tree yields the default
    /// workspace; a registry whose size disagrees with the declared window
    /// kinds is rebuilt closed. The tree behavior always starts fresh, so the
    /// shell must re-feed the shared context before the next render pass.
    pub fn restore_state(p: Option<PersistedState>) -> (s: State)
        ensures
            restore_post(p, s),
    {
        match p {
            None => State::default(),
            Some(ps) => {
                let PersistedState { tabs: persisted_tabs, side_panel_expanded, windows } = ps;
                let tabs = if persisted_tabs.check_structure() {
                    persisted_tabs
                } else {
                    default_workspace()
                };
                State {
                    tabs,
                    tabs_behavior: TreeBehavior::default(),
                    side_panel_expanded,
                    windows: windows.restore(),
                }
            },
        }
    }
}

impl Default for State {
    /// The first-run state: default workspace tree, fresh behavior, side
    /// panel expanded, every utility window closed.
    fn default() -> (r: Self)
        ensures
            restore_post(None, r),
            is_default_workspace(r.tabs),
            r.tabs.well_formed(),
            r.tabs.single_parent(),
            r.tabs_behavior.add_child_to is None,
            r.side_panel_expanded == true,
            r.windows.windows@ == default_windows_seq(),
    {
        State {
            tabs: default_workspace(),
            tabs_behavior: TreeBehavior::default(),
            side_panel_expanded: true,
            windows: UniqueWindows::default(),
        }
    }
}

/// Law: persisting a session and restoring it reproduces the tree exactly —
/// same root, same parent/child structure, same tab kinds, ordinals and
/// closeability — and preserves the side-panel flag and every window entry,
/// while the transient behavior starts fresh. `s1` stands for any state that
/// `restore_state` may return for the persisted shape of `s0`.
pub proof fn lemma_persist_round_trip(s0: State, s1: State)
    requires
        s0.tabs.well_formed(),
        s0.windows.windows@.len() == window_kind_count(),
        restore_post(Some(spec_to_persisted(s0)), s1),
    ensures
        s1.tabs == s0.tabs,
        s1.windows.windows@ == s0.windows.windows@,
        s1.side_panel_expanded == s0.side_panel_expanded,
        s1.tabs_behavior.add_child_to is None,
{
}

} // verus!
