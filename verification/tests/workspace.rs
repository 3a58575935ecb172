use bom_tool::behavior::TreeBehavior;
use bom_tool::shutdown::{step, HostAction, ShutdownEvent, ShutdownState};
use bom_tool::state::{default_workspace, PersistedState, State};
use bom_tool::tabs::{Tab, TabBomImporter, TabContent, TabKind};
use bom_tool::tree::{Tile, TileId, Tree};
use bom_tool::windows::{shows_at, UniqueWindows, WindowKind, WindowToggleButtonsLocations};

fn id(value: usize) -> TileId {
    TileId { value }
}

// --- Default workspace construction ---

#[test]
fn default_tree_has_three_panes_under_one_container() {
    let t = default_workspace();
    assert_eq!(t.nodes.len(), 4);
    assert_eq!(t.root_id, Some(id(3)));
    let mut pane_count = 0;
    for node in &t.nodes {
        if let Tile::Pane(_) = node {
            pane_count += 1;
        }
    }
    assert_eq!(pane_count, 3);
    match &t.nodes[3] {
        Tile::Container { children, active } => {
            assert_eq!(children, &vec![id(0), id(1), id(2)]);
            assert_eq!(*active, 0);
        }
        _ => panic!("root must be a container"),
    }
}

#[test]
fn default_tree_kinds_and_ordinals_in_creation_order() {
    let t = default_workspace();
    let expect = [
        (TabKind::BomImporter, 0),
        (TabKind::BomImporter, 1),
        (TabKind::PlaceholderB, 2),
    ];
    for (i, (kind, ordinal)) in expect.iter().enumerate() {
        match &t.nodes[i] {
            Tile::Pane(tab) => {
                assert_eq!(tab.kind(), *kind);
                assert_eq!(tab.ordinal, *ordinal);
            }
            _ => panic!("expected a pane at {}", i),
        }
    }
}

#[test]
fn default_state_side_panel_expanded_and_windows_closed() {
    let s = State::default();
    assert!(s.side_panel_expanded);
    assert_eq!(
        s.windows.windows,
        vec![(WindowKind::LogViewer, false), (WindowKind::About, false)]
    );
    assert_eq!(s.tabs_behavior.add_child_to, None);
}

// --- Importer tab titles and closeability ---

#[test]
fn tagged_importer_title_and_pinned() {
    let tab = TabBomImporter::new('2');
    assert_eq!(tab.title(), "BOM 2");
    assert!(!tab.is_closeable());
}

#[test]
fn untagged_importer_title_and_closeable() {
    let tab = TabBomImporter::default();
    assert_eq!(tab.title(), "BOM");
    assert!(tab.is_closeable());
}

#[test]
fn placeholder_tab_title_and_closeable() {
    let tab = Tab::from_kind(TabKind::PlaceholderB, 7);
    assert_eq!(tab.title(), "Tab B");
    assert!(tab.is_closeable());
    assert_eq!(tab.ordinal, 7);
}

#[test]
fn fresh_importer_tab_is_untagged() {
    let tab = Tab::from_kind(TabKind::BomImporter, 0);
    assert_eq!(
        tab.content,
        TabContent::BomImporter(TabBomImporter { bom_instance: None })
    );
    assert_eq!(tab.title(), "BOM");
}

// --- Window registry restoration ---

#[test]
fn restore_shorter_registry_rebuilds_default() {
    let r = UniqueWindows {
        windows: vec![(WindowKind::LogViewer, true)],
    };
    let restored = r.restore();
    assert_eq!(
        restored.windows,
        vec![(WindowKind::LogViewer, false), (WindowKind::About, false)]
    );
}

#[test]
fn restore_longer_registry_rebuilds_default() {
    let r = UniqueWindows {
        windows: vec![
            (WindowKind::LogViewer, true),
            (WindowKind::About, true),
            (WindowKind::About, false),
        ],
    };
    let restored = r.restore();
    assert_eq!(
        restored.windows,
        vec![(WindowKind::LogViewer, false), (WindowKind::About, false)]
    );
}

#[test]
fn restore_matching_registry_preserves_entries_exactly() {
    let r = UniqueWindows {
        windows: vec![(WindowKind::About, true), (WindowKind::LogViewer, true)],
    };
    let restored = r.restore();
    assert_eq!(
        restored.windows,
        vec![(WindowKind::About, true), (WindowKind::LogViewer, true)]
    );
}

// --- Window registry toggles and locations ---

#[test]
fn toggle_flips_only_the_chosen_entry() {
    let mut r = UniqueWindows::default();
    r.toggle_open(1);
    assert_eq!(
        r.windows,
        vec![(WindowKind::LogViewer, false), (WindowKind::About, true)]
    );
    r.toggle_open(1);
    assert_eq!(
        r.windows,
        vec![(WindowKind::LogViewer, false), (WindowKind::About, false)]
    );
}

#[test]
fn set_open_supports_self_close() {
    let mut r = UniqueWindows::default();
    r.set_open(0, true);
    assert_eq!(r.windows[0], (WindowKind::LogViewer, true));
    r.set_open(0, false);
    assert_eq!(r.windows[0], (WindowKind::LogViewer, false));
}

#[test]
fn toggle_locations_per_kind() {
    assert!(shows_at(
        WindowKind::LogViewer,
        WindowToggleButtonsLocations::Window
    ));
    assert!(!shows_at(
        WindowKind::LogViewer,
        WindowToggleButtonsLocations::File
    ));
    assert!(shows_at(WindowKind::About, WindowToggleButtonsLocations::Help));
    assert!(!shows_at(
        WindowKind::About,
        WindowToggleButtonsLocations::Window
    ));
}

#[test]
fn indices_at_location_lists_matching_entries() {
    let r = UniqueWindows::default();
    assert_eq!(
        r.indices_at_location(WindowToggleButtonsLocations::Window),
        vec![0]
    );
    assert_eq!(
        r.indices_at_location(WindowToggleButtonsLocations::Help),
        vec![1]
    );
    assert_eq!(
        r.indices_at_location(WindowToggleButtonsLocations::File),
        Vec::<usize>::new()
    );
}

#[test]
fn open_indices_lists_open_entries_in_order() {
    let mut r = UniqueWindows::default();
    assert_eq!(r.open_indices(), Vec::<usize>::new());
    r.set_open(0, true);
    r.set_open(1, true);
    assert_eq!(r.open_indices(), vec![0, 1]);
}

// --- Shutdown confirmation flow ---

#[test]
fn close_request_when_idle_opens_prompt() {
    let (s, a) = step(ShutdownState::Idle, ShutdownEvent::CloseRequested);
    assert_eq!(s, ShutdownState::ConfirmPending);
    assert_eq!(a, HostAction::CancelCloseAndPrompt);
}

#[test]
fn cancel_returns_to_idle() {
    let (s, a) = step(ShutdownState::ConfirmPending, ShutdownEvent::CancelChosen);
    assert_eq!(s, ShutdownState::Idle);
    assert_eq!(a, HostAction::NoAction);
}

#[test]
fn discard_and_exit_confirms_and_reissues_close() {
    let (s, a) = step(
        ShutdownState::ConfirmPending,
        ShutdownEvent::DiscardAndExitChosen,
    );
    assert_eq!(s, ShutdownState::Confirmed);
    assert_eq!(a, HostAction::ReissueClose);
}

#[test]
fn save_and_exit_saves_then_reissues_close() {
    let (s, a) = step(
        ShutdownState::ConfirmPending,
        ShutdownEvent::SaveAndExitChosen,
    );
    assert_eq!(s, ShutdownState::Confirmed);
    assert_eq!(a, HostAction::SaveThenReissueClose);
}

#[test]
fn second_close_request_when_confirmed_passes_through() {
    let (s1, _) = step(ShutdownState::Idle, ShutdownEvent::CloseRequested);
    let (s2, _) = step(s1, ShutdownEvent::DiscardAndExitChosen);
    let (s3, a3) = step(s2, ShutdownEvent::CloseRequested);
    assert_eq!(s3, ShutdownState::Confirmed);
    assert_eq!(a3, HostAction::AllowClose);
}

#[test]
fn prompt_buttons_do_nothing_outside_the_prompt() {
    let (s, a) = step(ShutdownState::Idle, ShutdownEvent::DiscardAndExitChosen);
    assert_eq!(s, ShutdownState::Idle);
    assert_eq!(a, HostAction::NoAction);
    let (s, a) = step(ShutdownState::Confirmed, ShutdownEvent::CancelChosen);
    assert_eq!(s, ShutdownState::Confirmed);
    assert_eq!(a, HostAction::NoAction);
}

// --- Deferred add-child slot ---

#[test]
fn second_request_overwrites_first_and_drain_empties() {
    let mut b = TreeBehavior::default();
    b.request_add_child(id(4));
    b.request_add_child(id(9));
    assert_eq!(b.take_add_child(), Some(id(9)));
    assert_eq!(b.add_child_to, None);
    assert_eq!(b.take_add_child(), None);
}

// --- Tile tree operations ---

#[test]
fn insert_pane_allocates_sequential_ids() {
    let mut t = Tree::new();
    assert_eq!(t.root(), None);
    let a = t.insert_pane(Tab::from_kind(TabKind::BomImporter, 0));
    let b = t.insert_pane(Tab::from_kind(TabKind::PlaceholderB, 1));
    assert_eq!(a, id(0));
    assert_eq!(b, id(1));
    assert_eq!(t.root(), None);
}

#[test]
fn container_groups_children_and_becomes_root() {
    let mut t = Tree::new();
    let a = t.insert_pane(Tab::from_kind(TabKind::BomImporter, 0));
    let b = t.insert_pane(Tab::from_kind(TabKind::PlaceholderB, 1));
    let c = t.insert_tab_container(vec![a, b]);
    t.set_root(c);
    assert_eq!(t.root(), Some(id(2)));
    match &t.nodes[2] {
        Tile::Container { children, active } => {
            assert_eq!(children, &vec![a, b]);
            assert_eq!(*active, 0);
        }
        _ => panic!("expected a container"),
    }
}

#[test]
fn active_tiles_follow_selected_children() {
    let t = default_workspace();
    assert_eq!(t.active_tiles(), vec![id(3), id(0)]);
}

#[test]
fn active_tiles_descend_nested_containers() {
    let mut t = Tree::new();
    let a = t.insert_pane(Tab::from_kind(TabKind::BomImporter, 0));
    let b = t.insert_pane(Tab::from_kind(TabKind::PlaceholderB, 1));
    let inner = t.insert_tab_container(vec![a, b]);
    let c = t.insert_pane(Tab::from_kind(TabKind::BomImporter, 2));
    let outer = t.insert_tab_container(vec![inner, c]);
    t.set_root(outer);
    assert_eq!(t.active_tiles(), vec![id(4), id(2), id(0)]);
}

#[test]
fn active_tiles_of_empty_tree_is_empty() {
    let t = Tree::new();
    assert_eq!(t.active_tiles(), Vec::<TileId>::new());
}

#[test]
fn titles_resolved_per_tile() {
    let t = default_workspace();
    let b = TreeBehavior::default();
    assert_eq!(b.tab_title_for_tile(&t, id(0)), "BOM");
    assert_eq!(b.tab_title_for_tile(&t, id(2)), "Tab B");
    assert_eq!(b.tab_title_for_tile(&t, id(3)), "Tabs");
}

// --- Structural validation ---

#[test]
fn well_formed_trees_pass_the_structure_check() {
    assert!(Tree::new().check_structure());
    assert!(default_workspace().check_structure());
}

#[test]
fn empty_container_fails_the_structure_check() {
    let t = Tree {
        nodes: vec![Tile::Container {
            children: vec![],
            active: 0,
        }],
        root_id: Some(id(0)),
    };
    assert!(!t.check_structure());
}

#[test]
fn active_index_out_of_range_fails_the_structure_check() {
    let t = Tree {
        nodes: vec![
            Tile::Pane(Tab::from_kind(TabKind::BomImporter, 0)),
            Tile::Container {
                children: vec![id(0)],
                active: 1,
            },
        ],
        root_id: Some(id(1)),
    };
    assert!(!t.check_structure());
}

#[test]
fn forward_child_reference_fails_the_structure_check() {
    let t = Tree {
        nodes: vec![
            Tile::Container {
                children: vec![id(1)],
                active: 0,
            },
            Tile::Pane(Tab::from_kind(TabKind::BomImporter, 0)),
        ],
        root_id: Some(id(0)),
    };
    assert!(!t.check_structure());
}

#[test]
fn dangling_root_fails_the_structure_check() {
    let t = Tree {
        nodes: vec![Tile::Pane(Tab::from_kind(TabKind::BomImporter, 0))],
        root_id: Some(id(5)),
    };
    assert!(!t.check_structure());
}

// --- Persistence round trip and restoration fallbacks ---

#[test]
fn round_trip_reproduces_tree_windows_and_panel_flag() {
    let mut s0 = State::default();
    s0.windows.toggle_open(0);
    s0.side_panel_expanded = false;
    s0.tabs_behavior.request_add_child(id(3));
    let expected_tabs = s0.tabs.clone();
    let expected_windows = s0.windows.clone();
    let s1 = State::restore_state(Some(s0.to_persisted()));
    assert_eq!(s1.tabs, expected_tabs);
    assert_eq!(s1.windows, expected_windows);
    assert!(!s1.side_panel_expanded);
    // The behavior is transient: it always starts fresh after a restore.
    assert_eq!(s1.tabs_behavior.add_child_to, None);
}

#[test]
fn restore_without_persisted_record_yields_default_state() {
    let s = State::restore_state(None);
    let d = State::default();
    assert_eq!(s.tabs, d.tabs);
    assert_eq!(s.windows, d.windows);
    assert!(s.side_panel_expanded);
}

#[test]
fn restore_with_malformed_tree_rebuilds_default_workspace() {
    let p = PersistedState {
        tabs: Tree {
            nodes: vec![Tile::Container {
                children: vec![],
                active: 0,
            }],
            root_id: Some(id(0)),
        },
        side_panel_expanded: false,
        windows: UniqueWindows::default(),
    };
    let s = State::restore_state(Some(p));
    assert_eq!(s.tabs, default_workspace());
    // Only the tree is healed; the other persisted fields are kept.
    assert!(!s.side_panel_expanded);
}

#[test]
fn restore_validates_registry_alongside_the_tree() {
    let p = PersistedState {
        tabs: default_workspace(),
        side_panel_expanded: true,
        windows: UniqueWindows {
            windows: vec![(WindowKind::About, true); 3],
        },
    };
    let s = State::restore_state(Some(p));
    assert_eq!(s.tabs, default_workspace());
    assert_eq!(
        s.windows.windows,
        vec![(WindowKind::LogViewer, false), (WindowKind::About, false)]
    );
}
