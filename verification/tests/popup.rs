use typhon::compositor::CompositorState;
use typhon::popup::{PopupGrab, PopupLifecycle, PopupNode, PopupOwner, PopupSurface};
use typhon::surface::SurfacePlacement;

fn node(parent: PopupOwner) -> PopupNode {
    PopupNode {
        owner_root_id: 1,
        parent,
        children: Vec::new(),
        lifecycle: PopupLifecycle::Alive,
        mapped: true,
        configured: true,
        popup_done_sent: false,
        grab_generation: None,
    }
}

/// Toplevel 1 with popup 10, popup 11 under 10, popup 12 under 11.
fn chain_state() -> CompositorState {
    let mut state = CompositorState::default();
    assert!(state.attach_popup_node(10, node(PopupOwner::Toplevel(1))));
    assert!(state.attach_popup_node(11, node(PopupOwner::Popup(10))));
    assert!(state.attach_popup_node(12, node(PopupOwner::Popup(11))));
    for id in [10, 11, 12] {
        state.popups.surfaces.insert(
            id,
            PopupSurface {
                parent_surface_id: Some(id - 1),
            },
        );
    }
    state
}

#[test]
fn attaching_links_children_and_tree_root_is_the_outermost_popup() {
    let state = chain_state();

    assert_eq!(state.popups.nodes[&10].children, vec![11]);
    assert_eq!(state.popups.nodes[&11].children, vec![12]);
    assert_eq!(state.popup_tree_root(12), 10);
    assert_eq!(state.popup_tree_root(10), 10);
    assert_eq!(state.popup_tree_root(99), 99);
}

#[test]
fn linking_a_popup_under_its_own_descendant_is_refused() {
    let mut state = chain_state();

    assert!(state.popup_would_create_cycle(10, 12));
    assert!(state.popup_would_create_cycle(10, 10));
    assert!(!state.popup_would_create_cycle(12, 10));
    assert!(!state.relink_popup_node(10, PopupOwner::Popup(12), 1));
    assert_eq!(state.popups.nodes[&10].parent, PopupOwner::Toplevel(1));
    assert!(state.popups.nodes[&12].children.is_empty());
}

#[test]
fn relinking_moves_the_popup_between_parents() {
    let mut state = chain_state();

    assert!(state.relink_popup_node(12, PopupOwner::Popup(10), 7));

    assert_eq!(state.popups.nodes[&12].parent, PopupOwner::Popup(10));
    assert_eq!(state.popups.nodes[&12].owner_root_id, 7);
    assert_eq!(state.popups.nodes[&10].children, vec![11, 12]);
    assert!(state.popups.nodes[&11].children.is_empty());
    assert!(!state.relink_popup_node(99, PopupOwner::Popup(10), 7));
}

#[test]
fn owner_for_parent_distinguishes_popups_layers_and_toplevels() {
    let mut state = chain_state();
    state.popups.layer_surfaces.insert(5);

    assert_eq!(state.popup_owner_for_parent(11), PopupOwner::Popup(11));
    assert_eq!(state.popup_owner_for_parent(5), PopupOwner::LayerSurface(5));
    assert_eq!(state.popup_owner_for_parent(1), PopupOwner::Toplevel(1));
    assert_eq!(PopupOwner::LayerSurface(5).surface_id(), 5);
}

#[test]
fn detaching_unlinks_and_clears_the_grab_it_takes_part_in() {
    let mut state = chain_state();
    state.popups.grab = Some(PopupGrab {
        owner_client: 1,
        owner_root_id: 1,
        tree_root_popup_id: 10,
        focused_popup_id: 12,
        serial: 5,
        generation: 1,
    });
    state.popups.grab_stack = vec![10, 12];

    state.detach_popup_node(12, PopupLifecycle::Destroyed);

    assert!(!state.popups.nodes.contains_key(&12));
    assert!(state.popups.nodes[&11].children.is_empty());
    assert!(state.popups.grab.is_none());
    assert_eq!(state.popups.grab_stack, vec![10]);
}

#[test]
fn topmost_grab_falls_back_to_the_newest_live_popup_on_the_stack() {
    let mut state = chain_state();
    state.popups.grab = Some(PopupGrab {
        owner_client: 1,
        owner_root_id: 1,
        tree_root_popup_id: 10,
        focused_popup_id: 12,
        serial: 5,
        generation: 1,
    });
    state.popups.grab_stack = vec![10, 11, 42];

    assert_eq!(state.topmost_popup_grab_surface_id(), Some(12));
    state.popups.surfaces.remove(&12);
    assert_eq!(state.topmost_popup_grab_surface_id(), Some(11));
    state.popups.grab = None;
    state.popups.grab_stack.clear();
    assert_eq!(state.topmost_popup_grab_surface_id(), None);
    assert!(state.pointer_target_allowed_by_popup_grab(77));
}

#[test]
fn pointer_inside_the_grabbing_popup_is_allowed_and_outside_dismisses_it() {
    let mut state = chain_state();
    state.popups.grab_stack = vec![11];
    state
        .surface_placements
        .insert(11, SurfacePlacement::subsurface(10, 5, 5));
    state
        .surface_placements
        .insert(12, SurfacePlacement::subsurface(11, 5, 5));
    state
        .surface_placements
        .insert(20, SurfacePlacement::subsurface(12, 1, 1));

    assert!(state.surface_is_descendant_of(20, 11));
    assert!(state.surface_is_descendant_of(11, 11));
    assert!(!state.surface_is_descendant_of(10, 11));
    assert!(state.pointer_target_allowed_by_popup_grab(20));
    assert!(!state.pointer_target_allowed_by_popup_grab(10));
    assert_eq!(state.popup_grab_to_dismiss_for_pointer_target(Some(20)), None);
    assert_eq!(
        state.popup_grab_to_dismiss_for_pointer_target(Some(1)),
        Some(11)
    );
    assert_eq!(state.popup_grab_to_dismiss_for_pointer_target(None), Some(11));
}

#[test]
fn a_popup_is_alive_only_with_its_role() {
    let mut state = chain_state();
    assert!(state.popup_node_is_alive(10));
    state.popups.surfaces.remove(&10);
    assert!(!state.popup_node_is_alive(10));
    assert!(!state.popup_node_is_alive(99));
}
