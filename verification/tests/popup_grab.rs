use typhon::compositor::CompositorState;
use typhon::popup::{PopupGrab, PopupLifecycle, PopupNode, PopupOwner, PopupSurface};

fn node(owner_root_id: u32, parent: PopupOwner) -> PopupNode {
    PopupNode {
        owner_root_id,
        parent,
        children: Vec::new(),
        lifecycle: PopupLifecycle::Alive,
        mapped: true,
        configured: true,
        popup_done_sent: false,
        grab_generation: None,
    }
}

/// Toplevel 1 with popup 10 and its child 11; toplevel 2 with popup 20.
fn popup_state() -> CompositorState {
    let mut state = CompositorState::default();
    assert!(state.attach_popup_node(10, node(1, PopupOwner::Toplevel(1))));
    assert!(state.attach_popup_node(11, node(1, PopupOwner::Popup(10))));
    assert!(state.attach_popup_node(20, node(2, PopupOwner::Toplevel(2))));
    for (id, parent) in [(10, 1), (11, 10), (20, 2)] {
        state.popups.surfaces.insert(
            id,
            PopupSurface {
                parent_surface_id: Some(parent),
            },
        );
    }
    state
}

#[test]
fn granted_grab_focuses_the_popup_and_records_its_tree() {
    let mut state = popup_state();

    let outcome = state.grab_popup_surface(11, true, true, Some(7), 33);

    assert!(outcome.granted);
    assert!(outcome.dismissal.is_none());
    assert_eq!(
        state.popups.grab,
        Some(PopupGrab {
            owner_client: 7,
            owner_root_id: 1,
            tree_root_popup_id: 10,
            focused_popup_id: 11,
            serial: 33,
            generation: 1,
        })
    );
    assert_eq!(state.popups.nodes[&11].grab_generation, Some(1));
    assert_eq!(state.popups.grab_stack, vec![11]);
    assert_eq!(state.keyboard_focus, Some(11));
}

#[test]
fn nested_grab_of_the_same_client_stacks_without_dismissal() {
    let mut state = popup_state();
    assert!(state.grab_popup_surface(10, true, true, Some(7), 30).granted);

    let outcome = state.grab_popup_surface(11, true, true, Some(7), 31);

    assert!(outcome.granted);
    assert!(outcome.dismissal.is_none());
    assert_eq!(state.popups.grab_stack, vec![10, 11]);
    assert_eq!(state.popups.grab.expect("grab").generation, 2);
    assert_eq!(state.popups.nodes[&10].lifecycle, PopupLifecycle::Alive);
}

#[test]
fn invalid_serial_dismisses_the_requesting_popup() {
    let mut state = popup_state();

    let outcome = state.grab_popup_surface(10, true, false, Some(7), 30);

    assert!(!outcome.granted);
    let dismissal = outcome.dismissal.expect("dismissal");
    assert!(dismissal.dismissed);
    assert_eq!(state.popups.nodes[&10].lifecycle, PopupLifecycle::Inert);
    assert_eq!(state.popups.nodes[&11].lifecycle, PopupLifecycle::Inert);
    assert!(state.popups.grab.is_none());
    assert_eq!(state.keyboard_focus, None);
}

#[test]
fn foreign_seat_or_disconnected_client_is_refused() {
    let mut state = popup_state();
    assert!(!state.grab_popup_surface(20, false, true, Some(7), 30).granted);
    assert_eq!(state.popups.nodes[&20].lifecycle, PopupLifecycle::Inert);

    let mut state = popup_state();
    assert!(!state.grab_popup_surface(20, true, true, None, 30).granted);
    assert_eq!(state.popups.nodes[&20].lifecycle, PopupLifecycle::Inert);
}

#[test]
fn grab_of_another_window_dismisses_the_previous_grab_tree() {
    let mut state = popup_state();
    assert!(state.grab_popup_surface(11, true, true, Some(7), 30).granted);

    let outcome = state.grab_popup_surface(20, true, true, Some(7), 31);

    assert!(outcome.granted);
    let dismissal = outcome.dismissal.expect("dismissal");
    let mut unmapped = dismissal.unmap.clone();
    unmapped.sort();
    assert_eq!(unmapped, vec![10, 11]);
    assert_eq!(state.popups.nodes[&10].lifecycle, PopupLifecycle::Inert);
    assert_eq!(state.popups.grab_stack, vec![20]);
    let grab = state.popups.grab.expect("grab");
    assert_eq!(grab.focused_popup_id, 20);
    assert_eq!(grab.owner_root_id, 2);
    assert_eq!(state.keyboard_focus, Some(20));
}

#[test]
fn grab_on_a_dismissed_popup_is_refused() {
    let mut state = popup_state();
    state.dismiss_popup_surface(10);

    let outcome = state.grab_popup_surface(11, true, true, Some(7), 30);

    assert!(!outcome.granted);
    assert!(outcome.dismissal.is_some());
    assert!(state.popups.grab.is_none());
}

#[test]
fn registered_popup_hangs_from_its_parent_popup_and_window() {
    let mut state = popup_state();

    state.register_popup_surface(12, Some(11), false);

    let created = &state.popups.nodes[&12];
    assert_eq!(created.parent, PopupOwner::Popup(11));
    assert_eq!(created.owner_root_id, 1);
    assert_eq!(created.lifecycle, PopupLifecycle::Alive);
    assert!(!created.mapped && !created.configured);
    assert_eq!(state.popups.nodes[&11].children, vec![12]);
    assert_eq!(
        state.popups.surfaces[&12],
        PopupSurface {
            parent_surface_id: Some(11)
        }
    );
}

#[test]
fn registered_popup_of_a_toplevel_belongs_to_that_toplevel() {
    let mut state = CompositorState::default();
    state.register_popup_surface(30, Some(3), false);
    assert_eq!(state.popups.nodes[&30].parent, PopupOwner::Toplevel(3));
    assert_eq!(state.popups.nodes[&30].owner_root_id, 3);

    state.register_popup_surface(31, None, false);
    assert_eq!(state.popups.nodes[&31].parent, PopupOwner::Toplevel(31));
    assert_eq!(state.popups.nodes[&31].owner_root_id, 31);
}

#[test]
fn cursor_surface_cannot_become_a_popup() {
    let mut state = CompositorState::default();
    state.register_popup_surface(30, Some(3), true);
    assert!(state.popups.nodes.is_empty());
    assert!(state.popups.surfaces.is_empty());
}

#[test]
fn registered_popup_of_a_layer_surface_hangs_from_the_layer() {
    let mut state = CompositorState::default();
    state.popups.layer_surfaces.insert(5);
    state.register_popup_surface(40, Some(5), false);
    assert_eq!(state.popups.nodes[&40].parent, PopupOwner::LayerSurface(5));
    assert_eq!(state.popups.nodes[&40].owner_root_id, 5);
}
