use typhon::compositor::CompositorState;
use typhon::popup::{PopupGrab, PopupLifecycle, PopupNode, PopupOwner, PopupSurface};

fn node(parent: PopupOwner) -> PopupNode {
    PopupNode {
        owner_root_id: 1,
        parent,
        children: Vec::new(),
        lifecycle: PopupLifecycle::Alive,
        mapped: true,
        configured: true,
        popup_done_sent: false,
        grab_generation: None,
    }
}

/// Toplevel 1 with popups 10 and 20; 11 and 12 under 10; 13 under 11.
fn tree_state() -> CompositorState {
    let mut state = CompositorState::default();
    assert!(state.attach_popup_node(10, node(PopupOwner::Toplevel(1))));
    assert!(state.attach_popup_node(20, node(PopupOwner::Toplevel(1))));
    assert!(state.attach_popup_node(11, node(PopupOwner::Popup(10))));
    assert!(state.attach_popup_node(12, node(PopupOwner::Popup(10))));
    assert!(state.attach_popup_node(13, node(PopupOwner::Popup(11))));
    for (id, parent) in [(10, 1), (20, 1), (11, 10), (12, 10), (13, 11)] {
        state.popups.surfaces.insert(
            id,
            PopupSurface {
                parent_surface_id: Some(parent),
            },
        );
    }
    state
}

fn sorted(mut ids: Vec<u32>) -> Vec<u32> {
    ids.sort();
    ids
}

#[test]
fn dismissal_makes_the_popup_and_everything_below_it_inert() {
    let mut state = tree_state();

    let dismissal = state.dismiss_popup_surface(10);

    assert!(dismissal.dismissed);
    assert_eq!(sorted(dismissal.unmap.clone()), vec![10, 11, 12, 13]);
    assert_eq!(sorted(dismissal.popup_done.clone()), vec![10, 11, 12, 13]);
    for id in [10, 11, 12, 13] {
        let node = &state.popups.nodes[&id];
        assert_eq!(node.lifecycle, PopupLifecycle::Inert);
        assert!(!node.mapped);
        assert!(node.popup_done_sent);
    }
    assert_eq!(state.popups.nodes[&20].lifecycle, PopupLifecycle::Alive);
    assert!(state.popups.nodes[&20].mapped);
}

#[test]
fn children_are_told_before_their_parent() {
    let mut state = tree_state();

    let dismissal = state.dismiss_popup_surface(10);

    let position = |id: u32| dismissal.popup_done.iter().position(|x| *x == id).unwrap();
    assert!(position(13) < position(11));
    assert!(position(11) < position(10));
    assert!(position(12) < position(10));
}

#[test]
fn dismissing_again_tells_nobody_twice() {
    let mut state = tree_state();
    state.dismiss_popup_surface(11);

    let dismissal = state.dismiss_popup_surface(10);

    assert!(dismissal.dismissed);
    assert_eq!(sorted(dismissal.unmap.clone()), vec![10, 11, 12, 13]);
    assert_eq!(sorted(dismissal.popup_done.clone()), vec![10, 12]);
    let again = state.dismiss_popup_surface(10);
    assert!(again.dismissed);
    assert!(again.popup_done.is_empty());
}

#[test]
fn unknown_or_destroyed_popups_are_not_dismissed() {
    let mut state = tree_state();
    assert!(!state.dismiss_popup_surface(99).dismissed);
    assert!(state.dismiss_popup_surface(99).unmap.is_empty());

    state.popups.nodes.get_mut(&11).unwrap().lifecycle = PopupLifecycle::Destroyed;
    let dismissal = state.dismiss_popup_surface(10);
    assert_eq!(sorted(dismissal.unmap.clone()), vec![10, 12]);
    assert_eq!(state.popups.nodes[&13].lifecycle, PopupLifecycle::Alive);
    assert_eq!(state.popups.nodes[&11].lifecycle, PopupLifecycle::Destroyed);
}

#[test]
fn a_popup_without_its_role_is_not_told() {
    let mut state = tree_state();
    state.popups.surfaces.remove(&12);
    let dismissal = state.dismiss_popup_surface(10);
    assert_eq!(sorted(dismissal.popup_done.clone()), vec![10, 11, 13]);
    assert!(state.popups.nodes[&12].popup_done_sent);
}

#[test]
fn dismissal_ends_a_grab_on_the_dismissed_tree() {
    let mut state = tree_state();
    state.popups.grab = Some(PopupGrab {
        owner_client: 1,
        owner_root_id: 1,
        tree_root_popup_id: 10,
        focused_popup_id: 13,
        serial: 5,
        generation: 1,
    });
    state.popups.grab_stack = vec![10, 20, 13];

    state.dismiss_popup_surface(11);

    assert!(state.popups.grab.is_none());
    assert_eq!(state.popups.grab_stack, vec![10, 20]);
}

#[test]
fn dismissal_leaves_an_unrelated_grab() {
    let mut state = tree_state();
    let grab = PopupGrab {
        owner_client: 1,
        owner_root_id: 2,
        tree_root_popup_id: 20,
        focused_popup_id: 20,
        serial: 5,
        generation: 1,
    };
    state.popups.grab = Some(grab);
    state.popups.grab_stack = vec![20];

    state.dismiss_popup_surface(10);

    assert_eq!(state.popups.grab, Some(grab));
    assert_eq!(state.popups.grab_stack, vec![20]);
}

#[test]
fn dismissing_the_children_of_a_parent_covers_each_child_tree() {
    let mut state = tree_state();

    let dismissal = state.dismiss_popup_children_for_parent(1);

    assert!(dismissal.dismissed);
    assert_eq!(sorted(dismissal.unmap.clone()), vec![10, 11, 12, 13, 20]);
    assert_eq!(sorted(dismissal.popup_done.clone()), vec![10, 11, 12, 13, 20]);

    let nested = state.dismiss_popup_children_for_parent(10);
    assert!(nested.dismissed);
    assert!(nested.popup_done.is_empty());
    let none = state.dismiss_popup_children_for_parent(13);
    assert!(!none.dismissed);
    assert!(none.unmap.is_empty());
}

#[test]
fn only_the_topmost_grabbing_popup_may_be_destroyed() {
    let mut state = tree_state();
    assert!(state.popup_destroy_is_topmost(11));
    state.popups.grab_stack = vec![10, 11];
    assert!(state.popup_destroy_is_topmost(11));
    assert!(!state.popup_destroy_is_topmost(10));
    assert!(state.popup_destroy_is_topmost(20));
}
