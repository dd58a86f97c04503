use typhon::compositor::{
    CompositorState, PointerConstraintMode, PointerPress, RenderGenerationCause, RootWindow,
    ToplevelMode, WindowBackendCommand,
};
use typhon::fixed::Fixed;
use typhon::interaction::{
    BeginWindowInteraction, InteractionCursorOverride, InteractionCursorShape, ResizeInteractionId,
    WindowId, WindowInteraction, WindowInteractionEndReason, WindowInteractionId,
    WindowInteractionKind, WindowInteractionSource,
};
use typhon::resize_flow::{PendingResizeConfigure, ResizeAckDecision, ResizeConfigureFlow};
use typhon::surface::SurfacePlacement;
use typhon::window_geometry::{ResizeEdges, WindowGeometry};
use typhon::x11_interaction::HeldPointerButton;

fn fixed(v: f64) -> Fixed {
    Fixed::from_raw((v * 256.0).round() as i32)
}

fn test_window_interaction(
    id: u64,
    kind: WindowInteractionKind,
    trigger_button: Option<u32>,
) -> WindowInteraction {
    test_window_interaction_with_target(
        id,
        kind,
        WindowInteractionSource::NativeBinding,
        trigger_button,
        None,
    )
}

fn test_window_interaction_with_target(
    id: u64,
    kind: WindowInteractionKind,
    source: WindowInteractionSource,
    trigger_button: Option<u32>,
    pointer_motion_surface_id: Option<u32>,
) -> WindowInteraction {
    WindowInteraction {
        id: WindowInteractionId::new(id),
        window_id: WindowId::new(1),
        root_surface_id: 42,
        kind,
        source,
        trigger_button,
        trigger_serial: None,
        pointer_motion_surface_id,
        start_pointer_x: fixed(100.0),
        start_pointer_y: fixed(100.0),
        start_placement: SurfacePlacement::root_at(10, 20),
        start_width: 300,
        start_height: 200,
        drag_committed: false,
        resize_interaction_id: if matches!(kind, WindowInteractionKind::Resize(_)) {
            Some(ResizeInteractionId::new(id))
        } else {
            None
        },
    }
}

fn test_begin_window_interaction(
    root_surface_id: u32,
    pointer_motion_surface_id: Option<u32>,
    kind: WindowInteractionKind,
    source: WindowInteractionSource,
) -> BeginWindowInteraction {
    BeginWindowInteraction {
        window_id: None,
        root_surface_id,
        x: fixed(100.0),
        y: fixed(100.0),
        kind,
        source,
        trigger_button: None,
        trigger_serial: None,
        pointer_motion_surface_id,
    }
}

fn resize_configure(width: u32, height: u32, placement: SurfacePlacement) -> PendingResizeConfigure {
    PendingResizeConfigure {
        surface_id: 42,
        width,
        height,
        placement,
        edges: ResizeEdges::bottom_right(),
        resizing: true,
        interaction_id: ResizeInteractionId::new(1),
    }
}

fn state_with(interaction: WindowInteraction, shape: Option<InteractionCursorShape>) -> CompositorState {
    CompositorState {
        window_interaction: Some(interaction),
        interaction_cursor_override: shape.map(|shape| InteractionCursorOverride { shape }),
        ..Default::default()
    }
}

fn mapped_root_window() -> RootWindow {
    RootWindow {
        window_id: WindowId::new(1),
        committed: WindowGeometry::new(SurfacePlacement::root_at(10, 20), 300, 200),
        visual: None,
        normal_x11_role: true,
        mode: ToplevelMode::Floating,
        x11_geometry: None,
    }
}

#[test]
fn root_native_interaction_construction_records_root_motion_target() {
    let interaction = test_window_interaction_with_target(
        1,
        WindowInteractionKind::Move,
        WindowInteractionSource::NativeBinding,
        None,
        Some(42),
    );

    assert_eq!(interaction.pointer_motion_surface_id, Some(42));
}

#[test]
fn interaction_debug_snapshot_is_read_only_and_authoritative() {
    let interaction = test_window_interaction_with_target(
        7,
        WindowInteractionKind::Resize(ResizeEdges::bottom_right()),
        WindowInteractionSource::NativeBinding,
        Some(0x111),
        Some(84),
    );
    let snapshot = interaction.debug_snapshot();

    assert_eq!(snapshot.interaction_id, 7);
    assert_eq!(snapshot.resize_interaction_id, Some(7));
    assert_eq!(snapshot.root_surface_id, 42);
    assert_eq!(snapshot.pointer_motion_surface_id, Some(84));
    assert_eq!(snapshot.trigger_button, Some(0x111));
    assert_eq!(snapshot.start_pointer_x, fixed(100.0));
    assert_eq!(snapshot.start_pointer_y, fixed(100.0));
}

#[test]
fn subsurface_native_interaction_construction_records_exact_motion_target() {
    let interaction = test_window_interaction_with_target(
        1,
        WindowInteractionKind::Resize(ResizeEdges::bottom_right()),
        WindowInteractionSource::NativeBinding,
        Some(0x111),
        Some(84),
    );

    assert_eq!(interaction.root_surface_id, 42);
    assert_eq!(interaction.pointer_motion_surface_id, Some(84));
}

#[test]
fn xdg_move_and_resize_construction_records_exact_press_target() {
    let move_interaction = test_window_interaction_with_target(
        1,
        WindowInteractionKind::Move,
        WindowInteractionSource::XdgToplevelMove,
        Some(0x111),
        Some(84),
    );
    let resize_interaction = test_window_interaction_with_target(
        2,
        WindowInteractionKind::Resize(ResizeEdges::bottom_right()),
        WindowInteractionSource::XdgToplevelResize,
        Some(0x112),
        Some(85),
    );

    assert_eq!(move_interaction.pointer_motion_surface_id, Some(84));
    assert_eq!(resize_interaction.pointer_motion_surface_id, Some(85));
}

#[test]
fn server_decoration_construction_has_no_motion_target() {
    let begin = test_begin_window_interaction(
        42,
        None,
        WindowInteractionKind::Resize(ResizeEdges::bottom_right()),
        WindowInteractionSource::NativeBinding,
    );

    assert_eq!(begin.pointer_motion_surface_id, None);
}

#[test]
fn window_interaction_without_target_dispatches_nothing() {
    let mut state = state_with(
        test_window_interaction(1, WindowInteractionKind::Move, None),
        None,
    );

    assert_eq!(
        state.send_window_interaction_pointer_motion(42_000, fixed(120.0), fixed(130.0)),
        0
    );
    assert_eq!(state.last_pointer_motion_usec, None);
}

#[test]
fn failed_begin_with_invalid_motion_target_does_not_capture_interaction() {
    let mut state = CompositorState::default();

    assert!(!state.begin_window_interaction_for_root(test_begin_window_interaction(
        42,
        Some(84),
        WindowInteractionKind::Move,
        WindowInteractionSource::NativeBinding,
    )));

    assert!(!state.window_interaction_active());
}

#[test]
fn stale_interaction_update_is_ignored() {
    let mut state = state_with(
        test_window_interaction(
            2,
            WindowInteractionKind::Resize(ResizeEdges::bottom_right()),
            Some(0x111),
        ),
        None,
    );

    assert!(!state.update_window_interaction_by_id(
        WindowInteractionId::new(1),
        fixed(150.0),
        fixed(150.0)
    ));

    assert!(state.pending_interactive_resize_update.is_none());
}

#[test]
fn stale_interaction_end_is_ignored() {
    let mut state = state_with(
        test_window_interaction(2, WindowInteractionKind::Move, Some(0x110)),
        None,
    );

    assert!(!state.end_window_interaction_by_id_with_reason(
        WindowInteractionId::new(1),
        WindowInteractionEndReason::ExplicitEnd,
    ));

    assert_eq!(
        state.active_window_interaction_id(),
        Some(WindowInteractionId::new(2))
    );
}

#[test]
fn non_trigger_button_release_does_not_end_resize() {
    let mut state = state_with(
        test_window_interaction(
            1,
            WindowInteractionKind::Resize(ResizeEdges::bottom_right()),
            Some(0x111),
        ),
        None,
    );

    assert!(!state.end_window_interaction_for_button(0x110));

    assert!(state.window_interaction_active());
}

#[test]
fn normal_trigger_release_ends_interaction_once() {
    let mut state = state_with(
        test_window_interaction(1, WindowInteractionKind::Move, Some(0x110)),
        None,
    );

    assert!(state.end_window_interaction_for_button(0x110));
    assert!(!state.end_window_interaction_for_button(0x110));
    assert!(!state.window_interaction_active());
}

#[test]
fn interaction_end_does_not_wait_for_resize_ack() {
    let mut flow = ResizeConfigureFlow::default();
    flow.mark_sent(resize_configure(640, 480, SurfacePlacement::root_at(20, 30)), 10, 1);
    let mut state = CompositorState {
        window_interaction: Some(test_window_interaction(
            1,
            WindowInteractionKind::Resize(ResizeEdges::bottom_right()),
            Some(0x111),
        )),
        resize_configure_flows: [(42, flow)].into_iter().collect(),
        ..Default::default()
    };

    assert!(state.end_window_interaction_for_button(0x111));
    assert!(!state.window_interaction_active());
    assert_eq!(
        state.resize_configure_flows[&42].in_flight_configure_count(),
        1
    );
}

#[test]
fn interaction_end_does_not_wait_for_resize_commit() {
    let mut flow = ResizeConfigureFlow::default();
    flow.mark_sent(resize_configure(640, 480, SurfacePlacement::root_at(20, 30)), 10, 1);
    assert_eq!(flow.ack(10), ResizeAckDecision::Matched);
    assert!(flow.capture(1).is_some());
    let mut state = CompositorState {
        window_interaction: Some(test_window_interaction(
            1,
            WindowInteractionKind::Resize(ResizeEdges::bottom_right()),
            Some(0x111),
        )),
        resize_configure_flows: [(42, flow)].into_iter().collect(),
        ..Default::default()
    };

    assert!(state.end_window_interaction_for_button(0x111));
    assert!(!state.window_interaction_active());
    assert_eq!(state.resize_configure_flows[&42].captured_count(), 1);
}

#[test]
fn new_move_can_begin_after_resize_release_with_outstanding_protocol_work() {
    let mut flow = ResizeConfigureFlow::default();
    flow.mark_sent(resize_configure(640, 480, SurfacePlacement::root_at(20, 30)), 10, 1);
    let mut state = CompositorState {
        window_interaction: Some(test_window_interaction(
            1,
            WindowInteractionKind::Resize(ResizeEdges::bottom_right()),
            Some(0x111),
        )),
        resize_configure_flows: [(42, flow)].into_iter().collect(),
        ..Default::default()
    };

    assert!(state.end_window_interaction_for_button(0x111));
    assert!(state.resize_configure_flows[&42].has_in_flight());
    assert!(!state.window_interaction_active());
}

#[test]
fn xdg_resize_trigger_button_release_ends_interaction() {
    let mut state = state_with(
        test_window_interaction(
            1,
            WindowInteractionKind::Resize(ResizeEdges::bottom_right()),
            Some(0x110),
        ),
        None,
    );

    assert!(state.end_window_interaction_for_button(0x110));

    assert!(!state.window_interaction_active());
}

#[test]
fn consumed_trigger_release_is_detected_by_reconciliation() {
    let mut state = state_with(
        test_window_interaction(
            1,
            WindowInteractionKind::Resize(ResizeEdges::bottom_right()),
            Some(0x111),
        ),
        None,
    );

    assert!(state.reconcile_window_interaction_trigger(false));
    assert!(!state.window_interaction_active());
}

#[test]
fn trigger_reconciliation_keeps_valid_held_interaction() {
    let mut state = state_with(
        test_window_interaction(
            1,
            WindowInteractionKind::Resize(ResizeEdges::bottom_right()),
            Some(0x111),
        ),
        None,
    );

    assert!(!state.reconcile_window_interaction_trigger(true));
    assert!(state.window_interaction_active());
}

#[test]
fn session_suspend_cancels_active_window_interaction() {
    let mut state = state_with(
        test_window_interaction(
            1,
            WindowInteractionKind::Resize(ResizeEdges::bottom_right()),
            Some(0x111),
        ),
        Some(InteractionCursorShape::ResizeDiagonalNwSe),
    );

    assert!(state.clear_window_interaction_state(WindowInteractionEndReason::SessionSuspended));
    assert!(!state.window_interaction_active());
    assert!(state.interaction_cursor_override.is_none());
}

#[test]
fn surface_destroy_cancels_active_window_interaction() {
    let mut state = state_with(
        test_window_interaction_with_target(
            1,
            WindowInteractionKind::Move,
            WindowInteractionSource::NativeBinding,
            Some(0x110),
            Some(42),
        ),
        Some(InteractionCursorShape::Move),
    );

    state.clear_resize_state_for_surfaces(&[42]);

    assert!(!state.window_interaction_active());
    assert!(state.interaction_cursor_override.is_none());
}

#[test]
fn interaction_cursor_shape_maps_every_window_resize_edge() {
    let shape = |kind| InteractionCursorShape::for_window_interaction(kind);
    let resize = |top, bottom, left, right| {
        WindowInteractionKind::Resize(ResizeEdges::new(top, bottom, left, right))
    };
    assert_eq!(shape(WindowInteractionKind::Move), InteractionCursorShape::Move);
    assert_eq!(
        shape(resize(false, false, true, false)),
        InteractionCursorShape::ResizeHorizontal
    );
    assert_eq!(
        shape(resize(false, false, false, true)),
        InteractionCursorShape::ResizeHorizontal
    );
    assert_eq!(
        shape(resize(true, false, false, false)),
        InteractionCursorShape::ResizeVertical
    );
    assert_eq!(
        shape(resize(false, true, false, false)),
        InteractionCursorShape::ResizeVertical
    );
    assert_eq!(
        shape(resize(true, false, true, false)),
        InteractionCursorShape::ResizeDiagonalNwSe
    );
    assert_eq!(
        shape(WindowInteractionKind::Resize(ResizeEdges::bottom_right())),
        InteractionCursorShape::ResizeDiagonalNwSe
    );
    assert_eq!(
        shape(resize(true, false, false, true)),
        InteractionCursorShape::ResizeDiagonalNeSw
    );
    assert_eq!(
        shape(resize(false, true, true, false)),
        InteractionCursorShape::ResizeDiagonalNeSw
    );
}

#[test]
fn ending_window_interaction_clears_cursor_override_and_only_advances_cursor_generation() {
    let mut state = state_with(
        test_window_interaction_with_target(
            1,
            WindowInteractionKind::Move,
            WindowInteractionSource::NativeBinding,
            Some(0x110),
            Some(42),
        ),
        Some(InteractionCursorShape::Move),
    );
    let before_render_generation = state.render_generation;
    let before_scene_generation = state.scene_render_generation;

    assert!(state.end_window_interaction_for_button(0x110));

    assert!(state.interaction_cursor_override.is_none());
    assert!(state.render_generation > before_render_generation);
    assert_eq!(state.scene_render_generation, before_scene_generation);
    assert_eq!(
        state.render_generation_cause,
        RenderGenerationCause::CursorState
    );
}

#[test]
fn interaction_cursor_motion_advances_cursor_generation_only() {
    let mut state = state_with(
        test_window_interaction(1, WindowInteractionKind::Move, Some(0x110)),
        Some(InteractionCursorShape::Move),
    );
    let before_render_generation = state.render_generation;
    let before_cursor_generation = state.cursor_generation;
    let before_scene_generation = state.scene_render_generation;

    assert!(state.update_pointer_position_without_client_dispatch(fixed(150.0), fixed(125.0)));

    assert_eq!(state.render_generation, before_render_generation);
    assert!(state.cursor_generation > before_cursor_generation);
    assert_eq!(state.scene_render_generation, before_scene_generation);
}

#[test]
fn fullscreen_transition_clears_interaction_cursor_override() {
    let mut state = state_with(
        test_window_interaction_with_target(
            1,
            WindowInteractionKind::Resize(ResizeEdges::bottom_right()),
            WindowInteractionSource::NativeBinding,
            Some(0x110),
            Some(42),
        ),
        Some(InteractionCursorShape::ResizeDiagonalNwSe),
    );

    state.clear_resize_state_for_surfaces(&[42]);

    assert!(!state.window_interaction_active());
    assert!(state.interaction_cursor_override.is_none());
}

#[test]
fn maximize_transition_clears_interaction_cursor_override() {
    let mut state = state_with(
        test_window_interaction_with_target(
            1,
            WindowInteractionKind::Resize(ResizeEdges::bottom_right()),
            WindowInteractionSource::NativeBinding,
            Some(0x110),
            Some(42),
        ),
        Some(InteractionCursorShape::ResizeDiagonalNwSe),
    );

    state.clear_resize_state_for_surfaces(&[42]);

    assert!(!state.window_interaction_active());
    assert!(state.interaction_cursor_override.is_none());
}

#[test]
fn client_disconnect_cleanup_path_clears_interaction_cursor_override() {
    let mut state = state_with(
        test_window_interaction_with_target(
            1,
            WindowInteractionKind::Move,
            WindowInteractionSource::NativeBinding,
            Some(0x110),
            Some(42),
        ),
        Some(InteractionCursorShape::Move),
    );

    state.clear_resize_state_for_surfaces(&[42]);

    assert!(!state.window_interaction_active());
    assert!(state.interaction_cursor_override.is_none());
}

#[test]
fn explicit_interaction_cancel_clears_interaction_cursor_override() {
    let mut state = state_with(
        test_window_interaction(1, WindowInteractionKind::Move, Some(0x110)),
        Some(InteractionCursorShape::Move),
    );

    assert!(state.clear_window_interaction_state(WindowInteractionEndReason::ExplicitCancel));
    assert!(!state.window_interaction_active());
    assert!(state.interaction_cursor_override.is_none());
}

#[test]
fn focus_loss_clears_interaction_cursor_override() {
    let mut state = state_with(
        test_window_interaction(1, WindowInteractionKind::Move, Some(0x110)),
        Some(InteractionCursorShape::Move),
    );

    state.clear_pointer_focus();

    assert!(!state.window_interaction_active());
    assert!(state.interaction_cursor_override.is_none());
}

#[test]
fn pointer_constraint_cleanup_remains_correct() {
    let mut state = state_with(
        test_window_interaction(1, WindowInteractionKind::Move, Some(0x110)),
        Some(InteractionCursorShape::Move),
    );
    state
        .pointer_constraint
        .activate(PointerConstraintMode::Confined, 42);

    assert!(state.clear_window_interaction_state(WindowInteractionEndReason::ExplicitCancel));

    assert!(state.interaction_cursor_override.is_none());
    assert_eq!(
        state.pointer_constraint.mode(),
        PointerConstraintMode::Confined
    );
}

#[test]
fn begin_on_mapped_root_records_start_geometry_and_cursor() {
    let mut state = CompositorState::default();
    state.root_windows.insert(42, mapped_root_window());

    assert!(state.begin_window_interaction_for_root(test_begin_window_interaction(
        42,
        None,
        WindowInteractionKind::Resize(ResizeEdges::bottom_right()),
        WindowInteractionSource::NativeBinding,
    )));

    let interaction = state.window_interaction.expect("interaction");
    assert_eq!(interaction.start_placement, SurfacePlacement::root_at(10, 20));
    assert_eq!(interaction.start_width, 300);
    assert_eq!(interaction.start_height, 200);
    assert!(interaction.resize_interaction_id.is_some());
    assert_eq!(
        state.interaction_cursor_override,
        Some(InteractionCursorOverride {
            shape: InteractionCursorShape::ResizeDiagonalNwSe
        })
    );
    assert_eq!(state.keyboard_focus, Some(42));
    assert_eq!(state.resize_flow_metrics.resize_interactions_started, 1);
}

#[test]
fn second_begin_is_refused_while_an_interaction_is_active() {
    let mut state = state_with(
        test_window_interaction(
            1,
            WindowInteractionKind::Resize(ResizeEdges::bottom_right()),
            Some(0x111),
        ),
        None,
    );
    state.root_windows.insert(42, mapped_root_window());

    assert!(!state.begin_window_interaction_for_root(test_begin_window_interaction(
        42,
        None,
        WindowInteractionKind::Move,
        WindowInteractionSource::NativeBinding,
    )));
    assert!(matches!(
        state.window_interaction.map(|interaction| interaction.kind),
        Some(WindowInteractionKind::Resize(_))
    ));
}

#[test]
fn locked_pointer_refuses_begin_without_cursor_override() {
    let mut state = CompositorState::default();
    state.root_windows.insert(42, mapped_root_window());
    state
        .pointer_constraint
        .activate(PointerConstraintMode::Locked, 42);

    assert!(!state.begin_window_interaction_for_root(test_begin_window_interaction(
        42,
        None,
        WindowInteractionKind::Move,
        WindowInteractionSource::NativeBinding,
    )));
    assert!(state.interaction_cursor_override.is_none());
}

#[test]
fn move_update_places_window_by_rounded_pointer_delta() {
    let mut state = state_with(
        test_window_interaction(1, WindowInteractionKind::Move, Some(0x110)),
        None,
    );

    assert!(state.update_window_interaction_by_id(
        WindowInteractionId::new(1),
        fixed(130.5),
        fixed(90.25)
    ));

    assert_eq!(
        state.surface_placement(42),
        SurfacePlacement::root_at(10 + 31, 20 - 10)
    );
    assert_eq!(state.take_backend_commands().len(), 1);
}

#[test]
fn x11_move_request_rides_on_the_latest_held_button_of_the_window() {
    let mut state = CompositorState::default();
    state.root_windows.insert(42, mapped_root_window());
    state.surface_roots.insert(84, 42);
    state.held_pointer_buttons = vec![
        HeldPointerButton {
            root_surface_id: 42,
            surface_id: 42,
            button: 0x111,
        },
        HeldPointerButton {
            root_surface_id: 42,
            surface_id: 84,
            button: 0x110,
        },
        HeldPointerButton {
            root_surface_id: 7,
            surface_id: 7,
            button: 0x110,
        },
    ];

    assert!(state.begin_x11_client_window_interaction(
        WindowId::new(1),
        42,
        fixed(5.0),
        fixed(6.0),
        WindowInteractionKind::Move,
        0,
    ));
    let interaction = state.window_interaction.expect("interaction");
    assert_eq!(interaction.trigger_button, Some(0x110));
    assert_eq!(interaction.pointer_motion_surface_id, Some(84));
    assert_eq!(interaction.source, WindowInteractionSource::X11NetWmMoveResize);

    assert!(!state.cancel_x11_client_window_interaction(WindowId::new(2)));
    assert!(state.cancel_x11_client_window_interaction(WindowId::new(1)));
    assert!(!state.window_interaction_active());
}

#[test]
fn x11_request_for_a_button_not_held_starts_nothing() {
    let mut state = CompositorState::default();
    state.root_windows.insert(42, mapped_root_window());
    state.held_pointer_buttons = vec![HeldPointerButton {
        root_surface_id: 42,
        surface_id: 42,
        button: 0x110,
    }];

    assert!(!state.begin_x11_client_window_interaction(
        WindowId::new(1),
        42,
        fixed(5.0),
        fixed(6.0),
        WindowInteractionKind::Move,
        3,
    ));
    assert!(!state.window_interaction_active());
    assert!(state.begin_x11_client_window_interaction(
        WindowId::new(1),
        42,
        fixed(5.0),
        fixed(6.0),
        WindowInteractionKind::Resize(ResizeEdges::bottom_right()),
        1,
    ));
}

#[test]
fn failed_begin_does_not_capture_native_input() {
    let mut state = CompositorState::default();

    assert!(!state.begin_window_resize_at_with_trigger(fixed(100.0), fixed(100.0), None, None, 0x111));

    assert!(!state.window_interaction_active());
}

#[test]
fn active_resize_rejects_begin_move() {
    let mut state = CompositorState::default();
    state.window_interaction = Some(test_window_interaction(
        1,
        WindowInteractionKind::Resize(ResizeEdges::bottom_right()),
        Some(0x111),
    ));

    assert!(!state.begin_window_interaction_at(
        fixed(100.0),
        fixed(100.0),
        None,
        WindowInteractionKind::Move,
        WindowInteractionSource::NativeBinding,
        Some(0x110),
        None,
    ));

    assert!(matches!(
        state.window_interaction.map(|interaction| interaction.kind),
        Some(WindowInteractionKind::Resize(_))
    ));
}

#[test]
fn active_move_rejects_begin_resize() {
    let mut state = CompositorState::default();
    state.window_interaction = Some(test_window_interaction(
        1,
        WindowInteractionKind::Move,
        Some(0x110),
    ));

    assert!(!state.begin_window_interaction_at(
        fixed(100.0),
        fixed(100.0),
        None,
        WindowInteractionKind::Resize(ResizeEdges::bottom_right()),
        WindowInteractionSource::NativeBinding,
        Some(0x111),
        None,
    ));

    assert_eq!(
        state.window_interaction.map(|interaction| interaction.kind),
        Some(WindowInteractionKind::Move)
    );
}

#[test]
fn failed_interaction_begin_does_not_activate_cursor_override() {
    let mut state = CompositorState::default();

    assert!(!state.begin_window_resize_at_with_trigger(fixed(100.0), fixed(100.0), None, None, 0x111));

    assert!(state.interaction_cursor_override.is_none());
}

#[test]
fn locked_client_rejects_window_interaction_begin_without_cursor_override() {
    let mut state = CompositorState::default();
    state
        .pointer_constraint
        .activate(PointerConstraintMode::Locked, 42);

    assert!(!state.begin_window_interaction_at(
        fixed(100.0),
        fixed(100.0),
        None,
        WindowInteractionKind::Move,
        WindowInteractionSource::NativeBinding,
        Some(0x110),
        None,
    ));
    assert!(state.interaction_cursor_override.is_none());
}

#[test]
fn resize_under_the_pointer_drags_the_pointed_edges_of_the_surface_root() {
    let mut state = CompositorState::default();
    state.root_windows.insert(42, mapped_root_window());
    state.surface_roots.insert(43, 42);

    assert!(state.begin_window_resize_at_with_trigger(
        fixed(120.0),
        fixed(90.0),
        Some(43),
        Some(ResizeEdges::new(true, false, true, false)),
        0,
    ));
    let interaction = state.window_interaction.expect("resize");
    assert_eq!(interaction.root_surface_id, 42);
    assert_eq!(interaction.pointer_motion_surface_id, Some(43));
    assert_eq!(
        interaction.kind,
        WindowInteractionKind::Resize(ResizeEdges::new(true, false, true, false))
    );
    assert_eq!(interaction.trigger_button, None);
    assert_eq!(state.keyboard_focus, Some(42));
}

#[test]
fn resize_without_a_pointed_edge_drags_the_bottom_right_corner() {
    let mut state = CompositorState::default();
    state.root_windows.insert(42, mapped_root_window());

    assert!(state.begin_window_resize_at_with_trigger(fixed(120.0), fixed(90.0), Some(42), None, 0x111));
    let interaction = state.window_interaction.expect("resize");
    assert_eq!(
        interaction.kind,
        WindowInteractionKind::Resize(ResizeEdges::bottom_right())
    );
    assert_eq!(interaction.trigger_button, Some(0x111));
}

#[test]
fn move_under_the_pointer_is_refused_over_an_unknown_surface() {
    let mut state = CompositorState::default();
    state.root_windows.insert(42, mapped_root_window());
    assert!(!state.begin_window_move_at(fixed(1.0), fixed(1.0), Some(77)));
    assert!(state.begin_window_move_at_with_trigger(fixed(1.0), fixed(1.0), Some(42), 0x110));
    assert_eq!(state.active_window_interaction_trigger_button(), Some(0x110));
}

#[test]
fn update_follows_the_active_interaction() {
    let mut idle = CompositorState::default();
    assert!(!idle.update_window_interaction(fixed(5.0), fixed(5.0)));

    let mut state = state_with(
        test_window_interaction(1, WindowInteractionKind::Move, Some(0x110)),
        None,
    );
    assert!(state.update_window_interaction(fixed(99.4), fixed(101.6)));
    assert_eq!(
        state.surface_placement(42),
        SurfacePlacement::root_at(10 - 1, 20 + 2)
    );
    assert!(!state.update_window_interaction(fixed(99.4), fixed(101.6)));
}

#[test]
fn native_resize_without_a_trigger_is_not_tied_to_a_button() {
    let mut state = CompositorState::default();
    state.root_windows.insert(42, mapped_root_window());
    assert!(!state.begin_window_resize_at(fixed(1.0), fixed(1.0), None, None));
    assert!(state.begin_window_resize_at(fixed(1.0), fixed(1.0), Some(42), None));
    let interaction = state.window_interaction.expect("resize");
    assert_eq!(interaction.trigger_button, None);
    assert_eq!(
        interaction.kind,
        WindowInteractionKind::Resize(ResizeEdges::bottom_right())
    );
}

#[test]
fn resize_update_records_target_geometry_and_counts_updates() {
    let edges = ResizeEdges::bottom_right();
    let mut state = state_with(
        test_window_interaction(3, WindowInteractionKind::Resize(edges), Some(0x110)),
        None,
    );
    // Below the threshold on both dragged axes nothing happens.
    assert!(!state.update_window_interaction(fixed(100.2), fixed(99.8)));
    assert!(state.pending_interactive_resize_update.is_none());
    assert_eq!(state.resize_flow_metrics.raw_pointer_resize_updates, 0);

    assert!(state.update_window_interaction(fixed(130.0), fixed(90.0)));
    let update = state.pending_interactive_resize_update.expect("update");
    assert_eq!(update.root_surface_id, 42);
    assert_eq!((update.width, update.height), (330, 190));
    assert_eq!(update.placement, SurfacePlacement::root_at(10, 20));
    assert_eq!(update.interaction_id, ResizeInteractionId::new(3));
    assert!(state.window_interaction.expect("active").drag_committed);
    assert_eq!(state.resize_flow_metrics.raw_pointer_resize_updates, 1);
    assert_eq!(state.resize_flow_metrics.pending_resize_updates_replaced, 0);

    // The same target again is skipped and counted as unchanged.
    assert!(!state.update_window_interaction(fixed(130.0), fixed(90.0)));
    assert_eq!(state.resize_flow_metrics.raw_pointer_resize_updates, 2);
    assert_eq!(state.resize_flow_metrics.resize_updates_skipped_unchanged, 1);

    // A new target replaces the pending one.
    assert!(state.update_window_interaction(fixed(140.0), fixed(90.0)));
    assert_eq!(state.pending_interactive_resize_update.expect("update").width, 340);
    assert_eq!(state.resize_flow_metrics.pending_resize_updates_replaced, 1);
}

fn press_on_root(serial: u32, client_id: u64) -> PointerPress {
    PointerPress {
        root_surface_id: 42,
        surface_id: 42,
        client_id,
        serial,
        button: 0x110,
        output_x: fixed(120.5),
        output_y: fixed(80.0),
    }
}

#[test]
fn client_move_starts_at_the_matching_press() {
    let mut state = CompositorState::default();
    state.root_windows.insert(42, mapped_root_window());
    state.last_pointer_press = Some(press_on_root(7, 3));

    assert!(state.begin_client_window_move(42, 3, 7));
    let interaction = state.window_interaction.expect("move");
    assert_eq!(interaction.kind, WindowInteractionKind::Move);
    assert_eq!(interaction.source, WindowInteractionSource::XdgToplevelMove);
    assert_eq!(interaction.trigger_button, Some(0x110));
    assert_eq!(interaction.trigger_serial, Some(7));
    assert_eq!(interaction.start_pointer_x, fixed(120.5));
    assert_eq!(interaction.start_pointer_y, fixed(80.0));
    assert_eq!(interaction.pointer_motion_surface_id, Some(42));
    assert_eq!(interaction.window_id, WindowId::new(1));
}

#[test]
fn client_resize_with_a_stale_serial_is_refused() {
    let mut state = CompositorState::default();
    state.root_windows.insert(42, mapped_root_window());
    state.last_pointer_press = Some(press_on_root(7, 3));

    assert!(!state.begin_client_window_resize(42, 3, 6, ResizeEdges::bottom_right()));
    assert!(state.window_interaction.is_none());
    assert!(state.begin_client_window_resize(42, 3, 7, ResizeEdges::bottom_right()));
    assert_eq!(
        state.window_interaction.expect("resize").kind,
        WindowInteractionKind::Resize(ResizeEdges::bottom_right())
    );
}

#[test]
fn client_request_needs_a_press_on_its_window_or_by_itself() {
    let mut state = CompositorState::default();
    state.root_windows.insert(42, mapped_root_window());
    state.root_windows.insert(
        50,
        RootWindow {
            window_id: WindowId::new(2),
            ..mapped_root_window()
        },
    );
    state.last_pointer_press = Some(press_on_root(7, 3));

    // Another client's window, with a press it did not make.
    assert!(!state.begin_client_window_move(50, 4, 7));
    assert!(state.window_interaction.is_none());
    // No press at all.
    let mut idle = CompositorState::default();
    idle.root_windows.insert(42, mapped_root_window());
    assert!(!idle.begin_client_window_move(42, 3, 7));
}

#[test]
fn begin_hands_out_the_next_ids_and_counts_a_rapid_re_resize() {
    let mut state = CompositorState::default();
    state.root_windows.insert(42, mapped_root_window());
    state.visual.active_toplevel_resizes.insert(
        42,
        typhon::xwayland_visual::ActiveToplevelResize {
            interaction_id: ResizeInteractionId::new(9),
            flow_sequence: 1,
            edges: ResizeEdges::bottom_right(),
            activated_at_ms: 0,
        },
    );

    assert!(state.begin_window_interaction_for_root(test_begin_window_interaction(
        42,
        None,
        WindowInteractionKind::Resize(ResizeEdges::bottom_right()),
        WindowInteractionSource::NativeBinding,
    )));

    let interaction = state.window_interaction.expect("resize");
    assert_eq!(interaction.id, WindowInteractionId::new(1));
    assert_eq!(interaction.resize_interaction_id, Some(ResizeInteractionId::new(1)));
    assert_eq!(state.next_window_interaction_id, 1);
    assert_eq!(state.next_resize_interaction_id, 1);
    assert_eq!(state.resize_flow_metrics.resize_interactions_started, 1);
    assert_eq!(state.resize_flow_metrics.visual_geometry_resize_starts, 1);
    assert_eq!(state.resize_flow_metrics.rapid_reresize_interactions, 1);
    assert_eq!(state.keyboard_focus, Some(42));
}

#[test]
fn refused_begin_on_a_new_state_leaves_every_counter_at_zero() {
    let mut state = CompositorState::default();
    assert!(!state.begin_window_interaction_for_root(test_begin_window_interaction(
        42,
        Some(84),
        WindowInteractionKind::Move,
        WindowInteractionSource::NativeBinding,
    )));
    assert!(!state.window_interaction_active());
    assert!(state.interaction_cursor_override.is_none());
    assert_eq!(state.next_window_interaction_id, 0);
    assert_eq!(state.resize_flow_metrics.resize_interactions_started, 0);
}

#[test]
fn absolute_x11_move_preserves_root_placement_mode() {
    let surface_id = 42;
    let mut state = CompositorState::default();
    state.root_windows.insert(
        surface_id,
        RootWindow {
            mode: ToplevelMode::Maximized,
            ..mapped_root_window()
        },
    );
    state.set_surface_placement_with_cause(
        surface_id,
        SurfacePlacement::absolute_root_at(10, 20),
        RenderGenerationCause::WindowMove,
    );
    let mut interaction = test_window_interaction(1, WindowInteractionKind::Move, None);
    interaction.start_placement = SurfacePlacement::absolute_root_at(10, 20);
    state.window_interaction = Some(interaction);

    assert!(state.update_window_interaction_by_id(interaction.id, fixed(125.0), fixed(135.0)));

    let expected = SurfacePlacement::absolute_root_at(35, 55);
    assert_eq!(state.surface_placement(surface_id), expected);
    assert_eq!(
        state.take_backend_commands(),
        vec![WindowBackendCommand::Configure {
            window: WindowId::new(1),
            geometry: WindowGeometry::new(expected, 300, 200),
            mode: ToplevelMode::Maximized,
            resizing: false,
        }]
    );
}

#[test]
fn explicit_end_of_a_committed_resize_queues_its_final_configure_and_drops_the_cursor() {
    let mut interaction = test_window_interaction_with_target(
        1,
        WindowInteractionKind::Resize(ResizeEdges::bottom_right()),
        WindowInteractionSource::NativeBinding,
        Some(0x110),
        Some(42),
    );
    interaction.drag_committed = true;
    interaction.resize_interaction_id = Some(ResizeInteractionId::new(7));
    let mut state = state_with(interaction, Some(InteractionCursorShape::Move));

    state.end_window_interaction();

    assert!(state.window_interaction.is_none());
    assert!(state.interaction_cursor_override.is_none());
    assert_eq!(state.resize_end_requests.len(), 1);
    assert_eq!(state.resize_end_requests[0].root_surface_id, 42);
    assert_eq!(state.resize_end_requests[0].interaction_id, ResizeInteractionId::new(7));
    assert_eq!(state.render_generation_cause, RenderGenerationCause::CursorState);
}
