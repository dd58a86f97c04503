use typhon::compositor::{CompositorState, RenderGenerationCause, RootWindow, ToplevelMode};
use typhon::decoration::{
    effective_x11_decoration_mode, is_double_click, resize_edges_for_decoration_edge,
    DecorationButtonCapture, DecorationButtonKind, DecorationHit, DecorationMode,
    DecorationResizeEdge, DecorationWindowAction, PointerSceneHit, TitlebarClick,
    TitlebarClickCapture, X11DecorationHints, X11FrameExtents, LEFT_BUTTON,
};
use typhon::fixed::Fixed;
use typhon::interaction::{WindowId, WindowInteractionKind};
use typhon::surface::SurfacePlacement;
use typhon::window_geometry::{ResizeEdges, WindowGeometry};

fn window() -> WindowId {
    WindowId::new(3)
}

fn hit(hit: DecorationHit) -> Option<PointerSceneHit> {
    Some(PointerSceneHit::Decoration {
        window_id: window(),
        root_surface_id: 42,
        hit,
    })
}

fn state_with_window() -> CompositorState {
    let mut state = CompositorState::default();
    state.root_windows.insert(
        42,
        RootWindow {
            window_id: window(),
            committed: WindowGeometry::new(SurfacePlacement::root_at(10, 20), 300, 200),
            visual: None,
            normal_x11_role: true,
            mode: ToplevelMode::Floating,
            x11_geometry: None,
        },
    );
    state.pointer_x = Fixed::from_int(50);
    state.pointer_y = Fixed::from_int(30);
    state
}

#[test]
fn frame_edges_map_to_the_dragged_window_edges() {
    assert_eq!(
        resize_edges_for_decoration_edge(DecorationResizeEdge::Top),
        ResizeEdges::new(true, false, false, false)
    );
    assert_eq!(
        resize_edges_for_decoration_edge(DecorationResizeEdge::BottomLeft),
        ResizeEdges::new(false, true, true, false)
    );
    assert_eq!(
        resize_edges_for_decoration_edge(DecorationResizeEdge::TopRight),
        ResizeEdges::new(true, false, false, true)
    );
    assert_eq!(
        resize_edges_for_decoration_edge(DecorationResizeEdge::Right),
        ResizeEdges::new(false, false, false, true)
    );
}

#[test]
fn titlebar_press_starts_a_move_and_remembers_the_click() {
    let mut state = state_with_window();

    assert_eq!(
        state.handle_decoration_button_with_hit(hit(DecorationHit::Titlebar), LEFT_BUTTON, true, 1_000),
        (true, DecorationWindowAction::NoAction)
    );

    let interaction = state.window_interaction.expect("move");
    assert_eq!(interaction.kind, WindowInteractionKind::Move);
    assert_eq!(interaction.trigger_button, Some(LEFT_BUTTON));
    assert_eq!(interaction.start_pointer_x, Fixed::from_int(50));
    assert_eq!(interaction.start_pointer_y, Fixed::from_int(30));
    assert_eq!(interaction.start_placement, SurfacePlacement::root_at(10, 20));
    assert_eq!(state.keyboard_focus, Some(42));
    assert_eq!(
        state.decoration.last_titlebar_click,
        Some(TitlebarClick {
            window_id: window(),
            time_ms: 1_000,
            x: Fixed::from_int(50),
            y: Fixed::from_int(30),
        })
    );
}

#[test]
fn second_nearby_titlebar_press_toggles_maximize_and_swallows_its_release() {
    let mut state = state_with_window();
    state.handle_decoration_button_with_hit(hit(DecorationHit::Titlebar), LEFT_BUTTON, true, 1_000);
    state.end_window_interaction_for_button(LEFT_BUTTON);
    state.pointer_x = Fixed::from_int(53);

    assert_eq!(
        state.handle_decoration_button_with_hit(hit(DecorationHit::Titlebar), LEFT_BUTTON, true, 1_400),
        (true, DecorationWindowAction::ToggleMaximize(window()))
    );
    assert!(state.decoration.last_titlebar_click.is_none());
    assert!(!state.window_interaction_active());

    assert_eq!(
        state.handle_decoration_button_with_hit(hit(DecorationHit::Titlebar), LEFT_BUTTON, false, 1_450),
        (true, DecorationWindowAction::NoAction)
    );
    assert!(state.decoration.titlebar_click_capture.is_none());
}

#[test]
fn titlebar_double_click_requires_time_and_spatial_proximity() {
    let prior = Some(TitlebarClick {
        window_id: window(),
        time_ms: 1_000,
        x: Fixed::from_int(50),
        y: Fixed::from_int(30),
    });
    assert!(is_double_click(prior, window(), 1_500, Fixed::from_int(58), Fixed::from_int(30)));
    assert!(!is_double_click(prior, window(), 1_501, Fixed::from_int(50), Fixed::from_int(30)));
    assert!(!is_double_click(prior, window(), 1_100, Fixed::from_int(59), Fixed::from_int(30)));
    assert!(!is_double_click(prior, window(), 1_100, Fixed::from_int(56), Fixed::from_int(36)));
    assert!(!is_double_click(prior, WindowId::new(4), 1_100, Fixed::from_int(50), Fixed::from_int(30)));
    assert!(!is_double_click(None, window(), 1_100, Fixed::from_int(50), Fixed::from_int(30)));
}

#[test]
fn button_acts_only_when_released_over_itself() {
    let mut state = state_with_window();
    let generation = state.render_generation;

    assert_eq!(
        state.handle_decoration_button_with_hit(
            hit(DecorationHit::Button(DecorationButtonKind::Close)),
            LEFT_BUTTON,
            true,
            0
        ),
        (true, DecorationWindowAction::Activate(window()))
    );
    assert_eq!(
        state.decoration.button_capture,
        Some(DecorationButtonCapture {
            window_id: window(),
            root_surface_id: 42,
            kind: DecorationButtonKind::Close,
            button: LEFT_BUTTON,
        })
    );
    assert_eq!(
        state.handle_decoration_button_with_hit(
            hit(DecorationHit::Button(DecorationButtonKind::Close)),
            LEFT_BUTTON,
            false,
            0
        ),
        (true, DecorationWindowAction::Close(window()))
    );
    assert!(state.decoration.button_capture.is_none());
    assert!(state.render_generation > generation);
    assert_eq!(
        state.render_generation_cause,
        RenderGenerationCause::WindowDecoration
    );

    state.handle_decoration_button_with_hit(
        hit(DecorationHit::Button(DecorationButtonKind::Minimize)),
        LEFT_BUTTON,
        true,
        0,
    );
    assert_eq!(
        state.handle_decoration_button_with_hit(
            hit(DecorationHit::Button(DecorationButtonKind::Close)),
            LEFT_BUTTON,
            false,
            0
        ),
        (true, DecorationWindowAction::NoAction)
    );
}

#[test]
fn frame_edge_press_starts_a_resize_of_that_edge() {
    let mut state = state_with_window();

    assert_eq!(
        state.handle_decoration_button_with_hit(
            hit(DecorationHit::Resize(DecorationResizeEdge::Left)),
            LEFT_BUTTON,
            true,
            0
        ),
        (true, DecorationWindowAction::Activate(window()))
    );
    assert_eq!(
        state.window_interaction.map(|i| i.kind),
        Some(WindowInteractionKind::Resize(ResizeEdges::new(false, false, true, false)))
    );
}

#[test]
fn presses_off_the_decoration_or_with_other_buttons() {
    let mut state = state_with_window();

    assert_eq!(
        state.handle_decoration_button_with_hit(Some(PointerSceneHit::Client), LEFT_BUTTON, true, 0),
        (false, DecorationWindowAction::NoAction)
    );
    assert_eq!(
        state.handle_decoration_button_with_hit(hit(DecorationHit::Titlebar), 0x111, true, 0),
        (true, DecorationWindowAction::NoAction)
    );
    assert!(!state.window_interaction_active());
    assert_eq!(
        state.handle_decoration_button_with_hit(hit(DecorationHit::Titlebar), LEFT_BUTTON, false, 0),
        (true, DecorationWindowAction::NoAction)
    );
    assert_eq!(
        state.handle_decoration_button_with_hit(Some(PointerSceneHit::Nothing), LEFT_BUTTON, false, 0),
        (false, DecorationWindowAction::NoAction)
    );
}

#[test]
fn hover_change_repaints_once() {
    let mut state = state_with_window();
    let generation = state.render_generation;
    let over_close = PointerSceneHit::Decoration {
        window_id: window(),
        root_surface_id: 42,
        hit: DecorationHit::Button(DecorationButtonKind::Close),
    };

    state.update_decoration_hover_for_scene_hit(over_close);
    state.update_decoration_hover_for_scene_hit(over_close);
    assert_eq!(state.render_generation, generation + 1);
    state.update_decoration_hover_for_scene_hit(PointerSceneHit::Nothing);
    assert!(state.decoration.button_hover.is_none());
}

#[test]
fn leaving_server_side_decoration_ends_its_move_and_forgets_captures() {
    let mut state = state_with_window();
    state.handle_decoration_button_with_hit(hit(DecorationHit::Titlebar), LEFT_BUTTON, true, 0);
    assert!(state.window_interaction_active());

    state.reconcile_decoration_transition(
        window(),
        42,
        DecorationMode::ServerSide,
        DecorationMode::ClientSide,
    );

    assert!(!state.window_interaction_active());
    assert!(state.decoration.last_titlebar_click.is_none());
}

#[test]
fn titlebar_double_click_requires_spatial_proximity() {
    let mut state = state_with_window();
    let x = Fixed::from_int(150);
    let y = Fixed::from_int(30);
    state.pointer_x = x;
    state.pointer_y = y;

    state.decoration.last_titlebar_click = Some(TitlebarClick {
        window_id: window(),
        time_ms: 1_000,
        x: Fixed::from_int(250),
        y,
    });
    assert!(state.handle_decoration_button_with_hit(hit(DecorationHit::Titlebar), LEFT_BUTTON, true, 1_000).0);
    assert!(state.decoration.titlebar_click_capture.is_none());

    state.end_window_interaction_for_button(LEFT_BUTTON);
    state.decoration.last_titlebar_click = Some(TitlebarClick {
        window_id: window(),
        time_ms: 1_000,
        x: Fixed::from_int(152),
        y: Fixed::from_int(32),
    });
    assert!(state.handle_decoration_button_with_hit(hit(DecorationHit::Titlebar), LEFT_BUTTON, true, 1_000).0);
    assert_eq!(
        state.decoration.titlebar_click_capture,
        Some(TitlebarClickCapture {
            window_id: window(),
            button: LEFT_BUTTON,
        })
    );
}

fn hints(extents: Option<(u32, u32, u32, u32)>, motif_undecorated: bool) -> X11DecorationHints {
    X11DecorationHints {
        gtk_frame_extents: extents.map(|(left, right, top, bottom)| X11FrameExtents {
            left,
            right,
            top,
            bottom,
        }),
        motif_undecorated,
    }
}

#[test]
fn managed_normal_x11_windows_get_server_side_decorations() {
    assert_eq!(
        effective_x11_decoration_mode(true, true, true, false, hints(None, false)),
        DecorationMode::ServerSide
    );
    assert_eq!(
        effective_x11_decoration_mode(true, true, true, false, hints(Some((0, 0, 0, 0)), false)),
        DecorationMode::ServerSide
    );
}

#[test]
fn x11_decoration_yields_to_client_frames_motif_and_fullscreen() {
    assert_eq!(
        effective_x11_decoration_mode(true, true, true, false, hints(Some((0, 0, 24, 0)), true)),
        DecorationMode::ClientSide
    );
    assert_eq!(
        effective_x11_decoration_mode(true, true, true, false, hints(None, true)),
        DecorationMode::Undecorated
    );
    assert_eq!(
        effective_x11_decoration_mode(true, true, true, true, hints(Some((4, 4, 4, 4)), false)),
        DecorationMode::Undecorated
    );
    assert_eq!(
        effective_x11_decoration_mode(false, true, true, false, hints(None, false)),
        DecorationMode::Undecorated
    );
    assert_eq!(
        effective_x11_decoration_mode(true, false, true, false, hints(None, false)),
        DecorationMode::Undecorated
    );
    assert_eq!(
        effective_x11_decoration_mode(true, true, false, false, hints(None, false)),
        DecorationMode::Undecorated
    );
}
