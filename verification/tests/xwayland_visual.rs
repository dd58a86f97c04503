use typhon::buffer::{BufferId, BufferIdentity, BufferSize, CommittedSurfaceBuffer};
use typhon::compositor::{CompositorState, RenderGenerationCause};
use typhon::fixed::Fixed;
use typhon::interaction::{
    ResizeInteractionId, WindowId, WindowInteraction, WindowInteractionId, WindowInteractionKind,
    WindowInteractionSource,
};
use typhon::resize_flow::ResizeConfigureFlow;
use typhon::surface::{RenderableSurface, RenderableSurfaceDamage, SurfacePlacement};
use typhon::window_geometry::ResizeEdges;
use typhon::xwayland_visual::{ActiveToplevelResize, ToplevelVisualGeometry};

fn surface(surface_id: u32, width: u32, height: u32) -> RenderableSurface {
    RenderableSurface {
        surface_id,
        x: 0,
        y: 0,
        width,
        height,
        placement: SurfacePlacement::root(),
        resize_preview: None,
        render_placement: None,
        visual_clip: None,
        render_target_size: None,
        generation: 1,
        buffer: CommittedSurfaceBuffer::shm_snapshot(
            BufferIdentity {
                id: BufferId(1),
                generation: 1,
            },
            BufferSize::new(width, height).expect("size"),
            vec![0; (width * height) as usize],
        ),
        damage: RenderableSurfaceDamage::Full,
    }
}

fn visual(width: u32, height: u32) -> ToplevelVisualGeometry {
    ToplevelVisualGeometry {
        placement: SurfacePlacement::absolute_root_at(10, 10),
        width,
        height,
        active_resize: Some(ResizeInteractionId::new(3)),
    }
}

#[test]
fn content_wait_follows_the_rendered_size() {
    let mut state = CompositorState::default();
    state.visual.toplevel_visual_geometries.insert(42, visual(300, 200));
    state.visual.renderable_surfaces.push(surface(42, 280, 200));

    state.update_pending_xwayland_visual_content(42);
    assert!(state.visual.pending_xwayland_visual_content.contains(&42));

    state.clear_pending_xwayland_visual_content_if_matching(42);
    assert!(state.visual.pending_xwayland_visual_content.contains(&42));

    state.visual.renderable_surfaces[0] = surface(42, 300, 200);
    state.clear_pending_xwayland_visual_content_if_matching(42);
    assert!(!state.visual.pending_xwayland_visual_content.contains(&42));

    state.update_pending_xwayland_visual_content(42);
    assert!(!state.visual.pending_xwayland_visual_content.contains(&42));
}

#[test]
fn root_without_visual_geometry_waits_for_content() {
    let mut state = CompositorState::default();
    state.visual.renderable_surfaces.push(surface(42, 300, 200));

    state.update_pending_xwayland_visual_content(42);

    assert!(state.visual.pending_xwayland_visual_content.contains(&42));
    assert_eq!(state.find_renderable_surface(42), Some(0));
    assert_eq!(state.find_renderable_surface(7), None);
}

#[test]
fn replacement_surface_inherits_visual_state_flow_and_interaction() {
    let mut state = CompositorState::default();
    state.visual.toplevel_visual_geometries.insert(42, visual(300, 200));
    state.visual.active_toplevel_resizes.insert(
        42,
        ActiveToplevelResize {
            interaction_id: ResizeInteractionId::new(3),
            flow_sequence: 9,
            edges: ResizeEdges::bottom_right(),
            activated_at_ms: 0,
        },
    );
    state.visual.pending_xwayland_visual_content.insert(42);
    state
        .resize_configure_flows
        .insert(42, ResizeConfigureFlow::default());
    state.window_interaction = Some(WindowInteraction {
        id: WindowInteractionId::new(1),
        window_id: WindowId::new(5),
        root_surface_id: 42,
        kind: WindowInteractionKind::Move,
        source: WindowInteractionSource::X11NetWmMoveResize,
        trigger_button: Some(0x110),
        trigger_serial: None,
        pointer_motion_surface_id: None,
        start_pointer_x: Fixed::from_int(0),
        start_pointer_y: Fixed::from_int(0),
        start_placement: SurfacePlacement::root(),
        start_width: 300,
        start_height: 200,
        drag_committed: false,
        resize_interaction_id: None,
    });

    state.transfer_xwayland_visual_state_for_attachment_replacement(42, 43);

    assert!(!state.visual.toplevel_visual_geometries.contains_key(&42));
    assert_eq!(state.visual.toplevel_visual_geometries[&43], visual(300, 200));
    assert_eq!(state.visual.active_toplevel_resizes[&43].flow_sequence, 9);
    assert!(state.visual.pending_xwayland_visual_content.contains(&43));
    assert!(!state.visual.pending_xwayland_visual_content.contains(&42));
    assert!(state.resize_configure_flows.contains_key(&43));
    assert_eq!(state.window_interaction.map(|i| i.root_surface_id), Some(43));
}

#[test]
fn xwayland_withdrawal_unpublishes_render_tree_without_forgetting_placement() {
    let mut state = CompositorState::default();
    let root_id = 42;
    let child_id = 43;
    state.visual.renderable_surfaces.push(surface(root_id, 10, 10));
    state.visual.renderable_surfaces.push(surface(child_id, 1, 1));
    assert!(state.set_surface_placement_with_cause(
        root_id,
        SurfacePlacement::absolute_root_at(10, 10),
        RenderGenerationCause::WindowMove,
    ));
    assert!(state.set_surface_placement_with_cause(
        child_id,
        SurfacePlacement::subsurface(root_id, 1, 1),
        RenderGenerationCause::WindowMove,
    ));
    state.surface_roots.insert(child_id, root_id);
    let generation = state.render_generation;

    assert!(state.withdraw_xwayland_surface_content(root_id));

    assert!(state.visual.renderable_surfaces.is_empty());
    assert_eq!(
        state.surface_placement(root_id),
        SurfacePlacement::absolute_root_at(10, 10),
    );
    assert_eq!(
        state.surface_placement(child_id),
        SurfacePlacement::subsurface(root_id, 1, 1),
    );
    assert!(state.render_generation > generation);
    assert!(!state.withdraw_xwayland_surface_content(root_id));
}

#[test]
fn withdrawal_keeps_other_trees_and_drops_hidden_surfaces() {
    let mut state = CompositorState::default();
    state.visual.renderable_surfaces.push(surface(7, 5, 5));
    state.visual.renderable_surfaces.push(surface(42, 10, 10));
    state.visual.renderable_surfaces.push(surface(8, 5, 5));
    state.visual.pending_xwayland_visual_content.insert(42);
    state.visual.pending_xwayland_visual_content.insert(7);
    state.minimized_surfaces.insert(42, vec![42, 43, 9]);
    state.minimized_surfaces.insert(7, vec![7]);
    state.surface_placements.insert(43, SurfacePlacement::subsurface(42, 0, 0));
    state.surface_roots.insert(43, 42);
    let generation = state.render_generation;

    assert!(state.withdraw_xwayland_surface_content(42));

    let ids: Vec<u32> = state
        .visual
        .renderable_surfaces
        .iter()
        .map(|s| s.surface_id)
        .collect();
    assert_eq!(ids, vec![7, 8]);
    assert!(!state.visual.pending_xwayland_visual_content.contains(&42));
    assert!(state.visual.pending_xwayland_visual_content.contains(&7));
    assert_eq!(state.minimized_surfaces[&42], vec![9]);
    assert_eq!(state.minimized_surfaces[&7], vec![7]);
    assert_eq!(state.render_generation, generation + 1);
    assert_eq!(state.render_generation_cause, RenderGenerationCause::SurfaceUnmap);
}

#[test]
fn withdrawal_of_hidden_surfaces_alone_reports_a_change_without_repaint() {
    let mut state = CompositorState::default();
    state.minimized_surfaces.insert(42, vec![42]);
    let generation = state.render_generation;
    assert!(state.withdraw_xwayland_surface_content(42));
    assert!(state.minimized_surfaces[&42].is_empty());
    assert_eq!(state.render_generation, generation);
    assert!(!state.withdraw_xwayland_surface_content(42));
}

fn previewing_state() -> CompositorState {
    let mut state = CompositorState::default();
    state.visual.toplevel_visual_geometries.insert(42, visual(300, 200));
    state.visual.active_toplevel_resizes.insert(
        42,
        ActiveToplevelResize {
            interaction_id: ResizeInteractionId::new(3),
            flow_sequence: 9,
            edges: ResizeEdges::bottom_right(),
            activated_at_ms: 0,
        },
    );
    state.visual.renderable_surfaces.push(surface(42, 280, 200));
    state
}

fn resize_interaction(root: u32) -> WindowInteraction {
    WindowInteraction {
        id: WindowInteractionId::new(1),
        window_id: WindowId::new(5),
        root_surface_id: root,
        kind: WindowInteractionKind::Resize(ResizeEdges::bottom_right()),
        source: WindowInteractionSource::NativeBinding,
        trigger_button: Some(0x110),
        trigger_serial: None,
        pointer_motion_surface_id: None,
        start_pointer_x: Fixed::from_int(0),
        start_pointer_y: Fixed::from_int(0),
        start_placement: SurfacePlacement::root(),
        start_width: 300,
        start_height: 200,
        drag_committed: true,
        resize_interaction_id: Some(ResizeInteractionId::new(3)),
    }
}

#[test]
fn presented_x11_resize_ends_the_preview_at_its_visual_placement() {
    let mut state = previewing_state();
    assert!(state.x11_resize_active(42));
    let generation = state.render_generation;

    assert!(state.finalize_x11_resize_with_geometry(42, Some((300, 200))));

    assert!(!state.x11_resize_active(42));
    assert_eq!(state.visual.toplevel_visual_geometries[&42].active_resize, None);
    assert_eq!(state.surface_placement(42), SurfacePlacement::absolute_root_at(10, 10));
    assert_eq!(state.render_generation, generation + 1);
    assert!(state.visual.pending_xwayland_visual_content.contains(&42));
    assert!(!state.finalize_x11_resize(42));
}

#[test]
fn presented_size_of_an_older_epoch_keeps_the_preview() {
    let mut state = previewing_state();
    assert!(!state.finalize_x11_resize_with_geometry(42, Some((280, 200))));
    assert!(state.x11_resize_active(42));
    assert_eq!(
        state.visual.toplevel_visual_geometries[&42].active_resize,
        Some(ResizeInteractionId::new(3))
    );
}

#[test]
fn preview_of_another_interaction_is_not_ended() {
    let mut state = previewing_state();
    state.visual.toplevel_visual_geometries.get_mut(&42).unwrap().active_resize =
        Some(ResizeInteractionId::new(4));
    assert!(!state.finalize_x11_resize(42));
    assert!(state.x11_resize_active(42));
}

#[test]
fn ongoing_pointer_resize_keeps_a_presented_preview() {
    let mut state = previewing_state();
    state.window_interaction = Some(resize_interaction(42));
    assert!(state.x11_resize_interaction_active(42));
    assert!(!state.x11_resize_interaction_active(7));
    assert!(!state.finalize_x11_resize_with_geometry(42, Some((300, 200))));
    assert!(!state.finalize_x11_resize_if_interaction_ended(42));
    assert!(state.x11_resize_active(42));

    state.window_interaction = None;
    assert!(state.finalize_x11_resize_if_interaction_ended(42));
    assert!(!state.x11_resize_active(42));
}

#[test]
fn preview_without_visual_geometry_is_just_dropped() {
    let mut state = previewing_state();
    state.visual.toplevel_visual_geometries.remove(&42);
    let generation = state.render_generation;
    assert!(state.finalize_x11_resize_with_geometry(42, Some((1, 1))));
    assert!(!state.x11_resize_active(42));
    assert_eq!(state.render_generation, generation);
}

#[test]
fn finalizing_without_a_presented_size_ends_the_preview_at_its_visual_placement() {
    let mut state = previewing_state();

    assert!(state.finalize_x11_resize(42));

    assert!(!state.x11_resize_active(42));
    assert_eq!(state.visual.toplevel_visual_geometries[&42].active_resize, None);
    assert_eq!(state.surface_placement(42), SurfacePlacement::absolute_root_at(10, 10));
    assert_eq!(state.render_generation_cause, RenderGenerationCause::WindowResize);
}
