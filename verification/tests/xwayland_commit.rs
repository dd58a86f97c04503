use typhon::buffer::{BufferId, BufferIdentity, BufferSize, CommittedSurfaceBuffer};
use typhon::compositor::{
    CompositorState, RenderGenerationCause, RootWindow, ToplevelMode, X11Geometry, X11WindowGeometry,
};
use typhon::interaction::WindowId;
use typhon::surface::{RenderableSurface, RenderableSurfaceDamage, SurfacePlacement};
use typhon::window_geometry::WindowGeometry;
use typhon::xwayland_commit::{XwaylandBufferCommit, XwaylandCommitAction};
use typhon::xwayland_visual::ToplevelVisualGeometry;

fn buffer(id: u64, width: u32, height: u32) -> CommittedSurfaceBuffer {
    CommittedSurfaceBuffer::shm_snapshot(
        BufferIdentity {
            id: BufferId(id),
            generation: 1,
        },
        BufferSize::new(width, height).expect("size"),
        vec![0; (width * height) as usize],
    )
}

fn rendered(surface_id: u32, buffer_id: u64, width: u32, height: u32) -> RenderableSurface {
    RenderableSurface {
        surface_id,
        x: 0,
        y: 0,
        width,
        height,
        placement: SurfacePlacement::root(),
        resize_preview: None,
        render_placement: None,
        visual_clip: None,
        render_target_size: None,
        generation: 1,
        buffer: buffer(buffer_id, width, height),
        damage: RenderableSurfaceDamage::Full,
    }
}

fn commit(buffer_id: u64, width: u32, height: u32) -> XwaylandBufferCommit {
    XwaylandBufferCommit {
        x: 0,
        y: 0,
        width,
        height,
        buffer: buffer(buffer_id, width, height),
    }
}

/// X11 window 1 drawn by root surface 70 at (30, 40), already showing buffer
/// 1, next to an unrelated surface 80.
fn x11_state() -> CompositorState {
    let mut state = CompositorState::default();
    let committed = WindowGeometry::new(SurfacePlacement::root_at(30, 40), 200, 100);
    state.root_windows.insert(
        70,
        RootWindow {
            window_id: WindowId::new(1),
            committed,
            visual: None,
            normal_x11_role: true,
            mode: ToplevelMode::Floating,
            x11_geometry: Some(X11WindowGeometry {
                client: X11Geometry {
                    x: 30,
                    y: 40,
                    width: 200,
                    height: 100,
                },
                frame: committed,
            }),
        },
    );
    state.surface_placements.insert(70, SurfacePlacement::root_at(30, 40));
    state.visual.renderable_surfaces.push(rendered(70, 1, 200, 100));
    state.visual.renderable_surfaces.push(rendered(80, 9, 10, 10));
    state.render_generation = 5;
    state
}

#[test]
fn commit_replaces_the_rendered_content_and_repaints() {
    let mut state = x11_state();
    let action = state.commit_xwayland_surface_buffer(70, Some(commit(2, 220, 110)));
    assert_eq!(
        action,
        XwaylandCommitAction::Published {
            complete_frames_now: false
        }
    );
    assert_eq!(state.visual.renderable_surfaces.len(), 2);
    assert_eq!(state.visual.renderable_surfaces[1].surface_id, 80);
    let published = &state.visual.renderable_surfaces[0];
    assert_eq!(published.surface_id, 70);
    assert_eq!(published.buffer_id(), BufferId(2));
    assert_eq!((published.width, published.height), (220, 110));
    assert_eq!(published.placement, SurfacePlacement::root_at(30, 40));
    assert_eq!(published.generation, 6);
    assert_eq!(published.damage, RenderableSurfaceDamage::Full);
    assert_eq!(state.render_generation, 6);
    assert_eq!(state.scene_render_generation, 1);
    assert_eq!(state.render_generation_cause, RenderGenerationCause::SurfaceCommit);
}

#[test]
fn retired_surface_releases_the_buffer_and_changes_nothing() {
    let mut state = x11_state();
    state.retired_xwayland_surfaces.insert(70);
    let action = state.commit_xwayland_surface_buffer(70, Some(commit(2, 220, 110)));
    assert_eq!(action, XwaylandCommitAction::ReleaseAndCompleteFrames);
    assert_eq!(state.visual.renderable_surfaces.len(), 2);
    assert_eq!(state.visual.renderable_surfaces[0].buffer_id(), BufferId(1));
    assert_eq!(state.render_generation, 5);
}

#[test]
fn surface_without_a_window_takes_the_unassigned_path() {
    let mut state = x11_state();
    let action = state.commit_xwayland_surface_buffer(90, Some(commit(2, 20, 20)));
    assert_eq!(action, XwaylandCommitAction::CommitUnassigned);
    assert_eq!(state.visual.renderable_surfaces.len(), 2);
    assert_eq!(state.render_generation, 5);
}

#[test]
fn content_that_cannot_be_shown_releases_the_buffer() {
    let mut state = x11_state();
    let action = state.commit_xwayland_surface_buffer(70, None);
    assert_eq!(action, XwaylandCommitAction::ReleaseAndCompleteFrames);
    assert_eq!(state.visual.renderable_surfaces[0].buffer_id(), BufferId(1));
    assert_eq!(state.render_generation, 5);
}

#[test]
fn minimized_window_withdraws_its_content_and_completes_frames_now() {
    let mut state = x11_state();
    state.minimized_surfaces.insert(70, vec![70]);
    let action = state.commit_xwayland_surface_buffer(70, Some(commit(2, 220, 110)));
    assert_eq!(
        action,
        XwaylandCommitAction::Published {
            complete_frames_now: true
        }
    );
    assert_eq!(state.visual.renderable_surfaces.len(), 1);
    assert_eq!(state.visual.renderable_surfaces[0].surface_id, 80);
    assert_eq!(state.render_generation, 5);
}

#[test]
fn content_of_the_visual_size_ends_the_wait_and_takes_the_assignment() {
    let mut state = x11_state();
    state.visual.toplevel_visual_geometries.insert(
        70,
        ToplevelVisualGeometry {
            placement: SurfacePlacement::root_at(60, 70),
            width: 220,
            height: 110,
            active_resize: None,
        },
    );
    state.visual.pending_xwayland_visual_content.insert(70);
    let action = state.commit_xwayland_surface_buffer(70, Some(commit(2, 220, 110)));
    assert_eq!(
        action,
        XwaylandCommitAction::Published {
            complete_frames_now: false
        }
    );
    assert!(!state.visual.pending_xwayland_visual_content.contains(&70));
    let published = &state.visual.renderable_surfaces[0];
    assert_eq!(published.render_placement, Some(SurfacePlacement::root_at(60, 70)));
    assert_eq!(published.visual_clip, None);
}

#[test]
fn content_of_another_size_keeps_the_root_waiting() {
    let mut state = x11_state();
    state.visual.toplevel_visual_geometries.insert(
        70,
        ToplevelVisualGeometry {
            placement: SurfacePlacement::root_at(60, 70),
            width: 300,
            height: 150,
            active_resize: None,
        },
    );
    state.visual.pending_xwayland_visual_content.insert(70);
    state.commit_xwayland_surface_buffer(70, Some(commit(2, 220, 110)));
    assert!(state.visual.pending_xwayland_visual_content.contains(&70));
    let published = &state.visual.renderable_surfaces[0];
    assert_eq!(published.render_placement, Some(SurfacePlacement::root_at(60, 70)));
    assert!(published.visual_clip.is_some());
}

#[test]
fn first_content_of_a_surface_goes_on_top() {
    let mut state = x11_state();
    state.surface_roots.insert(71, 70);
    let action = state.commit_xwayland_surface_buffer(71, Some(commit(3, 20, 20)));
    assert_eq!(
        action,
        XwaylandCommitAction::Published {
            complete_frames_now: false
        }
    );
    assert_eq!(state.visual.renderable_surfaces.len(), 3);
    assert_eq!(state.visual.renderable_surfaces[2].surface_id, 71);
    assert_eq!(state.visual.renderable_surfaces[2].placement, SurfacePlacement::root_at(30, 40));
}
