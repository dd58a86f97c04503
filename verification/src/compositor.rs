//! The compositor state that interactive move/resize, cursor overrides,
//! render generations and the xdg_surface lifecycles act on.
use std::collections::{HashMap, HashSet};
use vstd::prelude::*;
use crate::decoration::DecorationPointerState;
use crate::fixed::Fixed;
use crate::popup::{PopupNode, PopupState, PopupSurface};
use crate::x11_interaction::HeldPointerButton;
use crate::xwayland_visual::{ToplevelVisualGeometry, VisualState};
use crate::interaction::{
    interactive_resize_geometry, resize_drag_threshold_reached, spec_cursor_shape,
    spec_drag_threshold_reached, spec_resize_axis, BeginWindowInteraction, InteractionCursorOverride,
    InteractionCursorShape, PendingInteractiveResizeUpdate, ResizeInteractionId, WindowId,
    WindowInteraction, WindowInteractionDebugSnapshot, WindowInteractionEndReason,
    WindowInteractionId, WindowInteractionKind, WindowInteractionSource,
};
use crate::metrics::CoreComplianceMetrics;
use crate::resize_flow::ResizeConfigureFlow;
use crate::surface::SurfacePlacement;
use crate::window_geometry::{ResizeEdges, WindowGeometry, XdgWindowGeometry};
use crate::xwayland_scene::{clean_dirty, XwaylandSceneBatch};
use crate::xdg_lifecycle::{
    spec_acknowledge, spec_begin_empty_or_unmap_commit, spec_mark_buffer_commit,
    spec_mark_initial_empty_commit, spec_record_configure, XdgSurfaceLifecycle,
};

verus! {

/// `v + 1`, saturating.
pub open spec fn bump(v: u64) -> u64 {
    if v == u64::MAX {
        v
    } else {
        (v + 1) as u64
    }
}

/// Why the render generation last advanced.
#[derive(Debug, Clone, Copy, PartialEq, Eq, Structural)]
pub enum RenderGenerationCause {
    Initial,
    CursorState,
    WindowMove,
    WindowResize,
    WindowDecoration,
    SurfaceUnmap,
    SurfaceCommit,
}

/// Whether a cause changes what the scene shows (not just the cursor).
pub open spec fn cause_changes_scene(cause: RenderGenerationCause) -> bool {
    cause != RenderGenerationCause::CursorState && cause != RenderGenerationCause::Initial
}

#[derive(Debug, Clone, Copy, PartialEq, Eq, Structural)]
pub enum PointerConstraintMode {
    Inactive,
    Locked,
    Confined,
}

/// The pointer constraint (zwp_pointer_constraints) in effect.
#[derive(Debug, Clone, Copy, PartialEq, Eq, Structural)]
pub struct PointerConstraintState {
    pub mode: PointerConstraintMode,
    pub surface_id: Option<u32>,
}

impl PointerConstraintState {
    pub fn inactive() -> (r: Self)
        ensures
            r.mode == PointerConstraintMode::Inactive && r.surface_id is None,
    {
        PointerConstraintState { mode: PointerConstraintMode::Inactive, surface_id: None }
    }

    pub fn activate(&mut self, mode: PointerConstraintMode, surface_id: u32)
        ensures
            *final(self) == (PointerConstraintState { mode, surface_id: Some(surface_id) }),
    {
        self.mode = mode;
        self.surface_id = Some(surface_id);
    }

    pub fn mode(&self) -> (r: PointerConstraintMode)
        ensures
            r == self.mode,
    {
        self.mode
    }
}

/// A constraint activation that waits until no interaction holds the pointer.
#[derive(Debug, Clone, Copy, PartialEq, Eq, Structural)]
pub struct PendingPointerConstraint {
    pub mode: PointerConstraintMode,
    pub surface_id: u32,
}

/// A command for the window's backend (xdg or X11).
#[derive(Debug, Clone, Copy, PartialEq, Eq, Structural)]
pub enum WindowBackendCommand {
    Configure { window: WindowId, geometry: WindowGeometry, mode: ToplevelMode, resizing: bool },
}

/// How a toplevel is laid out.
#[derive(Debug, Clone, Copy, PartialEq, Eq, Structural)]
pub enum ToplevelMode {
    Normal,
    Floating,
    Maximized,
    Fullscreen,
}

/// The end of a resize that changed the window: the final configure to send.
#[derive(Debug, Clone, Copy, PartialEq, Eq, Structural)]
pub struct ResizeEndRequest {
    pub root_surface_id: u32,
    pub edges: ResizeEdges,
    pub interaction_id: ResizeInteractionId,
    pub final_update: Option<PendingInteractiveResizeUpdate>,
}

/// What the interaction code knows of a mapped root window.
#[derive(Debug, Clone, Copy, PartialEq, Eq, Structural)]
pub struct RootWindow {
    pub window_id: WindowId,
    pub committed: WindowGeometry,
    pub visual: Option<WindowGeometry>,
    pub normal_x11_role: bool,
    pub mode: ToplevelMode,
    /// The geometry of an X11 window's client and frame; none for other windows.
    pub x11_geometry: Option<X11WindowGeometry>,
}

/// An X11 client rectangle.
#[derive(Debug, Clone, Copy, PartialEq, Eq, Structural)]
pub struct X11Geometry {
    pub x: i32,
    pub y: i32,
    pub width: u32,
    pub height: u32,
}

/// Where an X11 window's client sits and the frame around it.
#[derive(Debug, Clone, Copy, PartialEq, Eq, Structural)]
pub struct X11WindowGeometry {
    pub client: X11Geometry,
    pub frame: WindowGeometry,
}

/// The root windows after the X11 window drawn by `root_surface_id` took
/// `geometry` as its client and frame geometry; unchanged for a window that
/// is not an X11 one.
pub open spec fn spec_set_x11_frame_geometry(
    roots: Map<u32, RootWindow>,
    root_surface_id: u32,
    geometry: WindowGeometry,
) -> Map<u32, RootWindow> {
    if roots.contains_key(root_surface_id) && roots[root_surface_id].x11_geometry is Some {
        roots.insert(
            root_surface_id,
            RootWindow {
                x11_geometry: Some(
                    X11WindowGeometry {
                        client: X11Geometry {
                            x: geometry.placement.local_x,
                            y: geometry.placement.local_y,
                            width: geometry.width,
                            height: geometry.height,
                        },
                        frame: geometry,
                    },
                ),
                ..roots[root_surface_id]
            },
        )
    } else {
        roots
    }
}

#[derive(Debug, Clone, Copy, PartialEq, Eq, Structural)]
pub struct ResizeFlowMetrics {
    pub resize_interactions_started: u64,
    pub visual_geometry_resize_starts: u64,
    pub raw_pointer_resize_updates: u64,
    pub resize_updates_skipped_unchanged: u64,
    pub pending_resize_updates_replaced: u64,
    pub preview_activations: u64,
    pub preview_ownership_transfers: u64,
    pub rapid_reresize_interactions: u64,
}

impl Default for ResizeFlowMetrics {
    fn default() -> (r: Self)
        ensures
            r == (ResizeFlowMetrics {
                resize_interactions_started: 0,
                visual_geometry_resize_starts: 0,
                raw_pointer_resize_updates: 0,
                resize_updates_skipped_unchanged: 0,
                pending_resize_updates_replaced: 0,
                preview_activations: 0,
                preview_ownership_transfers: 0,
                rapid_reresize_interactions: 0,
            }),
    {
        ResizeFlowMetrics {
            resize_interactions_started: 0,
            visual_geometry_resize_starts: 0,
            raw_pointer_resize_updates: 0,
            resize_updates_skipped_unchanged: 0,
            pending_resize_updates_replaced: 0,
            preview_activations: 0,
            preview_ownership_transfers: 0,
            rapid_reresize_interactions: 0,
        }
    }
}

pub struct CompositorState {
    pub window_interaction: Option<WindowInteraction>,
    pub interaction_cursor_override: Option<InteractionCursorOverride>,
    pub pending_interactive_resize_update: Option<PendingInteractiveResizeUpdate>,
    pub resize_configure_flows: HashMap<u32, ResizeConfigureFlow>,
    pub resize_end_requests: Vec<ResizeEndRequest>,
    pub backend_commands: Vec<WindowBackendCommand>,
    pub surface_placements: HashMap<u32, SurfacePlacement>,
    pub root_windows: HashMap<u32, RootWindow>,
    pub surface_roots: HashMap<u32, u32>,
    pub pointer_constraint: PointerConstraintState,
    pub pending_pointer_constraint: Option<PendingPointerConstraint>,
    pub keyboard_focus: Option<u32>,
    pub pointer_focus: Option<u32>,
    pub pointer_x: Fixed,
    pub pointer_y: Fixed,
    pub last_pointer_motion_usec: Option<u32>,
    pub render_generation: u64,
    pub scene_render_generation: u64,
    pub cursor_generation: u64,
    pub render_generation_cause: RenderGenerationCause,
    pub cursor_visibility_requests: u64,
    pub next_window_interaction_id: u64,
    pub next_resize_interaction_id: u64,
    pub resize_flow_metrics: ResizeFlowMetrics,
    pub xdg_surface_lifecycles: HashMap<u32, XdgSurfaceLifecycle>,
    pub compliance_metrics: CoreComplianceMetrics,
    pub pending_explicit_sync_commit_surfaces: Vec<u32>,
    pub pending_surface_tree_transactions: Vec<PendingSurfaceTreeTransaction>,
    pub xwayland_scene_batch: XwaylandSceneBatch,
    pub decoration: DecorationPointerState,
    pub popups: PopupState,
    pub visual: VisualState,
    pub held_pointer_buttons: Vec<HeldPointerButton>,
    /// The surfaces each minimized window hid, by the window's root surface.
    pub minimized_surfaces: HashMap<u32, Vec<u32>>,
    pub last_pointer_press: Option<PointerPress>,
    /// The window geometry each xdg surface committed.
    pub surface_window_geometries: HashMap<u32, XdgWindowGeometry>,
    /// The sequence number of the last resize configure handed out.
    pub next_resize_configure_sequence: u64,
    /// XWayland surfaces whose X11 window is gone; their buffers are not shown.
    pub retired_xwayland_surfaces: HashSet<u32>,
}

/// The last pointer button press the seat delivered to a client surface,
/// with the client that owns the pressed surface.
#[derive(Debug, Clone, Copy, PartialEq, Eq, Structural)]
pub struct PointerPress {
    pub root_surface_id: u32,
    pub surface_id: u32,
    pub client_id: u64,
    pub serial: u32,
    pub button: u32,
    pub output_x: Fixed,
    pub output_y: Fixed,
}

/// A surface tree commit waiting for its dependencies, by the surfaces it holds.
#[derive(Debug, Clone)]
pub struct PendingSurfaceTreeTransaction {
    pub root_surface_id: u32,
    pub nodes: Vec<u32>,
}

impl Default for CompositorState {
    fn default() -> (r: Self)
        ensures
            r.window_interaction is None,
            r.interaction_cursor_override is None,
            r.pending_interactive_resize_update is None,
            r.resize_configure_flows@ == Map::<u32, ResizeConfigureFlow>::empty(),
            r.resize_end_requests@.len() == 0,
            r.backend_commands@.len() == 0,
            r.surface_placements@ == Map::<u32, SurfacePlacement>::empty(),
            r.root_windows@ == Map::<u32, RootWindow>::empty(),
            r.surface_roots@ == Map::<u32, u32>::empty(),
            r.pointer_constraint.mode == PointerConstraintMode::Inactive,
            r.pending_pointer_constraint is None,
            r.keyboard_focus is None && r.pointer_focus is None,
            r.pointer_x.raw == 0 && r.pointer_y.raw == 0,
            r.last_pointer_motion_usec is None,
            r.render_generation == 0 && r.scene_render_generation == 0 && r.cursor_generation == 0,
            r.render_generation_cause == RenderGenerationCause::Initial,
            r.cursor_visibility_requests == 0,
            r.next_window_interaction_id == 0 && r.next_resize_interaction_id == 0,
            r.xdg_surface_lifecycles@ == Map::<u32, XdgSurfaceLifecycle>::empty(),
            r.pending_explicit_sync_commit_surfaces@.len() == 0,
            r.pending_surface_tree_transactions@.len() == 0,
            r.xwayland_scene_batch.active is None,
            r.xwayland_scene_batch.next_epoch == 0,
            r.xwayland_scene_batch.dirty == clean_dirty(),
            r.decoration.button_capture is None && r.decoration.button_hover is None,
            r.decoration.titlebar_click_capture is None && r.decoration.last_titlebar_click is None,
            r.popups.nodes@ == Map::<u32, PopupNode>::empty(),
            r.popups.surfaces@ == Map::<u32, PopupSurface>::empty(),
            r.popups.grab is None && r.popups.grab_stack@.len() == 0,
            r.visual.renderable_surfaces@.len() == 0,
            r.visual.toplevel_visual_geometries@ == Map::<u32, ToplevelVisualGeometry>::empty(),
            r.visual.pending_xwayland_visual_content@ == Set::<u32>::empty(),
            r.held_pointer_buttons@.len() == 0,
            r.minimized_surfaces@ == Map::<u32, Vec<u32>>::empty(),
            r.last_pointer_press is None,
            r.surface_window_geometries@ == Map::<u32, XdgWindowGeometry>::empty(),
            r.next_resize_configure_sequence == 0,
            r.retired_xwayland_surfaces@ == Set::<u32>::empty(),
            r.resize_flow_metrics == (ResizeFlowMetrics {
                resize_interactions_started: 0,
                visual_geometry_resize_starts: 0,
                raw_pointer_resize_updates: 0,
                resize_updates_skipped_unchanged: 0,
                pending_resize_updates_replaced: 0,
                preview_activations: 0,
                preview_ownership_transfers: 0,
                rapid_reresize_interactions: 0,
            }),
            r.compliance_metrics.all_zero(),
    {
        CompositorState {
            window_interaction: None,
            interaction_cursor_override: None,
            pending_interactive_resize_update: None,
            resize_configure_flows: HashMap::new(),
            resize_end_requests: Vec::new(),
            backend_commands: Vec::new(),
            surface_placements: HashMap::new(),
            root_windows: HashMap::new(),
            surface_roots: HashMap::new(),
            pointer_constraint: PointerConstraintState::inactive(),
            pending_pointer_constraint: None,
            keyboard_focus: None,
            pointer_focus: None,
            pointer_x: Fixed::from_raw(0),
            pointer_y: Fixed::from_raw(0),
            last_pointer_motion_usec: None,
            render_generation: 0,
            scene_render_generation: 0,
            cursor_generation: 0,
            render_generation_cause: RenderGenerationCause::Initial,
            cursor_visibility_requests: 0,
            next_window_interaction_id: 0,
            next_resize_interaction_id: 0,
            resize_flow_metrics: ResizeFlowMetrics::default(),
            xdg_surface_lifecycles: HashMap::new(),
            compliance_metrics: CoreComplianceMetrics::default(),
            pending_explicit_sync_commit_surfaces: Vec::new(),
            pending_surface_tree_transactions: Vec::new(),
            xwayland_scene_batch: XwaylandSceneBatch::default(),
            decoration: DecorationPointerState::default(),
            popups: PopupState::default(),
            visual: VisualState::default(),
            held_pointer_buttons: Vec::new(),
            minimized_surfaces: HashMap::new(),
            last_pointer_press: None,
            surface_window_geometries: HashMap::new(),
            next_resize_configure_sequence: 0,
            retired_xwayland_surfaces: HashSet::new(),
        }
    }
}

pub open spec fn spec_advance_render_generation(s: CompositorState, cause: RenderGenerationCause) -> CompositorState {
    CompositorState {
        render_generation: bump(s.render_generation),
        scene_render_generation: if cause_changes_scene(cause) {
            bump(s.scene_render_generation)
        } else {
            s.scene_render_generation
        },
        render_generation_cause: cause,
        ..s
    }
}

/// A deferred constraint activation takes effect once no interaction holds the pointer.
pub open spec fn spec_resume_pointer_constraint(s: CompositorState) -> CompositorState {
    match s.pending_pointer_constraint {
        Some(p) if s.window_interaction is None => CompositorState {
            pointer_constraint: PointerConstraintState { mode: p.mode, surface_id: Some(p.surface_id) },
            pending_pointer_constraint: None,
            ..s
        },
        _ => s,
    }
}

/// Ending an interaction drops it and its cursor override; dropping the
/// override repaints the cursor and resumes a deferred pointer constraint.
pub open spec fn spec_clear_interaction(s: CompositorState) -> (bool, CompositorState) {
    let cleared = CompositorState { window_interaction: None, interaction_cursor_override: None, ..s };
    let after = if s.interaction_cursor_override is Some {
        spec_resume_pointer_constraint(
            CompositorState {
                cursor_visibility_requests: bump(s.cursor_visibility_requests),
                ..spec_advance_render_generation(cleared, RenderGenerationCause::CursorState)
            },
        )
    } else {
        cleared
    };
    (s.window_interaction is Some || s.interaction_cursor_override is Some, after)
}

/// Whether ending `i` queues a final resize configure: a resize whose drag
/// was committed and that carries a resize interaction id.
pub open spec fn end_queues_request(i: WindowInteraction) -> bool {
    i.drag_committed && i.kind is Resize && i.resize_interaction_id is Some
}

/// The resize-end requests once the interaction of `s` ended: a committed
/// resize appends its final configure, carrying the pending resize update.
pub open spec fn spec_end_requests(s: CompositorState) -> Seq<ResizeEndRequest> {
    match s.window_interaction {
        Some(i) => if end_queues_request(i) {
            s.resize_end_requests@.push(
                ResizeEndRequest {
                    root_surface_id: i.root_surface_id,
                    edges: i.kind->Resize_0,
                    interaction_id: i.resize_interaction_id->0,
                    final_update: s.pending_interactive_resize_update,
                },
            )
        } else {
            s.resize_end_requests@
        },
        None => s.resize_end_requests@,
    }
}

/// The state once the interaction of `s` ended, `requests` holding the
/// resize-end requests: a queued final configure takes the pending resize
/// update along, then the interaction and its cursor override are cleared.
pub open spec fn spec_end_interaction(s: CompositorState, requests: Vec<ResizeEndRequest>) -> CompositorState {
    let queued = match s.window_interaction {
        Some(i) => if end_queues_request(i) {
            CompositorState { resize_end_requests: requests, pending_interactive_resize_update: None, ..s }
        } else {
            s
        },
        None => s,
    };
    spec_clear_interaction(queued).1
}

/// The interaction cursor override only exists while an interaction does.
pub open spec fn cursor_override_owned(s: CompositorState) -> bool {
    s.interaction_cursor_override is Some ==> s.window_interaction is Some
}

impl CompositorState {
    pub fn advance_render_generation(&mut self, cause: RenderGenerationCause)
        ensures
            *final(self) == spec_advance_render_generation(*old(self), cause),
    {
        self.render_generation = self.render_generation.saturating_add(1);
        if cause != RenderGenerationCause::CursorState && cause != RenderGenerationCause::Initial {
            self.scene_render_generation = self.scene_render_generation.saturating_add(1);
        }
        self.render_generation_cause = cause;
    }

    /// Asks the output backend to re-evaluate cursor visibility.
    pub fn sync_cursor_visibility_request(&mut self)
        ensures
            *final(self) == (CompositorState {
                cursor_visibility_requests: bump(old(self).cursor_visibility_requests),
                ..*old(self)
            }),
    {
        self.cursor_visibility_requests = self.cursor_visibility_requests.saturating_add(1);
    }

    pub fn resume_pending_pointer_constraint_activation(&mut self)
        ensures
            *final(self) == spec_resume_pointer_constraint(*old(self)),
    {
        if self.window_interaction.is_some() {
            return;
        }
        match self.pending_pointer_constraint {
            Some(p) => {
                self.pointer_constraint.activate(p.mode, p.surface_id);
                self.pending_pointer_constraint = None;
            },
            None => {},
        }
    }

    /// A locked pointer, active or deferred, forbids compositor-driven interactions.
    pub fn window_interaction_blocked_by_pointer_lock(&self) -> (r: bool)
        ensures
            r == (self.pointer_constraint.mode == PointerConstraintMode::Locked || (
            self.pending_pointer_constraint matches Some(p) && p.mode == PointerConstraintMode::Locked)),
    {
        self.pointer_constraint.mode == PointerConstraintMode::Locked || match self.pending_pointer_constraint {
            Some(p) => p.mode == PointerConstraintMode::Locked,
            None => false,
        }
    }

    pub fn set_interaction_cursor_override(&mut self, kind: WindowInteractionKind)
        ensures
            old(self).interaction_cursor_override == Some(
                InteractionCursorOverride { shape: spec_cursor_shape(kind) },
            ) ==> *final(self) == *old(self),
            old(self).interaction_cursor_override != Some(
                InteractionCursorOverride { shape: spec_cursor_shape(kind) },
            ) ==> *final(self) == (CompositorState {
                cursor_visibility_requests: bump(old(self).cursor_visibility_requests),
                ..spec_advance_render_generation(
                    CompositorState {
                        interaction_cursor_override: Some(
                            InteractionCursorOverride { shape: spec_cursor_shape(kind) },
                        ),
                        ..*old(self)
                    },
                    RenderGenerationCause::CursorState,
                )
            }),
    {
        let next = Some(InteractionCursorOverride { shape: InteractionCursorShape::for_window_interaction(kind) });
        if self.interaction_cursor_override == next {
            return;
        }
        self.interaction_cursor_override = next;
        self.advance_render_generation(RenderGenerationCause::CursorState);
        self.sync_cursor_visibility_request();
    }

    /// Drops the interaction and its cursor override; returns whether either existed.
    pub fn clear_window_interaction_state(&mut self, reason: WindowInteractionEndReason) -> (r: bool)
        ensures
            r == spec_clear_interaction(*old(self)).0,
            *final(self) == spec_clear_interaction(*old(self)).1,
            final(self).window_interaction is None,
            final(self).interaction_cursor_override is None,
    {
        let had_interaction = self.window_interaction.take().is_some();
        let had_cursor_override = self.interaction_cursor_override.take().is_some();
        if had_cursor_override {
            self.advance_render_generation(RenderGenerationCause::CursorState);
            self.sync_cursor_visibility_request();
            self.resume_pending_pointer_constraint_activation();
        }
        had_interaction || had_cursor_override
    }

    pub fn interaction_cursor_override_active(&self) -> (r: bool)
        ensures
            r == (self.interaction_cursor_override is Some),
    {
        self.interaction_cursor_override.is_some()
    }

    pub fn window_interaction_active(&self) -> (r: bool)
        ensures
            r == (self.window_interaction is Some),
    {
        self.window_interaction.is_some()
    }

    pub fn active_window_interaction_id(&self) -> (r: Option<WindowInteractionId>)
        ensures
            r == match self.window_interaction {
                Some(i) => Some(i.id),
                None => None,
            },
    {
        match self.window_interaction {
            Some(i) => Some(i.id),
            None => None,
        }
    }

    pub fn active_window_interaction_trigger_button(&self) -> (r: Option<u32>)
        ensures
            r == match self.window_interaction {
                Some(i) => i.trigger_button,
                None => None,
            },
    {
        match self.window_interaction {
            Some(i) => i.trigger_button,
            None => None,
        }
    }

    pub fn window_interaction_debug_snapshot(&self) -> (r: Option<WindowInteractionDebugSnapshot>)
        ensures
            r == match self.window_interaction {
                Some(i) => Some(i.spec_snapshot()),
                None => None,
            },
    {
        match self.window_interaction {
            Some(i) => Some(i.debug_snapshot()),
            None => None,
        }
    }

    /// A fresh interaction id: the counter advances (saturating) and the id is never zero.
    pub fn allocate_window_interaction_id(&mut self) -> (r: WindowInteractionId)
        ensures
            final(self).next_window_interaction_id == bump(old(self).next_window_interaction_id),
            r.0 == (if final(self).next_window_interaction_id == 0 {
                1
            } else {
                final(self).next_window_interaction_id
            }),
            *final(self) == (CompositorState {
                next_window_interaction_id: final(self).next_window_interaction_id,
                ..*old(self)
            }),
    {
        self.next_window_interaction_id = self.next_window_interaction_id.saturating_add(1);
        let id = if self.next_window_interaction_id == 0 { 1 } else { self.next_window_interaction_id };
        WindowInteractionId::new(id)
    }

    pub fn allocate_resize_interaction_id(&mut self) -> (r: ResizeInteractionId)
        ensures
            final(self).next_resize_interaction_id == bump(old(self).next_resize_interaction_id),
            r.0 == (if final(self).next_resize_interaction_id == 0 {
                1
            } else {
                final(self).next_resize_interaction_id
            }),
            *final(self) == (CompositorState {
                next_resize_interaction_id: final(self).next_resize_interaction_id,
                ..*old(self)
            }),
    {
        self.next_resize_interaction_id = self.next_resize_interaction_id.saturating_add(1);
        let id = if self.next_resize_interaction_id == 0 { 1 } else { self.next_resize_interaction_id };
        ResizeInteractionId::new(id)
    }

    /// Cancels whatever interaction state exists; returns whether there was any.
    pub fn cancel_window_interaction(&mut self, reason: WindowInteractionEndReason) -> (r: bool)
        ensures
            r == spec_clear_interaction(*old(self)).0,
            *final(self) == spec_clear_interaction(*old(self)).1,
    {
        if self.window_interaction.is_none() && self.interaction_cursor_override.is_none() {
            return false;
        }
        self.clear_window_interaction_state(reason)
    }

    /// Ends the interaction `interaction_id`; a stale id changes nothing.
    /// A committed resize first queues its final configure.
    pub fn end_window_interaction_by_id_with_reason(
        &mut self,
        interaction_id: WindowInteractionId,
        reason: WindowInteractionEndReason,
    ) -> (r: bool)
        ensures
            r == (old(self).window_interaction matches Some(i) && i.id == interaction_id),
            !r ==> *final(self) == *old(self),
            r ==> final(self).window_interaction is None && final(self).interaction_cursor_override is None,
            r ==> final(self).resize_end_requests@ == match old(self).window_interaction {
                Some(i) => match i.kind {
                    WindowInteractionKind::Resize(edges) if i.drag_committed => match i.resize_interaction_id {
                        Some(rid) => old(self).resize_end_requests@.push(
                            ResizeEndRequest {
                                root_surface_id: i.root_surface_id,
                                edges,
                                interaction_id: rid,
                                final_update: old(self).pending_interactive_resize_update,
                            },
                        ),
                        None => old(self).resize_end_requests@,
                    },
                    _ => old(self).resize_end_requests@,
                },
                None => old(self).resize_end_requests@,
            },
            r ==> final(self).pointer_constraint == spec_clear_interaction(*old(self)).1.pointer_constraint,
            r ==> final(self).render_generation == spec_clear_interaction(*old(self)).1.render_generation,
            r ==> final(self).scene_render_generation == old(self).scene_render_generation,
            r ==> final(self).render_generation_cause == spec_clear_interaction(*old(self)).1.render_generation_cause,
            r ==> final(self).cursor_generation == old(self).cursor_generation,
            r ==> final(self).resize_configure_flows == old(self).resize_configure_flows,
            r ==> final(self).backend_commands == old(self).backend_commands,
            r ==> final(self).resize_end_requests@ == spec_end_requests(*old(self)),
            r ==> *final(self) == spec_end_interaction(*old(self), final(self).resize_end_requests),
    {
        let ghost o = *self;
        let interaction = match self.window_interaction {
            Some(i) => i,
            None => {
                return false;
            },
        };
        if interaction.id != interaction_id {
            return false;
        }
        if interaction.drag_committed {
            match interaction.kind {
                WindowInteractionKind::Resize(edges) => {
                    match interaction.resize_interaction_id {
                        Some(rid) => {
                            let final_update = self.pending_interactive_resize_update.take();
                            self.resize_end_requests.push(
                                ResizeEndRequest {
                                    root_surface_id: interaction.root_surface_id,
                                    edges,
                                    interaction_id: rid,
                                    final_update,
                                },
                            );
                        },
                        None => {},
                    }
                },
                WindowInteractionKind::Move => {},
            }
        }
        proof {
            assert(self.resize_end_requests@ == spec_end_requests(o));
        }
        self.clear_window_interaction_state(reason);
        true
    }

    /// Ends the active interaction as an explicit end, as
    /// `end_window_interaction_by_id_with_reason` does for its id.
    pub fn end_window_interaction(&mut self)
        ensures
            old(self).window_interaction is None ==> *final(self) == *old(self),
            final(self).window_interaction is None,
            old(self).window_interaction is Some ==> final(self).resize_end_requests@ == spec_end_requests(
                *old(self),
            ),
            old(self).window_interaction is Some ==> *final(self) == spec_end_interaction(
                *old(self),
                final(self).resize_end_requests,
            ),
    {
        match self.active_window_interaction_id() {
            Some(id) => {
                self.end_window_interaction_by_id_with_reason(id, WindowInteractionEndReason::ExplicitEnd);
            },
            None => {},
        }
    }

    /// Releasing the button that started the interaction ends it; other buttons do nothing.
    pub fn end_window_interaction_for_button(&mut self, button: u32) -> (r: bool)
        ensures
            r == (old(self).window_interaction matches Some(i) && i.trigger_button == Some(button)),
            !r ==> *final(self) == *old(self),
            r ==> final(self).window_interaction is None && final(self).interaction_cursor_override is None,
            r ==> final(self).resize_configure_flows == old(self).resize_configure_flows,
            r ==> final(self).scene_render_generation == old(self).scene_render_generation,
            r ==> final(self).pointer_constraint == spec_clear_interaction(*old(self)).1.pointer_constraint,
            r ==> final(self).render_generation == spec_clear_interaction(*old(self)).1.render_generation,
            r ==> final(self).render_generation_cause == spec_clear_interaction(*old(self)).1.render_generation_cause,
            r ==> final(self).resize_end_requests@ == spec_end_requests(*old(self)),
            r ==> *final(self) == spec_end_interaction(*old(self), final(self).resize_end_requests),
    {
        let interaction = match self.window_interaction {
            Some(i) => i,
            None => {
                return false;
            },
        };
        if interaction.trigger_button != Some(button) {
            return false;
        }
        self.end_window_interaction_by_id_with_reason(
            interaction.id,
            WindowInteractionEndReason::TriggerButtonRelease,
        )
    }

    /// Ends an interaction whose trigger button is no longer held (a release
    /// that another consumer swallowed); returns whether it ended one.
    pub fn reconcile_window_interaction_trigger(&mut self, trigger_pressed: bool) -> (r: bool)
        ensures
            r == (old(self).window_interaction matches Some(i) && i.trigger_button is Some && !trigger_pressed),
            !r ==> *final(self) == *old(self),
            r ==> final(self).window_interaction is None && final(self).interaction_cursor_override is None,
            r ==> final(self).resize_end_requests@ == spec_end_requests(*old(self)),
            r ==> *final(self) == spec_end_interaction(*old(self), final(self).resize_end_requests),
    {
        let interaction = match self.window_interaction {
            Some(i) => i,
            None => {
                return false;
            },
        };
        if interaction.trigger_button.is_none() || trigger_pressed {
            return false;
        }
        self.end_window_interaction_by_id_with_reason(
            interaction.id,
            WindowInteractionEndReason::TriggerButtonNoLongerHeld,
        )
    }
}

impl CompositorState {
    /// The root of the surface tree `surface_id` belongs to (itself for roots).
    pub fn root_surface_id_for_surface(&self, surface_id: u32) -> (r: u32)
        ensures
            r == (if self.surface_roots@.contains_key(surface_id) {
                self.surface_roots@[surface_id]
            } else {
                surface_id
            }),
    {
        match self.surface_roots.get(&surface_id) {
            Some(root) => *root,
            None => surface_id,
        }
    }

    /// Whether the compositor knows `surface_id` as a root or as part of a tree.
    pub fn surface_is_known(&self, surface_id: u32) -> (r: bool)
        ensures
            r == (self.surface_roots@.contains_key(surface_id) || self.root_windows@.contains_key(surface_id)),
    {
        self.surface_roots.contains_key(&surface_id) || self.root_windows.contains_key(&surface_id)
    }

    /// The current placement of a surface; surfaces never placed sit at the root origin.
    pub fn surface_placement(&self, surface_id: u32) -> (r: SurfacePlacement)
        ensures
            r == (if self.surface_placements@.contains_key(surface_id) {
                self.surface_placements@[surface_id]
            } else {
                SurfacePlacement {
                    parent_surface_id: None,
                    local_x: 0,
                    local_y: 0,
                    root_mode: crate::surface::RootPlacementMode::Cascaded,
                }
            }),
    {
        match self.surface_placements.get(&surface_id) {
            Some(p) => *p,
            None => SurfacePlacement::root(),
        }
    }

    /// Moves a surface; a change advances the render generation with `cause`.
    pub fn set_surface_placement_with_cause(
        &mut self,
        surface_id: u32,
        placement: SurfacePlacement,
        cause: RenderGenerationCause,
    ) -> (moved: bool)
        ensures
            moved == !(old(self).surface_placements@.contains_key(surface_id)
                && old(self).surface_placements@[surface_id] == placement),
            !moved ==> *final(self) == *old(self),
            moved ==> *final(self) == spec_advance_render_generation(
                CompositorState {
                    surface_placements: final(self).surface_placements,
                    ..*old(self)
                },
                cause,
            ),
            moved ==> final(self).surface_placements@ == old(self).surface_placements@.insert(surface_id, placement),
    {
        match self.surface_placements.get(&surface_id) {
            Some(current) => {
                if *current == placement {
                    return false;
                }
            },
            None => {},
        }
        self.surface_placements.insert(surface_id, placement);
        self.advance_render_generation(cause);
        true
    }

    pub fn queue_backend_configure(
        &mut self,
        window: WindowId,
        geometry: WindowGeometry,
        mode: ToplevelMode,
        resizing: bool,
    )
        ensures
            final(self).backend_commands@ == old(self).backend_commands@.push(
                WindowBackendCommand::Configure { window, geometry, mode, resizing },
            ),
            *final(self) == (CompositorState { backend_commands: final(self).backend_commands, ..*old(self) }),
    {
        self.backend_commands.push(WindowBackendCommand::Configure { window, geometry, mode, resizing });
    }

    /// Hands the queued backend commands to the caller, oldest first.
    pub fn take_backend_commands(&mut self) -> (r: Vec<WindowBackendCommand>)
        ensures
            r@ == old(self).backend_commands@,
            final(self).backend_commands@.len() == 0,
            *final(self) == (CompositorState { backend_commands: final(self).backend_commands, ..*old(self) }),
    {
        let mut taken: Vec<WindowBackendCommand> = Vec::new();
        std::mem::swap(&mut taken, &mut self.backend_commands);
        taken
    }

    /// Starts an interaction on a root window. It is refused while another
    /// interaction is active, while the pointer is locked, for unknown or
    /// non-normal windows, and for a motion target outside the root's tree.
    pub fn begin_window_interaction_for_root(&mut self, begin: BeginWindowInteraction) -> (r: bool)
        ensures
            r == begin_allowed(*old(self), begin),
            !r ==> *final(self) == *old(self),
            r ==> interaction_begun(*old(self), *final(self), begin),
            final(self).decoration == old(self).decoration,
    {
        if self.window_interaction.is_some() {
            return false;
        }
        if self.window_interaction_blocked_by_pointer_lock() {
            return false;
        }
        let root = match self.root_windows.get(&begin.root_surface_id) {
            Some(root) => *root,
            None => {
                return false;
            },
        };
        if !root.normal_x11_role {
            return false;
        }
        match begin.pointer_motion_surface_id {
            Some(target) => {
                if !self.surface_is_known(target) {
                    return false;
                }
                if self.root_surface_id_for_surface(target) != begin.root_surface_id {
                    return false;
                }
            },
            None => {},
        }
        let window_id = match begin.window_id {
            Some(w) => w,
            None => root.window_id,
        };
        let start = match begin.kind {
            WindowInteractionKind::Resize(_) => match root.visual {
                Some(v) => v,
                None => root.committed,
            },
            WindowInteractionKind::Move => root.committed,
        };
        let resize_interaction_id = match begin.kind {
            WindowInteractionKind::Resize(_) => {
                let id = self.allocate_resize_interaction_id();
                self.resize_flow_metrics.resize_interactions_started =
                    self.resize_flow_metrics.resize_interactions_started.saturating_add(1);
                if self.visual.active_toplevel_resizes.contains_key(&begin.root_surface_id) {
                    self.resize_flow_metrics.rapid_reresize_interactions =
                        self.resize_flow_metrics.rapid_reresize_interactions.saturating_add(1);
                }
                self.resize_flow_metrics.visual_geometry_resize_starts =
                    self.resize_flow_metrics.visual_geometry_resize_starts.saturating_add(1);
                Some(id)
            },
            WindowInteractionKind::Move => None,
        };
        self.keyboard_focus = Some(begin.root_surface_id);
        let id = self.allocate_window_interaction_id();
        self.window_interaction = Some(
            WindowInteraction {
                id,
                window_id,
                root_surface_id: begin.root_surface_id,
                kind: begin.kind,
                source: begin.source,
                trigger_button: begin.trigger_button,
                trigger_serial: begin.trigger_serial,
                pointer_motion_surface_id: begin.pointer_motion_surface_id,
                start_pointer_x: begin.x,
                start_pointer_y: begin.y,
                start_placement: start.placement,
                start_width: start.width,
                start_height: start.height,
                drag_committed: false,
                resize_interaction_id,
            },
        );
        self.set_interaction_cursor_override(begin.kind);
        true
    }

    /// Begins an interaction on the window of the surface under the pointer;
    /// refused when no surface is there. The pointer's motion goes to that
    /// surface while the interaction lasts.
    pub fn begin_window_interaction_at(
        &mut self,
        x: Fixed,
        y: Fixed,
        surface_at_pointer: Option<u32>,
        kind: WindowInteractionKind,
        source: WindowInteractionSource,
        trigger_button: Option<u32>,
        trigger_serial: Option<u32>,
    ) -> (r: bool)
        ensures
            r == match surface_at_pointer {
                None => false,
                Some(surface_id) => begin_allowed(
                    *old(self),
                    begin_at_surface(*old(self), x, y, surface_id, kind, source, trigger_button, trigger_serial),
                ),
            },
            !r ==> *final(self) == *old(self),
            r ==> interaction_begun(
                *old(self),
                *final(self),
                begin_at_surface(*old(self), x, y, surface_at_pointer->0, kind, source, trigger_button, trigger_serial),
            ),
            final(self).decoration == old(self).decoration,
    {
        let surface_id = match surface_at_pointer {
            Some(surface_id) => surface_id,
            None => {
                return false;
            },
        };
        let root_surface_id = self.root_surface_id_for_surface(surface_id);
        self.begin_window_interaction_for_root(
            BeginWindowInteraction {
                window_id: None,
                root_surface_id,
                x,
                y,
                kind,
                source,
                trigger_button,
                trigger_serial,
                pointer_motion_surface_id: Some(surface_id),
            },
        )
    }

    /// Begins a native move of the window under the pointer.
    pub fn begin_window_move_at(&mut self, x: Fixed, y: Fixed, surface_at_pointer: Option<u32>) -> (r: bool)
        ensures
            r == match surface_at_pointer {
                None => false,
                Some(surface_id) => begin_allowed(
                    *old(self),
                    begin_at_surface(
                        *old(self),
                        x,
                        y,
                        surface_id,
                        WindowInteractionKind::Move,
                        WindowInteractionSource::NativeBinding,
                        None,
                        None,
                    ),
                ),
            },
            !r ==> *final(self) == *old(self),
            r ==> interaction_begun(
                *old(self),
                *final(self),
                begin_at_surface(
                    *old(self),
                    x,
                    y,
                    surface_at_pointer->0,
                    WindowInteractionKind::Move,
                    WindowInteractionSource::NativeBinding,
                    None,
                    None,
                ),
            ),
    {
        self.begin_window_interaction_at(
            x,
            y,
            surface_at_pointer,
            WindowInteractionKind::Move,
            WindowInteractionSource::NativeBinding,
            None,
            None,
        )
    }

    /// Begins a native move of the window under the pointer, ended by the
    /// release of `trigger_button`.
    pub fn begin_window_move_at_with_trigger(
        &mut self,
        x: Fixed,
        y: Fixed,
        surface_at_pointer: Option<u32>,
        trigger_button: u32,
    ) -> (r: bool)
        ensures
            r == match surface_at_pointer {
                None => false,
                Some(surface_id) => begin_allowed(
                    *old(self),
                    begin_at_surface(
                        *old(self),
                        x,
                        y,
                        surface_id,
                        WindowInteractionKind::Move,
                        WindowInteractionSource::NativeBinding,
                        Some(trigger_button),
                        None,
                    ),
                ),
            },
            !r ==> *final(self) == *old(self),
            r ==> interaction_begun(
                *old(self),
                *final(self),
                begin_at_surface(
                    *old(self),
                    x,
                    y,
                    surface_at_pointer->0,
                    WindowInteractionKind::Move,
                    WindowInteractionSource::NativeBinding,
                    Some(trigger_button),
                    None,
                ),
            ),
    {
        self.begin_window_interaction_at(
            x,
            y,
            surface_at_pointer,
            WindowInteractionKind::Move,
            WindowInteractionSource::NativeBinding,
            Some(trigger_button),
            None,
        )
    }

    /// Begins a native resize of the window under the pointer that no held
    /// button ends.
    pub fn begin_window_resize_at(
        &mut self,
        x: Fixed,
        y: Fixed,
        surface_at_pointer: Option<u32>,
        edges_at_pointer: Option<ResizeEdges>,
    ) -> (r: bool)
        ensures
            ({
                let edges = match edges_at_pointer {
                    Some(e) => e,
                    None => ResizeEdges { top: false, bottom: true, left: false, right: true },
                };
                &&& r == match surface_at_pointer {
                    None => false,
                    Some(surface_id) => begin_allowed(
                        *old(self),
                        begin_at_surface(
                            *old(self),
                            x,
                            y,
                            surface_id,
                            WindowInteractionKind::Resize(edges),
                            WindowInteractionSource::NativeBinding,
                            None,
                            None,
                        ),
                    ),
                }
                &&& !r ==> *final(self) == *old(self)
                &&& r ==> interaction_begun(
                    *old(self),
                    *final(self),
                    begin_at_surface(
                        *old(self),
                        x,
                        y,
                        surface_at_pointer->0,
                        WindowInteractionKind::Resize(edges),
                        WindowInteractionSource::NativeBinding,
                        None,
                        None,
                    ),
                )
            }),
    {
        self.begin_window_resize_at_with_trigger(x, y, surface_at_pointer, edges_at_pointer, 0)
    }

    /// Begins a native resize of the window under the pointer, dragging the
    /// edges under the pointer (the bottom-right corner when the pointer is
    /// not over the window's frame area); a zero `trigger_button` means the
    /// resize is not tied to a held button.
    pub fn begin_window_resize_at_with_trigger(
        &mut self,
        x: Fixed,
        y: Fixed,
        surface_at_pointer: Option<u32>,
        edges_at_pointer: Option<ResizeEdges>,
        trigger_button: u32,
    ) -> (r: bool)
        ensures
            ({
                let edges = match edges_at_pointer {
                    Some(e) => e,
                    None => ResizeEdges { top: false, bottom: true, left: false, right: true },
                };
                let trigger = if trigger_button == 0 {
                    None
                } else {
                    Some(trigger_button)
                };
                &&& r == match surface_at_pointer {
                    None => false,
                    Some(surface_id) => begin_allowed(
                        *old(self),
                        begin_at_surface(
                            *old(self),
                            x,
                            y,
                            surface_id,
                            WindowInteractionKind::Resize(edges),
                            WindowInteractionSource::NativeBinding,
                            trigger,
                            None,
                        ),
                    ),
                }
                &&& !r ==> *final(self) == *old(self)
                &&& r ==> interaction_begun(
                    *old(self),
                    *final(self),
                    begin_at_surface(
                        *old(self),
                        x,
                        y,
                        surface_at_pointer->0,
                        WindowInteractionKind::Resize(edges),
                        WindowInteractionSource::NativeBinding,
                        trigger,
                        None,
                    ),
                )
            }),
    {
        let edges = match edges_at_pointer {
            Some(e) => e,
            None => ResizeEdges::bottom_right(),
        };
        let trigger = if trigger_button == 0 {
            None
        } else {
            Some(trigger_button)
        };
        self.begin_window_interaction_at(
            x,
            y,
            surface_at_pointer,
            WindowInteractionKind::Resize(edges),
            WindowInteractionSource::NativeBinding,
            trigger,
            None,
        )
    }

    /// The mode of the window `window_id` drawn by `root_surface_id`;
    /// floating for a window the compositor does not know.
    pub fn window_mode(&self, window_id: WindowId, root_surface_id: u32) -> (r: ToplevelMode)
        ensures
            r == spec_window_mode(*self, window_id, root_surface_id),
    {
        match self.root_windows.get(&root_surface_id) {
            Some(root) => if root.window_id == window_id {
                root.mode
            } else {
                ToplevelMode::Floating
            },
            None => ToplevelMode::Floating,
        }
    }

    /// Gives the X11 window drawn by `root_surface_id` the client and frame
    /// geometry `geometry`; returns whether it is an X11 window.
    pub fn set_x11_frame_geometry(&mut self, root_surface_id: u32, geometry: WindowGeometry) -> (r: bool)
        ensures
            r == (old(self).root_windows@.contains_key(root_surface_id)
                && old(self).root_windows@[root_surface_id].x11_geometry is Some),
            final(self).root_windows@ == spec_set_x11_frame_geometry(
                old(self).root_windows@,
                root_surface_id,
                geometry,
            ),
            *final(self) == (CompositorState { root_windows: final(self).root_windows, ..*old(self) }),
    {
        let root = match self.root_windows.get(&root_surface_id) {
            Some(root) => *root,
            None => {
                return false;
            },
        };
        if root.x11_geometry.is_none() {
            return false;
        }
        let client = X11Geometry {
            x: geometry.placement.local_x,
            y: geometry.placement.local_y,
            width: geometry.width,
            height: geometry.height,
        };
        self.root_windows.insert(
            root_surface_id,
            RootWindow { x11_geometry: Some(X11WindowGeometry { client, frame: geometry }), ..root },
        );
        true
    }

    /// The window whose root surface is `surface_id`.
    pub fn window_id_for_surface(&self, surface_id: u32) -> (r: Option<WindowId>)
        ensures
            r == (if self.root_windows@.contains_key(surface_id) {
                Some(self.root_windows@[surface_id].window_id)
            } else {
                None
            }),
    {
        match self.root_windows.get(&surface_id) {
            Some(root) => Some(root.window_id),
            None => None,
        }
    }

    /// The last press, when it carries `serial` and was made on the window
    /// `root_surface_id` or on a surface of the requesting client.
    pub fn valid_pointer_press_for_surface(&self, root_surface_id: u32, client_id: u64, serial: u32) -> (r:
        Option<PointerPress>)
        ensures
            r == spec_valid_pointer_press(*self, root_surface_id, client_id, serial),
    {
        match self.last_pointer_press {
            Some(press) => {
                let valid_surface = press.root_surface_id == root_surface_id || press.client_id == client_id;
                if press.serial == serial && valid_surface {
                    Some(press)
                } else {
                    None
                }
            },
            None => None,
        }
    }

    /// A client's request to move its toplevel `surface_id` with the press of
    /// `serial`: refused unless that press is the last one and was made on
    /// the window or by the same client; the interaction then starts at the
    /// press position, ended by the release of the pressed button.
    pub fn begin_client_window_move(&mut self, surface_id: u32, client_id: u64, serial: u32) -> (r: bool)
        ensures
            client_begin_outcome(
                *old(self),
                *final(self),
                surface_id,
                client_id,
                serial,
                WindowInteractionKind::Move,
                WindowInteractionSource::XdgToplevelMove,
                r,
            ),
    {
        self.begin_client_window_interaction(
            surface_id,
            client_id,
            serial,
            WindowInteractionKind::Move,
            WindowInteractionSource::XdgToplevelMove,
        )
    }

    /// A client's request to resize its toplevel `surface_id` by `edges` with
    /// the press of `serial`, under the same conditions as a move.
    pub fn begin_client_window_resize(&mut self, surface_id: u32, client_id: u64, serial: u32, edges: ResizeEdges) -> (r:
        bool)
        ensures
            client_begin_outcome(
                *old(self),
                *final(self),
                surface_id,
                client_id,
                serial,
                WindowInteractionKind::Resize(edges),
                WindowInteractionSource::XdgToplevelResize,
                r,
            ),
    {
        self.begin_client_window_interaction(
            surface_id,
            client_id,
            serial,
            WindowInteractionKind::Resize(edges),
            WindowInteractionSource::XdgToplevelResize,
        )
    }

    fn begin_client_window_interaction(
        &mut self,
        surface_id: u32,
        client_id: u64,
        serial: u32,
        kind: WindowInteractionKind,
        source: WindowInteractionSource,
    ) -> (r: bool)
        ensures
            client_begin_outcome(*old(self), *final(self), surface_id, client_id, serial, kind, source, r),
    {
        let root_surface_id = self.root_surface_id_for_surface(surface_id);
        let press = match self.valid_pointer_press_for_surface(root_surface_id, client_id, serial) {
            Some(press) => press,
            None => {
                return false;
            },
        };
        let window_id = self.window_id_for_surface(root_surface_id);
        self.begin_window_interaction_for_root(
            BeginWindowInteraction {
                window_id,
                root_surface_id,
                x: press.output_x,
                y: press.output_y,
                kind,
                source,
                trigger_button: Some(press.button),
                trigger_serial: Some(press.serial),
                pointer_motion_surface_id: Some(press.surface_id),
            },
        )
    }

    /// Follows the pointer to `(x, y)` with the active interaction, if any.
    pub fn update_window_interaction(&mut self, x: Fixed, y: Fixed) -> (r: bool)
        requires
            match old(self).window_interaction {
                Some(i) => interaction_update_defined(*old(self), i.id, x, y),
                None => true,
            },
        ensures
            match old(self).window_interaction {
                None => !r && *final(self) == *old(self),
                Some(i) => interaction_update(*old(self), *final(self), i.id, x, y, r),
            },
    {
        let interaction_id = match self.active_window_interaction_id() {
            Some(id) => id,
            None => {
                return false;
            },
        };
        self.update_window_interaction_by_id(interaction_id, x, y)
    }

    /// Follows the pointer to `(x, y)`. A move places the window at once and
    /// asks the backend to configure it; a resize, once the pointer moved
    /// along a dragged axis, records the target geometry for the next flush.
    pub fn update_window_interaction_by_id(&mut self, interaction_id: WindowInteractionId, x: Fixed, y: Fixed) -> (r:
        bool)
        requires
            interaction_update_defined(*old(self), interaction_id, x, y),
        ensures
            interaction_update(*old(self), *final(self), interaction_id, x, y, r),
    {
        let interaction = match self.window_interaction {
            Some(i) => i,
            None => {
                return false;
            },
        };
        if interaction.id != interaction_id {
            return false;
        }
        let dx = Fixed::rounded_delta(interaction.start_pointer_x, x);
        let dy = Fixed::rounded_delta(interaction.start_pointer_y, y);
        match interaction.kind {
            WindowInteractionKind::Move => {
                let placement = SurfacePlacement {
                    local_x: interaction.start_placement.local_x + dx,
                    local_y: interaction.start_placement.local_y + dy,
                    ..interaction.start_placement
                };
                let moved = self.set_surface_placement_with_cause(
                    interaction.root_surface_id,
                    placement,
                    RenderGenerationCause::WindowMove,
                );
                if moved {
                    let mode = self.window_mode(interaction.window_id, interaction.root_surface_id);
                    self.queue_backend_configure(
                        interaction.window_id,
                        WindowGeometry::new(placement, interaction.start_width, interaction.start_height),
                        mode,
                        false,
                    );
                }
                moved
            },
            WindowInteractionKind::Resize(edges) => {
                if !interaction.drag_committed && !resize_drag_threshold_reached(edges, dx, dy) {
                    return false;
                }
                let committed = WindowInteraction { drag_committed: true, ..interaction };
                self.window_interaction = Some(committed);
                let resize_id = match interaction.resize_interaction_id {
                    Some(id) => id,
                    None => {
                        return false;
                    },
                };
                let resize = interactive_resize_geometry(committed, edges, dx, dy);
                let update = PendingInteractiveResizeUpdate {
                    root_surface_id: interaction.root_surface_id,
                    width: resize.width,
                    height: resize.height,
                    placement: SurfacePlacement {
                        local_x: resize.x,
                        local_y: resize.y,
                        ..interaction.start_placement
                    },
                    edges,
                    interaction_id: resize_id,
                };
                self.resize_flow_metrics.raw_pointer_resize_updates =
                    self.resize_flow_metrics.raw_pointer_resize_updates.saturating_add(1);
                if self.pending_interactive_resize_update == Some(update) {
                    self.resize_flow_metrics.resize_updates_skipped_unchanged =
                        self.resize_flow_metrics.resize_updates_skipped_unchanged.saturating_add(1);
                    return false;
                }
                if self.pending_interactive_resize_update.is_some() {
                    self.resize_flow_metrics.pending_resize_updates_replaced =
                        self.resize_flow_metrics.pending_resize_updates_replaced.saturating_add(1);
                }
                self.pending_interactive_resize_update = Some(update);
                true
            },
        }
    }
}

/// The mode of the window `window_id` drawn by `root_surface_id`; floating
/// for a window the compositor does not know.
pub open spec fn spec_window_mode(s: CompositorState, window_id: WindowId, root_surface_id: u32) -> ToplevelMode {
    if s.root_windows@.contains_key(root_surface_id) && s.root_windows@[root_surface_id].window_id == window_id {
        s.root_windows@[root_surface_id].mode
    } else {
        ToplevelMode::Floating
    }
}

/// The interaction a begin allowed by `begin_allowed` installs: built from
/// the request and the root's committed geometry (its visual geometry for a
/// resize, when it has one), under the next interaction id, with the next
/// resize id for a resize.
pub open spec fn spec_begun_interaction(o: CompositorState, begin: BeginWindowInteraction) -> WindowInteraction {
    let root = o.root_windows@[begin.root_surface_id];
    let start = match begin.kind {
        WindowInteractionKind::Resize(_) => match root.visual {
            Some(v) => v,
            None => root.committed,
        },
        WindowInteractionKind::Move => root.committed,
    };
    WindowInteraction {
        id: WindowInteractionId(bump(o.next_window_interaction_id)),
        window_id: match begin.window_id {
            Some(w) => w,
            None => root.window_id,
        },
        root_surface_id: begin.root_surface_id,
        kind: begin.kind,
        source: begin.source,
        trigger_button: begin.trigger_button,
        trigger_serial: begin.trigger_serial,
        pointer_motion_surface_id: begin.pointer_motion_surface_id,
        start_pointer_x: begin.x,
        start_pointer_y: begin.y,
        start_placement: start.placement,
        start_width: start.width,
        start_height: start.height,
        drag_committed: false,
        resize_interaction_id: if begin.kind is Resize {
            Some(ResizeInteractionId(bump(o.next_resize_interaction_id)))
        } else {
            None
        },
    }
}

/// Installing the cursor override of `kind`: a change repaints the cursor.
pub open spec fn spec_set_cursor_override(s: CompositorState, kind: WindowInteractionKind) -> CompositorState {
    let next = Some(InteractionCursorOverride { shape: spec_cursor_shape(kind) });
    if s.interaction_cursor_override == next {
        s
    } else {
        CompositorState {
            cursor_visibility_requests: bump(s.cursor_visibility_requests),
            ..spec_advance_render_generation(
                CompositorState { interaction_cursor_override: next, ..s },
                RenderGenerationCause::CursorState,
            )
        }
    }
}

/// The whole state a begin allowed by `begin_allowed` leaves: the new
/// interaction, both id counters advanced as used, a resize counted in the
/// resize-flow metrics (as a rapid re-resize while a preview holds the root), keyboard focus on the root, and the cursor override
/// of the interaction's kind; nothing else changes.
pub open spec fn spec_begin_state(o: CompositorState, begin: BeginWindowInteraction) -> CompositorState {
    let is_resize = begin.kind is Resize;
    let m = o.resize_flow_metrics;
    spec_set_cursor_override(
        CompositorState {
            window_interaction: Some(spec_begun_interaction(o, begin)),
            keyboard_focus: Some(begin.root_surface_id),
            next_window_interaction_id: bump(o.next_window_interaction_id),
            next_resize_interaction_id: if is_resize {
                bump(o.next_resize_interaction_id)
            } else {
                o.next_resize_interaction_id
            },
            resize_flow_metrics: if is_resize {
                ResizeFlowMetrics {
                    resize_interactions_started: bump(m.resize_interactions_started),
                    visual_geometry_resize_starts: bump(m.visual_geometry_resize_starts),
                    rapid_reresize_interactions: if o.visual.active_toplevel_resizes@.contains_key(
                        begin.root_surface_id,
                    ) {
                        bump(m.rapid_reresize_interactions)
                    } else {
                        m.rapid_reresize_interactions
                    },
                    ..m
                }
            } else {
                m
            },
            ..o
        },
        begin.kind,
    )
}

/// What a successful begin leaves: exactly the state `spec_begin_state`
/// describes, so the new interaction, its cursor override and keyboard focus
/// on the root.
pub open spec fn interaction_begun(o: CompositorState, f: CompositorState, begin: BeginWindowInteraction) -> bool {
    &&& f == spec_begin_state(o, begin)
    &&& f.window_interaction == Some(spec_begun_interaction(o, begin))
    &&& f.interaction_cursor_override == Some(InteractionCursorOverride { shape: spec_cursor_shape(begin.kind) })
    &&& f.keyboard_focus == Some(begin.root_surface_id)
}

/// The root of the surface tree `id` belongs to.
pub open spec fn root_of(s: CompositorState, id: u32) -> u32 {
    if s.surface_roots@.contains_key(id) {
        s.surface_roots@[id]
    } else {
        id
    }
}

/// The last press, when it carries `serial` and was made on the window
/// `root_surface_id` or by the client `client_id`.
pub open spec fn spec_valid_pointer_press(s: CompositorState, root_surface_id: u32, client_id: u64, serial: u32) -> Option<
    PointerPress,
> {
    match s.last_pointer_press {
        Some(p) => if p.serial == serial && (p.root_surface_id == root_surface_id || p.client_id == client_id) {
            Some(p)
        } else {
            None
        },
        None => None,
    }
}

/// The request a client's move or resize makes from the press `p` on the
/// window `root_surface_id`.
pub open spec fn client_begin(
    s: CompositorState,
    root_surface_id: u32,
    p: PointerPress,
    kind: WindowInteractionKind,
    source: WindowInteractionSource,
) -> BeginWindowInteraction {
    BeginWindowInteraction {
        window_id: if s.root_windows@.contains_key(root_surface_id) {
            Some(s.root_windows@[root_surface_id].window_id)
        } else {
            None
        },
        root_surface_id,
        x: p.output_x,
        y: p.output_y,
        kind,
        source,
        trigger_button: Some(p.button),
        trigger_serial: Some(p.serial),
        pointer_motion_surface_id: Some(p.surface_id),
    }
}

/// What a client's move or resize request leaves, with `r` its result: with
/// no matching press nothing changes; otherwise the interaction begins as the
/// press asks, when a begin is allowed.
pub open spec fn client_begin_outcome(
    o: CompositorState,
    f: CompositorState,
    surface_id: u32,
    client_id: u64,
    serial: u32,
    kind: WindowInteractionKind,
    source: WindowInteractionSource,
    r: bool,
) -> bool {
    let root = root_of(o, surface_id);
    match spec_valid_pointer_press(o, root, client_id, serial) {
        None => !r && f == o,
        Some(p) => {
            let begin = client_begin(o, root, p, kind, source);
            &&& r == begin_allowed(o, begin)
            &&& !r ==> f == o
            &&& r ==> interaction_begun(o, f, begin)
        },
    }
}

/// The request to begin an interaction on the window of the surface under the pointer.
pub open spec fn begin_at_surface(
    s: CompositorState,
    x: Fixed,
    y: Fixed,
    surface_id: u32,
    kind: WindowInteractionKind,
    source: WindowInteractionSource,
    trigger_button: Option<u32>,
    trigger_serial: Option<u32>,
) -> BeginWindowInteraction {
    BeginWindowInteraction {
        window_id: None,
        root_surface_id: root_of(s, surface_id),
        x,
        y,
        kind,
        source,
        trigger_button,
        trigger_serial,
        pointer_motion_surface_id: Some(surface_id),
    }
}

/// What following the pointer to `(x, y)` does for the interaction
/// `interaction_id`, with `r` the function's result.
pub open spec fn interaction_update(
    o: CompositorState,
    f: CompositorState,
    interaction_id: WindowInteractionId,
    x: Fixed,
    y: Fixed,
    r: bool,
) -> bool {
    match o.window_interaction {
        None => !r && f == o,
        Some(i) => if i.id != interaction_id {
            !r && f == o
        } else {
            match i.kind {
                WindowInteractionKind::Move => {
                    let placement = spec_move_target(i, x, y);
                    let moved = !(o.surface_placements@.contains_key(i.root_surface_id)
                        && o.surface_placements@[i.root_surface_id] == placement);
                    &&& r == moved
                    &&& !moved ==> f == o
                    &&& moved ==> f == (CompositorState {
                        surface_placements: f.surface_placements,
                        backend_commands: f.backend_commands,
                        ..spec_advance_render_generation(o, RenderGenerationCause::WindowMove)
                    })
                    &&& moved ==> f.surface_placements@ == o.surface_placements@.insert(
                        i.root_surface_id,
                        placement,
                    )
                    &&& moved ==> f.backend_commands@ == o.backend_commands@.push(
                        WindowBackendCommand::Configure {
                            window: i.window_id,
                            geometry: WindowGeometry {
                                placement,
                                width: i.start_width,
                                height: i.start_height,
                            },
                            mode: spec_window_mode(o, i.window_id, i.root_surface_id),
                            resizing: false,
                        },
                    )
                },
                WindowInteractionKind::Resize(edges) => {
                    let dx = crate::fixed::spec_round_div(x.raw - i.start_pointer_x.raw);
                    let dy = crate::fixed::spec_round_div(y.raw - i.start_pointer_y.raw);
                    if !i.drag_committed && !spec_drag_threshold_reached(edges, dx, dy) {
                        !r && f == o
                    } else {
                        let committed = WindowInteraction { drag_committed: true, ..i };
                        let u = spec_resize_update(i, edges, dx, dy);
                        let m = o.resize_flow_metrics;
                        let counted = ResizeFlowMetrics {
                            raw_pointer_resize_updates: bump(m.raw_pointer_resize_updates),
                            ..m
                        };
                        if o.pending_interactive_resize_update == Some(u) {
                            &&& !r
                            &&& f == (CompositorState {
                                window_interaction: Some(committed),
                                resize_flow_metrics: ResizeFlowMetrics {
                                    resize_updates_skipped_unchanged: bump(
                                        m.resize_updates_skipped_unchanged,
                                    ),
                                    ..counted
                                },
                                ..o
                            })
                        } else {
                            &&& r
                            &&& f == (CompositorState {
                                window_interaction: Some(committed),
                                pending_interactive_resize_update: Some(u),
                                resize_flow_metrics: if o.pending_interactive_resize_update is Some {
                                    ResizeFlowMetrics {
                                        pending_resize_updates_replaced: bump(
                                            m.pending_resize_updates_replaced,
                                        ),
                                        ..counted
                                    }
                                } else {
                                    counted
                                },
                                ..o
                            })
                        }
                    }
                },
            }
        },
    }
}

/// The resize target that a pointer offset of `(dx, dy)` from the start of
/// the resize `i` asks for.
pub open spec fn spec_resize_update(
    i: WindowInteraction,
    edges: ResizeEdges,
    dx: int,
    dy: int,
) -> PendingInteractiveResizeUpdate {
    let (rx, rw) = spec_resize_axis(
        i.start_placement.local_x as int,
        i.start_width as int,
        dx,
        edges.right,
        edges.left,
    );
    let (ry, rh) = spec_resize_axis(
        i.start_placement.local_y as int,
        i.start_height as int,
        dy,
        edges.bottom,
        edges.top,
    );
    PendingInteractiveResizeUpdate {
        root_surface_id: i.root_surface_id,
        width: rw as u32,
        height: rh as u32,
        placement: SurfacePlacement { local_x: rx as i32, local_y: ry as i32, ..i.start_placement },
        edges,
        interaction_id: i.resize_interaction_id->0,
    }
}

/// The inputs on which following the pointer is defined: a move target that
/// fits in `i32`, and a resize that goes past its threshold has an id.
pub open spec fn interaction_update_defined(
    s: CompositorState,
    interaction_id: WindowInteractionId,
    x: Fixed,
    y: Fixed,
) -> bool {
    match s.window_interaction {
        Some(i) => i.id == interaction_id ==> match i.kind {
            WindowInteractionKind::Move => move_target_in_range(i, x, y),
            WindowInteractionKind::Resize(edges) => {
                let dx = crate::fixed::spec_round_div(x.raw - i.start_pointer_x.raw);
                let dy = crate::fixed::spec_round_div(y.raw - i.start_pointer_y.raw);
                (i.drag_committed || spec_drag_threshold_reached(edges, dx, dy))
                    ==> i.resize_interaction_id is Some
            },
        },
        None => true,
    }
}

/// Whether an interaction may start: none is active, the pointer is not
/// locked, the root is a known normal window, and a motion target, if any,
/// belongs to the root's tree.
pub open spec fn begin_allowed(s: CompositorState, begin: BeginWindowInteraction) -> bool {
    &&& s.window_interaction is None
    &&& !(s.pointer_constraint.mode == PointerConstraintMode::Locked || (s.pending_pointer_constraint matches Some(
        p,
    ) && p.mode == PointerConstraintMode::Locked))
    &&& s.root_windows@.contains_key(begin.root_surface_id)
    &&& s.root_windows@[begin.root_surface_id].normal_x11_role
    &&& match begin.pointer_motion_surface_id {
        None => true,
        Some(t) => (s.surface_roots@.contains_key(t) || s.root_windows@.contains_key(t)) && (if s.surface_roots@.contains_key(
            t,
        ) {
            s.surface_roots@[t]
        } else {
            t
        }) == begin.root_surface_id,
    }
}

/// Whether `ids` holds `id`.
pub open spec fn ids_contain(ids: Seq<u32>, id: u32) -> bool {
    exists|k: int| #![trigger ids[k]] 0 <= k < ids.len() && ids[k] == id
}

/// Whether an interaction involves one of `ids`, as its root or its motion target.
pub open spec fn interaction_touches(i: WindowInteraction, ids: Seq<u32>) -> bool {
    ids_contain(ids, i.root_surface_id) || (i.pointer_motion_surface_id matches Some(t) && ids_contain(ids, t))
}

impl CompositorState {
    /// Whether `id` is in `ids`.
    fn slice_contains(ids: &[u32], id: u32) -> (r: bool)
        ensures
            r == ids_contain(ids@, id),
    {
        let mut k: usize = 0;
        while k < ids.len()
            invariant
                k <= ids@.len(),
                forall|j: int| #![trigger ids@[j]] 0 <= j < k ==> ids@[j] != id,
            decreases ids@.len() - k,
        {
            if ids[k] == id {
                assert(ids@[k as int] == id);
                return true;
            }
            k = k + 1;
        }
        false
    }

    /// Forgets resize state of destroyed (or mode-changed) surfaces and
    /// cancels an interaction that involves one of them.
    pub fn clear_resize_state_for_surfaces(&mut self, surface_ids: &[u32])
        ensures
            final(self).resize_configure_flows@ == old(self).resize_configure_flows@.remove_keys(
                surface_ids@.to_set(),
            ),
            *final(self) == (CompositorState {
                resize_configure_flows: final(self).resize_configure_flows,
                ..(if old(self).window_interaction matches Some(i) && interaction_touches(i, surface_ids@) {
                    spec_clear_interaction(*old(self)).1
                } else {
                    *old(self)
                })
            }),
            (old(self).window_interaction matches Some(i) && interaction_touches(i, surface_ids@))
                ==> final(self).window_interaction is None && final(self).interaction_cursor_override is None,
    {
        let mut k: usize = 0;
        while k < surface_ids.len()
            invariant
                k <= surface_ids@.len(),
                *self == (CompositorState { resize_configure_flows: self.resize_configure_flows, ..*old(self) }),
                self.resize_configure_flows@ == old(self).resize_configure_flows@.remove_keys(
                    surface_ids@.take(k as int).to_set(),
                ),
            decreases surface_ids@.len() - k,
        {
            let id = surface_ids[k];
            let ghost before = self.resize_configure_flows@;
            let _ = self.resize_configure_flows.remove(&id);
            proof {
                assert(surface_ids@.take(k as int + 1) =~= surface_ids@.take(k as int).push(id));
                surface_ids@.take(k as int).lemma_push_to_set_commute(id);
                assert(self.resize_configure_flows@ =~= old(self).resize_configure_flows@.remove_keys(
                    surface_ids@.take(k as int + 1).to_set(),
                ));
            }
            k = k + 1;
        }
        proof {
            assert(surface_ids@.take(surface_ids@.len() as int) =~= surface_ids@);
        }
        let touched = match self.window_interaction {
            Some(i) => Self::slice_contains(surface_ids, i.root_surface_id) || match i.pointer_motion_surface_id {
                Some(t) => Self::slice_contains(surface_ids, t),
                None => false,
            },
            None => false,
        };
        if touched {
            let ghost mid = *self;
            self.clear_window_interaction_state(WindowInteractionEndReason::SurfaceDestroyed);
            proof {
                assert(spec_clear_interaction(mid).1 == (CompositorState {
                    resize_configure_flows: mid.resize_configure_flows,
                    ..spec_clear_interaction(*old(self)).1
                }));
            }
        }
    }

    /// Pointer focus loss drops the focus and cancels any interaction.
    pub fn clear_pointer_focus(&mut self)
        ensures
            *final(self) == (CompositorState { pointer_focus: None, ..spec_clear_interaction(*old(self)).1 }),
            final(self).pointer_focus is None,
            final(self).window_interaction is None,
            final(self).interaction_cursor_override is None,
            final(self).pointer_constraint == spec_clear_interaction(*old(self)).1.pointer_constraint,
    {
        self.pointer_focus = None;
        self.cancel_window_interaction(WindowInteractionEndReason::FocusLost);
    }

    /// Moves the cursor without telling any client; a moved cursor advances
    /// only the cursor generation. Returns whether the position changed.
    pub fn update_pointer_position_without_client_dispatch(&mut self, x: Fixed, y: Fixed) -> (r: bool)
        ensures
            r == (old(self).pointer_x != x || old(self).pointer_y != y),
            !r ==> *final(self) == *old(self),
            r ==> *final(self) == (CompositorState {
                pointer_x: x,
                pointer_y: y,
                cursor_generation: bump(old(self).cursor_generation),
                ..*old(self)
            }),
    {
        if self.pointer_x == x && self.pointer_y == y {
            return false;
        }
        self.pointer_x = x;
        self.pointer_y = y;
        self.cursor_generation = self.cursor_generation.saturating_add(1);
        true
    }

    /// The surface that receives pointer motion during an interaction, if any.
    pub fn window_interaction_motion_target(&self) -> (r: Option<u32>)
        ensures
            r == match self.window_interaction {
                Some(i) => i.pointer_motion_surface_id,
                None => None,
            },
    {
        match self.window_interaction {
            Some(i) => i.pointer_motion_surface_id,
            None => None,
        }
    }

    /// Accounts for pointer motion forwarded during an interaction: returns how
    /// many surfaces receive it (zero without a motion target) and records the
    /// event time when one does. The caller sends the events.
    pub fn send_window_interaction_pointer_motion(&mut self, time_usec: u32, x: Fixed, y: Fixed) -> (r: u32)
        ensures
            (match old(self).window_interaction {
                Some(i) => i.pointer_motion_surface_id is Some,
                None => false,
            }) ==> r == 1 && *final(self) == (CompositorState {
                last_pointer_motion_usec: Some(time_usec),
                ..*old(self)
            }),
            !(match old(self).window_interaction {
                Some(i) => i.pointer_motion_surface_id is Some,
                None => false,
            }) ==> r == 0 && *final(self) == *old(self),
    {
        match self.window_interaction_motion_target() {
            Some(_) => {
                self.last_pointer_motion_usec = Some(time_usec);
                1
            },
            None => 0,
        }
    }
}

/// Whether a pending tree transaction holds `surface_id` as one of its nodes.
pub open spec fn tree_holds(t: PendingSurfaceTreeTransaction, surface_id: u32) -> bool {
    exists|k: int| #![trigger t.nodes@[k]] 0 <= k < t.nodes@.len() && t.nodes@[k] == surface_id
}

impl CompositorState {
    /// Whether commits of `surface_id` wait on explicit sync or in a pending
    /// surface tree: work that a role change must not silently orphan.
    pub fn has_unpublished_surface_work(&self, surface_id: u32) -> (r: bool)
        ensures
            r == (ids_contain(self.pending_explicit_sync_commit_surfaces@, surface_id) || exists|t: int|
                #![trigger self.pending_surface_tree_transactions@[t]]
                0 <= t < self.pending_surface_tree_transactions@.len() && tree_holds(
                    self.pending_surface_tree_transactions@[t],
                    surface_id,
                )),
    {
        if Self::slice_contains(self.pending_explicit_sync_commit_surfaces.as_slice(), surface_id) {
            return true;
        }
        let mut t: usize = 0;
        while t < self.pending_surface_tree_transactions.len()
            invariant
                t <= self.pending_surface_tree_transactions@.len(),
                forall|j: int|
                    #![trigger self.pending_surface_tree_transactions@[j]]
                    0 <= j < t ==> !tree_holds(self.pending_surface_tree_transactions@[j], surface_id),
            decreases self.pending_surface_tree_transactions@.len() - t,
        {
            let transaction = &self.pending_surface_tree_transactions[t];
            if Self::slice_contains(transaction.nodes.as_slice(), surface_id) {
                assert(tree_holds(self.pending_surface_tree_transactions@[t as int], surface_id));
                return true;
            }
            t = t + 1;
        }
        false
    }

    /// The xdg_surface lifecycle of `surface_id`, if it has one.
    pub fn xdg_surface_lifecycle(&self, surface_id: u32) -> (r: Option<&XdgSurfaceLifecycle>)
        ensures
            r == (if self.xdg_surface_lifecycles@.contains_key(surface_id) {
                Some(&self.xdg_surface_lifecycles@[surface_id])
            } else {
                None
            }),
    {
        self.xdg_surface_lifecycles.get(&surface_id)
    }

    pub fn xdg_surface_is_configured(&self, surface_id: u32) -> (r: bool)
        ensures
            r == (self.xdg_surface_lifecycles@.contains_key(surface_id)
                && self.xdg_surface_lifecycles@[surface_id].initial_configure_acked),
    {
        match self.xdg_surface_lifecycles.get(&surface_id) {
            Some(l) => l.can_commit_buffer(),
            None => false,
        }
    }

    pub fn xdg_surface_is_constructed(&self, surface_id: u32) -> (r: bool)
        ensures
            r == (self.xdg_surface_lifecycles@.contains_key(surface_id)
                && self.xdg_surface_lifecycles@[surface_id].construction
                != crate::xdg_lifecycle::XdgConstructionState::AssociatedUnconstructed),
    {
        match self.xdg_surface_lifecycles.get(&surface_id) {
            Some(l) => l.is_constructed(),
            None => false,
        }
    }

    pub fn record_xdg_configure(&mut self, surface_id: u32, serial: u32)
        ensures
            !old(self).xdg_surface_lifecycles@.contains_key(surface_id) ==> final(self).xdg_surface_lifecycles@
                == old(self).xdg_surface_lifecycles@,
            old(self).xdg_surface_lifecycles@.contains_key(surface_id) ==> {
                &&& final(self).xdg_surface_lifecycles@ == old(self).xdg_surface_lifecycles@.insert(
                    surface_id,
                    final(self).xdg_surface_lifecycles@[surface_id],
                )
                &&& final(self).xdg_surface_lifecycles@[surface_id]@ == spec_record_configure(
                    old(self).xdg_surface_lifecycles@[surface_id]@,
                    serial,
                )
            },
    {
        match self.xdg_surface_lifecycles.remove(&surface_id) {
            Some(mut lifecycle) => {
                lifecycle.record_configure(serial);
                self.xdg_surface_lifecycles.insert(surface_id, lifecycle);
                assert(self.xdg_surface_lifecycles@ =~= old(self).xdg_surface_lifecycles@.insert(
                    surface_id,
                    self.xdg_surface_lifecycles@[surface_id],
                ));
            },
            None => {},
        }
    }

    /// Routes `ack_configure`; false for unknown surfaces and rejected serials.
    pub fn acknowledge_xdg_configure(&mut self, surface_id: u32, serial: u32) -> (r: bool)
        ensures
            !old(self).xdg_surface_lifecycles@.contains_key(surface_id) ==> !r && final(self).xdg_surface_lifecycles@
                == old(self).xdg_surface_lifecycles@,
            old(self).xdg_surface_lifecycles@.contains_key(surface_id) ==> {
                &&& r == spec_acknowledge(old(self).xdg_surface_lifecycles@[surface_id]@, serial).0
                &&& final(self).xdg_surface_lifecycles@ == old(self).xdg_surface_lifecycles@.insert(
                    surface_id,
                    final(self).xdg_surface_lifecycles@[surface_id],
                )
                &&& final(self).xdg_surface_lifecycles@[surface_id]@ == spec_acknowledge(
                    old(self).xdg_surface_lifecycles@[surface_id]@,
                    serial,
                ).1
            },
    {
        match self.xdg_surface_lifecycles.remove(&surface_id) {
            Some(mut lifecycle) => {
                let ok = lifecycle.acknowledge(serial).is_ok();
                self.xdg_surface_lifecycles.insert(surface_id, lifecycle);
                assert(self.xdg_surface_lifecycles@ =~= old(self).xdg_surface_lifecycles@.insert(
                    surface_id,
                    self.xdg_surface_lifecycles@[surface_id],
                ));
                ok
            },
            None => false,
        }
    }

    pub fn mark_xdg_empty_commit(&mut self, surface_id: u32) -> (r: bool)
        ensures
            !old(self).xdg_surface_lifecycles@.contains_key(surface_id) ==> !r && final(self).xdg_surface_lifecycles@
                == old(self).xdg_surface_lifecycles@,
            old(self).xdg_surface_lifecycles@.contains_key(surface_id) ==> {
                &&& r == spec_mark_initial_empty_commit(old(self).xdg_surface_lifecycles@[surface_id]@).0
                &&& final(self).xdg_surface_lifecycles@ == old(self).xdg_surface_lifecycles@.insert(
                    surface_id,
                    final(self).xdg_surface_lifecycles@[surface_id],
                )
                &&& final(self).xdg_surface_lifecycles@[surface_id]@ == spec_mark_initial_empty_commit(
                    old(self).xdg_surface_lifecycles@[surface_id]@,
                ).1
            },
    {
        match self.xdg_surface_lifecycles.remove(&surface_id) {
            Some(mut lifecycle) => {
                let marked = lifecycle.mark_initial_empty_commit();
                self.xdg_surface_lifecycles.insert(surface_id, lifecycle);
                assert(self.xdg_surface_lifecycles@ =~= old(self).xdg_surface_lifecycles@.insert(
                    surface_id,
                    self.xdg_surface_lifecycles@[surface_id],
                ));
                marked
            },
            None => false,
        }
    }

    pub fn mark_xdg_buffer_commit(&mut self, surface_id: u32)
        ensures
            !old(self).xdg_surface_lifecycles@.contains_key(surface_id) ==> final(self).xdg_surface_lifecycles@
                == old(self).xdg_surface_lifecycles@,
            old(self).xdg_surface_lifecycles@.contains_key(surface_id) ==> {
                &&& final(self).xdg_surface_lifecycles@ == old(self).xdg_surface_lifecycles@.insert(
                    surface_id,
                    final(self).xdg_surface_lifecycles@[surface_id],
                )
                &&& final(self).xdg_surface_lifecycles@[surface_id]@ == spec_mark_buffer_commit(
                    old(self).xdg_surface_lifecycles@[surface_id]@,
                )
            },
    {
        match self.xdg_surface_lifecycles.remove(&surface_id) {
            Some(mut lifecycle) => {
                lifecycle.mark_buffer_commit();
                self.xdg_surface_lifecycles.insert(surface_id, lifecycle);
                assert(self.xdg_surface_lifecycles@ =~= old(self).xdg_surface_lifecycles@.insert(
                    surface_id,
                    self.xdg_surface_lifecycles@[surface_id],
                ));
            },
            None => {},
        }
    }

    pub fn begin_xdg_empty_or_unmap_commit(&mut self, surface_id: u32)
        ensures
            !old(self).xdg_surface_lifecycles@.contains_key(surface_id) ==> final(self).xdg_surface_lifecycles@
                == old(self).xdg_surface_lifecycles@,
            old(self).xdg_surface_lifecycles@.contains_key(surface_id) ==> {
                &&& final(self).xdg_surface_lifecycles@ == old(self).xdg_surface_lifecycles@.insert(
                    surface_id,
                    final(self).xdg_surface_lifecycles@[surface_id],
                )
                &&& final(self).xdg_surface_lifecycles@[surface_id]@ == spec_begin_empty_or_unmap_commit(
                    old(self).xdg_surface_lifecycles@[surface_id]@,
                )
            },
    {
        match self.xdg_surface_lifecycles.remove(&surface_id) {
            Some(mut lifecycle) => {
                lifecycle.begin_empty_or_unmap_commit();
                self.xdg_surface_lifecycles.insert(surface_id, lifecycle);
                assert(self.xdg_surface_lifecycles@ =~= old(self).xdg_surface_lifecycles@.insert(
                    surface_id,
                    self.xdg_surface_lifecycles@[surface_id],
                ));
            },
            None => {},
        }
    }
}

/// Where a move interaction places the window for the pointer at `(x, y)`.
pub open spec fn spec_move_target(i: WindowInteraction, x: Fixed, y: Fixed) -> SurfacePlacement {
    SurfacePlacement {
        local_x: (i.start_placement.local_x + crate::fixed::spec_round_div(x.raw - i.start_pointer_x.raw)) as i32,
        local_y: (i.start_placement.local_y + crate::fixed::spec_round_div(y.raw - i.start_pointer_y.raw)) as i32,
        ..i.start_placement
    }
}

/// The move target of `(x, y)` is representable.
pub open spec fn move_target_in_range(i: WindowInteraction, x: Fixed, y: Fixed) -> bool {
    &&& i32::MIN <= i.start_placement.local_x + crate::fixed::spec_round_div(x.raw - i.start_pointer_x.raw) <= i32::MAX
    &&& i32::MIN <= i.start_placement.local_y + crate::fixed::spec_round_div(y.raw - i.start_pointer_y.raw) <= i32::MAX
}

/// Clearing interaction state leaves no interaction and no cursor override,
/// and leaves the pointer constraint alone unless a deferred one was waiting.
pub proof fn lemma_clear_leaves_no_interaction(s: CompositorState)
    ensures
        spec_clear_interaction(s).1.window_interaction is None,
        spec_clear_interaction(s).1.interaction_cursor_override is None,
        cursor_override_owned(spec_clear_interaction(s).1),
        s.pending_pointer_constraint is None ==> spec_clear_interaction(s).1.pointer_constraint == s.pointer_constraint,
        spec_clear_interaction(s).1.scene_render_generation == s.scene_render_generation,
        spec_clear_interaction(s).0 <==> (s.window_interaction is Some || s.interaction_cursor_override is Some),
{
}

/// Clearing twice is the same as clearing once: the second clear finds nothing.
pub proof fn lemma_clear_idempotent(s: CompositorState)
    ensures
        !spec_clear_interaction(spec_clear_interaction(s).1).0,
        spec_clear_interaction(spec_clear_interaction(s).1).1 == spec_clear_interaction(s).1,
{
}

} // verus!
