//! Where the renderer draws a toplevel's surface tree while its visual
//! geometry runs ahead of the client's commits: the root's render placement
//! and the visible window of its content.
use vstd::prelude::*;
use crate::arith::{clamp_i32, clamp_u32, saturating_sub_i32};
use crate::buffer::BufferSize;
use crate::compositor::{bump, spec_advance_render_generation, CompositorState, RenderGenerationCause, ResizeFlowMetrics};
use crate::interaction::ResizeInteractionId;
use crate::resize_flow::spec_in_flight_sequence;
use crate::surface::{
    RenderableSurface, RootPlacementMode, SurfacePlacement, SurfaceTargetRect, SurfaceVisualAperture,
};
use crate::window_geometry::{
    derive_root_render_placement, ResizeEdges, WindowGeometry, spec_root_render_placement, WindowVisualExtents, XdgWindowGeometry,
};
use crate::xwayland_visual::{
    in_surface_tree, renderable_index, ActiveToplevelResize, ToplevelVisualGeometry, VisualState,
};

verus! {

/// The visible window of a root during a resize preview: the logical target
/// with the root's origin inside its buffer and the buffer's extents around
/// the committed window geometry.
pub open spec fn spec_preview_aperture(
    root_buffer: BufferSize,
    g: XdgWindowGeometry,
    target: SurfaceTargetRect,
) -> SurfaceVisualAperture {
    SurfaceVisualAperture::RootWindowPreview {
        root_origin_x: clamp_i32(target.x - g.x) as i32,
        root_origin_y: clamp_i32(target.y - g.y) as i32,
        root_buffer,
        extent_left: clamp_u32(g.x as int) as u32,
        extent_top: clamp_u32(g.y as int) as u32,
        extent_right: clamp_u32(root_buffer.width - (g.x + g.width)) as u32,
        extent_bottom: clamp_u32(root_buffer.height - (g.y + g.height)) as u32,
        logical_target: target,
    }
}

/// The aperture a resize preview shows of a root whose buffer and committed
/// window geometry are known.
pub fn resolve_root_visual_aperture_for_preview(
    root_buffer: BufferSize,
    committed_geometry: XdgWindowGeometry,
    logical_target: SurfaceTargetRect,
) -> (r: SurfaceVisualAperture)
    ensures
        r == spec_preview_aperture(root_buffer, committed_geometry, logical_target),
{
    let extents = WindowVisualExtents::from_root_buffer_and_window_geometry(root_buffer, committed_geometry);
    SurfaceVisualAperture::RootWindowPreview {
        root_origin_x: saturating_sub_i32(logical_target.x, committed_geometry.x),
        root_origin_y: saturating_sub_i32(logical_target.y, committed_geometry.y),
        root_buffer,
        extent_left: extents.left,
        extent_top: extents.top,
        extent_right: extents.right,
        extent_bottom: extents.bottom,
        logical_target,
    }
}

/// The size of the committed window geometry of `surface_id`, when it has a
/// non-negative one.
pub open spec fn spec_window_geometry_size(s: CompositorState, surface_id: u32) -> Option<(u32, u32)> {
    if s.surface_window_geometries@.contains_key(surface_id) {
        let g = s.surface_window_geometries@[surface_id];
        if g.width >= 0 && g.height >= 0 {
            Some((g.width as u32, g.height as u32))
        } else {
            None
        }
    } else {
        None
    }
}

/// The placement of a surface, the root origin for a surface never placed.
pub open spec fn spec_surface_placement(s: CompositorState, surface_id: u32) -> SurfacePlacement {
    if s.surface_placements@.contains_key(surface_id) {
        s.surface_placements@[surface_id]
    } else {
        SurfacePlacement {
            parent_surface_id: None,
            local_x: 0,
            local_y: 0,
            root_mode: RootPlacementMode::Cascaded,
        }
    }
}

/// The visual geometry a root is drawn at: its recorded visual geometry, or,
/// for an absolutely placed root, its placement at its committed window
/// size (its rendered size without one, zero when it is not rendered).
pub open spec fn spec_assignment_visual(s: CompositorState, rs: Seq<RenderableSurface>, root: u32) -> Option<
    (SurfacePlacement, u32, u32, Option<ResizeInteractionId>),
> {
    if s.visual.toplevel_visual_geometries@.contains_key(root) {
        let v = s.visual.toplevel_visual_geometries@[root];
        Some((v.placement, v.width, v.height, v.active_resize))
    } else {
        let a = spec_surface_placement(s, root);
        if a.root_mode == RootPlacementMode::Absolute {
            let i = renderable_index(rs, root);
            let size = match spec_window_geometry_size(s, root) {
                Some(wh) => wh,
                None => if i >= 0 {
                    (rs[i].width, rs[i].height)
                } else {
                    (0u32, 0u32)
                },
            };
            Some((a, size.0, size.1, None))
        } else {
            None
        }
    }
}

/// The visible window of the root drawn at `(placement, width, height)`:
/// none unless a resize drives it or its XWayland content is pending; the
/// preview aperture during a resize of a root whose window geometry and
/// buffer are known; the logical target otherwise.
pub open spec fn spec_assignment_clip(
    s: CompositorState,
    rs: Seq<RenderableSurface>,
    root: u32,
    placement: SurfacePlacement,
    width: u32,
    height: u32,
    active: Option<ResizeInteractionId>,
) -> Option<SurfaceVisualAperture> {
    let target = SurfaceTargetRect { x: placement.local_x, y: placement.local_y, width, height };
    let i = renderable_index(rs, root);
    if active is Some || s.visual.pending_xwayland_visual_content@.contains(root) {
        if active is Some && s.surface_window_geometries@.contains_key(root) && i >= 0 {
            Some(spec_preview_aperture(rs[i].buffer.size, s.surface_window_geometries@[root], target))
        } else {
            Some(SurfaceVisualAperture::LogicalOnly(target))
        }
    } else {
        None
    }
}

/// A rendered surface after the render fields of the tree of `root` were
/// assigned: cleared with no assignment; with one, the root takes the render
/// placement and clip and the other surfaces of the tree lose their clip.
pub open spec fn spec_tree_assigned(
    s: CompositorState,
    root: u32,
    assignment: Option<(SurfacePlacement, Option<SurfaceVisualAperture>)>,
    x: RenderableSurface,
) -> RenderableSurface {
    if !in_surface_tree(s, root, x.surface_id) {
        x
    } else {
        match assignment {
            None => RenderableSurface { render_placement: None, visual_clip: None, ..x },
            Some((placement, clip)) => if x.surface_id == root {
                RenderableSurface { render_placement: Some(placement), visual_clip: clip, ..x }
            } else {
                RenderableSurface { visual_clip: None, ..x }
            },
        }
    }
}

/// The rendered surfaces after the assignment of the tree of `root` is
/// brought up to date with its visual geometry.
pub open spec fn spec_render_assignment(s: CompositorState, root: u32) -> Seq<RenderableSurface> {
    spec_render_assignment_of(s, s.visual.renderable_surfaces@, root)
}

/// The surfaces `rs` after the assignment of the tree of `root` is brought up
/// to date with the visual geometry, placements and window geometries of `s`.
pub open spec fn spec_render_assignment_of(s: CompositorState, rs: Seq<RenderableSurface>, root: u32) -> Seq<
    RenderableSurface,
> {
    match spec_assignment_visual(s, rs, root) {
        None => rs.map_values(|x: RenderableSurface| spec_tree_assigned(s, root, None, x)),
        Some((placement, width, height, active)) => if width == 0 || height == 0 {
            rs
        } else {
            let geometry = if s.surface_window_geometries@.contains_key(root) {
                Some(s.surface_window_geometries@[root])
            } else {
                None
            };
            let assignment = (
                spec_root_render_placement(placement, geometry),
                spec_assignment_clip(s, rs, root, placement, width, height, active),
            );
            rs.map_values(|x: RenderableSurface| spec_tree_assigned(s, root, Some(assignment), x))
        },
    }
}

/// `s` with its rendered surfaces replaced by `rs`.
pub open spec fn with_rendered(s: CompositorState, rs: Vec<RenderableSurface>) -> CompositorState {
    CompositorState { visual: crate::xwayland_visual::VisualState { renderable_surfaces: rs, ..s.visual }, ..s }
}

/// The geometry a root is currently shown at: its visual geometry, or its
/// rendered placement at its committed window size (its rendered size
/// without one); none for a root that is not rendered.
pub open spec fn spec_current_visual_geometry(s: CompositorState, surface_id: u32) -> Option<WindowGeometry> {
    if s.visual.toplevel_visual_geometries@.contains_key(surface_id) {
        let v = s.visual.toplevel_visual_geometries@[surface_id];
        Some(WindowGeometry { placement: v.placement, width: v.width, height: v.height })
    } else {
        let rs = s.visual.renderable_surfaces@;
        let i = renderable_index(rs, surface_id);
        if i >= 0 {
            let size = match spec_window_geometry_size(s, surface_id) {
                Some(wh) => wh,
                None => (rs[i].width, rs[i].height),
            };
            Some(WindowGeometry { placement: rs[i].placement, width: size.0, height: size.1 })
        } else {
            None
        }
    }
}

/// The resize configure sequence a preview belongs to: the root's
/// configure still in flight, otherwise the next one to be sent.
pub open spec fn spec_preview_flow_sequence(s: CompositorState, surface_id: u32) -> u64 {
    if s.resize_configure_flows@.contains_key(surface_id) && spec_in_flight_sequence(
        s.resize_configure_flows@[surface_id].sent@,
        s.resize_configure_flows@[surface_id].sent@.len() as int,
    ) is Some {
        spec_in_flight_sequence(
            s.resize_configure_flows@[surface_id].sent@,
            s.resize_configure_flows@[surface_id].sent@.len() as int,
        )->0
    } else {
        bump(s.next_resize_configure_sequence)
    }
}

/// The visual geometry a root had before a preview.
pub open spec fn spec_previous_visual(s: CompositorState, surface_id: u32) -> Option<ToplevelVisualGeometry> {
    if s.visual.toplevel_visual_geometries@.contains_key(surface_id) {
        Some(s.visual.toplevel_visual_geometries@[surface_id])
    } else {
        match spec_current_visual_geometry(s, surface_id) {
            Some(g) => Some(
                ToplevelVisualGeometry { placement: g.placement, width: g.width, height: g.height, active_resize: None },
            ),
            None => None,
        }
    }
}

/// Whether the rendered root still stretches its content to a target size.
pub open spec fn spec_has_render_target(s: CompositorState, surface_id: u32) -> bool {
    let rs = s.visual.renderable_surfaces@;
    let i = renderable_index(rs, surface_id);
    i >= 0 && rs[i].render_target_size is Some
}

/// The rendered surfaces with the root's render target size dropped.
pub open spec fn spec_drop_render_target(s: CompositorState, surface_id: u32) -> Seq<RenderableSurface> {
    let rs = s.visual.renderable_surfaces@;
    let i = renderable_index(rs, surface_id);
    if i >= 0 {
        rs.update(i, RenderableSurface { render_target_size: None, ..rs[i] })
    } else {
        rs
    }
}

/// Whether a preview asks for nothing new: the root is already shown at that
/// geometry for that resize and stretches nothing.
pub open spec fn spec_preview_unchanged(
    s: CompositorState,
    surface_id: u32,
    width: u32,
    height: u32,
    placement: SurfacePlacement,
    interaction_id: ResizeInteractionId,
) -> bool {
    &&& spec_previous_visual(s, surface_id) matches Some(v) && v.width == width && v.height == height
        && v.placement == placement && v.active_resize == Some(interaction_id)
    &&& !spec_has_render_target(s, surface_id)
}

/// The resize-flow counters after a preview: a first preview of the root
/// counts an activation, a preview of another resize an ownership transfer.
pub open spec fn spec_preview_metrics(
    s: CompositorState,
    surface_id: u32,
    interaction_id: ResizeInteractionId,
) -> ResizeFlowMetrics {
    let m = s.resize_flow_metrics;
    if !s.visual.active_toplevel_resizes@.contains_key(surface_id) {
        ResizeFlowMetrics { preview_activations: bump(m.preview_activations), ..m }
    } else if s.visual.active_toplevel_resizes@[surface_id].interaction_id != interaction_id {
        ResizeFlowMetrics { preview_ownership_transfers: bump(m.preview_ownership_transfers), ..m }
    } else {
        m
    }
}

/// The active resizes after a preview: the preview takes the root over
/// unless the same resize already holds it.
pub open spec fn spec_preview_active_resizes(
    s: CompositorState,
    surface_id: u32,
    edges: ResizeEdges,
    interaction_id: ResizeInteractionId,
    now_ms: u64,
) -> Map<u32, ActiveToplevelResize> {
    let a = s.visual.active_toplevel_resizes@;
    if a.contains_key(surface_id) && a[surface_id].interaction_id == interaction_id {
        a
    } else {
        a.insert(
            surface_id,
            ActiveToplevelResize {
                interaction_id,
                flow_sequence: spec_preview_flow_sequence(s, surface_id),
                edges,
                activated_at_ms: now_ms,
            },
        )
    }
}

impl CompositorState {
    /// The size of the committed window geometry of `surface_id`, when it has
    /// a non-negative one.
    pub fn xdg_window_geometry_size(&self, surface_id: u32) -> (r: Option<(u32, u32)>)
        ensures
            r == spec_window_geometry_size(*self, surface_id),
    {
        match self.surface_window_geometries.get(&surface_id) {
            Some(g) => if g.width >= 0 && g.height >= 0 {
                Some((g.width as u32, g.height as u32))
            } else {
                None
            },
            None => None,
        }
    }

    /// Sets the render fields of every rendered surface of the tree of `root`.
    fn assign_tree_render_fields(
        &mut self,
        root: u32,
        assignment: Option<(SurfacePlacement, Option<SurfaceVisualAperture>)>,
    )
        ensures
            final(self).visual.renderable_surfaces@ == old(self).visual.renderable_surfaces@.map_values(
                |x: RenderableSurface| spec_tree_assigned(*old(self), root, assignment, x),
            ),
            *final(self) == with_rendered(*old(self), final(self).visual.renderable_surfaces),
    {
        let ghost o = *self;
        let ghost rendered = self.visual.renderable_surfaces@;
        assert(rendered.len() == self.visual.renderable_surfaces.len());
        let mut rest: Vec<RenderableSurface> = Vec::new();
        std::mem::swap(&mut rest, &mut self.visual.renderable_surfaces);
        let mut done: Vec<RenderableSurface> = Vec::new();
        let mut i: usize = 0;
        while rest.len() > 0
            invariant
                i <= rendered.len(),
                rest@ == rendered.skip(i as int),
                rest@.len() + i == rendered.len(),
                rendered.len() <= usize::MAX,
                done@.len() == i,
                forall|j: int| #![trigger done@[j]] 0 <= j < i ==> done@[j] == spec_tree_assigned(
                    o,
                    root,
                    assignment,
                    rendered[j],
                ),
                *self == with_rendered(o, self.visual.renderable_surfaces),
            decreases rest@.len(),
        {
            proof {
                assert(rendered.skip(i as int)[0] == rendered[i as int]);
            }
            let surface = rest.remove(0);
            proof {
                assert(rest@ =~= rendered.skip(i as int + 1));
            }
            let in_tree = self.surface_in_tree(root, surface.surface_id);
            let next = if !in_tree {
                surface
            } else {
                match assignment {
                    None => RenderableSurface { render_placement: None, visual_clip: None, ..surface },
                    Some((placement, clip)) => if surface.surface_id == root {
                        RenderableSurface { render_placement: Some(placement), visual_clip: clip, ..surface }
                    } else {
                        RenderableSurface { visual_clip: None, ..surface }
                    },
                }
            };
            done.push(next);
            i = i + 1;
        }
        self.visual.renderable_surfaces = done;
        proof {
            assert(self.visual.renderable_surfaces@ =~= rendered.map_values(
                |x: RenderableSurface| spec_tree_assigned(o, root, assignment, x),
            ));
        }
    }

    /// Drops the render placement and clip of every rendered surface of the
    /// tree of `root_surface_id`.
    pub fn clear_toplevel_visual_render_assignment(&mut self, root_surface_id: u32)
        ensures
            final(self).visual.renderable_surfaces@ == old(self).visual.renderable_surfaces@.map_values(
                |x: RenderableSurface| spec_tree_assigned(*old(self), root_surface_id, None, x),
            ),
            *final(self) == with_rendered(*old(self), final(self).visual.renderable_surfaces),
    {
        self.assign_tree_render_fields(root_surface_id, None);
    }

    /// Brings the render fields of the tree of `root_surface_id` up to date
    /// with the root's visual geometry: without one they are cleared; with an
    /// empty one nothing changes; otherwise the root is drawn at its visual
    /// placement shifted by its committed window geometry, with the visible
    /// window `spec_assignment_clip` gives, and the other surfaces of the tree
    /// lose their clip.
    pub fn update_toplevel_visual_render_assignment(&mut self, root_surface_id: u32)
        ensures
            final(self).visual.renderable_surfaces@ == spec_render_assignment(*old(self), root_surface_id),
            *final(self) == with_rendered(*old(self), final(self).visual.renderable_surfaces),
    {
        let ghost o = *self;
        let geometry = match self.surface_window_geometries.get(&root_surface_id) {
            Some(g) => Some(*g),
            None => None,
        };
        let authoritative = self.surface_placement(root_surface_id);
        let root_index = self.find_renderable_surface(root_surface_id);
        let visual = match self.visual.toplevel_visual_geometries.get(&root_surface_id) {
            Some(v) => Some((v.placement, v.width, v.height, v.active_resize)),
            None => if authoritative.root_mode == RootPlacementMode::Absolute {
                let size = match self.xdg_window_geometry_size(root_surface_id) {
                    Some(wh) => wh,
                    None => match root_index {
                        Some(i) => (self.visual.renderable_surfaces[i].width, self.visual.renderable_surfaces[i].height),
                        None => (0, 0),
                    },
                };
                Some((authoritative, size.0, size.1, None))
            } else {
                None
            },
        };
        let (visual_placement, visual_width, visual_height, active_resize) = match visual {
            Some(v) => v,
            None => {
                self.assign_tree_render_fields(root_surface_id, None);
                return;
            },
        };
        if visual_width == 0 || visual_height == 0 {
            proof {
                assert(self.visual.renderable_surfaces@ =~= spec_render_assignment(o, root_surface_id));
            }
            return;
        }
        let root_render_placement = derive_root_render_placement(visual_placement, geometry);
        let clip = SurfaceTargetRect {
            x: visual_placement.local_x,
            y: visual_placement.local_y,
            width: visual_width,
            height: visual_height,
        };
        let content_pending = self.visual.pending_xwayland_visual_content.contains(&root_surface_id);
        let visual_clip = if active_resize.is_some() || content_pending {
            match (active_resize, geometry, root_index) {
                (Some(_), Some(g), Some(i)) => Some(
                    resolve_root_visual_aperture_for_preview(
                        self.visual.renderable_surfaces[i].buffer_size(),
                        g,
                        clip,
                    ),
                ),
                _ => Some(SurfaceVisualAperture::LogicalOnly(clip)),
            }
        } else {
            None
        };
        self.assign_tree_render_fields(root_surface_id, Some((root_render_placement, visual_clip)));
    }

    /// The geometry the root `surface_id` is currently shown at.
    pub fn current_visual_root_window_geometry(&self, surface_id: u32) -> (r: Option<WindowGeometry>)
        ensures
            r == spec_current_visual_geometry(*self, surface_id),
    {
        match self.visual.toplevel_visual_geometries.get(&surface_id) {
            Some(v) => {
                return Some(v.window_geometry());
            },
            None => {},
        }
        let i = match self.find_renderable_surface(surface_id) {
            Some(i) => i,
            None => {
                return None;
            },
        };
        let surface = &self.visual.renderable_surfaces[i];
        let size = match self.xdg_window_geometry_size(surface_id) {
            Some(wh) => wh,
            None => (surface.width, surface.height),
        };
        Some(WindowGeometry::new(surface.placement, size.0, size.1))
    }

    /// Drops the render target size of the rendered root; returns whether it had one.
    fn take_render_target_size(&mut self, surface_id: u32) -> (r: bool)
        ensures
            r == spec_has_render_target(*old(self), surface_id),
            !r ==> *final(self) == *old(self),
            final(self).visual.renderable_surfaces@ == spec_drop_render_target(*old(self), surface_id),
            *final(self) == with_rendered(*old(self), final(self).visual.renderable_surfaces),
    {
        let i = match self.find_renderable_surface(surface_id) {
            Some(i) => i,
            None => {
                return false;
            },
        };
        if self.visual.renderable_surfaces[i].render_target_size.is_none() {
            proof {
                assert(self.visual.renderable_surfaces@ =~= spec_drop_render_target(*old(self), surface_id));
            }
            return false;
        }
        let ghost rs = self.visual.renderable_surfaces@;
        let surface = self.visual.renderable_surfaces.remove(i);
        self.visual.renderable_surfaces.insert(i, RenderableSurface { render_target_size: None, ..surface });
        proof {
            assert(self.visual.renderable_surfaces@ =~= spec_drop_render_target(*old(self), surface_id));
        }
        true
    }

    /// Shows the root `surface_id` at the geometry the resize `interaction_id`
    /// asks for, ahead of the client's commit: refused (with nothing done)
    /// when the root already shows it and stretches nothing. Otherwise the
    /// root's render target size is dropped, its visual geometry recorded, an
    /// X11 window takes the geometry as its client and frame geometry, its
    /// render assignment brought up to date, the preview takes the root over
    /// (counted as an activation or an ownership transfer), and the scene is
    /// repainted.
    pub fn preview_resize_root_window_to(
        &mut self,
        surface_id: u32,
        width: u32,
        height: u32,
        placement: SurfacePlacement,
        edges: ResizeEdges,
        interaction_id: ResizeInteractionId,
        now_ms: u64,
    ) -> (r: bool)
        ensures
            r == !spec_preview_unchanged(*old(self), surface_id, width, height, placement, interaction_id),
            !r ==> *final(self) == *old(self),
            r ==> final(self).visual.toplevel_visual_geometries@ == old(self).visual.toplevel_visual_geometries@.insert(
                surface_id,
                ToplevelVisualGeometry { placement, width, height, active_resize: Some(interaction_id) },
            ),
            r ==> final(self).visual.renderable_surfaces@ == spec_render_assignment_of(
                *final(self),
                spec_drop_render_target(*old(self), surface_id),
                surface_id,
            ),
            r ==> final(self).visual.active_toplevel_resizes@ == spec_preview_active_resizes(
                *old(self),
                surface_id,
                edges,
                interaction_id,
                now_ms,
            ),
            r ==> final(self).root_windows@ == crate::compositor::spec_set_x11_frame_geometry(
                old(self).root_windows@,
                surface_id,
                WindowGeometry { placement, width, height },
            ),
            r ==> *final(self) == (CompositorState {
                root_windows: final(self).root_windows,
                visual: VisualState {
                    renderable_surfaces: final(self).visual.renderable_surfaces,
                    toplevel_visual_geometries: final(self).visual.toplevel_visual_geometries,
                    active_toplevel_resizes: final(self).visual.active_toplevel_resizes,
                    ..old(self).visual
                },
                resize_flow_metrics: spec_preview_metrics(*old(self), surface_id, interaction_id),
                ..spec_advance_render_generation(*old(self), RenderGenerationCause::WindowResize)
            }),
    {
        let flow_sequence = match self.resize_configure_flows.get(&surface_id) {
            Some(flow) => match flow.in_flight_sequence() {
                Some(sequence) => sequence,
                None => self.next_resize_configure_sequence.saturating_add(1),
            },
            None => self.next_resize_configure_sequence.saturating_add(1),
        };
        let previous = match self.visual.toplevel_visual_geometries.get(&surface_id) {
            Some(v) => Some(*v),
            None => match self.current_visual_root_window_geometry(surface_id) {
                Some(g) => Some(
                    ToplevelVisualGeometry {
                        placement: g.placement,
                        width: g.width,
                        height: g.height,
                        active_resize: None,
                    },
                ),
                None => None,
            },
        };
        let ghost o = *self;
        let render_target_cleared = self.take_render_target_size(surface_id);
        let same = match previous {
            Some(v) => v.width == width && v.height == height && v.placement == placement && v.active_resize
                == Some(interaction_id),
            None => false,
        };
        if same && !render_target_cleared {
            return false;
        }
        self.visual.toplevel_visual_geometries.insert(
            surface_id,
            ToplevelVisualGeometry { placement, width, height, active_resize: Some(interaction_id) },
        );
        let _ = self.set_x11_frame_geometry(surface_id, WindowGeometry::new(placement, width, height));
        let ghost mid = *self;
        self.update_toplevel_visual_render_assignment(surface_id);
        let previous_resize = match self.visual.active_toplevel_resizes.get(&surface_id) {
            Some(a) => Some(*a),
            None => None,
        };
        match previous_resize {
            None => {
                self.visual.active_toplevel_resizes.insert(
                    surface_id,
                    ActiveToplevelResize { interaction_id, flow_sequence, edges, activated_at_ms: now_ms },
                );
                self.resize_flow_metrics.preview_activations =
                    self.resize_flow_metrics.preview_activations.saturating_add(1);
            },
            Some(a) => {
                if a.interaction_id != interaction_id {
                    self.visual.active_toplevel_resizes.insert(
                        surface_id,
                        ActiveToplevelResize { interaction_id, flow_sequence, edges, activated_at_ms: now_ms },
                    );
                    self.resize_flow_metrics.preview_ownership_transfers =
                        self.resize_flow_metrics.preview_ownership_transfers.saturating_add(1);
                }
            },
        }
        self.advance_render_generation(RenderGenerationCause::WindowResize);
        proof {
            assert(self.visual.renderable_surfaces@ =~= spec_render_assignment_of(
                *self,
                spec_drop_render_target(o, surface_id),
                surface_id,
            ));
        }
        true
    }
}

} // verus!
