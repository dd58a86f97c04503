//! Visual (compositor-side) geometry of toplevels and XWayland content
//! bookkeeping: which roots still wait for content matching their visual
//! size, and how that state follows an X11 window to a replacement surface.
use std::collections::{HashMap, HashSet};
use vstd::prelude::*;
use crate::compositor::{spec_advance_render_generation, CompositorState, RenderGenerationCause};
use crate::interaction::{ResizeInteractionId, WindowInteractionKind};
use crate::resize_flow::ResizeConfigureFlow;
use crate::surface::{RenderableSurface, SurfacePlacement};
use crate::window_geometry::{ResizeEdges, WindowGeometry};

verus! {

/// The geometry a toplevel is shown at, ahead of the client's own commits,
/// and the resize interaction driving it, if any.
#[derive(Debug, Clone, Copy, PartialEq, Eq, Structural)]
pub struct ToplevelVisualGeometry {
    pub placement: SurfacePlacement,
    pub width: u32,
    pub height: u32,
    pub active_resize: Option<ResizeInteractionId>,
}

impl ToplevelVisualGeometry {
    pub fn window_geometry(self) -> (r: WindowGeometry)
        ensures
            r == (WindowGeometry { placement: self.placement, width: self.width, height: self.height }),
    {
        WindowGeometry::new(self.placement, self.width, self.height)
    }
}

/// A resize preview in progress on a root surface.
#[derive(Debug, Clone, Copy, PartialEq, Eq, Structural)]
pub struct ActiveToplevelResize {
    pub interaction_id: ResizeInteractionId,
    pub flow_sequence: u64,
    pub edges: ResizeEdges,
    /// When the preview took over the root, in milliseconds of the monotonic clock.
    pub activated_at_ms: u64,
}

/// Visual geometries, active previews, rendered surfaces, and roots whose
/// XWayland content does not match their visual size yet.
#[derive(Debug)]
pub struct VisualState {
    pub renderable_surfaces: Vec<RenderableSurface>,
    pub toplevel_visual_geometries: HashMap<u32, ToplevelVisualGeometry>,
    pub active_toplevel_resizes: HashMap<u32, ActiveToplevelResize>,
    pub pending_xwayland_visual_content: HashSet<u32>,
}

impl Default for VisualState {
    fn default() -> (r: Self)
        ensures
            r.renderable_surfaces@.len() == 0,
            r.toplevel_visual_geometries@ == Map::<u32, ToplevelVisualGeometry>::empty(),
            r.active_toplevel_resizes@ == Map::<u32, ActiveToplevelResize>::empty(),
            r.pending_xwayland_visual_content@ == Set::<u32>::empty(),
    {
        VisualState {
            renderable_surfaces: Vec::new(),
            toplevel_visual_geometries: HashMap::new(),
            active_toplevel_resizes: HashMap::new(),
            pending_xwayland_visual_content: HashSet::new(),
        }
    }
}

/// Index of the first rendered surface with `id`, or -1.
pub open spec fn renderable_index(s: Seq<RenderableSurface>, id: u32) -> int
    decreases s.len(),
{
    if s.len() == 0 {
        -1
    } else {
        let i = renderable_index(s.drop_last(), id);
        if i >= 0 {
            i
        } else if s.last().surface_id == id {
            s.len() - 1
        } else {
            -1
        }
    }
}

proof fn lemma_renderable_index_first(s: Seq<RenderableSurface>, id: u32, k: int)
    requires
        0 <= k <= s.len(),
        forall|j: int| 0 <= j < k ==> s[j].surface_id != id,
    ensures
        k < s.len() && s[k].surface_id == id ==> renderable_index(s, id) == k,
        k == s.len() ==> renderable_index(s, id) == -1,
    decreases s.len(),
{
    if s.len() > 0 {
        if k < s.len() {
            lemma_renderable_index_first(s.drop_last(), id, k);
        } else {
            lemma_renderable_index_first(s.drop_last(), id, k - 1);
        }
    }
}

/// Whether the root's rendered content has the size of its visual geometry.
pub open spec fn content_matches_visual(v: VisualState, root: u32) -> bool {
    let i = renderable_index(v.renderable_surfaces@, root);
    &&& v.toplevel_visual_geometries@.contains_key(root)
    &&& i >= 0
    &&& v.renderable_surfaces@[i].width == v.toplevel_visual_geometries@[root].width
    &&& v.renderable_surfaces@[i].height == v.toplevel_visual_geometries@[root].height
}

/// `m` with the entry of `from`, if any, moved to `to`.
pub open spec fn move_entry<V>(m: Map<u32, V>, from: u32, to: u32) -> Map<u32, V> {
    if m.contains_key(from) {
        m.remove(from).insert(to, m[from])
    } else {
        m
    }
}

pub open spec fn move_member(s: Set<u32>, from: u32, to: u32) -> Set<u32> {
    if s.contains(from) {
        s.remove(from).insert(to)
    } else {
        s
    }
}

pub open spec fn with_visual(s: CompositorState, v: VisualState) -> CompositorState {
    CompositorState { visual: v, ..s }
}

fn move_map_entry<V>(m: &mut HashMap<u32, V>, from: u32, to: u32)
    ensures
        final(m)@ == move_entry(old(m)@, from, to),
{
    match m.remove(&from) {
        Some(v) => {
            m.insert(to, v);
        },
        None => {},
    }
    proof {
        assert(m@ =~= move_entry(old(m)@, from, to));
    }
}

fn move_set_member(s: &mut HashSet<u32>, from: u32, to: u32)
    ensures
        final(s)@ == move_member(old(s)@, from, to),
{
    if s.remove(&from) {
        s.insert(to);
    }
    proof {
        assert(s@ =~= move_member(old(s)@, from, to));
    }
}

impl CompositorState {
    /// Index of the first rendered surface with `surface_id`.
    pub fn find_renderable_surface(&self, surface_id: u32) -> (r: Option<usize>)
        ensures
            match r {
                Some(i) => i < self.visual.renderable_surfaces@.len() && i as int == renderable_index(
                    self.visual.renderable_surfaces@,
                    surface_id,
                ),
                None => renderable_index(self.visual.renderable_surfaces@, surface_id) == -1,
            },
    {
        let mut i: usize = 0;
        while i < self.visual.renderable_surfaces.len()
            invariant
                i <= self.visual.renderable_surfaces.len(),
                forall|j: int| 0 <= j < i ==> self.visual.renderable_surfaces@[j].surface_id != surface_id,
            decreases self.visual.renderable_surfaces.len() - i,
        {
            if self.visual.renderable_surfaces[i].surface_id == surface_id {
                proof {
                    lemma_renderable_index_first(self.visual.renderable_surfaces@, surface_id, i as int);
                }
                return Some(i);
            }
            i = i + 1;
        }
        proof {
            lemma_renderable_index_first(self.visual.renderable_surfaces@, surface_id, i as int);
        }
        None
    }

    fn xwayland_content_matches_visual(&self, root_surface_id: u32) -> (r: bool)
        ensures
            r == content_matches_visual(self.visual, root_surface_id),
    {
        let visual = match self.visual.toplevel_visual_geometries.get(&root_surface_id) {
            Some(visual) => *visual,
            None => {
                return false;
            },
        };
        match self.find_renderable_surface(root_surface_id) {
            Some(i) => {
                let surface = &self.visual.renderable_surfaces[i];
                surface.width == visual.width && surface.height == visual.height
            },
            None => false,
        }
    }

    /// Marks the root as waiting for content unless its rendered content
    /// already has the size of its visual geometry.
    pub fn update_pending_xwayland_visual_content(&mut self, root_surface_id: u32)
        ensures
            final(self).visual.pending_xwayland_visual_content@ == (if content_matches_visual(
                old(self).visual,
                root_surface_id,
            ) {
                old(self).visual.pending_xwayland_visual_content@.remove(root_surface_id)
            } else {
                old(self).visual.pending_xwayland_visual_content@.insert(root_surface_id)
            }),
            *final(self) == with_visual(
                *old(self),
                VisualState {
                    pending_xwayland_visual_content: final(self).visual.pending_xwayland_visual_content,
                    ..old(self).visual
                },
            ),
    {
        if self.xwayland_content_matches_visual(root_surface_id) {
            self.visual.pending_xwayland_visual_content.remove(&root_surface_id);
        } else {
            self.visual.pending_xwayland_visual_content.insert(root_surface_id);
        }
    }

    /// Stops waiting for the root's content once it has the visual size.
    pub fn clear_pending_xwayland_visual_content_if_matching(&mut self, root_surface_id: u32)
        ensures
            final(self).visual.pending_xwayland_visual_content@ == (if content_matches_visual(
                old(self).visual,
                root_surface_id,
            ) {
                old(self).visual.pending_xwayland_visual_content@.remove(root_surface_id)
            } else {
                old(self).visual.pending_xwayland_visual_content@
            }),
            *final(self) == with_visual(
                *old(self),
                VisualState {
                    pending_xwayland_visual_content: final(self).visual.pending_xwayland_visual_content,
                    ..old(self).visual
                },
            ),
    {
        if !self.visual.pending_xwayland_visual_content.contains(&root_surface_id) {
            proof {
                assert(old(self).visual.pending_xwayland_visual_content@.remove(root_surface_id)
                    =~= old(self).visual.pending_xwayland_visual_content@);
            }
            return;
        }
        if self.xwayland_content_matches_visual(root_surface_id) {
            self.visual.pending_xwayland_visual_content.remove(&root_surface_id);
        }
    }

    /// When an X11 window's surface is replaced, its visual geometry, active
    /// preview, resize configure flow, content wait, pending resize update and
    /// interaction follow it to the replacement surface.
    pub fn transfer_xwayland_visual_state_for_attachment_replacement(
        &mut self,
        old_surface_id: u32,
        replacement_surface_id: u32,
    )
        ensures
            final(self).visual.pending_xwayland_visual_content@ == move_member(
                old(self).visual.pending_xwayland_visual_content@,
                old_surface_id,
                replacement_surface_id,
            ),
            final(self).visual.toplevel_visual_geometries@ == move_entry(
                old(self).visual.toplevel_visual_geometries@,
                old_surface_id,
                replacement_surface_id,
            ),
            final(self).visual.active_toplevel_resizes@ == move_entry(
                old(self).visual.active_toplevel_resizes@,
                old_surface_id,
                replacement_surface_id,
            ),
            final(self).resize_configure_flows@ == move_entry(
                old(self).resize_configure_flows@,
                old_surface_id,
                replacement_surface_id,
            ),
            final(self).pending_interactive_resize_update == match old(self).pending_interactive_resize_update {
                Some(u) if u.root_surface_id == old_surface_id => Some(
                    crate::interaction::PendingInteractiveResizeUpdate {
                        root_surface_id: replacement_surface_id,
                        ..u
                    },
                ),
                other => other,
            },
            final(self).window_interaction == match old(self).window_interaction {
                Some(i) if i.root_surface_id == old_surface_id => Some(
                    crate::interaction::WindowInteraction { root_surface_id: replacement_surface_id, ..i },
                ),
                other => other,
            },
            final(self).visual.renderable_surfaces == old(self).visual.renderable_surfaces,
            final(self).surface_placements == old(self).surface_placements,
            final(self).popups.nodes == old(self).popups.nodes,
    {
        move_set_member(&mut self.visual.pending_xwayland_visual_content, old_surface_id, replacement_surface_id);
        move_map_entry(&mut self.visual.toplevel_visual_geometries, old_surface_id, replacement_surface_id);
        move_map_entry(&mut self.visual.active_toplevel_resizes, old_surface_id, replacement_surface_id);
        move_map_entry(&mut self.resize_configure_flows, old_surface_id, replacement_surface_id);
        match self.pending_interactive_resize_update {
            Some(update) => {
                if update.root_surface_id == old_surface_id {
                    self.pending_interactive_resize_update = Some(
                        crate::interaction::PendingInteractiveResizeUpdate {
                            root_surface_id: replacement_surface_id,
                            ..update
                        },
                    );
                }
            },
            None => {},
        }
        match self.window_interaction {
            Some(interaction) => {
                if interaction.root_surface_id == old_surface_id {
                    self.window_interaction = Some(
                        crate::interaction::WindowInteraction {
                            root_surface_id: replacement_surface_id,
                            ..interaction
                        },
                    );
                }
            },
            None => {},
        }
    }
}

/// Whether `id` belongs to the surface tree of `root`: the root itself, or a
/// placed surface whose root is `root`.
pub open spec fn in_surface_tree(s: CompositorState, root: u32, id: u32) -> bool {
    id == root || (s.surface_placements@.contains_key(id) && (if s.surface_roots@.contains_key(id) {
        s.surface_roots@[id]
    } else {
        id
    }) == root)
}

/// The rendered surfaces outside the tree of `root`, in order.
pub open spec fn surfaces_outside_tree(s: CompositorState, root: u32, v: Seq<RenderableSurface>) -> Seq<
    RenderableSurface,
>
    decreases v.len(),
{
    if v.len() == 0 {
        Seq::empty()
    } else {
        let kept = surfaces_outside_tree(s, root, v.drop_last());
        if in_surface_tree(s, root, v.last().surface_id) {
            kept
        } else {
            kept.push(v.last())
        }
    }
}

/// The surface identities outside the tree of `root`, in order.
pub open spec fn ids_outside_tree(s: CompositorState, root: u32, v: Seq<u32>) -> Seq<u32>
    decreases v.len(),
{
    if v.len() == 0 {
        Seq::empty()
    } else {
        let kept = ids_outside_tree(s, root, v.drop_last());
        if in_surface_tree(s, root, v.last()) {
            kept
        } else {
            kept.push(v.last())
        }
    }
}

proof fn lemma_outside_tree_shorter(s: CompositorState, root: u32, v: Seq<RenderableSurface>)
    ensures
        surfaces_outside_tree(s, root, v).len() <= v.len(),
        surfaces_outside_tree(s, root, v).len() == v.len() ==> surfaces_outside_tree(s, root, v) == v,
    decreases v.len(),
{
    if v.len() > 0 {
        lemma_outside_tree_shorter(s, root, v.drop_last());
        if surfaces_outside_tree(s, root, v).len() == v.len() {
            assert(v.drop_last().push(v.last()) =~= v);
        }
    }
}

impl CompositorState {
    pub(crate) fn surface_in_tree(&self, root_surface_id: u32, surface_id: u32) -> (r: bool)
        ensures
            r == in_surface_tree(*self, root_surface_id, surface_id),
    {
        surface_id == root_surface_id || (self.surface_placements.contains_key(&surface_id)
            && self.root_surface_id_for_surface(surface_id) == root_surface_id)
    }

    /// Takes the XWayland root's surface tree out of the rendered scene: drops
    /// the root's content wait, its rendered surfaces and the surfaces its
    /// minimized window hid. Returns whether anything was withdrawn; a
    /// withdrawal of rendered surfaces advances the render generation.
    pub fn withdraw_xwayland_surface_content(&mut self, root_surface_id: u32) -> (r: bool)
        ensures
            ({
                let o = *old(self);
                let rendered = o.visual.renderable_surfaces@;
                let kept = surfaces_outside_tree(o, root_surface_id, rendered);
                let withdrew = kept.len() < rendered.len();
                let hid_removed = o.minimized_surfaces@.contains_key(root_surface_id) && ids_outside_tree(
                    o,
                    root_surface_id,
                    o.minimized_surfaces@[root_surface_id]@,
                ).len() < o.minimized_surfaces@[root_surface_id]@.len();
                &&& r == (withdrew || hid_removed)
                &&& final(self).visual.renderable_surfaces@ == kept
                &&& final(self).visual.pending_xwayland_visual_content@
                    == o.visual.pending_xwayland_visual_content@.remove(root_surface_id)
                &&& final(self).visual.toplevel_visual_geometries == o.visual.toplevel_visual_geometries
                &&& final(self).visual.active_toplevel_resizes == o.visual.active_toplevel_resizes
                &&& final(self).minimized_surfaces@.dom() == o.minimized_surfaces@.dom()
                &&& forall|k: u32|
                    #![trigger final(self).minimized_surfaces@[k]]
                    o.minimized_surfaces@.contains_key(k) && k != root_surface_id
                        ==> final(self).minimized_surfaces@[k] == o.minimized_surfaces@[k]
                &&& o.minimized_surfaces@.contains_key(root_surface_id)
                    ==> final(self).minimized_surfaces@[root_surface_id]@ == ids_outside_tree(
                    o,
                    root_surface_id,
                    o.minimized_surfaces@[root_surface_id]@,
                )
                &&& *final(self) == (CompositorState {
                    visual: final(self).visual,
                    minimized_surfaces: final(self).minimized_surfaces,
                    ..(if withdrew {
                        spec_advance_render_generation(o, RenderGenerationCause::SurfaceUnmap)
                    } else {
                        o
                    })
                })
            }),
    {
        let ghost o = *self;
        self.visual.pending_xwayland_visual_content.remove(&root_surface_id);
        let ghost rendered = self.visual.renderable_surfaces@;
        let mut rest: Vec<RenderableSurface> = Vec::new();
        std::mem::swap(&mut rest, &mut self.visual.renderable_surfaces);
        let total = rest.len();
        let mut kept: Vec<RenderableSurface> = Vec::new();
        let mut withdrew = false;
        let mut i: usize = 0;
        while rest.len() > 0
            invariant
                i <= rendered.len(),
                rendered.len() == total,
                rest@ == rendered.skip(i as int),
                self.surface_placements == o.surface_placements,
                self.surface_roots == o.surface_roots,
                kept@ == surfaces_outside_tree(o, root_surface_id, rendered.take(i as int)),
                withdrew == (kept@.len() < i),
                kept@.len() <= i,
            decreases rest@.len(),
        {
            proof {
                assert(rendered.take(i as int + 1).drop_last() =~= rendered.take(i as int));
                assert(rendered.skip(i as int)[0] == rendered[i as int]);
                assert(rendered.take(i as int + 1).last() == rendered[i as int]);
            }
            let surface = rest.remove(0);
            proof {
                assert(rest@ =~= rendered.skip(i as int + 1));
            }
            if self.surface_in_tree(root_surface_id, surface.surface_id) {
                withdrew = true;
            } else {
                kept.push(surface);
            }
            i = i + 1;
        }
        proof {
            assert(rendered.take(rendered.len() as int) =~= rendered);
        }
        self.visual.renderable_surfaces = kept;
        let mut hid_removed = false;
        let ghost minimized_before = self.minimized_surfaces@;
        match self.minimized_surfaces.remove(&root_surface_id) {
            Some(hidden) => {
                let ghost hidden_view = hidden@;
                let mut left: Vec<u32> = Vec::new();
                let mut j: usize = 0;
                while j < hidden.len()
                    invariant
                        j <= hidden@.len(),
                        hidden@ == hidden_view,
                        self.surface_placements == o.surface_placements,
                        self.surface_roots == o.surface_roots,
                        left@ == ids_outside_tree(o, root_surface_id, hidden_view.take(j as int)),
                        left@.len() <= j,
                    decreases hidden@.len() - j,
                {
                    proof {
                        assert(hidden_view.take(j as int + 1).drop_last() =~= hidden_view.take(j as int));
                    }
                    let id = hidden[j];
                    if !self.surface_in_tree(root_surface_id, id) {
                        left.push(id);
                    }
                    j = j + 1;
                }
                proof {
                    assert(hidden_view.take(hidden_view.len() as int) =~= hidden_view);
                }
                hid_removed = left.len() < hidden.len();
                self.minimized_surfaces.insert(root_surface_id, left);
                proof {
                    assert(self.minimized_surfaces@.dom() =~= minimized_before.dom());
                }
            },
            None => {
                proof {
                    assert(self.minimized_surfaces@ =~= minimized_before);
                }
            },
        }
        if withdrew {
            self.advance_render_generation(RenderGenerationCause::SurfaceUnmap);
        } else {
            proof {
                lemma_outside_tree_shorter(o, root_surface_id, rendered);
            }
        }
        withdrew || hid_removed
    }
}

/// Why finishing an X11 resize preview is refused: no preview, a preview of
/// another interaction, a presented size from an older content epoch, or a
/// pointer resize of the window still going on.
pub open spec fn x11_finalize_refused(s: CompositorState, root: u32, presented: Option<(u32, u32)>) -> bool {
    let active = s.visual.active_toplevel_resizes@;
    let visuals = s.visual.toplevel_visual_geometries@;
    ||| !active.contains_key(root)
    ||| (visuals.contains_key(root) && visuals[root].active_resize != Some(active[root].interaction_id))
    ||| (visuals.contains_key(root) && (presented matches Some((w, h)) && (visuals[root].width != w
        || visuals[root].height != h)))
    ||| (visuals.contains_key(root) && presented is Some && (s.window_interaction matches Some(i)
        && i.root_surface_id == root && i.kind is Resize))
}

/// `f` is `o` after the resize preview of the X11 window `root` ended with
/// the content presented at `presented` (when the window manager reported a
/// size): unchanged when refused; a preview without visual geometry is just
/// dropped; otherwise the preview's interaction is forgotten, the window is
/// placed at its visual placement (repainting on a move), and the content
/// wait is re-evaluated.
pub open spec fn x11_resize_finalized(o: CompositorState, f: CompositorState, root: u32, presented: Option<(u32, u32)>) -> bool {
    let visuals = o.visual.toplevel_visual_geometries@;
    if x11_finalize_refused(o, root, presented) {
        f == o
    } else if !visuals.contains_key(root) {
        &&& f.visual.active_toplevel_resizes@ == o.visual.active_toplevel_resizes@.remove(root)
        &&& f == with_visual(o, VisualState { active_toplevel_resizes: f.visual.active_toplevel_resizes, ..o.visual })
    } else {
        let visual = visuals[root];
        let placement = visual.placement;
        let moved = !(o.surface_placements@.contains_key(root) && o.surface_placements@[root] == placement);
        let after_move = if moved {
            spec_advance_render_generation(o, RenderGenerationCause::WindowResize)
        } else {
            o
        };
        &&& f.visual.active_toplevel_resizes@ == o.visual.active_toplevel_resizes@.remove(root)
        &&& f.visual.toplevel_visual_geometries@ == visuals.insert(
            root,
            ToplevelVisualGeometry { active_resize: None, ..visual },
        )
        &&& f.surface_placements@ == o.surface_placements@.insert(root, placement)
        &&& f.visual.pending_xwayland_visual_content@ == (if content_matches_visual(o.visual, root) {
            o.visual.pending_xwayland_visual_content@.remove(root)
        } else {
            o.visual.pending_xwayland_visual_content@.insert(root)
        })
        &&& f.visual.renderable_surfaces == o.visual.renderable_surfaces
        &&& f == (CompositorState { visual: f.visual, surface_placements: f.surface_placements, ..after_move })
    }
}

impl CompositorState {
    /// Whether the X11 window with root surface `root_surface_id` shows a resize preview.
    pub fn x11_resize_active(&self, root_surface_id: u32) -> (r: bool)
        ensures
            r == self.visual.active_toplevel_resizes@.contains_key(root_surface_id),
    {
        self.visual.active_toplevel_resizes.contains_key(&root_surface_id)
    }

    /// Whether a pointer interaction holds the X11 window with root surface `root_surface_id`.
    pub fn x11_resize_interaction_active(&self, root_surface_id: u32) -> (r: bool)
        ensures
            r == (self.window_interaction matches Some(i) && i.root_surface_id == root_surface_id),
    {
        match self.window_interaction {
            Some(interaction) => interaction.root_surface_id == root_surface_id,
            None => false,
        }
    }

    /// Ends the resize preview of an X11 window once the client presented
    /// content for it (of `presented_size`, when the window manager reported
    /// one): the preview's interaction is forgotten, the window is placed at
    /// its visual placement, and the content wait is re-evaluated. A preview
    /// without visual geometry is just dropped. Returns whether a preview
    /// ended.
    pub fn finalize_x11_resize_with_geometry(&mut self, root_surface_id: u32, presented_size: Option<(u32, u32)>) -> (r:
        bool)
        ensures
            r == !x11_finalize_refused(*old(self), root_surface_id, presented_size),
            x11_resize_finalized(*old(self), *final(self), root_surface_id, presented_size),
    {
        let active = match self.visual.active_toplevel_resizes.get(&root_surface_id) {
            Some(active) => *active,
            None => {
                return false;
            },
        };
        let visual = match self.visual.toplevel_visual_geometries.get(&root_surface_id) {
            Some(visual) => *visual,
            None => {
                self.visual.active_toplevel_resizes.remove(&root_surface_id);
                return true;
            },
        };
        match visual.active_resize {
            Some(id) => {
                if id != active.interaction_id {
                    return false;
                }
            },
            None => {
                return false;
            },
        }
        match presented_size {
            Some((width, height)) => {
                if visual.width != width || visual.height != height {
                    return false;
                }
                match self.window_interaction {
                    Some(interaction) => {
                        if interaction.root_surface_id == root_surface_id {
                            match interaction.kind {
                                WindowInteractionKind::Resize(_) => {
                                    return false;
                                },
                                WindowInteractionKind::Move => {},
                            }
                        }
                    },
                    None => {},
                }
            },
            None => {},
        }
        let ghost o = *self;
        self.visual.active_toplevel_resizes.remove(&root_surface_id);
        self.visual.toplevel_visual_geometries.insert(
            root_surface_id,
            ToplevelVisualGeometry { active_resize: None, ..visual },
        );
        let ghost v1 = self.visual;
        proof {
            assert(content_matches_visual(v1, root_surface_id) == content_matches_visual(o.visual, root_surface_id));
        }
        self.set_surface_placement_with_cause(root_surface_id, visual.placement, RenderGenerationCause::WindowResize);
        self.update_pending_xwayland_visual_content(root_surface_id);
        proof {
            assert(!x11_finalize_refused(o, root_surface_id, presented_size));
            assert(o.visual.toplevel_visual_geometries@.contains_key(root_surface_id));
            let f = *self;
            let root = root_surface_id;
            let visuals = o.visual.toplevel_visual_geometries@;
            let visual = visuals[root];
            assert(visual == visual);
            assert(f.visual.active_toplevel_resizes@ == o.visual.active_toplevel_resizes@.remove(root));
            assert(f.visual.toplevel_visual_geometries@ == visuals.insert(
                root,
                ToplevelVisualGeometry { active_resize: None, ..visual },
            ));
            assert(f.surface_placements@ == o.surface_placements@.insert(root, visual.placement));
            assert(f.visual.renderable_surfaces == o.visual.renderable_surfaces);
        }
        true
    }

    /// Ends the resize preview of an X11 window without a presented size.
    pub fn finalize_x11_resize(&mut self, root_surface_id: u32) -> (r: bool)
        ensures
            r == !x11_finalize_refused(*old(self), root_surface_id, None),
            x11_resize_finalized(*old(self), *final(self), root_surface_id, None),
    {
        self.finalize_x11_resize_with_geometry(root_surface_id, None)
    }

    /// Ends the resize preview of an X11 window once no pointer interaction holds it.
    pub fn finalize_x11_resize_if_interaction_ended(&mut self, root_surface_id: u32) -> (r: bool)
        ensures
            (old(self).window_interaction matches Some(i) && i.root_surface_id == root_surface_id)
                ==> !r && *final(self) == *old(self),
            !(old(self).window_interaction matches Some(i) && i.root_surface_id == root_surface_id) ==> (r
                <==> !x11_finalize_refused(*old(self), root_surface_id, None)),
            !(old(self).window_interaction matches Some(i) && i.root_surface_id == root_surface_id)
                ==> x11_resize_finalized(*old(self), *final(self), root_surface_id, None),
    {
        if self.x11_resize_interaction_active(root_surface_id) {
            return false;
        }
        self.finalize_x11_resize(root_surface_id)
    }
}

/// After a replacement, what the old surface had is found under the new one
/// and nothing is left under the old one (when the two differ).
pub proof fn lemma_transfer_moves_visual_geometry(m: Map<u32, ToplevelVisualGeometry>, from: u32, to: u32)
    requires
        from != to,
    ensures
        !move_entry(m, from, to).contains_key(from),
        m.contains_key(from) ==> move_entry(m, from, to)[to] == m[from],
        forall|k: u32| k != from && k != to ==> move_entry(m, from, to).contains_key(k) == m.contains_key(k),
{
}

} // verus!
