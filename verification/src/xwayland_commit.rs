//! A buffer commit on the surface of an X11 window: released at once for a
//! retired surface or content that cannot be shown, handed to the
//! unassigned-surface path when no window owns the tree, and otherwise
//! published as the surface's rendered content.
use vstd::prelude::*;
use crate::buffer::CommittedSurfaceBuffer;
use crate::compositor::{bump, root_of, spec_advance_render_generation, CompositorState, RenderGenerationCause};
use crate::render_assignment::{spec_render_assignment_of, spec_surface_placement, with_rendered};
use crate::surface::{RenderableSurface, RenderableSurfaceDamage, RootPlacementMode};
use crate::xwayland_visual::{renderable_index, VisualState};
use std::collections::HashSet;

verus! {

/// A committed buffer that can be shown: where the surface sits in its
/// parent, its size and the buffer.
#[derive(Debug, Clone)]
pub struct XwaylandBufferCommit {
    pub x: i32,
    pub y: i32,
    pub width: u32,
    pub height: u32,
    pub buffer: CommittedSurfaceBuffer,
}

/// What the protocol side does after a commit was handled.
#[derive(Debug, Clone, Copy, PartialEq, Eq, Structural)]
pub enum XwaylandCommitAction {
    /// Release the buffer and complete the frame callbacks now.
    ReleaseAndCompleteFrames,
    /// No window owns the surface's tree: commit it as an unassigned surface.
    CommitUnassigned,
    /// The buffer is the surface's current content; the frame callbacks
    /// complete now for a minimized window, else with the next frame.
    Published { complete_frames_now: bool },
}

/// The rendered surfaces `rs` without those of `surface_id`, in order.
pub open spec fn surfaces_without(rs: Seq<RenderableSurface>, surface_id: u32) -> Seq<RenderableSurface>
    decreases rs.len(),
{
    if rs.len() == 0 {
        Seq::empty()
    } else {
        let kept = surfaces_without(rs.drop_last(), surface_id);
        if rs.last().surface_id == surface_id {
            kept
        } else {
            kept.push(rs.last())
        }
    }
}

/// Whether the window drawn by `root` is an X11 window that is minimized.
pub open spec fn x11_window_minimized(s: CompositorState, root: u32) -> bool {
    &&& s.root_windows@.contains_key(root)
    &&& s.root_windows@[root].x11_geometry is Some
    &&& s.minimized_surfaces@.contains_key(root)
}

/// What a commit on `surface_id` comes to, `converts` telling whether its
/// buffer can be shown.
pub open spec fn spec_xwayland_commit_action(s: CompositorState, surface_id: u32, converts: bool) -> XwaylandCommitAction {
    let root = root_of(s, surface_id);
    if s.retired_xwayland_surfaces@.contains(surface_id) {
        XwaylandCommitAction::ReleaseAndCompleteFrames
    } else if !s.root_windows@.contains_key(root) {
        XwaylandCommitAction::CommitUnassigned
    } else if !converts {
        XwaylandCommitAction::ReleaseAndCompleteFrames
    } else {
        XwaylandCommitAction::Published { complete_frames_now: x11_window_minimized(s, root) }
    }
}

/// The surface a published commit renders: at the root's placement, with
/// the next render generation, full damage and no render overrides.
pub open spec fn published_surface(s: CompositorState, surface_id: u32, c: XwaylandBufferCommit) -> RenderableSurface {
    RenderableSurface {
        surface_id,
        x: c.x,
        y: c.y,
        width: c.width,
        height: c.height,
        placement: spec_surface_placement(s, root_of(s, surface_id)),
        resize_preview: None,
        render_placement: None,
        visual_clip: None,
        render_target_size: None,
        generation: bump(s.render_generation),
        buffer: c.buffer,
        damage: RenderableSurfaceDamage::Full,
    }
}

/// Where a published surface is rendered: where its content was first
/// rendered, keeping its place in the stack, or on top when it had none.
pub open spec fn published_position(s: CompositorState, surface_id: u32) -> int {
    let i = renderable_index(s.visual.renderable_surfaces@, surface_id);
    if i >= 0 {
        i
    } else {
        surfaces_without(s.visual.renderable_surfaces@, surface_id).len() as int
    }
}

/// The rendered surfaces right after the publication, before the root's
/// render assignment is brought up to date.
pub open spec fn published_surfaces(s: CompositorState, surface_id: u32, c: XwaylandBufferCommit) -> Seq<
    RenderableSurface,
> {
    surfaces_without(s.visual.renderable_surfaces@, surface_id).insert(
        published_position(s, surface_id),
        published_surface(s, surface_id, c),
    )
}

/// Whether the rendered content of `root` in `rs` has the size of its visual geometry.
pub open spec fn content_matches_rendered(s: CompositorState, rs: Seq<RenderableSurface>, root: u32) -> bool {
    let i = renderable_index(rs, root);
    &&& s.visual.toplevel_visual_geometries@.contains_key(root)
    &&& i >= 0
    &&& rs[i].width == s.visual.toplevel_visual_geometries@[root].width
    &&& rs[i].height == s.visual.toplevel_visual_geometries@[root].height
}

/// Whether a publication brings the render assignment of `root` up to date:
/// it has a visual geometry or is placed absolutely.
pub open spec fn reapplies_assignment(s: CompositorState, root: u32) -> bool {
    s.visual.toplevel_visual_geometries@.contains_key(root) || spec_surface_placement(s, root).root_mode
        == RootPlacementMode::Absolute
}

/// The roots waiting for XWayland content after a publication: the root
/// stops waiting once its new content has the visual size.
pub open spec fn spec_published_pending(s: CompositorState, surface_id: u32, c: XwaylandBufferCommit) -> Set<u32> {
    let root = root_of(s, surface_id);
    if !x11_window_minimized(s, root) && content_matches_rendered(s, published_surfaces(s, surface_id, c), root) {
        s.visual.pending_xwayland_visual_content@.remove(root)
    } else {
        s.visual.pending_xwayland_visual_content@
    }
}

/// The rendered surfaces after a publication, with `pending` the roots then
/// waiting for content: for a minimized window the surface's content is
/// withdrawn; otherwise it is replaced and the root's render assignment
/// brought up to date where it has one.
pub open spec fn spec_published_rendered(
    s: CompositorState,
    surface_id: u32,
    c: XwaylandBufferCommit,
    pending: HashSet<u32>,
) -> Seq<RenderableSurface> {
    let root = root_of(s, surface_id);
    if x11_window_minimized(s, root) {
        surfaces_without(s.visual.renderable_surfaces@, surface_id)
    } else if reapplies_assignment(s, root) {
        spec_render_assignment_of(
            CompositorState { visual: VisualState { pending_xwayland_visual_content: pending, ..s.visual }, ..s },
            published_surfaces(s, surface_id, c),
            root,
        )
    } else {
        published_surfaces(s, surface_id, c)
    }
}

/// The state after a publication that left `rs` rendered and `pending`
/// waiting: for a visible window the scene is repainted.
pub open spec fn spec_published_state(
    s: CompositorState,
    surface_id: u32,
    rs: Vec<RenderableSurface>,
    pending: HashSet<u32>,
) -> CompositorState {
    if x11_window_minimized(s, root_of(s, surface_id)) {
        with_rendered(s, rs)
    } else {
        spec_advance_render_generation(
            CompositorState {
                visual: VisualState { renderable_surfaces: rs, pending_xwayland_visual_content: pending, ..s.visual },
                ..s
            },
            RenderGenerationCause::SurfaceCommit,
        )
    }
}

/// `f` is `s` after the commit `c` on `surface_id` was published.
pub open spec fn published_as_stated(s: CompositorState, f: CompositorState, surface_id: u32, c: XwaylandBufferCommit) -> bool {
    &&& f.visual.pending_xwayland_visual_content@ == spec_published_pending(s, surface_id, c)
    &&& f.visual.renderable_surfaces@ == spec_published_rendered(
        s,
        surface_id,
        c,
        f.visual.pending_xwayland_visual_content,
    )
    &&& f == spec_published_state(
        s,
        surface_id,
        f.visual.renderable_surfaces,
        f.visual.pending_xwayland_visual_content,
    )
}

proof fn lemma_surfaces_without_excludes(rs: Seq<RenderableSurface>, surface_id: u32)
    ensures
        forall|i: int|
            0 <= i < surfaces_without(rs, surface_id).len() ==> #[trigger] surfaces_without(rs, surface_id)[i].surface_id
                != surface_id,
    decreases rs.len(),
{
    if rs.len() > 0 {
        lemma_surfaces_without_excludes(rs.drop_last(), surface_id);
    }
}

proof fn lemma_renderable_index_first_match(rs: Seq<RenderableSurface>, surface_id: u32)
    ensures
        renderable_index(rs, surface_id) >= 0 ==> {
            &&& renderable_index(rs, surface_id) < rs.len()
            &&& rs[renderable_index(rs, surface_id)].surface_id == surface_id
            &&& forall|j: int| 0 <= j < renderable_index(rs, surface_id) ==> #[trigger] rs[j].surface_id != surface_id
        },
        renderable_index(rs, surface_id) < 0 ==> forall|j: int| 0 <= j < rs.len() ==> #[trigger] rs[j].surface_id
            != surface_id,
    decreases rs.len(),
{
    if rs.len() > 0 {
        let rest = rs.drop_last();
        lemma_renderable_index_first_match(rest, surface_id);
        let i = renderable_index(rest, surface_id);
        if i >= 0 {
            assert(renderable_index(rs, surface_id) == i);
            assert forall|j: int| 0 <= j < i implies #[trigger] rs[j].surface_id != surface_id by {
                assert(rest[j] == rs[j]);
            }
            assert(rest[i] == rs[i]);
        } else if rs.last().surface_id == surface_id {
            assert(renderable_index(rs, surface_id) == rs.len() - 1);
            assert forall|j: int| 0 <= j < rs.len() - 1 implies #[trigger] rs[j].surface_id != surface_id by {
                assert(rest[j] == rs[j]);
            }
        } else {
            assert(renderable_index(rs, surface_id) == -1);
            assert forall|j: int| 0 <= j < rs.len() implies #[trigger] rs[j].surface_id != surface_id by {
                if j < rs.len() - 1 {
                    assert(rest[j] == rs[j]);
                }
            }
        }
    }
}

proof fn lemma_surfaces_without_keeps_prefix(rs: Seq<RenderableSurface>, surface_id: u32, k: int)
    requires
        0 <= k <= rs.len(),
        forall|j: int| 0 <= j < k ==> #[trigger] rs[j].surface_id != surface_id,
    ensures
        k <= surfaces_without(rs, surface_id).len() <= rs.len(),
        forall|j: int| 0 <= j < k ==> #[trigger] surfaces_without(rs, surface_id)[j] == rs[j],
    decreases rs.len(),
{
    if rs.len() > 0 {
        let rest = rs.drop_last();
        let k2 = if k == rs.len() {
            k - 1
        } else {
            k
        };
        lemma_surfaces_without_keeps_prefix(rest, surface_id, k2);
        if k == rs.len() {
            assert(rs[k - 1].surface_id != surface_id);
        }
    }
}

/// A published commit leaves the surface rendered exactly once, at the place
/// its content had in the stack (on top when it had none), with the committed
/// buffer and size, when its window is visible; and not at all when its window
/// is minimized.
pub proof fn lemma_published_commit_rendered_once(
    s: CompositorState,
    surface_id: u32,
    c: XwaylandBufferCommit,
    pending: HashSet<u32>,
)
    ensures
        ({
            let rs = spec_published_rendered(s, surface_id, c, pending);
            let p = published_position(s, surface_id);
            !x11_window_minimized(s, root_of(s, surface_id)) ==> {
                &&& 0 <= p < rs.len()
                &&& rs[p].surface_id == surface_id
                &&& rs[p].buffer == c.buffer
                &&& rs[p].width == c.width && rs[p].height == c.height
                &&& forall|i: int| 0 <= i < rs.len() && i != p ==> #[trigger] rs[i].surface_id != surface_id
            }
        }),
        ({
            let rs = spec_published_rendered(s, surface_id, c, pending);
            x11_window_minimized(s, root_of(s, surface_id)) ==> forall|i: int|
                0 <= i < rs.len() ==> #[trigger] rs[i].surface_id != surface_id
        }),
{
    let rs0 = s.visual.renderable_surfaces@;
    lemma_surfaces_without_excludes(rs0, surface_id);
    lemma_published_position_in_range(s, surface_id);
    let kept = surfaces_without(rs0, surface_id);
    let p = published_position(s, surface_id);
    let rs1 = published_surfaces(s, surface_id, c);
    assert(forall|i: int| 0 <= i < p ==> #[trigger] rs1[i] == kept[i]);
    assert(forall|i: int| p < i < rs1.len() ==> #[trigger] rs1[i] == kept[i - 1]);
}

/// The published position lies within the kept surfaces, and the surfaces
/// before it are the ones rendered before the surface's old content.
proof fn lemma_published_position_in_range(s: CompositorState, surface_id: u32)
    ensures
        0 <= published_position(s, surface_id) <= surfaces_without(s.visual.renderable_surfaces@, surface_id).len(),
{
    let rs = s.visual.renderable_surfaces@;
    lemma_renderable_index_first_match(rs, surface_id);
    let i = renderable_index(rs, surface_id);
    if i >= 0 {
        lemma_surfaces_without_keeps_prefix(rs, surface_id, i);
    }
}

impl CompositorState {
    /// Whether the window drawn by `root_surface_id` is a minimized X11 window.
    pub fn x11_window_minimized(&self, root_surface_id: u32) -> (r: bool)
        ensures
            r == x11_window_minimized(*self, root_surface_id),
    {
        match self.root_windows.get(&root_surface_id) {
            Some(window) => window.x11_geometry.is_some() && self.minimized_surfaces.contains_key(&root_surface_id),
            None => false,
        }
    }

    /// Drops every rendered surface of `surface_id`, keeping the others in order.
    fn drop_renderable_surfaces_of(&mut self, surface_id: u32)
        ensures
            final(self).visual.renderable_surfaces@ == surfaces_without(
                old(self).visual.renderable_surfaces@,
                surface_id,
            ),
            *final(self) == with_rendered(*old(self), final(self).visual.renderable_surfaces),
    {
        let ghost o = *self;
        let ghost rendered = self.visual.renderable_surfaces@;
        assert(rendered.len() == self.visual.renderable_surfaces.len());
        let mut rest: Vec<RenderableSurface> = Vec::new();
        std::mem::swap(&mut rest, &mut self.visual.renderable_surfaces);
        let mut kept: Vec<RenderableSurface> = Vec::new();
        let mut i: usize = 0;
        proof {
            assert(rendered.take(0) =~= Seq::<RenderableSurface>::empty());
        }
        while rest.len() > 0
            invariant
                i <= rendered.len(),
                rest@ == rendered.skip(i as int),
                rest@.len() + i == rendered.len(),
                rendered.len() <= usize::MAX,
                kept@ == surfaces_without(rendered.take(i as int), surface_id),
                *self == with_rendered(o, self.visual.renderable_surfaces),
            decreases rest@.len(),
        {
            proof {
                assert(rendered.skip(i as int)[0] == rendered[i as int]);
                assert(rendered.take(i as int + 1).drop_last() =~= rendered.take(i as int));
            }
            let surface = rest.remove(0);
            proof {
                assert(rest@ =~= rendered.skip(i as int + 1));
            }
            if surface.surface_id != surface_id {
                kept.push(surface);
            }
            i = i + 1;
        }
        proof {
            assert(rendered.take(i as int) =~= rendered);
        }
        self.visual.renderable_surfaces = kept;
    }

    /// Handles a buffer commit on `surface_id`, the surface of an X11 window
    /// or of its tree; `pending` is the content to show, none when the
    /// buffer cannot be shown. A retired surface, or content that cannot be
    /// shown, releases the buffer with nothing changed; a surface whose tree
    /// no window owns goes the unassigned way. Otherwise the surface's
    /// rendered content is replaced by the commit at the root's placement,
    /// keeping the place the old content had in the stack (on top for a
    /// first content); for a minimized window it is only withdrawn. A visible window's root
    /// stops waiting for content once it has the visual size, gets its
    /// render assignment brought up to date when it has a visual geometry or
    /// is placed absolutely, and the scene is repainted.
    pub fn commit_xwayland_surface_buffer(&mut self, surface_id: u32, pending: Option<XwaylandBufferCommit>) -> (r:
        XwaylandCommitAction)
        ensures
            r == spec_xwayland_commit_action(*old(self), surface_id, pending is Some),
            !(r is Published) ==> *final(self) == *old(self),
            pending matches Some(c) ==> (r is Published ==> published_as_stated(*old(self), *final(self), surface_id, c)),
    {
        let ghost o = *self;
        if self.retired_xwayland_surfaces.contains(&surface_id) {
            return XwaylandCommitAction::ReleaseAndCompleteFrames;
        }
        let root = self.root_surface_id_for_surface(surface_id);
        if self.window_id_for_surface(root).is_none() {
            return XwaylandCommitAction::CommitUnassigned;
        }
        let commit = match pending {
            Some(c) => c,
            None => {
                return XwaylandCommitAction::ReleaseAndCompleteFrames;
            },
        };
        let minimized = self.x11_window_minimized(root);
        let placement = self.surface_placement(root);
        let surface = RenderableSurface {
            surface_id,
            x: commit.x,
            y: commit.y,
            width: commit.width,
            height: commit.height,
            placement,
            resize_preview: None,
            render_placement: None,
            visual_clip: None,
            render_target_size: None,
            generation: self.render_generation.saturating_add(1),
            buffer: commit.buffer,
            damage: RenderableSurfaceDamage::Full,
        };
        proof {
            assert(surface == published_surface(o, surface_id, commit));
        }
        let position = self.find_renderable_surface(surface_id);
        self.drop_renderable_surfaces_of(surface_id);
        if minimized {
            return XwaylandCommitAction::Published { complete_frames_now: true };
        }
        proof {
            lemma_published_position_in_range(o, surface_id);
        }
        let at = match position {
            Some(i) => i,
            None => self.visual.renderable_surfaces.len(),
        };
        self.visual.renderable_surfaces.insert(at, surface);
        proof {
            assert(self.visual.renderable_surfaces@ =~= published_surfaces(o, surface_id, commit));
        }
        self.clear_pending_xwayland_visual_content_if_matching(root);
        let ghost published = *self;
        if self.visual.toplevel_visual_geometries.contains_key(&root) || placement.root_mode
            == RootPlacementMode::Absolute {
            self.update_toplevel_visual_render_assignment(root);
            proof {
                let waiting = CompositorState {
                    visual: VisualState {
                        pending_xwayland_visual_content: published.visual.pending_xwayland_visual_content,
                        ..o.visual
                    },
                    ..o
                };
                assert(self.visual.renderable_surfaces@ =~= spec_render_assignment_of(
                    waiting,
                    published_surfaces(o, surface_id, commit),
                    root,
                ));
            }
        }
        self.advance_render_generation(RenderGenerationCause::SurfaceCommit);
        XwaylandCommitAction::Published { complete_frames_now: false }
    }
}

} // verus!
