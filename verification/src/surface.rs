//! Surface placement and damage as published to the renderer.
use vstd::prelude::*;
use crate::arith::{max_int, min_int};
use crate::buffer::{
    BufferId, BufferIdentity, BufferSize, CommittedBufferContent, CommittedSurfaceBuffer,
    DmabufBufferHandle, SurfaceBufferSource,
};

verus! {

/// How a root surface's placement is interpreted.
#[derive(Debug, Clone, Copy, PartialEq, Eq, Structural)]
pub enum RootPlacementMode {
    /// Offset by the compositor's cascading origin for new windows.
    Cascaded,
    /// Absolute output-space coordinates.
    Absolute,
}

/// Where a surface sits relative to its parent (or to the output for roots).
#[derive(Debug, Clone, Copy, PartialEq, Eq, Structural)]
pub struct SurfacePlacement {
    pub parent_surface_id: Option<u32>,
    pub local_x: i32,
    pub local_y: i32,
    pub root_mode: RootPlacementMode,
}

impl SurfacePlacement {
    pub fn root() -> (r: Self)
        ensures
            r == (SurfacePlacement {
                parent_surface_id: None,
                local_x: 0,
                local_y: 0,
                root_mode: RootPlacementMode::Cascaded,
            }),
    {
        SurfacePlacement {
            parent_surface_id: None,
            local_x: 0,
            local_y: 0,
            root_mode: RootPlacementMode::Cascaded,
        }
    }

    pub fn root_at(local_x: i32, local_y: i32) -> (r: Self)
        ensures
            r == (SurfacePlacement {
                parent_surface_id: None,
                local_x,
                local_y,
                root_mode: RootPlacementMode::Cascaded,
            }),
    {
        SurfacePlacement {
            parent_surface_id: None,
            local_x,
            local_y,
            root_mode: RootPlacementMode::Cascaded,
        }
    }

    pub fn absolute_root_at(local_x: i32, local_y: i32) -> (r: Self)
        ensures
            r == (SurfacePlacement {
                parent_surface_id: None,
                local_x,
                local_y,
                root_mode: RootPlacementMode::Absolute,
            }),
    {
        SurfacePlacement {
            parent_surface_id: None,
            local_x,
            local_y,
            root_mode: RootPlacementMode::Absolute,
        }
    }

    pub fn subsurface(parent_surface_id: u32, local_x: i32, local_y: i32) -> (r: Self)
        ensures
            r == (SurfacePlacement {
                parent_surface_id: Some(parent_surface_id),
                local_x,
                local_y,
                root_mode: RootPlacementMode::Cascaded,
            }),
    {
        SurfacePlacement {
            parent_surface_id: Some(parent_surface_id),
            local_x,
            local_y,
            root_mode: RootPlacementMode::Cascaded,
        }
    }
}

impl Default for SurfacePlacement {
    fn default() -> (r: Self)
        ensures
            r == (SurfacePlacement {
                parent_surface_id: None,
                local_x: 0,
                local_y: 0,
                root_mode: RootPlacementMode::Cascaded,
            }),
    {
        Self::root()
    }
}

/// The committed size a resize preview is drawn from, and which edges stay put.
#[derive(Debug, Clone, Copy, PartialEq, Eq, Structural)]
pub struct ResizePreview {
    pub committed_width: u32,
    pub committed_height: u32,
    pub anchor_right: bool,
    pub anchor_bottom: bool,
}

/// A damaged rectangle in buffer pixels.
#[derive(Debug, Clone, Copy, PartialEq, Eq, Structural)]
pub struct SurfaceDamageRect {
    pub x: u32,
    pub y: u32,
    pub width: u32,
    pub height: u32,
}

/// `rect` intersected with `[0, w) x [0, h)`, or `None` when nothing is left.
pub open spec fn spec_clip_rect(rect: SurfaceDamageRect, w: u32, h: u32) -> Option<SurfaceDamageRect> {
    let left = min_int(rect.x as int, w as int);
    let top = min_int(rect.y as int, h as int);
    let right = min_int(rect.x + rect.width, w as int);
    let bottom = min_int(rect.y + rect.height, h as int);
    if right > left && bottom > top {
        Some(
            SurfaceDamageRect {
                x: left as u32,
                y: top as u32,
                width: (right - left) as u32,
                height: (bottom - top) as u32,
            },
        )
    } else {
        None
    }
}

/// Clipping a damage rectangle to the surface is intersection: the result
/// covers exactly the points of the rectangle that lie in `[0, w) x [0, h)`.
pub proof fn lemma_clip_rect_is_intersection(rect: SurfaceDamageRect, w: u32, h: u32, px: int, py: int)
    ensures
        (rect.x <= px < rect.x + rect.width && rect.y <= py < rect.y + rect.height && 0 <= px < w && 0 <= py < h)
            <==> (spec_clip_rect(rect, w, h) matches Some(c) && c.x <= px < c.x + c.width && c.y <= py < c.y
            + c.height),
{
}

pub open spec fn spec_rect_covers(rect: SurfaceDamageRect, w: u32, h: u32) -> bool {
    rect.x == 0 && rect.y == 0 && rect.width == w && rect.height == h
}

/// Every rectangle of `rects` clipped to the surface, empty results dropped, order kept.
pub open spec fn spec_clip_all(rects: Seq<SurfaceDamageRect>, w: u32, h: u32) -> Seq<SurfaceDamageRect>
    decreases rects.len(),
{
    if rects.len() == 0 {
        Seq::empty()
    } else {
        let prefix = spec_clip_all(rects.drop_last(), w, h);
        match spec_clip_rect(rects.last(), w, h) {
            Some(r) => prefix.push(r),
            None => prefix,
        }
    }
}

/// Some rectangle of `rects`, once clipped, covers the whole surface.
pub open spec fn spec_some_rect_covers(rects: Seq<SurfaceDamageRect>, w: u32, h: u32) -> bool {
    exists|i: int|
        #![trigger rects[i]]
        0 <= i < rects.len() && (spec_clip_rect(rects[i], w, h) matches Some(c)
            && spec_rect_covers(c, w, h))
}

impl SurfaceDamageRect {
    pub fn full(width: u32, height: u32) -> (r: Self)
        ensures
            r == (SurfaceDamageRect { x: 0, y: 0, width, height }),
    {
        SurfaceDamageRect { x: 0, y: 0, width, height }
    }

    /// Converts a wayland damage request (signed, possibly off-surface) into
    /// non-negative buffer coordinates; empty or entirely negative requests give `None`.
    pub fn from_wayland_rect(x: i32, y: i32, width: i32, height: i32) -> (r: Option<Self>)
        ensures
            r == (if width <= 0 || height <= 0 || x + width <= 0 || y + height <= 0 {
                None
            } else {
                Some(
                    SurfaceDamageRect {
                        x: max_int(x as int, 0) as u32,
                        y: max_int(y as int, 0) as u32,
                        width: (x + width - max_int(x as int, 0)) as u32,
                        height: (y + height - max_int(y as int, 0)) as u32,
                    },
                )
            }),
    {
        if width <= 0 || height <= 0 {
            return None;
        }
        let left: i64 = x as i64;
        let top: i64 = y as i64;
        let right: i64 = left + width as i64;
        let bottom: i64 = top + height as i64;
        if right <= 0 || bottom <= 0 {
            return None;
        }
        let clipped_left: i64 = if left > 0 { left } else { 0 };
        let clipped_top: i64 = if top > 0 { top } else { 0 };
        Some(
            SurfaceDamageRect {
                x: clipped_left as u32,
                y: clipped_top as u32,
                width: (right - clipped_left) as u32,
                height: (bottom - clipped_top) as u32,
            },
        )
    }

    pub fn clipped_to_surface(self, surface_width: u32, surface_height: u32) -> (r: Option<Self>)
        ensures
            r == spec_clip_rect(self, surface_width, surface_height),
    {
        let left = if self.x < surface_width { self.x } else { surface_width };
        let top = if self.y < surface_height { self.y } else { surface_height };
        let x_end = self.x.saturating_add(self.width);
        let y_end = self.y.saturating_add(self.height);
        let right = if x_end < surface_width { x_end } else { surface_width };
        let bottom = if y_end < surface_height { y_end } else { surface_height };
        if right > left && bottom > top {
            Some(SurfaceDamageRect { x: left, y: top, width: right - left, height: bottom - top })
        } else {
            None
        }
    }

    pub fn covers_surface(self, surface_width: u32, surface_height: u32) -> (r: bool)
        ensures
            r == spec_rect_covers(self, surface_width, surface_height),
    {
        self.x == 0 && self.y == 0 && self.width == surface_width && self.height == surface_height
    }
}

/// Damage of one committed surface state.
#[derive(Debug, Clone, PartialEq, Eq)]
pub enum RenderableSurfaceDamage {
    Full,
    Partial(Vec<SurfaceDamageRect>),
}

/// The abstract damage: `None` stands for full damage, `Some(rects)` for a partial list.
pub open spec fn damage_rects(d: RenderableSurfaceDamage) -> Option<Seq<SurfaceDamageRect>> {
    match d {
        RenderableSurfaceDamage::Full => None,
        RenderableSurfaceDamage::Partial(v) => Some(v@),
    }
}

/// The damage `from_rects` builds from `rects`: an empty list means full damage.
pub open spec fn spec_from_rects(rects: Seq<SurfaceDamageRect>) -> Option<Seq<SurfaceDamageRect>> {
    if rects.len() == 0 {
        None
    } else {
        Some(rects)
    }
}

pub open spec fn spec_damage_covers(d: Option<Seq<SurfaceDamageRect>>, w: u32, h: u32) -> bool {
    if w == 0 || h == 0 {
        false
    } else {
        match d {
            None => true,
            Some(rects) => spec_some_rect_covers(rects, w, h),
        }
    }
}

pub open spec fn spec_normalized(d: Option<Seq<SurfaceDamageRect>>, w: u32, h: u32) -> Option<
    Seq<SurfaceDamageRect>,
> {
    if spec_damage_covers(d, w, h) {
        None
    } else {
        match d {
            None => None,
            Some(rects) => spec_from_rects(spec_clip_all(rects, w, h)),
        }
    }
}

pub open spec fn spec_clipped_rects(d: Option<Seq<SurfaceDamageRect>>, w: u32, h: u32) -> Seq<
    SurfaceDamageRect,
> {
    match d {
        None => seq![SurfaceDamageRect { x: 0, y: 0, width: w, height: h }],
        Some(rects) => spec_clip_all(rects, w, h),
    }
}

/// Clips every rectangle of `rects` to the surface, in order, dropping empty results.
pub fn clip_rect_list(rects: &Vec<SurfaceDamageRect>, surface_width: u32, surface_height: u32) -> (r:
    Vec<SurfaceDamageRect>)
    ensures
        r@ == spec_clip_all(rects@, surface_width, surface_height),
{
    let mut out: Vec<SurfaceDamageRect> = Vec::new();
    let mut i: usize = 0;
    while i < rects.len()
        invariant
            i <= rects.len(),
            out@ == spec_clip_all(rects@.take(i as int), surface_width, surface_height),
        decreases rects.len() - i,
    {
        let rect = rects[i];
        proof {
            assert(rects@.take(i as int + 1).drop_last() =~= rects@.take(i as int));
            assert(rects@.take(i as int + 1).last() == rect);
        }
        match rect.clipped_to_surface(surface_width, surface_height) {
            Some(clipped) => out.push(clipped),
            None => {},
        }
        i = i + 1;
    }
    assert(rects@.take(rects.len() as int) =~= rects@);
    out
}

impl RenderableSurfaceDamage {
    pub fn full() -> (r: Self)
        ensures
            r == RenderableSurfaceDamage::Full,
    {
        RenderableSurfaceDamage::Full
    }

    /// An empty rectangle list means the client gave no usable hint: damage everything.
    pub fn from_rects(rects: Vec<SurfaceDamageRect>) -> (r: Self)
        ensures
            damage_rects(r) == spec_from_rects(rects@),
    {
        if rects.len() == 0 {
            RenderableSurfaceDamage::Full
        } else {
            RenderableSurfaceDamage::Partial(rects)
        }
    }

    pub fn is_full(&self) -> (r: bool)
        ensures
            r == (*self is Full),
    {
        match self {
            RenderableSurfaceDamage::Full => true,
            RenderableSurfaceDamage::Partial(_) => false,
        }
    }

    /// Whether the damage, clipped to a non-empty surface, covers all of it.
    pub fn covers_surface(&self, surface_width: u32, surface_height: u32) -> (r: bool)
        ensures
            r == spec_damage_covers(damage_rects(*self), surface_width, surface_height),
    {
        if surface_width == 0 || surface_height == 0 {
            return false;
        }
        match self {
            RenderableSurfaceDamage::Full => true,
            RenderableSurfaceDamage::Partial(rects) => {
                let mut i: usize = 0;
                while i < rects.len()
                    invariant
                        i <= rects.len(),
                        surface_width != 0 && surface_height != 0,
                        damage_rects(*self) == Some(rects@),
                        forall|j: int|
                            #![trigger rects@[j]]
                            0 <= j < i ==> !(spec_clip_rect(rects@[j], surface_width, surface_height) matches Some(c)
                                && spec_rect_covers(c, surface_width, surface_height)),
                    decreases rects.len() - i,
                {
                    match rects[i].clipped_to_surface(surface_width, surface_height) {
                        Some(c) => {
                            if c.covers_surface(surface_width, surface_height) {
                                assert(spec_clip_rect(rects@[i as int], surface_width, surface_height)
                                    == Some(c));
                                assert(spec_some_rect_covers(rects@, surface_width, surface_height));
                                return true;
                            }
                        },
                        None => {},
                    }
                    i = i + 1;
                }
                false
            },
        }
    }

    /// Promotes damage that covers the surface to full damage; otherwise clips
    /// every rectangle, falling back to full damage when nothing remains.
    pub fn normalized_for_surface(self, surface_width: u32, surface_height: u32) -> (r: Self)
        ensures
            damage_rects(r) == spec_normalized(damage_rects(self), surface_width, surface_height),
    {
        if self.covers_surface(surface_width, surface_height) {
            return RenderableSurfaceDamage::Full;
        }
        match self {
            RenderableSurfaceDamage::Full => RenderableSurfaceDamage::Full,
            RenderableSurfaceDamage::Partial(rects) => {
                let clipped = clip_rect_list(&rects, surface_width, surface_height);
                Self::from_rects(clipped)
            },
        }
    }

    /// The damage as a list of rectangles inside the surface.
    pub fn clipped_rects(&self, surface_width: u32, surface_height: u32) -> (r: Vec<SurfaceDamageRect>)
        ensures
            r@ == spec_clipped_rects(damage_rects(*self), surface_width, surface_height),
    {
        match self {
            RenderableSurfaceDamage::Full => {
                let mut v: Vec<SurfaceDamageRect> = Vec::new();
                v.push(SurfaceDamageRect::full(surface_width, surface_height));
                v
            },
            RenderableSurfaceDamage::Partial(rects) => clip_rect_list(rects, surface_width, surface_height),
        }
    }
}

/// A surface as the renderer receives it.
#[derive(Debug, Clone)]
pub struct RenderableSurface {
    pub surface_id: u32,
    pub x: i32,
    pub y: i32,
    pub width: u32,
    pub height: u32,
    pub placement: SurfacePlacement,
    pub resize_preview: Option<ResizePreview>,
    /// Where the renderer draws the surface when a visual geometry overrides
    /// its committed placement.
    pub render_placement: Option<SurfacePlacement>,
    /// The part of the surface a visual geometry lets the renderer show.
    pub visual_clip: Option<SurfaceVisualAperture>,
    /// The size the renderer stretches the content to, until a preview drops it.
    pub render_target_size: Option<(u32, u32)>,
    pub generation: u64,
    pub buffer: CommittedSurfaceBuffer,
    pub damage: RenderableSurfaceDamage,
}

/// A rectangle in the root's render coordinate space.
#[derive(Debug, Clone, Copy, PartialEq, Eq, Structural)]
pub struct SurfaceTargetRect {
    pub x: i32,
    pub y: i32,
    pub width: u32,
    pub height: u32,
}

/// The window of a surface that the renderer shows while a visual geometry
/// differs from the committed one: the logical target alone, or, during a
/// resize preview of a root with a known window geometry, the target with the
/// root's origin, buffer size and the extents of its buffer around the
/// window geometry, from which the renderer derives the visible part.
#[derive(Debug, Clone, Copy, PartialEq, Eq, Structural)]
pub enum SurfaceVisualAperture {
    LogicalOnly(SurfaceTargetRect),
    RootWindowPreview {
        root_origin_x: i32,
        root_origin_y: i32,
        root_buffer: BufferSize,
        extent_left: u32,
        extent_top: u32,
        extent_right: u32,
        extent_bottom: u32,
        logical_target: SurfaceTargetRect,
    },
}

impl RenderableSurface {
    pub fn buffer_id(&self) -> (r: BufferId)
        ensures
            r == self.buffer.identity.id,
    {
        self.buffer.buffer_id()
    }

    pub fn buffer_identity(&self) -> (r: &BufferIdentity)
        ensures
            *r == self.buffer.identity,
    {
        self.buffer.buffer_identity()
    }

    pub fn buffer_source(&self) -> (r: SurfaceBufferSource)
        ensures
            r == self.buffer.spec_source(),
    {
        self.buffer.source()
    }

    pub fn cpu_pixels(&self) -> (r: Option<&[u32]>)
        ensures
            match self.buffer.content {
                CommittedBufferContent::Shm(p) => r matches Some(s) && s@ == p@,
                CommittedBufferContent::Dmabuf(_) => r is None,
            },
    {
        self.buffer.cpu_pixels()
    }

    pub fn dmabuf_handle(&self) -> (r: Option<&DmabufBufferHandle>)
        ensures
            match self.buffer.content {
                CommittedBufferContent::Shm(_) => r is None,
                CommittedBufferContent::Dmabuf(h) => r == Some(&h),
            },
    {
        self.buffer.dmabuf_handle_ref()
    }

    pub fn buffer_size(&self) -> (r: BufferSize)
        ensures
            r == self.buffer.size,
    {
        self.buffer.size()
    }
}

} // verus!
