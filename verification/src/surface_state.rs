//! Double-buffered per-surface state: requests set pending values, a commit
//! takes them, and applying a taken value replaces the committed one.
use vstd::prelude::*;
use crate::fixed::Fixed;
use crate::subsurface::{CachedBuffer, PendingSurfaceAttachment};
use crate::region::{
    opaque_region_for_surface_size, BackgroundEffectRegion, InputRegionOp, PendingDamageRect,
    SurfaceInputRegion, SurfaceOpaqueRegion,
};

verus! {

/// A buffer transform as `wl_surface.set_buffer_transform` requests it.
#[derive(Debug, Clone, Copy, PartialEq, Eq, Structural)]
pub enum BufferTransform {
    Normal,
    Rotated90,
    Rotated180,
    Rotated270,
    Flipped,
    Flipped90,
    Flipped180,
    Flipped270,
}

/// A copy of `ops`.
pub fn copy_ops(ops: &Vec<InputRegionOp>) -> (r: Vec<InputRegionOp>)
    ensures
        r@ == ops@,
{
    let mut out: Vec<InputRegionOp> = Vec::new();
    let mut i: usize = 0;
    while i < ops.len()
        invariant
            i <= ops.len(),
            out@ == ops@.take(i as int),
        decreases ops.len() - i,
    {
        out.push(ops[i]);
        proof {
            assert(out@ =~= ops@.take(i as int + 1));
        }
        i = i + 1;
    }
    assert(ops@.take(ops.len() as int) =~= ops@);
    out
}

/// Whether two operation lists are equal.
pub fn ops_equal(a: &Vec<InputRegionOp>, b: &Vec<InputRegionOp>) -> (r: bool)
    ensures
        r == (a@ == b@),
{
    if a.len() != b.len() {
        return false;
    }
    let mut i: usize = 0;
    while i < a.len()
        invariant
            i <= a.len(),
            a.len() == b.len(),
            forall|j: int| #![trigger a@[j]] 0 <= j < i ==> a@[j] == b@[j],
        decreases a.len() - i,
    {
        if a[i] != b[i] {
            assert(a@[i as int] != b@[i as int]);
            return false;
        }
        i = i + 1;
    }
    assert(a@ =~= b@);
    true
}

/// The abstract value of a region: `None` when unset, otherwise its operations.
pub open spec fn region_model(r: SurfaceInputRegion) -> Option<Seq<InputRegionOp>> {
    match r {
        SurfaceInputRegion::Default => None,
        SurfaceInputRegion::Custom(ops) => Some(ops@),
    }
}

pub fn copy_region(r: &SurfaceInputRegion) -> (c: SurfaceInputRegion)
    ensures
        region_model(c) == region_model(*r),
{
    match r {
        SurfaceInputRegion::Default => SurfaceInputRegion::Default,
        SurfaceInputRegion::Custom(ops) => SurfaceInputRegion::Custom(copy_ops(ops)),
    }
}

pub fn regions_equal(a: &SurfaceInputRegion, b: &SurfaceInputRegion) -> (r: bool)
    ensures
        r == (region_model(*a) == region_model(*b)),
{
    match (a, b) {
        (SurfaceInputRegion::Default, SurfaceInputRegion::Default) => true,
        (SurfaceInputRegion::Custom(x), SurfaceInputRegion::Custom(y)) => ops_equal(x, y),
        _ => false,
    }
}

/// Committed and pending values of a region-valued surface property.
#[derive(Debug, Clone, PartialEq, Eq)]
pub struct SurfaceRegionState {
    pub committed: SurfaceInputRegion,
    pub pending: Option<SurfaceInputRegion>,
}

/// Committed and pending background-effect regions.
#[derive(Debug, Clone, PartialEq, Eq)]
pub struct BackgroundEffectState {
    pub committed: BackgroundEffectRegion,
    pub pending: Option<BackgroundEffectRegion>,
}

/// What a `wl_surface.attach` request named: no buffer (the surface's content
/// is to be removed), a buffer the compositor can use, or a buffer of a kind
/// it does not know.
#[derive(Debug, Clone, Copy, PartialEq, Eq, Structural)]
pub enum AttachedBuffer {
    Null,
    Known(CachedBuffer),
    Unknown,
}

/// Per-surface client state that waits for `wl_surface.commit`.
#[derive(Debug)]
pub struct SurfaceData {
    pub surface_id: u32,
    pub pending_offset: Option<(i32, i32)>,
    pub pending_surface_damage: Vec<PendingDamageRect>,
    pub pending_buffer_damage: Vec<PendingDamageRect>,
    pub committed_buffer_scale: u32,
    pub pending_buffer_scale: Option<u32>,
    pub committed_buffer_transform: BufferTransform,
    pub pending_buffer_transform: Option<BufferTransform>,
    pub input_region: SurfaceRegionState,
    pub opaque_region: SurfaceRegionState,
    pub background_effect: BackgroundEffectState,
    pub pending_attachment: Option<PendingSurfaceAttachment>,
    pub frame_callbacks: Vec<u32>,
}

impl SurfaceData {
    pub fn new(surface_id: u32) -> (r: Self)
        ensures
            r.surface_id == surface_id,
            r.pending_offset is None,
            r.pending_surface_damage@.len() == 0,
            r.pending_buffer_damage@.len() == 0,
            r.committed_buffer_scale == 1,
            r.pending_buffer_scale is None,
            r.committed_buffer_transform == BufferTransform::Normal,
            r.pending_buffer_transform is None,
            r.input_region.committed is Default,
            r.input_region.pending is None,
            r.opaque_region.committed is Default,
            r.opaque_region.pending is None,
            r.background_effect.committed.ops@.len() == 0,
            r.background_effect.pending is None,
            r.pending_attachment is None,
            r.frame_callbacks@.len() == 0,
    {
        SurfaceData {
            surface_id,
            pending_offset: None,
            pending_surface_damage: Vec::new(),
            pending_buffer_damage: Vec::new(),
            committed_buffer_scale: 1,
            pending_buffer_scale: None,
            committed_buffer_transform: BufferTransform::Normal,
            pending_buffer_transform: None,
            input_region: SurfaceRegionState { committed: SurfaceInputRegion::Default, pending: None },
            opaque_region: SurfaceRegionState { committed: SurfaceInputRegion::Default, pending: None },
            background_effect: BackgroundEffectState {
                committed: BackgroundEffectRegion::default(),
                pending: None,
            },
            pending_attachment: None,
            frame_callbacks: Vec::new(),
        }
    }

    pub fn surface_id(&self) -> (r: u32)
        ensures
            r == self.surface_id,
    {
        self.surface_id
    }

    /// Records `wl_surface.attach`: a null buffer removes the content, a
    /// known buffer becomes the pending one, and a buffer of an unknown kind
    /// leaves nothing pending.
    pub fn set_pending(&mut self, attached: AttachedBuffer)
        ensures
            final(self).pending_attachment == match attached {
                AttachedBuffer::Null => Some(PendingSurfaceAttachment::RemoveContent),
                AttachedBuffer::Known(b) => Some(PendingSurfaceAttachment::Buffer(b)),
                AttachedBuffer::Unknown => None,
            },
            *final(self) == (SurfaceData { pending_attachment: final(self).pending_attachment, ..*old(self) }),
    {
        self.pending_attachment = match attached {
            AttachedBuffer::Null => Some(PendingSurfaceAttachment::RemoveContent),
            AttachedBuffer::Known(b) => Some(PendingSurfaceAttachment::Buffer(b)),
            AttachedBuffer::Unknown => None,
        };
    }

    pub fn has_pending_buffer(&self) -> (r: bool)
        ensures
            r == (self.pending_attachment is Some),
    {
        self.pending_attachment.is_some()
    }

    /// Takes the pending attachment for a commit.
    pub fn take_pending(&mut self) -> (r: Option<PendingSurfaceAttachment>)
        ensures
            r == old(self).pending_attachment,
            final(self).pending_attachment is None,
            *final(self) == (SurfaceData { pending_attachment: final(self).pending_attachment, ..*old(self) }),
    {
        self.pending_attachment.take()
    }

    /// Records a `wl_surface.frame` callback, by its object id.
    pub fn push_frame_callback(&mut self, callback: u32)
        ensures
            final(self).frame_callbacks@ == old(self).frame_callbacks@.push(callback),
            *final(self) == (SurfaceData { frame_callbacks: final(self).frame_callbacks, ..*old(self) }),
    {
        self.frame_callbacks.push(callback);
    }

    /// Takes the frame callbacks requested since the last commit, oldest first.
    pub fn take_frame_callbacks(&mut self) -> (r: Vec<u32>)
        ensures
            r@ == old(self).frame_callbacks@,
            final(self).frame_callbacks@.len() == 0,
            *final(self) == (SurfaceData { frame_callbacks: final(self).frame_callbacks, ..*old(self) }),
    {
        let mut taken: Vec<u32> = Vec::new();
        std::mem::swap(&mut taken, &mut self.frame_callbacks);
        taken
    }

    pub fn set_pending_offset(&mut self, x: i32, y: i32)
        ensures
            *final(self) == (SurfaceData { pending_offset: final(self).pending_offset, ..*old(self) }),
            final(self).pending_offset == Some((x, y)),
            final(self).surface_id == old(self).surface_id,
    {
        self.pending_offset = Some((x, y));
    }

    pub fn take_pending_offset(&mut self) -> (r: Option<(i32, i32)>)
        ensures
            *final(self) == (SurfaceData { pending_offset: final(self).pending_offset, ..*old(self) }),
            r == old(self).pending_offset,
            final(self).pending_offset is None,
    {
        self.pending_offset.take()
    }

    /// Records `wl_surface.damage`; requests with a non-positive side are ignored.
    pub fn push_surface_damage(&mut self, x: i32, y: i32, width: i32, height: i32)
        ensures
            *final(self) == (SurfaceData { pending_surface_damage: final(self).pending_surface_damage, ..*old(self) }),
            final(self).pending_surface_damage@ == (if width <= 0 || height <= 0 {
                old(self).pending_surface_damage@
            } else {
                old(self).pending_surface_damage@.push(PendingDamageRect { x, y, width, height })
            }),
            final(self).pending_buffer_damage@ == old(self).pending_buffer_damage@,
    {
        match PendingDamageRect::new(x, y, width, height) {
            Some(rect) => self.pending_surface_damage.push(rect),
            None => {},
        }
    }

    /// Records `wl_surface.damage_buffer`; requests with a non-positive side are ignored.
    pub fn push_buffer_damage(&mut self, x: i32, y: i32, width: i32, height: i32)
        ensures
            *final(self) == (SurfaceData { pending_buffer_damage: final(self).pending_buffer_damage, ..*old(self) }),
            final(self).pending_buffer_damage@ == (if width <= 0 || height <= 0 {
                old(self).pending_buffer_damage@
            } else {
                old(self).pending_buffer_damage@.push(PendingDamageRect { x, y, width, height })
            }),
            final(self).pending_surface_damage@ == old(self).pending_surface_damage@,
    {
        match PendingDamageRect::new(x, y, width, height) {
            Some(rect) => self.pending_buffer_damage.push(rect),
            None => {},
        }
    }

    /// A scale of zero is treated as one.
    pub fn set_pending_buffer_scale(&mut self, scale: u32)
        ensures
            *final(self) == (SurfaceData { pending_buffer_scale: final(self).pending_buffer_scale, ..*old(self) }),
            final(self).pending_buffer_scale == Some(if scale == 0 { 1u32 } else { scale }),
            final(self).committed_buffer_scale == old(self).committed_buffer_scale,
    {
        self.pending_buffer_scale = Some(if scale == 0 { 1 } else { scale });
    }

    pub fn take_pending_buffer_scale(&mut self) -> (r: Option<u32>)
        ensures
            *final(self) == (SurfaceData { pending_buffer_scale: final(self).pending_buffer_scale, ..*old(self) }),
            r == old(self).pending_buffer_scale,
            final(self).pending_buffer_scale is None,
            final(self).committed_buffer_scale == old(self).committed_buffer_scale,
    {
        self.pending_buffer_scale.take()
    }

    /// Installs a taken scale (zero counts as one) and returns the committed scale.
    pub fn apply_buffer_scale_change(&mut self, scale: Option<u32>) -> (r: u32)
        ensures
            *final(self) == (SurfaceData { committed_buffer_scale: final(self).committed_buffer_scale, ..*old(self) }),
            final(self).committed_buffer_scale == (match scale {
                Some(s) => if s == 0 { 1u32 } else { s },
                None => old(self).committed_buffer_scale,
            }),
            r == final(self).committed_buffer_scale,
            final(self).pending_buffer_scale == old(self).pending_buffer_scale,
    {
        match scale {
            Some(s) => {
                self.committed_buffer_scale = if s == 0 { 1 } else { s };
            },
            None => {},
        }
        self.committed_buffer_scale
    }

    /// The scale a commit carrying `scale` would use, without changing anything.
    pub fn buffer_scale_for_change(&self, scale: Option<u32>) -> (r: u32)
        ensures
            r == (match scale {
                Some(s) => s,
                None => self.committed_buffer_scale,
            }),
    {
        match scale {
            Some(s) => s,
            None => self.committed_buffer_scale,
        }
    }

    pub fn set_pending_buffer_transform(&mut self, transform: BufferTransform)
        ensures
            *final(self) == (SurfaceData { pending_buffer_transform: final(self).pending_buffer_transform, ..*old(self) }),
            final(self).pending_buffer_transform == Some(transform),
            final(self).committed_buffer_transform == old(self).committed_buffer_transform,
    {
        self.pending_buffer_transform = Some(transform);
    }

    pub fn take_pending_buffer_transform(&mut self) -> (r: Option<BufferTransform>)
        ensures
            *final(self) == (SurfaceData { pending_buffer_transform: final(self).pending_buffer_transform, ..*old(self) }),
            r == old(self).pending_buffer_transform,
            final(self).pending_buffer_transform is None,
            final(self).committed_buffer_transform == old(self).committed_buffer_transform,
    {
        self.pending_buffer_transform.take()
    }

    pub fn buffer_transform_for_change(&self, transform: Option<BufferTransform>) -> (r: BufferTransform)
        ensures
            r == (match transform {
                Some(t) => t,
                None => self.committed_buffer_transform,
            }),
    {
        match transform {
            Some(t) => t,
            None => self.committed_buffer_transform,
        }
    }

    pub fn apply_buffer_transform_change(&mut self, transform: Option<BufferTransform>) -> (r:
        BufferTransform)
        ensures
            *final(self) == (SurfaceData { committed_buffer_transform: final(self).committed_buffer_transform, ..*old(self) }),
            final(self).committed_buffer_transform == (match transform {
                Some(t) => t,
                None => old(self).committed_buffer_transform,
            }),
            r == final(self).committed_buffer_transform,
            final(self).pending_buffer_transform == old(self).pending_buffer_transform,
    {
        match transform {
            Some(t) => {
                self.committed_buffer_transform = t;
            },
            None => {},
        }
        self.committed_buffer_transform
    }

    pub fn set_pending_input_region(&mut self, region: SurfaceInputRegion)
        ensures
            *final(self) == (SurfaceData { input_region: final(self).input_region, ..*old(self) }),
            final(self).input_region.pending == Some(region),
            final(self).input_region.committed == old(self).input_region.committed,
    {
        self.input_region.pending = Some(region);
    }

    pub fn take_pending_input_region(&mut self) -> (r: Option<SurfaceInputRegion>)
        ensures
            *final(self) == (SurfaceData { input_region: final(self).input_region, ..*old(self) }),
            r == old(self).input_region.pending,
            final(self).input_region.pending is None,
            final(self).input_region.committed == old(self).input_region.committed,
    {
        self.input_region.pending.take()
    }

    /// Installs a taken input region; returns whether the committed region changed.
    pub fn apply_input_region_change(&mut self, pending: Option<SurfaceInputRegion>) -> (changed: bool)
        ensures
            *final(self) == (SurfaceData { input_region: final(self).input_region, ..*old(self) }),
            match pending {
                None => !changed && final(self).input_region == old(self).input_region,
                Some(p) => final(self).input_region.committed == p && final(self).input_region.pending
                    == old(self).input_region.pending && changed == (region_model(p) != region_model(
                    old(self).input_region.committed,
                )),
            },
    {
        match pending {
            None => false,
            Some(p) => {
                let changed = !regions_equal(&self.input_region.committed, &p);
                self.input_region.committed = p;
                changed
            },
        }
    }

    pub fn committed_input_region_snapshot(&self) -> (r: SurfaceInputRegion)
        ensures
            region_model(r) == region_model(self.input_region.committed),
    {
        copy_region(&self.input_region.committed)
    }

    /// Whether the committed input region accepts the surface-local position.
    pub fn input_region_contains(&self, x: Fixed, y: Fixed, surface_width: u32, surface_height: u32) -> (r:
        bool)
        ensures
            r == self.input_region.committed.spec_contains(
                x.raw as int,
                y.raw as int,
                surface_width,
                surface_height,
            ),
    {
        self.input_region.committed.contains(x, y, surface_width, surface_height)
    }

    pub fn set_pending_opaque_region(&mut self, region: SurfaceInputRegion)
        ensures
            *final(self) == (SurfaceData { opaque_region: final(self).opaque_region, ..*old(self) }),
            final(self).opaque_region.pending == Some(region),
            final(self).opaque_region.committed == old(self).opaque_region.committed,
    {
        self.opaque_region.pending = Some(region);
    }

    pub fn take_pending_opaque_region(&mut self) -> (r: Option<SurfaceInputRegion>)
        ensures
            *final(self) == (SurfaceData { opaque_region: final(self).opaque_region, ..*old(self) }),
            r == old(self).opaque_region.pending,
            final(self).opaque_region.pending is None,
            final(self).opaque_region.committed == old(self).opaque_region.committed,
    {
        self.opaque_region.pending.take()
    }

    /// Installs a taken opaque region; returns whether the committed region changed.
    pub fn apply_opaque_region_change(&mut self, pending: Option<SurfaceInputRegion>) -> (changed: bool)
        ensures
            *final(self) == (SurfaceData { opaque_region: final(self).opaque_region, ..*old(self) }),
            match pending {
                None => !changed && final(self).opaque_region == old(self).opaque_region,
                Some(p) => final(self).opaque_region.committed == p && final(self).opaque_region.pending
                    == old(self).opaque_region.pending && changed == (region_model(p) != region_model(
                    old(self).opaque_region.committed,
                )),
            },
    {
        match pending {
            None => false,
            Some(p) => {
                let changed = !regions_equal(&self.opaque_region.committed, &p);
                self.opaque_region.committed = p;
                changed
            },
        }
    }

    /// The opaque part of the surface at the given size, from the committed opaque region.
    pub fn opaque_region_for_surface_size(&self, width: u32, height: u32) -> (r: SurfaceOpaqueRegion)
        ensures
            self.opaque_region.committed is Default ==> r is Empty,
            width <= i32::MAX + 1 && height <= i32::MAX + 1 ==> forall|px: int, py: int|
                #![trigger crate::region::opaque_region_has_pixel(r, width, height, px, py)]
                crate::region::opaque_region_has_pixel(r, width, height, px, py) <==> (0 <= px < width
                    && 0 <= py < height && match self.opaque_region.committed {
                    SurfaceInputRegion::Default => false,
                    SurfaceInputRegion::Custom(ops) => crate::region::spec_ops_have_pixel(ops@, px, py),
                }),
    {
        opaque_region_for_surface_size(&self.opaque_region.committed, width, height)
    }

    pub fn set_pending_background_effect(&mut self, region: BackgroundEffectRegion)
        ensures
            *final(self) == (SurfaceData { background_effect: final(self).background_effect, ..*old(self) }),
            final(self).background_effect.pending == Some(region),
            final(self).background_effect.committed == old(self).background_effect.committed,
    {
        self.background_effect.pending = Some(region);
    }

    /// Clearing the effect is a pending empty region.
    pub fn clear_pending_background_effect(&mut self)
        ensures
            *final(self) == (SurfaceData { background_effect: final(self).background_effect, ..*old(self) }),
            final(self).background_effect.pending matches Some(p) && p.ops@.len() == 0,
            final(self).background_effect.committed == old(self).background_effect.committed,
    {
        self.set_pending_background_effect(BackgroundEffectRegion::default());
    }

    pub fn take_pending_background_effect(&mut self) -> (r: Option<BackgroundEffectRegion>)
        ensures
            *final(self) == (SurfaceData { background_effect: final(self).background_effect, ..*old(self) }),
            r == old(self).background_effect.pending,
            final(self).background_effect.pending is None,
            final(self).background_effect.committed == old(self).background_effect.committed,
    {
        self.background_effect.pending.take()
    }

    /// Installs a taken effect region; returns whether the committed region changed.
    pub fn apply_background_effect_change(&mut self, pending: Option<BackgroundEffectRegion>) -> (changed:
        bool)
        ensures
            *final(self) == (SurfaceData { background_effect: final(self).background_effect, ..*old(self) }),
            match pending {
                None => !changed && final(self).background_effect == old(self).background_effect,
                Some(p) => final(self).background_effect.committed == p
                    && final(self).background_effect.pending == old(self).background_effect.pending
                    && changed == (p.ops@ != old(self).background_effect.committed.ops@),
            },
    {
        match pending {
            None => false,
            Some(p) => {
                let changed = !ops_equal(&self.background_effect.committed.ops, &p.ops);
                self.background_effect.committed = p;
                changed
            },
        }
    }

    pub fn committed_background_effect(&self) -> (r: BackgroundEffectRegion)
        ensures
            r.ops@ == self.background_effect.committed.ops@,
    {
        BackgroundEffectRegion { ops: copy_ops(&self.background_effect.committed.ops) }
    }
}

} // verus!
