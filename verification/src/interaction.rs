//! Interactive window move/resize: identities, the interaction record, and
//! the pure rules (cursor shape, drag threshold, resize geometry).
use vstd::prelude::*;
use crate::arith::{clamp_i32, max_int};
use crate::fixed::Fixed;
use crate::surface::SurfacePlacement;
use crate::window_geometry::ResizeEdges;

verus! {

/// Identity of a desktop window; never zero.
#[derive(Debug, Clone, Copy, PartialEq, Eq, Structural)]
pub struct WindowId(pub u64);

impl WindowId {
    pub fn new(id: u64) -> (r: Self)
        requires
            id != 0,
        ensures
            r.0 == id,
    {
        WindowId(id)
    }

    pub fn get(self) -> (r: u64)
        ensures
            r == self.0,
    {
        self.0
    }
}

#[derive(Debug, Clone, Copy, PartialEq, Eq, Structural)]
pub struct WindowInteractionId(pub u64);

impl WindowInteractionId {
    pub fn new(id: u64) -> (r: Self)
        ensures
            r.0 == id,
    {
        WindowInteractionId(id)
    }

    pub fn get(self) -> (r: u64)
        ensures
            r == self.0,
    {
        self.0
    }
}

/// Identity of one resize gesture, shared with the configure flow it drives.
#[derive(Debug, Clone, Copy, PartialEq, Eq, Structural)]
pub struct ResizeInteractionId(pub u64);

impl ResizeInteractionId {
    pub fn new(id: u64) -> (r: Self)
        ensures
            r.0 == id,
    {
        ResizeInteractionId(id)
    }

    pub fn get(self) -> (r: u64)
        ensures
            r == self.0,
    {
        self.0
    }
}

#[derive(Debug, Clone, Copy, PartialEq, Eq, Structural)]
pub enum WindowInteractionKind {
    Move,
    Resize(ResizeEdges),
}

/// What started an interaction.
#[derive(Debug, Clone, Copy, PartialEq, Eq, Structural)]
pub enum WindowInteractionSource {
    NativeBinding,
    XdgToplevelMove,
    XdgToplevelResize,
    X11NetWmMoveResize,
}

#[derive(Debug, Clone, Copy, PartialEq, Eq, Structural)]
pub enum WindowInteractionEndReason {
    ExplicitEnd,
    ExplicitCancel,
    TriggerButtonRelease,
    TriggerButtonNoLongerHeld,
    SessionSuspended,
    SurfaceDestroyed,
    FocusLost,
    ModeTransition,
}

/// An active move or resize gesture.
#[derive(Debug, Clone, Copy, PartialEq, Eq, Structural)]
pub struct WindowInteraction {
    pub id: WindowInteractionId,
    pub window_id: WindowId,
    pub root_surface_id: u32,
    pub kind: WindowInteractionKind,
    pub source: WindowInteractionSource,
    pub trigger_button: Option<u32>,
    pub trigger_serial: Option<u32>,
    pub pointer_motion_surface_id: Option<u32>,
    pub start_pointer_x: Fixed,
    pub start_pointer_y: Fixed,
    pub start_placement: SurfacePlacement,
    pub start_width: u32,
    pub start_height: u32,
    pub drag_committed: bool,
    pub resize_interaction_id: Option<ResizeInteractionId>,
}

/// A read-only copy of an interaction's identity and inputs, for logs.
#[derive(Debug, Clone, Copy, PartialEq, Eq, Structural)]
pub struct WindowInteractionDebugSnapshot {
    pub interaction_id: u64,
    pub resize_interaction_id: Option<u64>,
    pub root_surface_id: u32,
    pub pointer_motion_surface_id: Option<u32>,
    pub source: WindowInteractionSource,
    pub kind: WindowInteractionKind,
    pub trigger_button: Option<u32>,
    pub trigger_serial: Option<u32>,
    pub start_pointer_x: Fixed,
    pub start_pointer_y: Fixed,
    pub drag_committed: bool,
}

impl WindowInteraction {
    pub open spec fn spec_snapshot(self) -> WindowInteractionDebugSnapshot {
        WindowInteractionDebugSnapshot {
            interaction_id: self.id.0,
            resize_interaction_id: match self.resize_interaction_id {
                Some(id) => Some(id.0),
                None => None,
            },
            root_surface_id: self.root_surface_id,
            pointer_motion_surface_id: self.pointer_motion_surface_id,
            source: self.source,
            kind: self.kind,
            trigger_button: self.trigger_button,
            trigger_serial: self.trigger_serial,
            start_pointer_x: self.start_pointer_x,
            start_pointer_y: self.start_pointer_y,
            drag_committed: self.drag_committed,
        }
    }

    pub fn debug_snapshot(self) -> (r: WindowInteractionDebugSnapshot)
        ensures
            r == self.spec_snapshot(),
    {
        WindowInteractionDebugSnapshot {
            interaction_id: self.id.get(),
            resize_interaction_id: match self.resize_interaction_id {
                Some(id) => Some(id.get()),
                None => None,
            },
            root_surface_id: self.root_surface_id,
            pointer_motion_surface_id: self.pointer_motion_surface_id,
            source: self.source,
            kind: self.kind,
            trigger_button: self.trigger_button,
            trigger_serial: self.trigger_serial,
            start_pointer_x: self.start_pointer_x,
            start_pointer_y: self.start_pointer_y,
            drag_committed: self.drag_committed,
        }
    }
}

/// The request to start an interaction, before it is validated.
#[derive(Debug, Clone, Copy, PartialEq, Eq, Structural)]
pub struct BeginWindowInteraction {
    pub window_id: Option<WindowId>,
    pub root_surface_id: u32,
    pub x: Fixed,
    pub y: Fixed,
    pub kind: WindowInteractionKind,
    pub source: WindowInteractionSource,
    pub trigger_button: Option<u32>,
    pub trigger_serial: Option<u32>,
    pub pointer_motion_surface_id: Option<u32>,
}

#[derive(Debug, Clone, Copy, PartialEq, Eq, Structural)]
pub enum InteractionCursorShape {
    Move,
    ResizeHorizontal,
    ResizeVertical,
    ResizeDiagonalNwSe,
    ResizeDiagonalNeSw,
}

pub open spec fn spec_cursor_shape(kind: WindowInteractionKind) -> InteractionCursorShape {
    match kind {
        WindowInteractionKind::Move => InteractionCursorShape::Move,
        WindowInteractionKind::Resize(e) => {
            let horizontal = e.left || e.right;
            let vertical = e.top || e.bottom;
            if (e.top && e.left) || (e.bottom && e.right) {
                InteractionCursorShape::ResizeDiagonalNwSe
            } else if (e.top && e.right) || (e.bottom && e.left) {
                InteractionCursorShape::ResizeDiagonalNeSw
            } else if horizontal {
                InteractionCursorShape::ResizeHorizontal
            } else if vertical {
                InteractionCursorShape::ResizeVertical
            } else {
                InteractionCursorShape::ResizeDiagonalNwSe
            }
        },
    }
}

impl InteractionCursorShape {
    /// The cursor shown while `kind` is in progress: a move cursor, or the
    /// resize cursor of the dragged edge or corner.
    pub fn for_window_interaction(kind: WindowInteractionKind) -> (r: Self)
        ensures
            r == spec_cursor_shape(kind),
    {
        match kind {
            WindowInteractionKind::Move => InteractionCursorShape::Move,
            WindowInteractionKind::Resize(e) => {
                if (e.top && e.left) || (e.bottom && e.right) {
                    InteractionCursorShape::ResizeDiagonalNwSe
                } else if (e.top && e.right) || (e.bottom && e.left) {
                    InteractionCursorShape::ResizeDiagonalNeSw
                } else if e.left || e.right {
                    InteractionCursorShape::ResizeHorizontal
                } else if e.top || e.bottom {
                    InteractionCursorShape::ResizeVertical
                } else {
                    InteractionCursorShape::ResizeDiagonalNwSe
                }
            },
        }
    }
}

#[derive(Debug, Clone, Copy, PartialEq, Eq, Structural)]
pub struct InteractionCursorOverride {
    pub shape: InteractionCursorShape,
}

/// The evdev button code of an X11 button number; 0 means "any button",
/// and buttons beyond the third match no evdev button.
pub open spec fn spec_x11_button_to_evdev(button: u32) -> Option<u32> {
    if button == 0 {
        None
    } else if button == 1 {
        Some(0x110u32)
    } else if button == 2 {
        Some(0x112u32)
    } else if button == 3 {
        Some(0x111u32)
    } else {
        Some(u32::MAX)
    }
}

pub fn x11_button_to_evdev(button: u32) -> (r: Option<u32>)
    ensures
        r == spec_x11_button_to_evdev(button),
        r == (if button == 0 {
            None
        } else if button == 1 {
            Some(0x110u32)
        } else if button == 2 {
            Some(0x112u32)
        } else if button == 3 {
            Some(0x111u32)
        } else {
            Some(u32::MAX)
        }),
{
    if button == 0 {
        None
    } else if button == 1 {
        Some(0x110)
    } else if button == 2 {
        Some(0x112)
    } else if button == 3 {
        Some(0x111)
    } else {
        Some(u32::MAX)
    }
}

/// A resize only takes effect once the pointer moved along a dragged axis.
pub open spec fn spec_drag_threshold_reached(edges: ResizeEdges, dx: int, dy: int) -> bool {
    ((edges.left || edges.right) && dx != 0) || ((edges.top || edges.bottom) && dy != 0)
}

pub fn resize_drag_threshold_reached(edges: ResizeEdges, dx: i32, dy: i32) -> (r: bool)
    ensures
        r == spec_drag_threshold_reached(edges, dx as int, dy as int),
{
    ((edges.left || edges.right) && dx != 0) || ((edges.top || edges.bottom) && dy != 0)
}

/// Target rectangle of an interactive resize.
#[derive(Debug, Clone, Copy, PartialEq, Eq, Structural)]
pub struct InteractiveResizeGeometry {
    pub x: i32,
    pub y: i32,
    pub width: u32,
    pub height: u32,
}

/// One side of a resize: the new extent (at least one pixel) and origin; a
/// dragged start edge moves the origin so the opposite edge stays put.
pub open spec fn spec_resize_axis(start: int, size: int, delta: int, grows_at_end: bool, grows_at_start: bool) -> (int, int) {
    let raw = if grows_at_start {
        size - delta
    } else if grows_at_end {
        size + delta
    } else {
        size
    };
    let extent = if raw < 1 {
        1
    } else if raw > u32::MAX {
        u32::MAX as int
    } else {
        raw
    };
    let origin = if grows_at_start {
        clamp_i32(start + size - extent)
    } else {
        start
    };
    (origin, extent)
}

fn resize_axis(start: i32, size: u32, delta: i32, grows_at_end: bool, grows_at_start: bool) -> (r: (i32, u32))
    ensures
        (r.0 as int, r.1 as int) == spec_resize_axis(start as int, size as int, delta as int, grows_at_end, grows_at_start),
{
    let raw: i64 = if grows_at_start {
        size as i64 - delta as i64
    } else if grows_at_end {
        size as i64 + delta as i64
    } else {
        size as i64
    };
    let extent: u32 = if raw < 1 {
        1
    } else if raw > u32::MAX as i64 {
        u32::MAX
    } else {
        raw as u32
    };
    let origin: i32 = if grows_at_start {
        crate::arith::clamp_i64_to_i32(start as i64 + size as i64 - extent as i64)
    } else {
        start
    };
    (origin, extent)
}

/// The rectangle a resize from the interaction's start geometry reaches after
/// the pointer moved by `(dx, dy)`.
pub fn interactive_resize_geometry(interaction: WindowInteraction, edges: ResizeEdges, dx: i32, dy: i32) -> (r:
    InteractiveResizeGeometry)
    ensures
        (r.x as int, r.width as int) == spec_resize_axis(
            interaction.start_placement.local_x as int,
            interaction.start_width as int,
            dx as int,
            edges.right,
            edges.left,
        ),
        (r.y as int, r.height as int) == spec_resize_axis(
            interaction.start_placement.local_y as int,
            interaction.start_height as int,
            dy as int,
            edges.bottom,
            edges.top,
        ),
{
    let (x, width) = resize_axis(
        interaction.start_placement.local_x,
        interaction.start_width,
        dx,
        edges.right,
        edges.left,
    );
    let (y, height) = resize_axis(
        interaction.start_placement.local_y,
        interaction.start_height,
        dy,
        edges.bottom,
        edges.top,
    );
    InteractiveResizeGeometry { x, y, width, height }
}

/// A resize target waiting to be applied on the next flush.
#[derive(Debug, Clone, Copy, PartialEq, Eq, Structural)]
pub struct PendingInteractiveResizeUpdate {
    pub root_surface_id: u32,
    pub width: u32,
    pub height: u32,
    pub placement: SurfacePlacement,
    pub edges: ResizeEdges,
    pub interaction_id: ResizeInteractionId,
}

/// A resize keeps the edge opposite to a dragged start edge where it was.
pub proof fn lemma_resize_keeps_opposite_edge(start: int, size: int, delta: int)
    requires
        0 < size <= u32::MAX,
        i32::MIN <= start,
        start + size <= i32::MAX,
        1 <= size - delta <= u32::MAX,
        i32::MIN <= start + delta,
    ensures
        ({
            let (origin, extent) = spec_resize_axis(start, size, delta, false, true);
            origin + extent == start + size
        }),
{
}

} // verus!
