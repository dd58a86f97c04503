//! Window geometry: size constraints (ICCCM rules), resize clamping that keeps
//! the opposite edges fixed, and the render placement of a root surface.
use vstd::prelude::*;
use crate::arith::{mul_wide, clamp_i32, clamp_u32, max_int, min_int, saturating_sub_i32, u32_to_i32_saturating, saturating_add_i32};
use crate::buffer::BufferSize;
use crate::surface::SurfacePlacement;

verus! {

/// Smallest width a window without constraints is resized to.
pub const MIN_WINDOW_WIDTH: u32 = 64;
/// Smallest height a window without constraints is resized to.
pub const MIN_WINDOW_HEIGHT: u32 = 64;

/// A width:height ratio as ICCCM `WM_NORMAL_HINTS` carries it.
#[derive(Debug, Clone, Copy, PartialEq, Eq, Structural)]
pub struct AspectRatio {
    pub numerator: u32,
    pub denominator: u32,
}

/// Size constraints of a window (xdg_toplevel min/max size, or ICCCM normal hints).
#[derive(Debug, Clone, Copy, PartialEq, Eq, Structural)]
pub struct WindowConstraints {
    pub min_width: Option<u32>,
    pub min_height: Option<u32>,
    pub max_width: Option<u32>,
    pub max_height: Option<u32>,
    pub base_width: Option<u32>,
    pub base_height: Option<u32>,
    pub width_increment: Option<u32>,
    pub height_increment: Option<u32>,
    pub min_aspect: Option<AspectRatio>,
    pub max_aspect: Option<AspectRatio>,
}

impl Default for WindowConstraints {
    fn default() -> (r: Self)
        ensures
            r.min_width is None && r.min_height is None && r.max_width is None && r.max_height is None,
            r.base_width is None && r.base_height is None,
            r.width_increment is None && r.height_increment is None,
            r.min_aspect is None && r.max_aspect is None,
    {
        WindowConstraints {
            min_width: None,
            min_height: None,
            max_width: None,
            max_height: None,
            base_width: None,
            base_height: None,
            width_increment: None,
            height_increment: None,
            min_aspect: None,
            max_aspect: None,
        }
    }
}

/// Which edges of a window an interactive resize moves.
#[derive(Debug, Clone, Copy, PartialEq, Eq, Structural)]
pub struct ResizeEdges {
    pub top: bool,
    pub bottom: bool,
    pub left: bool,
    pub right: bool,
}

impl ResizeEdges {
    /// The bottom-right corner, the default for resizes without a frame hit.
    pub fn bottom_right() -> (r: Self)
        ensures
            r == (ResizeEdges { top: false, bottom: true, left: false, right: true }),
    {
        ResizeEdges { top: false, bottom: true, left: false, right: true }
    }

    pub fn new(top: bool, bottom: bool, left: bool, right: bool) -> (r: Self)
        ensures
            r == (ResizeEdges { top, bottom, left, right }),
    {
        ResizeEdges { top, bottom, left, right }
    }
}

/// The window geometry a client declared with `xdg_surface.set_window_geometry`.
#[derive(Debug, Clone, Copy, PartialEq, Eq, Structural)]
pub struct XdgWindowGeometry {
    pub x: i32,
    pub y: i32,
    pub width: i32,
    pub height: i32,
}

impl XdgWindowGeometry {
    pub fn new(x: i32, y: i32, width: i32, height: i32) -> (r: Self)
        ensures
            r == (XdgWindowGeometry { x, y, width, height }),
    {
        XdgWindowGeometry { x, y, width, height }
    }
}

/// Placement and size of a window frame.
#[derive(Debug, Clone, Copy, PartialEq, Eq, Structural)]
pub struct WindowGeometry {
    pub placement: SurfacePlacement,
    pub width: u32,
    pub height: u32,
}

impl WindowGeometry {
    pub fn new(placement: SurfacePlacement, width: u32, height: u32) -> (r: Self)
        ensures
            r == (WindowGeometry { placement, width, height }),
    {
        WindowGeometry { placement, width, height }
    }
}

pub open spec fn opt_or(a: Option<u32>, b: Option<u32>) -> Option<u32> {
    if a is Some {
        a
    } else {
        b
    }
}

/// The range a dimension is clamped into when no fixed size applies.
pub open spec fn dimension_lower(min: Option<u32>, max: Option<u32>, base: Option<u32>, fallback_min: u32) -> int {
    match opt_or(min, base) {
        Some(v) => v as int,
        None => if max is None {
            fallback_min as int
        } else {
            1
        },
    }
}

pub open spec fn dimension_upper(min: Option<u32>, max: Option<u32>, base: Option<u32>, fallback_min: u32) -> int {
    max_int(
        match max {
            Some(m) => m as int,
            None => u32::MAX as int,
        },
        dimension_lower(min, max, base, fallback_min),
    )
}

/// ICCCM sizing of one dimension: a fixed size (min == max) wins; otherwise
/// the request is clamped to [lower, upper] and rounded down to the
/// increment grid anchored at the base size.
pub open spec fn spec_constrain_dimension(
    requested: u32,
    min: Option<u32>,
    max: Option<u32>,
    base: Option<u32>,
    increment: Option<u32>,
    fallback_min: u32,
) -> int {
    if min is Some && max is Some && min->0 == max->0 {
        max_int(min->0 as int, 1)
    } else {
        let lower = dimension_lower(min, max, base, fallback_min);
        let upper = dimension_upper(min, max, base, fallback_min);
        let clamped = min_int(max_int(requested as int, lower), upper);
        match increment {
            Some(inc) if inc > 0 => {
                let anchor = min_int(
                    match base {
                        Some(b) => b as int,
                        None => lower,
                    },
                    upper,
                );
                let steps = max_int(clamped - anchor, 0) / (inc as int);
                min_int(max_int(clamp_u32(anchor + clamp_u32(steps * inc)), lower), upper)
            },
            _ => clamped,
        }
    }
}

/// Increments put a dimension on the size grid that starts at the base size
/// (capped at the largest size; at the smallest size when there is no base):
/// a result strictly between the smallest and largest sizes lies on that grid,
/// and, once the request reaches the grid's start, it is the largest grid
/// size not above the request clamped into range.
pub proof fn lemma_constrained_dimension_on_increment_grid(
    requested: u32,
    min: Option<u32>,
    max: Option<u32>,
    base: Option<u32>,
    inc: u32,
    fallback_min: u32,
)
    requires
        inc > 0,
        !(min is Some && max is Some && min->0 == max->0),
    ensures
        ({
            let r = spec_constrain_dimension(requested, min, max, base, Some(inc), fallback_min);
            let lower = dimension_lower(min, max, base, fallback_min);
            let upper = dimension_upper(min, max, base, fallback_min);
            let grid_start = match base {
                Some(b) => if b <= upper {
                    b as int
                } else {
                    upper
                },
                None => lower,
            };
            let wanted = if requested < lower {
                lower
            } else if requested > upper {
                upper
            } else {
                requested as int
            };
            lower < r < upper ==> {
                &&& grid_start <= r
                &&& (r - grid_start) % (inc as int) == 0
                &&& grid_start <= wanted ==> r <= wanted < r + inc
            }
        }),
{
    let lower = dimension_lower(min, max, base, fallback_min);
    let upper = dimension_upper(min, max, base, fallback_min);
    let clamped = min_int(max_int(requested as int, lower), upper);
    let anchor = min_int(
        match base {
            Some(b) => b as int,
            None => lower,
        },
        upper,
    );
    let span = max_int(clamped - anchor, 0);
    let i = inc as int;
    let steps = span / i;
    vstd::arithmetic::div_mod::lemma_fundamental_div_mod(span, i);
    assert(0 <= span % i < i) by {
        vstd::arithmetic::div_mod::lemma_mod_pos_bound(span, i);
    }
    assert(steps >= 0) by (nonlinear_arith)
        requires
            span >= 0,
            i > 0,
            steps == span / i,
    ;
    assert(steps * i == i * steps) by (nonlinear_arith);
    assert((steps * i) % i == 0) by {
        vstd::arithmetic::div_mod::lemma_mod_multiples_basic(steps, i);
    }
    assert(lower <= upper);
    assert(upper <= u32::MAX);
    assert(lower >= 0);
}

/// A dimension respects the client's limits: equal minimum and maximum fix
/// it (at least 1); otherwise it is at least the minimum (the base size when
/// no minimum is given), and at most the maximum unless that maximum lies
/// below the minimum.
pub proof fn lemma_constrained_dimension_respects_limits(
    requested: u32,
    min: Option<u32>,
    max: Option<u32>,
    base: Option<u32>,
    increment: Option<u32>,
    fallback_min: u32,
)
    ensures
        ({
            let r = spec_constrain_dimension(requested, min, max, base, increment, fallback_min);
            let fixed = min is Some && max is Some && min->0 == max->0;
            let floor = if min is Some {
                min->0 as int
            } else if base is Some {
                base->0 as int
            } else if max is None {
                fallback_min as int
            } else {
                1
            };
            &&& fixed ==> r == (if min->0 > 1 {
                min->0 as int
            } else {
                1
            })
            &&& !fixed ==> r >= floor
            &&& !fixed && max is Some ==> (r <= max->0 || r == floor)
        }),
{
}

pub fn constrain_icccm_dimension(
    requested: u32,
    min: Option<u32>,
    max: Option<u32>,
    base: Option<u32>,
    increment: Option<u32>,
    fallback_min: u32,
) -> (r: u32)
    ensures
        r == spec_constrain_dimension(requested, min, max, base, increment, fallback_min),
        !(min is Some && max is Some && min->0 == max->0) ==> dimension_lower(min, max, base, fallback_min)
            <= r <= dimension_upper(min, max, base, fallback_min),
        increment matches Some(inc) && inc > 0 && !(min is Some && max is Some && min->0 == max->0) && (base matches Some(
            b,
        ) && dimension_lower(min, max, base, fallback_min) < r < dimension_upper(min, max, base, fallback_min))
            ==> (r - min_int(base->0 as int, dimension_upper(min, max, base, fallback_min))) % (increment->0 as int)
            == 0,
{
    proof {
        if increment is Some && increment->0 > 0 && !(min is Some && max is Some && min->0 == max->0) {
            lemma_constrained_dimension_on_increment_grid(requested, min, max, base, increment->0, fallback_min);
        }
    }
    match (min, max) {
        (Some(lo), Some(hi)) => {
            if lo == hi {
                return if lo > 1 { lo } else { 1 };
            }
        },
        _ => {},
    }
    let lower: u32 = match min {
        Some(v) => v,
        None => match base {
            Some(b) => b,
            None => if max.is_none() { fallback_min } else { 1 },
        },
    };
    let max_or_unbounded: u32 = match max {
        Some(m) => m,
        None => u32::MAX,
    };
    let upper: u32 = if max_or_unbounded > lower { max_or_unbounded } else { lower };
    let raised: u32 = if requested > lower { requested } else { lower };
    let clamped: u32 = if raised < upper { raised } else { upper };
    let inc: u32 = match increment {
        Some(i) => i,
        None => 0,
    };
    if inc == 0 {
        return clamped;
    }
    let anchor_base: u32 = match base {
        Some(b) => b,
        None => lower,
    };
    let anchor: u32 = if anchor_base < upper { anchor_base } else { upper };
    let span: u32 = clamped.saturating_sub(anchor);
    let steps: u32 = span / inc;
    assert(steps * inc <= span) by (nonlinear_arith)
        requires
            steps == span / inc,
            inc > 0,
    ;
    let stepped: u32 = anchor.saturating_add(steps * inc);
    let raised_step: u32 = if stepped > lower { stepped } else { lower };
    if raised_step < upper { raised_step } else { upper }
}

/// `ceil(a * b / c)` saturated to `u32`.
pub open spec fn spec_ceil_ratio(a: u32, b: u32, c: u32) -> int {
    clamp_u32((a * b + c - 1) / (c as int))
}

pub fn ceil_ratio(a: u32, b: u32, c: u32) -> (r: u32)
    requires
        c > 0,
    ensures
        r == spec_ceil_ratio(a, b, c),
{
    let product: u64 = mul_wide(a, b);
    let q: u64 = (product + c as u64 - 1) / c as u64;
    if q > u32::MAX as u64 {
        u32::MAX
    } else {
        q as u32
    }
}

/// The ICCCM size for a requested `width` x `height`: each dimension is
/// constrained on its own, then the aspect limits adjust one side.
pub open spec fn spec_constrain_size(width: u32, height: u32, c: WindowConstraints) -> (int, int) {
    let w0 = spec_constrain_dimension(width, c.min_width, c.max_width, c.base_width, c.width_increment, MIN_WINDOW_WIDTH);
    let h0 = spec_constrain_dimension(height, c.min_height, c.max_height, c.base_height, c.height_increment, MIN_WINDOW_HEIGHT);
    let w1 = match c.min_aspect {
        Some(a) if a.numerator > 0 && a.denominator > 0 && w0 * a.denominator < a.numerator * h0 =>
            spec_constrain_dimension(
                spec_ceil_ratio(h0 as u32, a.numerator, a.denominator) as u32,
                c.min_width,
                c.max_width,
                c.base_width,
                c.width_increment,
                MIN_WINDOW_WIDTH,
            ),
        _ => w0,
    };
    let h1 = match c.max_aspect {
        Some(a) if a.numerator > 0 && a.denominator > 0 && w1 * a.denominator > a.numerator * h0 =>
            spec_constrain_dimension(
                spec_ceil_ratio(w1 as u32, a.denominator, a.numerator) as u32,
                c.min_height,
                c.max_height,
                c.base_height,
                c.height_increment,
                MIN_WINDOW_HEIGHT,
            ),
        _ => h0,
    };
    (w1, h1)
}

pub fn constrain_icccm_size(width: u32, height: u32, constraints: WindowConstraints) -> (r: (u32, u32))
    ensures
        (r.0 as int, r.1 as int) == spec_constrain_size(width, height, constraints),
{
    let mut w = constrain_icccm_dimension(
        width,
        constraints.min_width,
        constraints.max_width,
        constraints.base_width,
        constraints.width_increment,
        MIN_WINDOW_WIDTH,
    );
    let h = constrain_icccm_dimension(
        height,
        constraints.min_height,
        constraints.max_height,
        constraints.base_height,
        constraints.height_increment,
        MIN_WINDOW_HEIGHT,
    );
    let mut h_final = h;
    match constraints.min_aspect {
        Some(a) => {
            if a.numerator > 0 && a.denominator > 0 && mul_wide(w, a.denominator) < mul_wide(a.numerator, h) {
                w =
                constrain_icccm_dimension(
                    ceil_ratio(h, a.numerator, a.denominator),
                    constraints.min_width,
                    constraints.max_width,
                    constraints.base_width,
                    constraints.width_increment,
                    MIN_WINDOW_WIDTH,
                );
            }
        },
        None => {},
    }
    match constraints.max_aspect {
        Some(a) => {
            if a.numerator > 0 && a.denominator > 0 && mul_wide(w, a.denominator) > mul_wide(a.numerator, h) {
                h_final =
                constrain_icccm_dimension(
                    ceil_ratio(w, a.denominator, a.numerator),
                    constraints.min_height,
                    constraints.max_height,
                    constraints.base_height,
                    constraints.height_increment,
                    MIN_WINDOW_HEIGHT,
                );
            }
        },
        None => {},
    }
    (w, h_final)
}

/// The geometry a resize to `geometry` actually gets: the size is
/// constrained, and when a left (top) edge is dragged the right (bottom)
/// edge keeps the position the request gave it.
pub open spec fn spec_clamp_resize_geometry(
    constraints: WindowConstraints,
    geometry: WindowGeometry,
    edges: ResizeEdges,
) -> WindowGeometry {
    let (w, h) = spec_constrain_size(geometry.width, geometry.height, constraints);
    let p = geometry.placement;
    let x = if edges.left && w != geometry.width {
        clamp_i32(clamp_i32(p.local_x + clamp_i32(geometry.width as int)) - clamp_i32(w))
    } else {
        p.local_x as int
    };
    let y = if edges.top && h != geometry.height {
        clamp_i32(clamp_i32(p.local_y + clamp_i32(geometry.height as int)) - clamp_i32(h))
    } else {
        p.local_y as int
    };
    WindowGeometry {
        placement: SurfacePlacement { local_x: x as i32, local_y: y as i32, ..p },
        width: w as u32,
        height: h as u32,
    }
}

pub fn clamp_resize_geometry(
    constraints: WindowConstraints,
    geometry: WindowGeometry,
    edges: ResizeEdges,
) -> (r: WindowGeometry)
    ensures
        r == spec_clamp_resize_geometry(constraints, geometry, edges),
{
    let (width, height) = constrain_icccm_size(geometry.width, geometry.height, constraints);
    let mut placement = geometry.placement;
    if edges.left && width != geometry.width {
        let requested_right = saturating_add_i32(placement.local_x, u32_to_i32_saturating(geometry.width));
        placement.local_x = saturating_sub_i32(requested_right, u32_to_i32_saturating(width));
    }
    if edges.top && height != geometry.height {
        let requested_bottom = saturating_add_i32(placement.local_y, u32_to_i32_saturating(geometry.height));
        placement.local_y = saturating_sub_i32(requested_bottom, u32_to_i32_saturating(height));
    }
    WindowGeometry::new(placement, width, height)
}

/// The placement of a root surface buffer so that its declared window
/// geometry lands on the frame origin.
pub open spec fn spec_root_render_placement(frame: SurfacePlacement, geometry: Option<XdgWindowGeometry>) -> SurfacePlacement {
    match geometry {
        None => frame,
        Some(g) => SurfacePlacement {
            parent_surface_id: None,
            local_x: clamp_i32(frame.local_x - g.x) as i32,
            local_y: clamp_i32(frame.local_y - g.y) as i32,
            root_mode: frame.root_mode,
        },
    }
}

pub fn derive_root_render_placement(
    frame: SurfacePlacement,
    committed_geometry: Option<XdgWindowGeometry>,
) -> (r: SurfacePlacement)
    ensures
        r == spec_root_render_placement(frame, committed_geometry),
{
    match committed_geometry {
        None => frame,
        Some(g) => SurfacePlacement {
            parent_surface_id: None,
            local_x: saturating_sub_i32(frame.local_x, g.x),
            local_y: saturating_sub_i32(frame.local_y, g.y),
            root_mode: frame.root_mode,
        },
    }
}

/// How far the root buffer reaches beyond the declared window geometry on
/// each side (client-side shadows and borders).
#[derive(Debug, Clone, Copy, PartialEq, Eq, Structural)]
pub struct WindowVisualExtents {
    pub left: u32,
    pub top: u32,
    pub right: u32,
    pub bottom: u32,
}

/// `value` clamped to `[0, u32::MAX]`.
pub fn non_negative_extent(value: i64) -> (r: u32)
    ensures
        r == clamp_u32(value as int),
{
    if value < 0 {
        0
    } else if value > u32::MAX as i64 {
        u32::MAX
    } else {
        value as u32
    }
}

impl WindowVisualExtents {
    pub fn from_root_buffer_and_window_geometry(root_buffer: BufferSize, geometry: XdgWindowGeometry) -> (r:
        Self)
        ensures
            r.left == clamp_u32(geometry.x as int),
            r.top == clamp_u32(geometry.y as int),
            r.right == clamp_u32(root_buffer.width - (geometry.x + geometry.width)),
            r.bottom == clamp_u32(root_buffer.height - (geometry.y + geometry.height)),
    {
        let buffer_right: i64 = root_buffer.width as i64;
        let buffer_bottom: i64 = root_buffer.height as i64;
        let geometry_right: i64 = geometry.x as i64 + geometry.width as i64;
        let geometry_bottom: i64 = geometry.y as i64 + geometry.height as i64;
        WindowVisualExtents {
            left: non_negative_extent(geometry.x as i64),
            top: non_negative_extent(geometry.y as i64),
            right: non_negative_extent(buffer_right - geometry_right),
            bottom: non_negative_extent(buffer_bottom - geometry_bottom),
        }
    }
}

/// A fixed size (equal minimum and maximum) always wins.
pub proof fn lemma_fixed_size_wins(requested: u32, fixed: u32, base: Option<u32>, increment: Option<u32>, fallback_min: u32)
    ensures
        spec_constrain_dimension(requested, Some(fixed), Some(fixed), base, increment, fallback_min)
            == max_int(fixed as int, 1),
{
}

/// A constrained dimension never leaves `[lower, upper]`, whatever was requested.
pub proof fn lemma_dimension_within_bounds(
    requested: u32,
    min: Option<u32>,
    max: Option<u32>,
    base: Option<u32>,
    increment: Option<u32>,
    fallback_min: u32,
)
    requires
        !(min is Some && max is Some && min->0 == max->0),
    ensures
        dimension_lower(min, max, base, fallback_min) <= spec_constrain_dimension(requested, min, max, base, increment, fallback_min)
            <= dimension_upper(min, max, base, fallback_min),
{
}

} // verus!
