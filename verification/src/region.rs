//! Surface regions (wl_region contents) and the opaque region derived from them.
use vstd::prelude::*;
use crate::arith::{max_int, min_int};
use crate::fixed::Fixed;

verus! {

/// A non-empty rectangle of a `wl_region` request, in surface coordinates.
#[derive(Debug, Clone, Copy, PartialEq, Eq, Structural)]
pub struct InputRegionRect {
    pub x: i32,
    pub y: i32,
    pub width: i32,
    pub height: i32,
}

impl InputRegionRect {
    /// Rectangles with a non-positive side are rejected.
    pub fn new(x: i32, y: i32, width: i32, height: i32) -> (r: Option<Self>)
        ensures
            r == (if width <= 0 || height <= 0 {
                None
            } else {
                Some(InputRegionRect { x, y, width, height })
            }),
    {
        if width <= 0 || height <= 0 {
            return None;
        }
        Some(InputRegionRect { x, y, width, height })
    }

    pub fn coordinates(self) -> (r: (i32, i32, i32, i32))
        ensures
            r == (self.x, self.y, self.width, self.height),
    {
        (self.x, self.y, self.width, self.height)
    }

    pub open spec fn spec_contains(self, px: int, py: int) -> bool {
        &&& px >= self.x * 256
        &&& py >= self.y * 256
        &&& px < (self.x + self.width) * 256
        &&& py < (self.y + self.height) * 256
    }

    /// Whether the fixed-point surface position lies inside the rectangle.
    pub fn contains(self, x: Fixed, y: Fixed) -> (r: bool)
        ensures
            r == self.spec_contains(x.raw as int, y.raw as int),
    {
        let left: i64 = self.x as i64 * 256;
        let top: i64 = self.y as i64 * 256;
        let right: i64 = (self.x as i64 + self.width as i64) * 256;
        let bottom: i64 = (self.y as i64 + self.height as i64) * 256;
        x.raw as i64 >= left && y.raw as i64 >= top && (x.raw as i64) < right && (y.raw as i64)
            < bottom
    }
}

/// One `wl_region.add` or `wl_region.subtract` request.
#[derive(Debug, Clone, Copy, PartialEq, Eq, Structural)]
pub enum InputRegionOp {
    Add(InputRegionRect),
    Subtract(InputRegionRect),
}

impl InputRegionOp {
    pub open spec fn spec_rect(self) -> InputRegionRect {
        match self {
            InputRegionOp::Add(r) => r,
            InputRegionOp::Subtract(r) => r,
        }
    }

    pub fn rect(self) -> (r: InputRegionRect)
        ensures
            r == self.spec_rect(),
    {
        match self {
            InputRegionOp::Add(rect) => rect,
            InputRegionOp::Subtract(rect) => rect,
        }
    }
}

/// Whether a point lies in the region built by applying `ops` in order to an empty region.
pub open spec fn spec_ops_contain(ops: Seq<InputRegionOp>, px: int, py: int) -> bool
    decreases ops.len(),
{
    if ops.len() == 0 {
        false
    } else {
        let before = spec_ops_contain(ops.drop_last(), px, py);
        match ops.last() {
            InputRegionOp::Add(r) => if r.spec_contains(px, py) {
                true
            } else {
                before
            },
            InputRegionOp::Subtract(r) => if r.spec_contains(px, py) {
                false
            } else {
                before
            },
        }
    }
}

/// The committed input (or opaque) region of a surface.
#[derive(Debug, Clone, PartialEq, Eq)]
pub enum SurfaceInputRegion {
    /// No region was set: for input this is the whole surface.
    Default,
    Custom(Vec<InputRegionOp>),
}

impl Default for SurfaceInputRegion {
    fn default() -> (r: Self)
        ensures
            r is Default,
    {
        SurfaceInputRegion::Default
    }
}

impl SurfaceInputRegion {
    pub open spec fn spec_contains(self, px: int, py: int, w: u32, h: u32) -> bool {
        match self {
            SurfaceInputRegion::Default => px >= 0 && py >= 0 && px < w * 256 && py < h * 256,
            SurfaceInputRegion::Custom(ops) => spec_ops_contain(ops@, px, py),
        }
    }

    /// Whether a surface-local fixed-point position accepts input.
    pub fn contains(&self, x: Fixed, y: Fixed, surface_width: u32, surface_height: u32) -> (r: bool)
        ensures
            r == self.spec_contains(x.raw as int, y.raw as int, surface_width, surface_height),
    {
        match self {
            SurfaceInputRegion::Default => {
                x.raw >= 0 && y.raw >= 0 && (x.raw as i64) < surface_width as i64 * 256
                    && (y.raw as i64) < surface_height as i64 * 256
            },
            SurfaceInputRegion::Custom(ops) => {
                let mut contains = false;
                let mut i: usize = 0;
                while i < ops.len()
                    invariant
                        i <= ops.len(),
                        contains == spec_ops_contain(ops@.take(i as int), x.raw as int, y.raw as int),
                    decreases ops.len() - i,
                {
                    proof {
                        assert(ops@.take(i as int + 1).drop_last() =~= ops@.take(i as int));
                    }
                    match ops[i] {
                        InputRegionOp::Add(rect) => {
                            if rect.contains(x, y) {
                                contains = true;
                            }
                        },
                        InputRegionOp::Subtract(rect) => {
                            if rect.contains(x, y) {
                                contains = false;
                            }
                        },
                    }
                    i = i + 1;
                }
                assert(ops@.take(ops.len() as int) =~= ops@);
                contains
            },
        }
    }
}

/// The operations of a live `wl_region` object.
#[derive(Debug, Clone, PartialEq, Eq)]
pub struct RegionData {
    pub ops: Vec<InputRegionOp>,
}

impl Default for RegionData {
    fn default() -> (r: Self)
        ensures
            r.ops@ == Seq::<InputRegionOp>::empty(),
    {
        RegionData { ops: Vec::new() }
    }
}

impl RegionData {
    /// A copy of the current operations: later requests on the region do not change it.
    pub fn snapshot(&self) -> (r: SurfaceInputRegion)
        ensures
            r matches SurfaceInputRegion::Custom(ops) && ops@ == self.ops@,
    {
        let mut ops: Vec<InputRegionOp> = Vec::new();
        let mut i: usize = 0;
        while i < self.ops.len()
            invariant
                i <= self.ops.len(),
                ops@ == self.ops@.take(i as int),
            decreases self.ops.len() - i,
        {
            ops.push(self.ops[i]);
            proof {
                assert(ops@ =~= self.ops@.take(i as int + 1));
            }
            i = i + 1;
        }
        assert(self.ops@.take(self.ops.len() as int) =~= self.ops@);
        SurfaceInputRegion::Custom(ops)
    }

    pub fn push(&mut self, op: InputRegionOp)
        ensures
            final(self).ops@ == old(self).ops@.push(op),
    {
        self.ops.push(op);
    }
}

/// The background-effect region of a surface: the operations of its region.
#[derive(Debug, Clone, PartialEq, Eq)]
pub struct BackgroundEffectRegion {
    pub ops: Vec<InputRegionOp>,
}

impl Default for BackgroundEffectRegion {
    fn default() -> (r: Self)
        ensures
            r.ops@ == Seq::<InputRegionOp>::empty(),
    {
        BackgroundEffectRegion { ops: Vec::new() }
    }
}

impl BackgroundEffectRegion {
    /// An unset region has no effect area; a custom region keeps its operations.
    pub fn from_surface_input_region(region: SurfaceInputRegion) -> (r: Self)
        ensures
            match region {
                SurfaceInputRegion::Default => r.ops@ == Seq::<InputRegionOp>::empty(),
                SurfaceInputRegion::Custom(ops) => r.ops@ == ops@,
            },
    {
        match region {
            SurfaceInputRegion::Default => BackgroundEffectRegion::default(),
            SurfaceInputRegion::Custom(ops) => BackgroundEffectRegion { ops },
        }
    }

    pub fn ops(&self) -> (r: &[InputRegionOp])
        ensures
            r@ == self.ops@,
    {
        self.ops.as_slice()
    }
}

/// A non-empty opaque rectangle with a non-negative origin inside the surface.
#[derive(Debug, Clone, Copy, PartialEq, Eq, Structural)]
pub struct SurfaceOpaqueRect {
    pub x: i32,
    pub y: i32,
    pub width: u32,
    pub height: u32,
}

pub open spec fn opaque_rect_contains(r: SurfaceOpaqueRect, px: int, py: int) -> bool {
    r.x <= px < r.x + r.width && r.y <= py < r.y + r.height
}

impl SurfaceOpaqueRect {
    pub fn new(x: i32, y: i32, width: u32, height: u32) -> (r: Option<Self>)
        ensures
            r == (if width == 0 || height == 0 {
                None
            } else {
                Some(SurfaceOpaqueRect { x, y, width, height })
            }),
    {
        if width == 0 || height == 0 {
            None
        } else {
            Some(SurfaceOpaqueRect { x, y, width, height })
        }
    }
}

/// The opaque part of a surface, used to skip drawing what lies beneath it.
#[derive(Debug, Clone, PartialEq, Eq)]
pub enum SurfaceOpaqueRegion {
    Empty,
    Full,
    Partial(Vec<SurfaceOpaqueRect>),
}

pub open spec fn opaque_rect_covers(r: SurfaceOpaqueRect, w: u32, h: u32) -> bool {
    r.x == 0 && r.y == 0 && r.width == w && r.height == h
}

impl SurfaceOpaqueRegion {
    /// No rectangle: nothing is opaque. A rectangle equal to the whole surface:
    /// fully opaque. Otherwise the rectangles are kept as they are.
    pub fn from_rects(rects: Vec<SurfaceOpaqueRect>, width: u32, height: u32) -> (r: Self)
        ensures
            rects@.len() == 0 <==> r is Empty,
            rects@.len() > 0 ==> ((exists|i: int|
                #![trigger rects@[i]]
                0 <= i < rects@.len() && opaque_rect_covers(rects@[i], width, height)) <==> r is Full),
            r matches SurfaceOpaqueRegion::Partial(v) ==> v@ == rects@,
    {
        if rects.len() == 0 {
            return SurfaceOpaqueRegion::Empty;
        }
        let mut i: usize = 0;
        while i < rects.len()
            invariant
                i <= rects.len(),
                forall|j: int|
                    #![trigger rects@[j]]
                    0 <= j < i ==> !opaque_rect_covers(rects@[j], width, height),
            decreases rects.len() - i,
        {
            let r = rects[i];
            if r.x == 0 && r.y == 0 && r.width == width && r.height == height {
                assert(opaque_rect_covers(rects@[i as int], width, height));
                return SurfaceOpaqueRegion::Full;
            }
            i = i + 1;
        }
        SurfaceOpaqueRegion::Partial(rects)
    }
}

/// `rect` intersected with the surface `[0, w) x [0, h)`, if anything remains.
pub open spec fn spec_clip_opaque(rect: InputRegionRect, w: u32, h: u32) -> Option<SurfaceOpaqueRect> {
    let left = max_int(rect.x as int, 0);
    let top = max_int(rect.y as int, 0);
    let right = min_int(rect.x + rect.width, w as int);
    let bottom = min_int(rect.y + rect.height, h as int);
    if right > left && bottom > top {
        Some(
            SurfaceOpaqueRect {
                x: left as i32,
                y: top as i32,
                width: (right - left) as u32,
                height: (bottom - top) as u32,
            },
        )
    } else {
        None
    }
}

/// Clipping an opaque rectangle to the surface is intersection: the result
/// covers exactly the points of the rectangle that lie in `[0, w) x [0, h)`.
pub proof fn lemma_clip_opaque_is_intersection(rect: InputRegionRect, w: u32, h: u32, px: int, py: int)
    ensures
        (rect.x <= px < rect.x + rect.width && rect.y <= py < rect.y + rect.height && 0 <= px < w && 0 <= py < h)
            <==> (spec_clip_opaque(rect, w, h) matches Some(c) && c.x <= px < c.x + c.width && c.y <= py < c.y
            + c.height),
{
}

pub fn clip_opaque_region_rect(rect: InputRegionRect, surface_width: u32, surface_height: u32) -> (r:
    Option<SurfaceOpaqueRect>)
    ensures
        r == spec_clip_opaque(rect, surface_width, surface_height),
{
    let left: i64 = if rect.x > 0 { rect.x as i64 } else { 0 };
    let top: i64 = if rect.y > 0 { rect.y as i64 } else { 0 };
    let x_end: i64 = rect.x as i64 + rect.width as i64;
    let y_end: i64 = rect.y as i64 + rect.height as i64;
    let right: i64 = if x_end < surface_width as i64 { x_end } else { surface_width as i64 };
    let bottom: i64 = if y_end < surface_height as i64 { y_end } else { surface_height as i64 };
    if right - left < 0 || bottom - top < 0 {
        return None;
    }
    let width = (right - left) as u32;
    let height = (bottom - top) as u32;
    SurfaceOpaqueRect::new(left as i32, top as i32, width, height)
}

/// Appends the rectangle `[left, right) x [top, bottom)` when it is non-empty and representable.
pub fn push_opaque_rect(pieces: &mut Vec<SurfaceOpaqueRect>, left: i64, top: i64, right: i64, bottom: i64)
    requires
        left < right ==> right - left <= i64::MAX,
        top < bottom ==> bottom - top <= i64::MAX,
    ensures
        (right > left && bottom > top && right - left <= u32::MAX && bottom - top <= u32::MAX
            && i32::MIN <= left <= i32::MAX && i32::MIN <= top <= i32::MAX) ==> final(pieces)@
            == old(pieces)@.push(
            SurfaceOpaqueRect {
                x: left as i32,
                y: top as i32,
                width: (right - left) as u32,
                height: (bottom - top) as u32,
            },
        ),
        !(right > left && bottom > top && right - left <= u32::MAX && bottom - top <= u32::MAX
            && i32::MIN <= left <= i32::MAX && i32::MIN <= top <= i32::MAX) ==> final(pieces)@
            == old(pieces)@,
{
    if right <= left || bottom <= top {
        return;
    }
    if right - left > u32::MAX as i64 || bottom - top > u32::MAX as i64 {
        return;
    }
    if left < i32::MIN as i64 || left > i32::MAX as i64 || top < i32::MIN as i64 || top
        > i32::MAX as i64 {
        return;
    }
    let width = (right - left) as u32;
    let height = (bottom - top) as u32;
    match SurfaceOpaqueRect::new(left as i32, top as i32, width, height) {
        Some(rect) => pieces.push(rect),
        None => {},
    }
}

/// `source` minus `excluded`, as at most four disjoint rectangles (top, bottom, left, right strips).
pub fn subtract_opaque_rect(source: SurfaceOpaqueRect, excluded: SurfaceOpaqueRect) -> (r: Vec<
    SurfaceOpaqueRect,
>)
    ensures
        source.x + source.width <= i32::MAX + 1 && source.y + source.height <= i32::MAX + 1 ==> forall|
            px: int,
            py: int,
        |
            (opaque_rect_contains(source, px, py) && !opaque_rect_contains(excluded, px, py)) <==> exists|
                i: int,
            |
                #![trigger r@[i]]
                0 <= i < r@.len() && opaque_rect_contains(r@[i], px, py),
        source.width > 0 && source.height > 0 ==> forall|i: int|
            #![trigger r@[i]]
            0 <= i < r@.len() ==> r@[i].width > 0 && r@[i].height > 0,
        forall|i: int|
            #![trigger r@[i]]
            0 <= i < r@.len() ==> source.x <= r@[i].x && r@[i].x + r@[i].width <= source.x
                + source.width && source.y <= r@[i].y && r@[i].y + r@[i].height <= source.y
                + source.height,
        r@.len() <= 4,
{
    let source_left: i64 = source.x as i64;
    let source_top: i64 = source.y as i64;
    let source_right: i64 = source_left + source.width as i64;
    let source_bottom: i64 = source_top + source.height as i64;
    let excluded_left: i64 = excluded.x as i64;
    let excluded_top: i64 = excluded.y as i64;
    let excluded_right: i64 = excluded_left + excluded.width as i64;
    let excluded_bottom: i64 = excluded_top + excluded.height as i64;
    let left = if source_left > excluded_left { source_left } else { excluded_left };
    let top = if source_top > excluded_top { source_top } else { excluded_top };
    let right = if source_right < excluded_right { source_right } else { excluded_right };
    let bottom = if source_bottom < excluded_bottom { source_bottom } else { excluded_bottom };
    if right <= left || bottom <= top {
        let mut whole: Vec<SurfaceOpaqueRect> = Vec::new();
        whole.push(source);
        proof {
            assert forall|px: int, py: int|
                (opaque_rect_contains(source, px, py) && !opaque_rect_contains(excluded, px, py))
                    <==> exists|i: int|
                    #![trigger whole@[i]]
                    0 <= i < whole@.len() && opaque_rect_contains(whole@[i], px, py) by {
                if opaque_rect_contains(source, px, py) {
                    assert(opaque_rect_contains(whole@[0], px, py));
                }
            }
        }
        return whole;
    }
    let mut pieces: Vec<SurfaceOpaqueRect> = Vec::new();
    let ghost (l, t, r, b) = (left as int, top as int, right as int, bottom as int);
    push_opaque_rect(&mut pieces, source_left, source_top, source_right, top);
    let ghost p1 = pieces@;
    push_opaque_rect(&mut pieces, source_left, bottom, source_right, source_bottom);
    let ghost p2 = pieces@;
    push_opaque_rect(&mut pieces, source_left, top, left, bottom);
    let ghost p3 = pieces@;
    push_opaque_rect(&mut pieces, right, top, source_right, bottom);
    proof {
        assert forall|i: int| #![trigger pieces@[i]] 0 <= i < pieces@.len() implies piece_outside_cut(
            pieces@[i],
            source,
            l,
            t,
            r,
            b,
        ) && pieces@[i].width > 0 && pieces@[i].height > 0 by {
            if i < p1.len() {
                assert(pieces@[i] == p1[i]);
            } else if i < p2.len() {
                assert(pieces@[i] == p2[i]);
            } else if i < p3.len() {
                assert(pieces@[i] == p3[i]);
            }
        }
        if source.x + source.width <= i32::MAX + 1 && source.y + source.height <= i32::MAX + 1 {
        assert forall|px: int, py: int|
            (opaque_rect_contains(source, px, py) && !opaque_rect_contains(excluded, px, py))
                <==> exists|i: int|
                #![trigger pieces@[i]]
                0 <= i < pieces@.len() && opaque_rect_contains(pieces@[i], px, py) by {
            if opaque_rect_contains(source, px, py) && !opaque_rect_contains(excluded, px, py) {
                if py < t {
                    assert(opaque_rect_contains(pieces@[0], px, py));
                } else if py >= b {
                    assert(opaque_rect_contains(pieces@[p1.len() as int], px, py));
                } else if px < l {
                    assert(opaque_rect_contains(pieces@[p2.len() as int], px, py));
                } else {
                    assert(opaque_rect_contains(pieces@[p3.len() as int], px, py));
                }
            }
            if exists|i: int|
                #![trigger pieces@[i]]
                0 <= i < pieces@.len() && opaque_rect_contains(pieces@[i], px, py) {
                let i = choose|i: int|
                    #![trigger pieces@[i]]
                    0 <= i < pieces@.len() && opaque_rect_contains(pieces@[i], px, py);
                assert(piece_outside_cut(pieces@[i], source, l, t, r, b));
            }
        }
        }
    }
    pieces
}

/// `p` lies inside `source` and entirely on one side of the cut `[l, r) x [t, b)`.
pub open spec fn piece_outside_cut(p: SurfaceOpaqueRect, source: SurfaceOpaqueRect, l: int, t: int, r: int, b: int) -> bool {
    &&& source.x <= p.x
    &&& p.x + p.width <= source.x + source.width
    &&& source.y <= p.y
    &&& p.y + p.height <= source.y + source.height
    &&& (p.y + p.height <= t || p.y >= b || p.x + p.width <= l || p.x >= r)
}

pub open spec fn input_rect_has_pixel(r: InputRegionRect, px: int, py: int) -> bool {
    r.x <= px < r.x + r.width && r.y <= py < r.y + r.height
}

/// Whether pixel `(px, py)` lies in the region built by applying `ops` in order.
pub open spec fn spec_ops_have_pixel(ops: Seq<InputRegionOp>, px: int, py: int) -> bool
    decreases ops.len(),
{
    if ops.len() == 0 {
        false
    } else {
        let before = spec_ops_have_pixel(ops.drop_last(), px, py);
        match ops.last() {
            InputRegionOp::Add(r) => input_rect_has_pixel(r, px, py) || before,
            InputRegionOp::Subtract(r) => !input_rect_has_pixel(r, px, py) && before,
        }
    }
}

pub open spec fn rects_have_pixel(rects: Seq<SurfaceOpaqueRect>, px: int, py: int) -> bool {
    exists|i: int| #![trigger rects[i]] 0 <= i < rects.len() && opaque_rect_contains(rects[i], px, py)
}

pub open spec fn opaque_region_has_pixel(region: SurfaceOpaqueRegion, w: u32, h: u32, px: int, py: int) -> bool {
    match region {
        SurfaceOpaqueRegion::Empty => false,
        SurfaceOpaqueRegion::Full => 0 <= px < w && 0 <= py < h,
        SurfaceOpaqueRegion::Partial(v) => rects_have_pixel(v@, px, py),
    }
}

proof fn lemma_concat_has_pixel(a: Seq<SurfaceOpaqueRect>, b: Seq<SurfaceOpaqueRect>, px: int, py: int)
    ensures
        rects_have_pixel(a + b, px, py) <==> (rects_have_pixel(a, px, py) || rects_have_pixel(b, px, py)),
{
    if rects_have_pixel(a + b, px, py) {
        let i = choose|i: int| #![trigger (a + b)[i]] 0 <= i < (a + b).len() && opaque_rect_contains((a + b)[i], px, py);
        if i < a.len() {
            assert(a[i] == (a + b)[i]);
        } else {
            assert(b[i - a.len()] == (a + b)[i]);
        }
    }
    if rects_have_pixel(a, px, py) {
        let i = choose|i: int| #![trigger a[i]] 0 <= i < a.len() && opaque_rect_contains(a[i], px, py);
        assert((a + b)[i] == a[i]);
    }
    if rects_have_pixel(b, px, py) {
        let i = choose|i: int| #![trigger b[i]] 0 <= i < b.len() && opaque_rect_contains(b[i], px, py);
        assert((a + b)[i + a.len()] == b[i]);
    }
}

proof fn lemma_push_has_pixel(a: Seq<SurfaceOpaqueRect>, r: SurfaceOpaqueRect, px: int, py: int)
    ensures
        rects_have_pixel(a.push(r), px, py) <==> (rects_have_pixel(a, px, py) || opaque_rect_contains(r, px, py)),
{
    assert(a.push(r) =~= a + seq![r]);
    lemma_concat_has_pixel(a, seq![r], px, py);
    if opaque_rect_contains(r, px, py) {
        assert(seq![r][0] == r);
    }
}

/// `p` is non-empty and lies inside one of `rects`.
pub open spec fn within_some_rect(p: SurfaceOpaqueRect, rects: Seq<SurfaceOpaqueRect>) -> bool {
    &&& p.width > 0
    &&& p.height > 0
    &&& exists|j: int|
        #![trigger rects[j]]
        0 <= j < rects.len() && rects[j].x <= p.x && p.x + p.width <= rects[j].x + rects[j].width
            && rects[j].y <= p.y && p.y + p.height <= rects[j].y + rects[j].height
}

/// All rectangles are non-empty.
pub open spec fn all_nonempty(rects: Seq<SurfaceOpaqueRect>) -> bool {
    forall|i: int| #![trigger rects[i]] 0 <= i < rects.len() ==> rects[i].width > 0 && rects[i].height > 0
}

/// All rectangles end at or before `i32::MAX + 1` on both axes.
pub open spec fn all_representable(rects: Seq<SurfaceOpaqueRect>) -> bool {
    forall|i: int|
        #![trigger rects[i]]
        0 <= i < rects.len() ==> rects[i].x + rects[i].width <= i32::MAX + 1 && rects[i].y
            + rects[i].height <= i32::MAX + 1
}

/// All rectangles lie inside `[0, w) x [0, h)`.
pub open spec fn all_inside(rects: Seq<SurfaceOpaqueRect>, w: int, h: int) -> bool {
    forall|i: int|
        #![trigger rects[i]]
        0 <= i < rects.len() ==> 0 <= rects[i].x && rects[i].x + rects[i].width <= w && 0 <= rects[i].y
            && rects[i].y + rects[i].height <= h
}

/// Removes `excluded` from every rectangle of `rects`.
fn subtract_from_all(rects: Vec<SurfaceOpaqueRect>, excluded: SurfaceOpaqueRect) -> (r: Vec<SurfaceOpaqueRect>)
    requires
        all_nonempty(rects@),
    ensures
        all_representable(rects@) ==> forall|px: int, py: int|
            #![trigger rects_have_pixel(r@, px, py)]
            rects_have_pixel(r@, px, py) <==> (rects_have_pixel(rects@, px, py) && !opaque_rect_contains(
                excluded,
                px,
                py,
            )),
        forall|i: int| #![trigger r@[i]] 0 <= i < r@.len() ==> within_some_rect(r@[i], rects@),
{
    let ghost repr = all_representable(rects@);
    let mut out: Vec<SurfaceOpaqueRect> = Vec::new();
    let mut k: usize = 0;
    while k < rects.len()
        invariant
            k <= rects.len(),
            all_nonempty(rects@),
            repr == all_representable(rects@),
            repr ==> forall|px: int, py: int|
                #![trigger rects_have_pixel(out@, px, py)]
                rects_have_pixel(out@, px, py) <==> (rects_have_pixel(rects@.take(k as int), px, py)
                    && !opaque_rect_contains(excluded, px, py)),
            forall|i: int| #![trigger out@[i]] 0 <= i < out@.len() ==> within_some_rect(out@[i], rects@),
        decreases rects.len() - k,
    {
        let source = rects[k];
        assert(rects@[k as int] == source);
        let pieces = subtract_opaque_rect(source, excluded);
        let ghost before = out@;
        assert forall|px: int, py: int|
            repr implies (rects_have_pixel(before, px, py) <==> (rects_have_pixel(rects@.take(k as int), px, py)
                && !opaque_rect_contains(excluded, px, py))) by {
            assert(rects_have_pixel(out@, px, py) <==> (rects_have_pixel(rects@.take(k as int), px, py)
                && !opaque_rect_contains(excluded, px, py)));
        }
        let mut m: usize = 0;
        while m < pieces.len()
            invariant
                m <= pieces.len(),
                out@ == before + pieces@.take(m as int),
            decreases pieces.len() - m,
        {
            out.push(pieces[m]);
            proof {
                assert(out@ =~= before + pieces@.take(m as int + 1));
            }
            m = m + 1;
        }
        assert(pieces@.take(pieces.len() as int) =~= pieces@);
        proof {
            assert(rects@.take(k as int + 1) =~= rects@.take(k as int).push(source));
            if repr {
                assert forall|px: int, py: int|
                    #![trigger rects_have_pixel(out@, px, py)]
                    rects_have_pixel(out@, px, py) <==> (rects_have_pixel(rects@.take(k as int + 1), px, py)
                        && !opaque_rect_contains(excluded, px, py)) by {
                    lemma_concat_has_pixel(before, pieces@, px, py);
                    lemma_push_has_pixel(rects@.take(k as int), source, px, py);
                    assert(rects_have_pixel(pieces@, px, py) <==> (opaque_rect_contains(source, px, py)
                        && !opaque_rect_contains(excluded, px, py)));
                }
            }
            assert forall|i: int| #![trigger out@[i]] 0 <= i < out@.len() implies within_some_rect(out@[i], rects@) by {
                if i < before.len() {
                    assert(out@[i] == before[i]);
                } else {
                    assert(out@[i] == pieces@[i - before.len()]);
                }
            }
        }
        k = k + 1;
    }
    assert(rects@.take(rects.len() as int) =~= rects@);
    out
}

/// The opaque region of a surface of size `w` x `h` whose committed opaque
/// region is `region`. An unset region is not treated as fully opaque.
pub fn opaque_region_for_surface_size(region: &SurfaceInputRegion, width: u32, height: u32) -> (r:
    SurfaceOpaqueRegion)
    ensures
        region is Default ==> r is Empty,
        width <= i32::MAX + 1 && height <= i32::MAX + 1 ==> forall|px: int, py: int|
            #![trigger opaque_region_has_pixel(r, width, height, px, py)]
            opaque_region_has_pixel(r, width, height, px, py) <==> (0 <= px < width && 0 <= py < height
                && match *region {
                SurfaceInputRegion::Default => false,
                SurfaceInputRegion::Custom(ops) => spec_ops_have_pixel(ops@, px, py),
            }),
{
    let ops = match region {
        SurfaceInputRegion::Default => {
            return SurfaceOpaqueRegion::Empty;
        },
        SurfaceInputRegion::Custom(ops) => ops,
    };
    let ghost small = width <= i32::MAX + 1 && height <= i32::MAX + 1;
    let mut rects: Vec<SurfaceOpaqueRect> = Vec::new();
    let mut i: usize = 0;
    while i < ops.len()
        invariant
            i <= ops.len(),
            small == (width <= i32::MAX + 1 && height <= i32::MAX + 1),
            all_nonempty(rects@),
            all_inside(rects@, width as int, height as int),
            small ==> forall|px: int, py: int|
                #![trigger rects_have_pixel(rects@, px, py)]
                rects_have_pixel(rects@, px, py) <==> (0 <= px < width && 0 <= py < height
                    && spec_ops_have_pixel(ops@.take(i as int), px, py)),
        decreases ops.len() - i,
    {
        let op = ops[i];
        proof {
            assert(ops@.take(i as int + 1).drop_last() =~= ops@.take(i as int));
            assert(ops@.take(i as int + 1).last() == op);
        }
        let clipped = clip_opaque_region_rect(op.rect(), width, height);
        let ghost before = rects@;
        match clipped {
            None => {},
            Some(rect) => {
                match op {
                    InputRegionOp::Add(_) => {
                        rects.push(rect);
                    },
                    InputRegionOp::Subtract(_) => {
                        rects = subtract_from_all(rects, rect);
                    },
                }
            },
        }
        proof {
            assert forall|j: int| #![trigger rects@[j]] 0 <= j < rects@.len() implies rects@[j].width > 0
                && rects@[j].height > 0 && 0 <= rects@[j].x && rects@[j].x + rects@[j].width <= width && 0
                <= rects@[j].y && rects@[j].y + rects@[j].height <= height by {
                if clipped is Some && op is Add && j == before.len() {
                } else if clipped is Some && op is Subtract {
                    assert(within_some_rect(rects@[j], before));
                } else {
                    assert(rects@[j] == before[j]);
                }
            }
            if small {
                assert(all_representable(before));
                assert forall|px: int, py: int|
                    #![trigger rects_have_pixel(rects@, px, py)]
                    rects_have_pixel(rects@, px, py) <==> (0 <= px < width && 0 <= py < height
                        && spec_ops_have_pixel(ops@.take(i as int + 1), px, py)) by {
                    assert(rects_have_pixel(before, px, py) <==> (0 <= px < width && 0 <= py < height
                        && spec_ops_have_pixel(ops@.take(i as int), px, py)));
                    match clipped {
                        None => {},
                        Some(rect) => {
                            if op is Add {
                                lemma_push_has_pixel(before, rect, px, py);
                            }
                        },
                    }
                }
            }
        }
        i = i + 1;
    }
    assert(ops@.take(ops.len() as int) =~= ops@);
    let ghost final_rects = rects@;
    let result = SurfaceOpaqueRegion::from_rects(rects, width, height);
    proof {
        if small {
            assert forall|px: int, py: int|
                #![trigger opaque_region_has_pixel(result, width, height, px, py)]
                opaque_region_has_pixel(result, width, height, px, py) <==> rects_have_pixel(final_rects, px, py) by {
                if result is Full {
                    let c = choose|c: int| #![trigger final_rects[c]] 0 <= c < final_rects.len()
                        && opaque_rect_covers(final_rects[c], width, height);
                    if 0 <= px < width && 0 <= py < height {
                        assert(opaque_rect_contains(final_rects[c], px, py));
                    }
                    if rects_have_pixel(final_rects, px, py) {
                        let j = choose|j: int| #![trigger final_rects[j]] 0 <= j < final_rects.len()
                            && opaque_rect_contains(final_rects[j], px, py);
                        assert(0 <= final_rects[j].x);
                    }
                }
            }
        }
    }
    result
}

/// A damage request as the client sent it; only positive sizes are kept.
#[derive(Debug, Clone, Copy, PartialEq, Eq, Structural)]
pub struct PendingDamageRect {
    pub x: i32,
    pub y: i32,
    pub width: i32,
    pub height: i32,
}

impl PendingDamageRect {
    pub fn new(x: i32, y: i32, width: i32, height: i32) -> (r: Option<Self>)
        ensures
            r == (if width <= 0 || height <= 0 {
                None
            } else {
                Some(PendingDamageRect { x, y, width, height })
            }),
    {
        if width <= 0 || height <= 0 {
            return None;
        }
        Some(PendingDamageRect { x, y, width, height })
    }
}

pub open spec fn clamp_to(v: int, lo: int, hi: int) -> int {
    if v < lo {
        lo
    } else if v > hi {
        hi
    } else {
        v
    }
}

/// The edges `[left, right) x [top, bottom)` clamped to the surface, if anything remains.
pub open spec fn spec_clip_edges(left: int, top: int, right: int, bottom: int, w: u32, h: u32) -> Option<
    crate::surface::SurfaceDamageRect,
> {
    let l = clamp_to(left, 0, w as int);
    let t = clamp_to(top, 0, h as int);
    let r = clamp_to(right, 0, w as int);
    let b = clamp_to(bottom, 0, h as int);
    if r > l && b > t {
        Some(
            crate::surface::SurfaceDamageRect {
                x: l as u32,
                y: t as u32,
                width: (r - l) as u32,
                height: (b - t) as u32,
            },
        )
    } else {
        None
    }
}

/// Whether the point `(px, py)` lies in `[left, right) x [top, bottom)` and
/// inside the `w` x `h` extent.
pub open spec fn in_rect_and_extent(left: int, top: int, right: int, bottom: int, w: u32, h: u32, px: int, py: int) -> bool {
    &&& left <= px < right
    &&& top <= py < bottom
    &&& 0 <= px < w
    &&& 0 <= py < h
}

/// Whether the damage rectangle `c` covers the point `(px, py)`.
pub open spec fn damage_covers_point(c: crate::surface::SurfaceDamageRect, px: int, py: int) -> bool {
    c.x <= px < c.x + c.width && c.y <= py < c.y + c.height
}

/// Clipping is intersection: the clipped rectangle covers exactly the points
/// that lie both in the requested rectangle and in the extent (none when
/// nothing is left), and it is never empty.
pub proof fn lemma_clip_edges_is_intersection(
    left: int,
    top: int,
    right: int,
    bottom: int,
    w: u32,
    h: u32,
    px: int,
    py: int,
)
    ensures
        in_rect_and_extent(left, top, right, bottom, w, h, px, py) <==> (spec_clip_edges(
            left,
            top,
            right,
            bottom,
            w,
            h,
        ) matches Some(c) && damage_covers_point(c, px, py)),
        spec_clip_edges(left, top, right, bottom, w, h) matches Some(c) ==> c.width > 0 && c.height > 0,
{
}

/// A rectangle that lies inside the extent is kept as it is.
pub proof fn lemma_clip_edges_keeps_inner_rect(left: int, top: int, right: int, bottom: int, w: u32, h: u32)
    requires
        0 <= left < right <= w,
        0 <= top < bottom <= h,
    ensures
        spec_clip_edges(left, top, right, bottom, w, h) == Some(
            crate::surface::SurfaceDamageRect {
                x: left as u32,
                y: top as u32,
                width: (right - left) as u32,
                height: (bottom - top) as u32,
            },
        ),
{
}

pub fn clip_i64_rect(left: i64, top: i64, right: i64, bottom: i64, width: u32, height: u32) -> (r: Option<
    crate::surface::SurfaceDamageRect,
>)
    ensures
        r == spec_clip_edges(left as int, top as int, right as int, bottom as int, width, height),
        forall|px: int, py: int|
            #[trigger] in_rect_and_extent(left as int, top as int, right as int, bottom as int, width, height, px, py)
                <==> (r matches Some(c) && damage_covers_point(c, px, py)),
        r matches Some(c) ==> c.width > 0 && c.height > 0,
{
    proof {
        assert forall|px: int, py: int|
            #[trigger] in_rect_and_extent(left as int, top as int, right as int, bottom as int, width, height, px, py)
                <==> (spec_clip_edges(left as int, top as int, right as int, bottom as int, width, height) matches Some(
                c,
            ) && damage_covers_point(c, px, py)) by {
            lemma_clip_edges_is_intersection(left as int, top as int, right as int, bottom as int, width, height, px, py);
        }
        lemma_clip_edges_is_intersection(left as int, top as int, right as int, bottom as int, width, height, 0, 0);
    }
    let w: i64 = width as i64;
    let h: i64 = height as i64;
    let l: i64 = if left < 0 { 0 } else if left > w { w } else { left };
    let t: i64 = if top < 0 { 0 } else if top > h { h } else { top };
    let r: i64 = if right < 0 { 0 } else if right > w { w } else { right };
    let b: i64 = if bottom < 0 { 0 } else if bottom > h { h } else { bottom };
    if r > l && b > t {
        Some(
            crate::surface::SurfaceDamageRect {
                x: l as u32,
                y: t as u32,
                width: (r - l) as u32,
                height: (b - t) as u32,
            },
        )
    } else {
        None
    }
}

/// A pending damage request clipped to a `width` x `height` extent.
pub fn clip_pending_rect(rect: PendingDamageRect, width: u32, height: u32) -> (r: Option<
    crate::surface::SurfaceDamageRect,
>)
    ensures
        r == spec_clip_edges(
            rect.x as int,
            rect.y as int,
            rect.x + rect.width,
            rect.y + rect.height,
            width,
            height,
        ),
        forall|px: int, py: int|
            #[trigger] in_rect_and_extent(
                rect.x as int,
                rect.y as int,
                rect.x + rect.width,
                rect.y + rect.height,
                width,
                height,
                px,
                py,
            ) <==> (r matches Some(c) && damage_covers_point(c, px, py)),
        r matches Some(c) ==> c.width > 0 && c.height > 0,
        0 <= rect.x && 0 < rect.width && rect.x + rect.width <= width && 0 <= rect.y && 0 < rect.height && rect.y
            + rect.height <= height ==> r == Some(
            crate::surface::SurfaceDamageRect {
                x: rect.x as u32,
                y: rect.y as u32,
                width: rect.width as u32,
                height: rect.height as u32,
            },
        ),
{
    proof {
        if 0 <= rect.x && 0 < rect.width && rect.x + rect.width <= width && 0 <= rect.y && 0 < rect.height && rect.y
            + rect.height <= height {
            lemma_clip_edges_keeps_inner_rect(
                rect.x as int,
                rect.y as int,
                rect.x + rect.width,
                rect.y + rect.height,
                width,
                height,
            );
        }
    }
    let right: i64 = rect.x as i64 + rect.width as i64;
    let bottom: i64 = rect.y as i64 + rect.height as i64;
    clip_i64_rect(rect.x as i64, rect.y as i64, right, bottom, width, height)
}

} // verus!
