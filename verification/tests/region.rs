use typhon::fixed::Fixed;
use typhon::region::{
    opaque_region_for_surface_size, subtract_opaque_rect, InputRegionOp, InputRegionRect,
    RegionData, SurfaceInputRegion, SurfaceOpaqueRect, SurfaceOpaqueRegion,
};
use typhon::surface_state::SurfaceData;

fn rect(x: i32, y: i32, width: i32, height: i32) -> InputRegionRect {
    InputRegionRect::new(x, y, width, height).unwrap()
}

fn opaque(x: i32, y: i32, width: u32, height: u32) -> SurfaceOpaqueRect {
    SurfaceOpaqueRect::new(x, y, width, height).unwrap()
}

fn px(v: i32) -> Fixed {
    Fixed::from_int(v)
}

fn pixel_count(rects: &[SurfaceOpaqueRect]) -> u64 {
    rects
        .iter()
        .map(|r| u64::from(r.width) * u64::from(r.height))
        .sum()
}

fn covers(rects: &[SurfaceOpaqueRect], x: i32, y: i32) -> bool {
    rects.iter().any(|r| {
        r.x <= x && x < r.x + r.width as i32 && r.y <= y && y < r.y + r.height as i32
    })
}

#[test]
fn region_destroy_after_set_does_not_change_pending_copy() {
    let mut region = RegionData::default();
    region.push(InputRegionOp::Add(rect(0, 0, 4, 4)));
    let snapshot = region.snapshot();
    region.push(InputRegionOp::Add(rect(8, 8, 4, 4)));
    assert_eq!(
        snapshot,
        SurfaceInputRegion::Custom(vec![InputRegionOp::Add(rect(0, 0, 4, 4))])
    );
}

#[test]
fn empty_region_rectangles_are_refused() {
    assert!(InputRegionRect::new(0, 0, 0, 4).is_none());
    assert!(InputRegionRect::new(0, 0, 4, -1).is_none());
    assert!(SurfaceOpaqueRect::new(0, 0, 0, 4).is_none());
}

#[test]
fn region_operations_apply_in_order() {
    let region = SurfaceInputRegion::Custom(vec![
        InputRegionOp::Add(rect(0, 0, 10, 10)),
        InputRegionOp::Subtract(rect(2, 2, 4, 4)),
        InputRegionOp::Add(rect(3, 3, 1, 1)),
    ]);

    assert!(region.contains(px(0), px(0), 100, 100));
    assert!(!region.contains(px(2), px(2), 100, 100));
    assert!(region.contains(px(3), px(3), 100, 100));
    assert!(!region.contains(px(10), px(5), 100, 100));
}

#[test]
fn default_input_region_is_the_whole_surface() {
    let region = SurfaceInputRegion::Default;

    assert!(region.contains(px(0), px(0), 10, 10));
    assert!(region.contains(Fixed::from_raw(10 * 256 - 1), px(9), 10, 10));
    assert!(!region.contains(px(10), px(0), 10, 10));
    assert!(!region.contains(Fixed::from_raw(-1), px(0), 10, 10));
}

#[test]
fn subtracting_a_hole_leaves_four_strips() {
    let pieces = subtract_opaque_rect(opaque(0, 0, 10, 10), opaque(3, 3, 2, 2));

    assert_eq!(pieces.len(), 4);
    assert_eq!(pixel_count(&pieces), 96);
    assert!(!covers(&pieces, 3, 3));
    assert!(!covers(&pieces, 4, 4));
    assert!(covers(&pieces, 5, 5));
    assert!(covers(&pieces, 0, 9));
}

#[test]
fn subtracting_a_disjoint_rectangle_keeps_the_source() {
    let pieces = subtract_opaque_rect(opaque(0, 0, 10, 10), opaque(20, 20, 5, 5));

    assert_eq!(pieces, vec![opaque(0, 0, 10, 10)]);
}

#[test]
fn subtracting_a_covering_rectangle_leaves_nothing() {
    let pieces = subtract_opaque_rect(opaque(2, 2, 4, 4), opaque(0, 0, 10, 10));

    assert!(pieces.is_empty());
}

#[test]
fn unset_opaque_region_is_empty() {
    assert_eq!(
        opaque_region_for_surface_size(&SurfaceInputRegion::Default, 10, 10),
        SurfaceOpaqueRegion::Empty
    );
}

#[test]
fn opaque_region_covering_the_surface_is_full() {
    let region = SurfaceInputRegion::Custom(vec![InputRegionOp::Add(rect(-5, -5, 100, 100))]);

    assert_eq!(
        opaque_region_for_surface_size(&region, 10, 10),
        SurfaceOpaqueRegion::Full
    );
}

#[test]
fn opaque_region_subtraction_keeps_the_hole_transparent() {
    let region = SurfaceInputRegion::Custom(vec![
        InputRegionOp::Add(rect(0, 0, 10, 10)),
        InputRegionOp::Subtract(rect(4, 4, 2, 2)),
    ]);

    match opaque_region_for_surface_size(&region, 10, 10) {
        SurfaceOpaqueRegion::Partial(rects) => {
            assert_eq!(pixel_count(&rects), 96);
            assert!(!covers(&rects, 4, 4));
            assert!(!covers(&rects, 5, 5));
            assert!(covers(&rects, 3, 3));
        }
        other => panic!("unexpected opaque region {other:?}"),
    }
}

#[test]
fn opaque_region_is_double_buffered_on_the_surface() {
    let mut data = SurfaceData::new(7);
    data.set_pending_opaque_region(SurfaceInputRegion::Custom(vec![InputRegionOp::Add(rect(
        0, 0, 4, 4,
    ))]));

    assert_eq!(
        data.opaque_region_for_surface_size(10, 10),
        SurfaceOpaqueRegion::Empty
    );

    let pending = data.take_pending_opaque_region();
    assert!(data.apply_opaque_region_change(pending));
    assert_eq!(
        data.opaque_region_for_surface_size(10, 10),
        SurfaceOpaqueRegion::Partial(vec![opaque(0, 0, 4, 4)])
    );
    assert!(!data.apply_opaque_region_change(None));
}

#[test]
fn input_region_change_is_reported_only_when_it_differs() {
    let mut data = SurfaceData::new(7);
    let region = SurfaceInputRegion::Custom(vec![InputRegionOp::Add(rect(0, 0, 4, 4))]);

    assert!(data.apply_input_region_change(Some(region.clone())));
    assert!(!data.apply_input_region_change(Some(region.clone())));
    assert_eq!(data.committed_input_region_snapshot(), region);
    assert!(data.input_region_contains(px(1), px(1), 10, 10));
    assert!(!data.input_region_contains(px(5), px(5), 10, 10));
}
