use typhon::buffer::BufferSize;
use typhon::surface::SurfacePlacement;
use typhon::window_geometry::{
    clamp_resize_geometry, constrain_icccm_dimension, constrain_icccm_size,
    derive_root_render_placement, AspectRatio, ResizeEdges, WindowConstraints, WindowGeometry,
    WindowVisualExtents, XdgWindowGeometry,
};

#[test]
fn root_render_placement_is_frame_origin_minus_committed_window_geometry() {
    assert_eq!(
        derive_root_render_placement(
            SurfacePlacement::absolute_root_at(100, 100),
            Some(XdgWindowGeometry::new(16, 10, 1000, 700)),
        ),
        SurfacePlacement::absolute_root_at(84, 90),
    );
}

#[test]
fn root_render_placement_derivation_is_deterministic_across_repeated_calculations() {
    let frame = SurfacePlacement::absolute_root_at(100, 100);
    let committed_geometry = Some(XdgWindowGeometry::new(16, 10, 1000, 700));
    let expected = SurfacePlacement::absolute_root_at(84, 90);

    for cycle in 0..100 {
        assert_eq!(
            derive_root_render_placement(frame, committed_geometry),
            expected,
            "derived root placement changed during cycle {cycle}"
        );
    }

    assert_eq!(
        derive_root_render_placement(
            SurfacePlacement::absolute_root_at(120, 130),
            committed_geometry,
        ),
        SurfacePlacement::absolute_root_at(104, 120),
    );
}

#[test]
fn window_visual_extents_use_signed_root_and_xdg_rectangles() {
    let root_buffer = BufferSize::new(332, 242).expect("test root buffer");

    assert_eq!(
        WindowVisualExtents::from_root_buffer_and_window_geometry(
            root_buffer,
            XdgWindowGeometry::new(16, 10, 300, 200),
        ),
        WindowVisualExtents {
            left: 16,
            top: 10,
            right: 16,
            bottom: 32,
        }
    );
    assert_eq!(
        WindowVisualExtents::from_root_buffer_and_window_geometry(
            root_buffer,
            XdgWindowGeometry::new(-12, -8, 300, 200),
        ),
        WindowVisualExtents {
            left: 0,
            top: 0,
            right: 44,
            bottom: 50,
        }
    );
    assert_eq!(
        WindowVisualExtents::from_root_buffer_and_window_geometry(
            root_buffer,
            XdgWindowGeometry::new(40, 20, 360, 260),
        ),
        WindowVisualExtents {
            left: 40,
            top: 20,
            right: 0,
            bottom: 0,
        }
    );
}

#[test]
fn window_visual_extents_clamp_extreme_signed_offsets_without_underflow() {
    let extents = WindowVisualExtents::from_root_buffer_and_window_geometry(
        BufferSize::new(332, 242).expect("test root buffer"),
        XdgWindowGeometry::new(i32::MIN, i32::MIN, i32::MAX, i32::MAX),
    );

    assert_eq!(extents.left, 0);
    assert_eq!(extents.top, 0);
    assert_eq!(extents.right, 333);
    assert_eq!(extents.bottom, 243);
}

#[test]
fn x11_resize_respects_base_size_and_increments() {
    let constraints = WindowConstraints {
        min_width: Some(320),
        min_height: Some(200),
        base_width: Some(320),
        base_height: Some(200),
        width_increment: Some(8),
        height_increment: Some(10),
        ..WindowConstraints::default()
    };
    assert_eq!(constrain_icccm_size(327, 209, constraints), (320, 200));
    assert_eq!(constrain_icccm_size(329, 211, constraints), (328, 210));
}

#[test]
fn fixed_size_constraints_win_over_generic_minimum() {
    let constraints = WindowConstraints {
        min_width: Some(100),
        max_width: Some(100),
        min_height: Some(80),
        max_height: Some(80),
        ..WindowConstraints::default()
    };
    assert_eq!(constrain_icccm_size(900, 700, constraints), (100, 80));
}

#[test]
fn left_and_top_resize_preserve_fixed_opposite_edges() {
    let constraints = WindowConstraints {
        min_width: Some(500),
        min_height: Some(400),
        ..WindowConstraints::default()
    };

    let geometry = clamp_resize_geometry(
        constraints,
        WindowGeometry::new(SurfacePlacement::root_at(100, 100), 300, 200),
        ResizeEdges::new(true, false, true, false),
    );
    assert_eq!(geometry.width, 500);
    assert_eq!(geometry.height, 400);
    assert_eq!(geometry.placement, SurfacePlacement::root_at(-100, -100));
}

#[test]
fn right_and_bottom_resize_keep_origin() {
    let constraints = WindowConstraints {
        min_width: Some(500),
        min_height: Some(400),
        ..WindowConstraints::default()
    };
    let geometry = clamp_resize_geometry(
        constraints,
        WindowGeometry::new(SurfacePlacement::root_at(100, 100), 300, 200),
        ResizeEdges::bottom_right(),
    );
    assert_eq!((geometry.width, geometry.height), (500, 400));
    assert_eq!(geometry.placement, SurfacePlacement::root_at(100, 100));
}

#[test]
fn unconstrained_dimension_uses_fallback_minimum_and_maximum_caps() {
    assert_eq!(constrain_icccm_dimension(10, None, None, None, None, 64), 64);
    assert_eq!(constrain_icccm_dimension(10, None, Some(500), None, None, 64), 10);
    assert_eq!(constrain_icccm_dimension(900, None, Some(500), None, None, 64), 500);
    assert_eq!(constrain_icccm_dimension(900, Some(0), Some(0), None, None, 64), 1);
    assert_eq!(constrain_icccm_dimension(107, Some(100), None, None, Some(5), 64), 105);
}

#[test]
fn aspect_limits_adjust_one_side() {
    let constraints = WindowConstraints {
        min_aspect: Some(AspectRatio { numerator: 2, denominator: 1 }),
        ..WindowConstraints::default()
    };
    assert_eq!(constrain_icccm_size(100, 100, constraints), (200, 100));
    let constraints = WindowConstraints {
        max_aspect: Some(AspectRatio { numerator: 1, denominator: 1 }),
        ..WindowConstraints::default()
    };
    assert_eq!(constrain_icccm_size(300, 100, constraints), (300, 300));
}
