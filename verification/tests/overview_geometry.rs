//! The geometry of the overview, held against the same formulas in floating point.

use flowtile_core_daemon::double::Fraction;
use flowtile_core_daemon::geometry::{
    interpolate_i32, interpolate_rect, interpolate_u32, intersect_rect, rect_bottom,
    rect_contains_point, rect_relative_to, rect_right, rects_intersect, signed_axis_delta,
    translate_rect, translate_rect_between_origins, Rect,
};
use flowtile_core_daemon::overview_engine::scene::{
    workspace_overview_geometry, DistanceRule, OverviewRectTransform,
};
use flowtile_core_daemon::overview_engine::stack::{
    build_preview_stack_layout, build_preview_stack_layout_with_zoom, scale_rect_between_rects,
    scale_rect_to_overview, workspace_live_rect, workspace_preview_canvas_rect,
    workspace_preview_frame_rect, PreviewStackLayout, PreviewZoom,
};
use flowtile_core_daemon::overview_surface::thumbnail::{
    expand_destination_rect_to_outer_bounds, full_window_preview_geometry_for_preview,
    thumbnail_projection, thumbnail_source_rect, visible_frame_is_compatible,
    FullWindowPreviewGeometry,
};
use flowtile_core_daemon::win32::Win32Rect;

/// A stream of numbers that is the same in every run.
struct Numbers(u64);

impl Numbers {
    fn next(&mut self) -> u64 {
        self.0 = self
            .0
            .wrapping_mul(6_364_136_223_846_793_005)
            .wrapping_add(1_442_695_040_888_963_407);
        self.0 >> 16
    }

    fn coordinate(&mut self) -> i32 {
        let bits = 1 + self.next() % 31;
        let value = (self.next() % (1 << bits)) as i32;
        if self.next() % 2 == 0 {
            value
        } else {
            -value
        }
    }

    fn extent(&mut self) -> u32 {
        let bits = 1 + self.next() % 32;
        (self.next() % (1 << bits)) as u32
    }

    fn rect(&mut self) -> Rect {
        Rect::new(
            self.coordinate(),
            self.coordinate(),
            self.extent(),
            self.extent(),
        )
    }
}

fn float_layout(monitor: Rect, zoom: f64) -> PreviewStackLayout {
    let frame_height = (f64::from(monitor.height.max(1)) * zoom).round().max(1.0) as u32;
    let frame_width = (f64::from(monitor.width.max(1)) * zoom).round().max(1.0) as u32;
    let gap = (f64::from(monitor.height.max(1)) * 0.1 * zoom)
        .round()
        .max(1.0) as i32;
    let monitor_height = monitor.height.min(i32::MAX as u32) as i32;
    PreviewStackLayout {
        frame_width,
        frame_height,
        gap,
        active_frame_y: monitor
            .y
            .saturating_add((monitor_height - frame_height.min(i32::MAX as u32) as i32) / 2),
    }
}

fn float_extents(source: Rect, space: Rect, target: Rect) -> (u32, u32) {
    let scale_x = f64::from(target.width.max(1)) / f64::from(space.width.max(1));
    let scale_y = f64::from(target.height.max(1)) / f64::from(space.height.max(1));
    (
        (f64::from(source.width.max(1)) * scale_x).round().max(1.0) as u32,
        (f64::from(source.height.max(1)) * scale_y).round().max(1.0) as u32,
    )
}

fn float_exact(source: i32, space: i32, target: i32, target_extent: u32, space_extent: u32) -> i32 {
    let scale = f64::from(target_extent.max(1)) / f64::from(space_extent.max(1));
    let relative = i64::from(source) - i64::from(space);
    let moved = (relative as f64 * scale)
        .round()
        .clamp(f64::from(i32::MIN), f64::from(i32::MAX)) as i64;
    (i64::from(target) + moved).clamp(i64::from(i32::MIN), i64::from(i32::MAX)) as i32
}

fn float_saturating(
    source: i32,
    space: i32,
    target: i32,
    target_extent: u32,
    space_extent: u32,
) -> i32 {
    let scale = f64::from(target_extent.max(1)) / f64::from(space_extent.max(1));
    let relative = source.saturating_sub(space);
    target.saturating_add((f64::from(relative) * scale).round() as i32)
}

#[test]
fn stack_layouts_agree_with_floating_point() {
    let mut numbers = Numbers(1);
    for _ in 0..20_000 {
        let monitor = numbers.rect();
        assert_eq!(build_preview_stack_layout(monitor), float_layout(monitor, 0.5));
        assert_eq!(
            build_preview_stack_layout_with_zoom(monitor, PreviewZoom::OpenCloseSource),
            float_layout(monitor, 0.7),
            "{monitor:?}"
        );
    }
}

#[test]
fn scaled_rects_agree_with_floating_point() {
    let mut numbers = Numbers(2);
    for _ in 0..20_000 {
        let (source, space, target) = (numbers.rect(), numbers.rect(), numbers.rect());
        let (width, height) = float_extents(source, space, target);
        let exact = Rect::new(
            float_exact(source.x, space.x, target.x, target.width, space.width),
            float_exact(source.y, space.y, target.y, target.height, space.height),
            width,
            height,
        );
        let saturating = Rect::new(
            float_saturating(source.x, space.x, target.x, target.width, space.width),
            float_saturating(source.y, space.y, target.y, target.height, space.height),
            width,
            height,
        );
        assert_eq!(scale_rect_to_overview(source, space, target), exact);
        assert_eq!(scale_rect_between_rects(source, space, target), saturating);
        let transform = |rule| OverviewRectTransform {
            source_space: space,
            target_space: target,
            rule,
        };
        assert_eq!(transform(DistanceRule::Exact).map_rect(source), exact);
        assert_eq!(
            transform(DistanceRule::Saturating).map_rect(source),
            saturating
        );
    }
}

fn float_expanded(destination: Rect, outer: Rect, visible: Rect) -> Option<Rect> {
    if destination.width == 0 || destination.height == 0 || visible.width == 0 || visible.height == 0
    {
        return None;
    }
    let scale_x = f64::from(destination.width) / f64::from(visible.width);
    let scale_y = f64::from(destination.height) / f64::from(visible.height);
    let inset = |inner: i32, outer: i32| f64::from(inner.saturating_sub(outer).max(0));
    let left = (f64::from(destination.x) - inset(visible.x, outer.x) * scale_x).floor();
    let top = (f64::from(destination.y) - inset(visible.y, outer.y) * scale_y).floor();
    let right = (f64::from(rect_right(destination))
        + inset(rect_right(outer), rect_right(visible)) * scale_x)
        .ceil();
    let bottom = (f64::from(rect_bottom(destination))
        + inset(rect_bottom(outer), rect_bottom(visible)) * scale_y)
        .ceil();
    Some(Rect::new(
        left.clamp(f64::from(i32::MIN), f64::from(i32::MAX)) as i32,
        top.clamp(f64::from(i32::MIN), f64::from(i32::MAX)) as i32,
        (right - left).max(1.0).min(f64::from(u32::MAX)) as u32,
        (bottom - top).max(1.0).min(f64::from(u32::MAX)) as u32,
    ))
}

#[test]
fn expanded_destinations_agree_with_floating_point() {
    let mut numbers = Numbers(3);
    for _ in 0..20_000 {
        let (destination, outer, visible) = (numbers.rect(), numbers.rect(), numbers.rect());
        assert_eq!(
            expand_destination_rect_to_outer_bounds(destination, outer, visible),
            float_expanded(destination, outer, visible),
            "{destination:?} {outer:?} {visible:?}"
        );
    }
}

#[test]
fn fractions_agree_with_floating_point() {
    let mut numbers = Numbers(4);
    for _ in 0..20_000 {
        let a = numbers.extent().max(1);
        let b = numbers.extent().max(1);
        let n = u64::from(numbers.extent());
        let ratio = Fraction::ratio(a, b);
        let float_ratio = f64::from(a) / f64::from(b);
        assert_eq!(
            ratio.mantissa as f64 * 2f64.powi(ratio.exponent),
            float_ratio
        );
        let product = Fraction::whole(n).times(ratio);
        let float_product = n as f64 * float_ratio;
        assert_eq!(
            product.mantissa as f64 * 2f64.powi(product.exponent),
            float_product
        );
        assert_eq!(product.round(), float_product.round() as u128);
    }
}

#[test]
fn halves_are_rounded_away_from_zero() {
    assert_eq!(
        Fraction {
            mantissa: 5,
            exponent: -1
        }
        .round(),
        3
    );
    assert_eq!(
        Fraction {
            mantissa: 9,
            exponent: -2
        }
        .round(),
        2
    );
    let odd = Rect::new(-3, -3, 5, 5);
    let half = scale_rect_to_overview(odd, Rect::new(0, 0, 2, 2), Rect::new(0, 0, 1, 1));
    assert_eq!(half, Rect::new(-2, -2, 3, 3));
}

#[test]
fn a_full_hd_monitor_has_this_stack() {
    let monitor = Rect::new(0, 0, 1920, 1080);
    let layout = build_preview_stack_layout(monitor);
    assert_eq!(
        layout,
        PreviewStackLayout {
            frame_width: 960,
            frame_height: 540,
            gap: 54,
            active_frame_y: 270,
        }
    );
    assert_eq!(
        workspace_preview_frame_rect(monitor, layout, 0),
        Rect::new(480, 270, 960, 540)
    );
    assert_eq!(
        workspace_preview_frame_rect(monitor, layout, -2),
        Rect::new(480, 270 - 2 * 594, 960, 540)
    );
    assert_eq!(
        workspace_live_rect(monitor, 3),
        Rect::new(0, 3240, 1920, 1080)
    );
    assert_eq!(
        workspace_live_rect(monitor, i128::MAX),
        Rect::new(0, i32::MAX, 1920, 1080)
    );
    assert_eq!(
        workspace_preview_canvas_rect(Rect::new(480, 270, 960, 540), monitor),
        Rect::new(0, 270, 1920, 540)
    );
}

#[test]
fn tiled_and_other_windows_are_mapped_alike() {
    let monitor = Rect::new(100, 50, 1600, 900);
    let frame = Rect::new(500, 275, 800, 450);
    let geometry = workspace_overview_geometry(monitor, frame, DistanceRule::Exact);
    assert_eq!(geometry.canvas_rect, Rect::new(100, 275, 1600, 450));
    assert_eq!(geometry.viewport_rect, frame);
    assert_eq!(
        geometry.tiled_window_transform,
        geometry.monitor_window_transform
    );
}

#[test]
fn edges_stop_at_the_ends_of_the_coordinates() {
    assert_eq!(rect_right(Rect::new(10, 0, 5, 1)), 15);
    assert_eq!(rect_right(Rect::new(10, 0, u32::MAX, 1)), i32::MAX);
    assert_eq!(rect_bottom(Rect::new(0, -10, 1, u32::MAX)), i32::MAX - 10);
    assert_eq!(signed_axis_delta(i32::MIN, i32::MAX), i32::MAX);
    assert_eq!(signed_axis_delta(7, 3), -4);
}

#[test]
fn the_common_part_of_two_rectangles() {
    let left = Rect::new(0, 0, 100, 50);
    let right = Rect::new(60, 20, 100, 50);
    assert_eq!(intersect_rect(left, right), Some(Rect::new(60, 20, 40, 30)));
    assert!(rects_intersect(left, right));
    let beside = Rect::new(100, 0, 10, 10);
    assert_eq!(intersect_rect(left, beside), None);
    assert!(!rects_intersect(left, beside));
    assert!(rect_contains_point(left, 0, 0));
    assert!(rect_contains_point(left, 99, 49));
    assert!(!rect_contains_point(left, 100, 49));
    assert!(!rect_contains_point(left, 99, 50));
}

#[test]
fn relative_positions_can_be_undone() {
    let rect = Rect::new(700, -40, 30, 20);
    let origin = Rect::new(512, 100, 1, 1);
    let relative = rect_relative_to(rect, origin);
    assert_eq!(relative, Rect::new(188, -140, 30, 20));
    assert_eq!(translate_rect(relative, origin.x, origin.y), rect);
    assert_eq!(
        translate_rect_between_origins(rect, origin, Rect::new(0, 0, 9, 9)),
        Rect::new(188, -140, 30, 20)
    );
}

#[test]
fn interpolation_stays_between_its_ends() {
    assert_eq!(interpolate_i32(0, 1000, 250), 250);
    assert_eq!(interpolate_i32(0, -7, 500), -3);
    assert_eq!(interpolate_i32(i32::MIN, i32::MAX, 1000), -1);
    assert_eq!(interpolate_u32(1, 10, 500), 5);
    assert_eq!(interpolate_u32(10, 1, 999), 2);
    let from = Rect::new(0, 0, 0, 100);
    let to = Rect::new(100, -100, 0, 300);
    assert_eq!(interpolate_rect(from, to, 0), from);
    assert_eq!(interpolate_rect(from, to, 1000), to);
    assert_eq!(interpolate_rect(from, to, 2000), to);
    assert_eq!(
        interpolate_rect(from, to, 500),
        Rect::new(50, -50, 1, 200)
    );
}

#[test]
fn projections_stay_in_their_source() {
    let mut numbers = Numbers(5);
    for _ in 0..20_000 {
        let (window, clipped, canvas) = (numbers.rect(), numbers.rect(), numbers.rect());
        let source = Rect::new(
            numbers.coordinate().max(0) / 2,
            numbers.coordinate().max(0) / 2,
            numbers.extent() >> 2,
            numbers.extent() >> 2,
        );
        let Some(projection) = thumbnail_projection(window, clipped, canvas, source) else {
            assert!(window.width == 0 || window.height == 0);
            continue;
        };
        let part = projection.source_rect;
        assert!(part.x >= source.x && part.y >= source.y);
        assert!(part.width >= 1 && part.height >= 1);
        assert!(
            i64::from(part.x) + i64::from(part.width)
                <= i64::from(source.x) + i64::from(source.width.max(1))
        );
        assert!(
            i64::from(part.y) + i64::from(part.height)
                <= i64::from(source.y) + i64::from(source.height.max(1))
        );
    }
    assert_eq!(
        thumbnail_projection(
            Rect::new(0, 0, 0, 5),
            Rect::new(0, 0, 1, 1),
            Rect::new(0, 0, 1, 1),
            Rect::new(0, 0, 1, 1)
        ),
        None
    );
    assert_eq!(thumbnail_source_rect(0, -3), Rect::new(0, 0, 1, 1));
    assert_eq!(thumbnail_source_rect(640, 480), Rect::new(0, 0, 640, 480));
}

#[test]
fn a_visible_frame_lies_in_its_window() {
    let outer = Rect::new(100, 100, 1016, 700);
    assert_eq!(
        visible_frame_is_compatible(outer, Rect::new(108, 100, 1000, 700)),
        Some(())
    );
    assert_eq!(
        visible_frame_is_compatible(outer, Rect::new(99, 100, 1000, 700)),
        None
    );
    assert_eq!(
        visible_frame_is_compatible(outer, Rect::new(108, 100, 1009, 700)),
        None
    );
    assert_eq!(
        visible_frame_is_compatible(outer, Rect::new(108, 100, 0, 700)),
        None
    );
    let edges = |rect: Rect| Win32Rect {
        left: rect.x,
        top: rect.y,
        right: rect_right(rect),
        bottom: rect_bottom(rect),
    };
    let visible = Rect::new(108, 100, 1000, 700);
    let destination = Rect::new(200, 50, 400, 200);
    assert_eq!(
        full_window_preview_geometry_for_preview(
            Some(edges(outer)),
            Some(edges(visible)),
            destination
        ),
        Some(FullWindowPreviewGeometry {
            destination_rect: Rect::new(196, 50, 408, 200),
            outer_rect: outer,
            visible_rect: visible,
        })
    );
    assert_eq!(
        full_window_preview_geometry_for_preview(None, Some(edges(visible)), destination),
        None
    );
    assert_eq!(
        full_window_preview_geometry_for_preview(Some(edges(outer)), None, destination),
        None
    );
}
