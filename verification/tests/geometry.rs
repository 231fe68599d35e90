use edge_snap::config::{EdgeSnapConfig, WindowConfig};
use edge_snap::geometry::{
    can_detect_edge, can_expand, can_snap, can_test_hot_zone, cursor_in_hot_zone, detect_edge,
    expanded_target_position, snapped_target_position, Edge, RectI32,
};
use edge_snap::placement::{can_place, get_window_and_work_area, locate_window};

fn rect(left: i32, top: i32, right: i32, bottom: i32) -> RectI32 {
    RectI32 { left, top, right, bottom }
}

fn moved(r: RectI32, to: (i32, i32)) -> RectI32 {
    rect(to.0, to.1, to.0 + r.width(), to.1 + r.height())
}

const WORK: RectI32 = RectI32 { left: 0, top: 0, right: 1920, bottom: 1080 };

#[test]
fn detect_edge_left_right_top() {
    let work = RectI32 {
        left: 0,
        top: 0,
        right: 1920,
        bottom: 1080,
    };
    let threshold = 20;

    let left = RectI32 {
        left: 10,
        top: 100,
        right: 510,
        bottom: 600,
    };
    assert_eq!(detect_edge(&left, &work, threshold), Some(Edge::Left));

    let right = RectI32 {
        left: 1420,
        top: 100,
        right: 1910,
        bottom: 600,
    };
    assert_eq!(detect_edge(&right, &work, threshold), Some(Edge::Right));

    let top = RectI32 {
        left: 100,
        top: 5,
        right: 600,
        bottom: 505,
    };
    assert_eq!(detect_edge(&top, &work, threshold), Some(Edge::Top));
}

#[test]
fn snapped_target_respects_peek_width() {
    let work = RectI32 {
        left: 0,
        top: 0,
        right: 1920,
        bottom: 1080,
    };
    let rect = RectI32 {
        left: 100,
        top: 200,
        right: 900,
        bottom: 700,
    };
    let peek = 5;

    let (x, y) = snapped_target_position(&rect, &work, peek, Edge::Left);
    assert_eq!(y, 200);
    assert_eq!(x, 0 - (rect.width() - peek));

    let (x, y) = snapped_target_position(&rect, &work, peek, Edge::Right);
    assert_eq!(y, 200);
    assert_eq!(x, 1920 - peek);

    let (x, y) = snapped_target_position(&rect, &work, peek, Edge::Top);
    assert_eq!(x, 100);
    assert_eq!(y, 0 - (rect.height() - peek));
}

#[test]
fn detection_is_inclusive_and_ordered() {
    assert_eq!(detect_edge(&rect(20, 100, 520, 600), &WORK, 20), Some(Edge::Left));
    assert_eq!(detect_edge(&rect(21, 100, 521, 600), &WORK, 20), None);
    assert_eq!(detect_edge(&rect(1000, 100, 1900, 600), &WORK, 20), Some(Edge::Right));
    assert_eq!(detect_edge(&rect(1000, 100, 1899, 600), &WORK, 20), None);
    assert_eq!(detect_edge(&rect(100, 20, 600, 600), &WORK, 20), Some(Edge::Top));
    assert_eq!(detect_edge(&rect(100, 21, 600, 600), &WORK, 20), None);
    // Near all three edges, left goes first; near right and top, right does.
    assert_eq!(detect_edge(&rect(0, 0, 1920, 600), &WORK, 20), Some(Edge::Left));
    assert_eq!(detect_edge(&rect(100, 0, 1920, 600), &WORK, 20), Some(Edge::Right));
    // The bottom edge does not count.
    assert_eq!(detect_edge(&rect(100, 500, 600, 1080), &WORK, 20), None);
}

#[test]
fn larger_threshold_detects_more() {
    let window = rect(30, 100, 530, 600);
    assert_eq!(detect_edge(&window, &WORK, 20), None);
    assert_eq!(detect_edge(&window, &WORK, 30), Some(Edge::Left));
    assert_eq!(detect_edge(&window, &WORK, 100), Some(Edge::Left));
    // With more reach the edge found can only come earlier in the order.
    let corner = rect(100, 5, 1890, 505);
    assert_eq!(detect_edge(&corner, &WORK, 20), Some(Edge::Top));
    assert_eq!(detect_edge(&corner, &WORK, 30), Some(Edge::Right));
    assert_eq!(detect_edge(&corner, &WORK, 100), Some(Edge::Left));
}

#[test]
fn detection_range_is_tested_in_order() {
    let far = rect(i32::MAX - 5, 0, i32::MAX, 100);
    assert!(!can_detect_edge(&rect(0, 0, 1, 1), &far, 20));
    // A window near the left edge is not compared with the others.
    let low = rect(0, 0, i32::MIN + 5, 100);
    assert!(can_detect_edge(&rect(0, 0, 1, 1), &low, 20));
    assert!(!can_detect_edge(&rect(21, 0, 22, 1), &low, 20));
    // Nor is one near the right edge compared with the top.
    let deep = rect(0, i32::MAX - 5, 100, i32::MAX);
    assert!(can_detect_edge(&rect(50, 0, 90, 1), &deep, 20));
    assert!(!can_detect_edge(&rect(50, 0, 60, 1), &deep, 20));
    assert!(can_detect_edge(&rect(50, 0, 60, 1), &WORK, 20));
}

#[test]
fn rectangles_measure_and_contain() {
    let r = rect(-10, 5, 30, 25);
    assert_eq!(r.width(), 40);
    assert_eq!(r.height(), 20);
    assert!(r.contains_point(-10, 5));
    assert!(r.contains_point(30, 25));
    assert!(!r.contains_point(31, 25));
    assert!(!r.contains_point(30, 26));
    assert!(!r.contains_point(-11, 5));
    assert!(!r.contains_point(-10, 4));
}

#[test]
fn hot_zones_have_their_borders() {
    let window = rect(100, 200, 900, 700);
    assert!(cursor_in_hot_zone(Edge::Left, 10, 200, &window, &WORK));
    assert!(cursor_in_hot_zone(Edge::Left, -50, 700, &window, &WORK));
    assert!(!cursor_in_hot_zone(Edge::Left, 11, 200, &window, &WORK));
    assert!(!cursor_in_hot_zone(Edge::Left, 10, 199, &window, &WORK));
    assert!(!cursor_in_hot_zone(Edge::Left, 10, 701, &window, &WORK));
    assert!(cursor_in_hot_zone(Edge::Right, 1910, 200, &window, &WORK));
    assert!(!cursor_in_hot_zone(Edge::Right, 1909, 200, &window, &WORK));
    assert!(!cursor_in_hot_zone(Edge::Right, 1910, 701, &window, &WORK));
    assert!(cursor_in_hot_zone(Edge::Top, 100, 10, &window, &WORK));
    assert!(cursor_in_hot_zone(Edge::Top, 900, -3, &window, &WORK));
    assert!(!cursor_in_hot_zone(Edge::Top, 100, 11, &window, &WORK));
    assert!(!cursor_in_hot_zone(Edge::Top, 99, 10, &window, &WORK));
    assert!(!cursor_in_hot_zone(Edge::Top, 901, 10, &window, &WORK));
}

#[test]
fn hot_zone_range_depends_on_edge() {
    let window = rect(0, 0, 100, 100);
    let far = rect(i32::MAX, i32::MAX, i32::MIN, 0);
    assert!(!can_test_hot_zone(Edge::Left, 0, &window, &far));
    assert!(!can_test_hot_zone(Edge::Right, 0, &window, &far));
    assert!(!can_test_hot_zone(Edge::Top, 50, &window, &far));
    assert!(can_test_hot_zone(Edge::Top, 101, &window, &far));
    assert!(can_test_hot_zone(Edge::Top, -1, &window, &far));
    assert!(can_test_hot_zone(Edge::Left, 0, &window, &WORK));
    assert!(can_test_hot_zone(Edge::Right, 0, &window, &WORK));
    assert!(can_test_hot_zone(Edge::Top, 50, &window, &WORK));
}

#[test]
fn expanded_targets_are_flush() {
    let window = rect(-700, 200, 100, 700);
    assert_eq!(expanded_target_position(&window, &WORK, Edge::Left), (0, 200));
    assert_eq!(expanded_target_position(&window, &WORK, Edge::Right), (1120, 200));
    assert_eq!(expanded_target_position(&window, &WORK, Edge::Top), (-700, 0));
}

#[test]
fn hiding_and_revealing_undo_each_other() {
    let start = rect(100, 200, 900, 700);
    for edge in [Edge::Left, Edge::Right, Edge::Top] {
        let hidden = moved(start, snapped_target_position(&start, &WORK, 5, edge));
        let out = moved(hidden, expanded_target_position(&hidden, &WORK, edge));
        assert_eq!((out.left, out.top), expanded_target_position(&start, &WORK, edge));
        let again = moved(out, snapped_target_position(&out, &WORK, 5, edge));
        assert_eq!(again, hidden);
    }
}

#[test]
fn hidden_window_peeks_and_is_detected() {
    let start = rect(100, 200, 900, 700);
    let left = moved(start, snapped_target_position(&start, &WORK, 5, Edge::Left));
    assert_eq!(left, rect(-795, 200, 5, 700));
    let right = moved(start, snapped_target_position(&start, &WORK, 5, Edge::Right));
    assert_eq!(right, rect(1915, 200, 2715, 700));
    let top = moved(start, snapped_target_position(&start, &WORK, 5, Edge::Top));
    assert_eq!(top, rect(100, -495, 900, 5));
    assert_eq!(detect_edge(&left, &WORK, 20), Some(Edge::Left));
    assert_eq!(detect_edge(&right, &WORK, 20), Some(Edge::Right));
    assert_eq!(detect_edge(&top, &WORK, 20), Some(Edge::Top));
}

#[test]
fn strip_wakes_window_up_to_hot_zone_depth() {
    let start = rect(100, 200, 900, 700);
    let thin = moved(start, snapped_target_position(&start, &WORK, 10, Edge::Left));
    assert!(cursor_in_hot_zone(Edge::Left, thin.right, 300, &thin, &WORK));
    let thick = moved(start, snapped_target_position(&start, &WORK, 11, Edge::Left));
    assert!(!cursor_in_hot_zone(Edge::Left, thick.right, 300, &thick, &WORK));
}

#[test]
fn target_range_depends_on_edge() {
    let vast = rect(i32::MIN, i32::MIN, i32::MAX, i32::MAX);
    assert!(!can_snap(&vast, &WORK, 5, Edge::Left));
    assert!(!can_snap(&vast, &WORK, 5, Edge::Top));
    assert!(can_snap(&vast, &WORK, 5, Edge::Right));
    assert!(!can_expand(&vast, &WORK, Edge::Right));
    assert!(can_expand(&vast, &WORK, Edge::Left));
    assert!(can_expand(&vast, &WORK, Edge::Top));
    let window = rect(100, 200, 900, 700);
    assert!(!can_snap(&window, &WORK, i32::MIN, Edge::Left));
    assert!(!can_snap(&window, &WORK, i32::MIN, Edge::Right));
    assert!(!can_snap(&window, &rect(i32::MIN, 0, 0, 100), 5, Edge::Left));
    assert!(!can_expand(&window, &rect(0, 0, i32::MIN, 100), Edge::Right));
    assert!(can_snap(&window, &WORK, 5, Edge::Left));
    assert!(can_snap(&window, &WORK, 5, Edge::Top));
    assert!(can_expand(&window, &WORK, Edge::Right));
}

#[test]
fn window_config_is_taken_over() {
    let taken = EdgeSnapConfig::from_window_config(&WindowConfig {
        edge_snap_enabled: true,
        edge_snap_threshold: 20,
        edge_snap_peek_width: 5,
        edge_snap_delay: 300,
    });
    assert!(taken.enabled);
    assert_eq!(taken.threshold, 20);
    assert_eq!(taken.peek_width, 5);
    assert_eq!(taken.snap_delay_ms, 300);

    let wrapped = EdgeSnapConfig::from_window_config(&WindowConfig {
        edge_snap_enabled: false,
        edge_snap_threshold: u32::MAX,
        edge_snap_peek_width: 0x8000_0000,
        edge_snap_delay: u32::MAX,
    });
    assert!(!wrapped.enabled);
    assert_eq!(wrapped.threshold, -1);
    assert_eq!(wrapped.peek_width, i32::MIN);
    assert_eq!(wrapped.snap_delay_ms, 4_294_967_295);
}

#[test]
fn window_is_placed_by_position_and_size() {
    let placement = locate_window(Ok((-5, 7)), Ok((801, 500))).unwrap();
    assert_eq!(placement.rect, rect(-5, 7, 796, 507));
    assert_eq!((placement.center_x, placement.center_y), (395, 257));
    let both = get_window_and_work_area(&placement, Ok(WORK));
    assert_eq!(both, Ok((rect(-5, 7, 796, 507), WORK)));
    // A size beyond `i32::MAX` counts as negative, and is halved toward zero.
    let odd = locate_window(Ok((10, 0)), Ok((u32::MAX, u32::MAX - 2))).unwrap();
    assert_eq!(odd.rect, rect(10, 0, 9, -3));
    assert_eq!((odd.center_x, odd.center_y), (10, -1));
}

#[test]
fn placement_failures_are_named() {
    let no = |s: &str| s.to_string();
    assert_eq!(
        locate_window(Err(no("gone")), Ok((1, 1))),
        Err(no("Failed to get outer position: gone"))
    );
    assert_eq!(
        locate_window(Err(no("gone")), Err(no("lost"))),
        Err(no("Failed to get outer position: gone"))
    );
    assert_eq!(
        locate_window(Ok((0, 0)), Err(no("lost"))),
        Err(no("Failed to get outer size: lost"))
    );
    let placement = locate_window(Ok((0, 0)), Ok((10, 10))).unwrap();
    assert_eq!(
        get_window_and_work_area(&placement, Err(no("none"))),
        Err(no("GetMonitorInfoW failed: none"))
    );
}

#[test]
fn placement_range_is_tested() {
    assert!(can_place((0, 0), (800, 600)));
    assert!(!can_place((i32::MAX, 0), (1, 0)));
    assert!(!can_place((0, i32::MIN), (0, u32::MAX)));
    assert!(can_place((i32::MAX, 0), (u32::MAX, 0)));
}
