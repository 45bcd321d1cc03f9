use telescope::engine::{MapEngine, Marker};
use telescope::geom::PlanePoint;
use telescope::messages::{MapSync, Target};
use telescope::store::{Edge, Label, Point};
use telescope::tracker::marker_blink;
use telescope::viewport::ScreenPoint;

fn pt(id: u64, x: i64, y: i64) -> Point {
    Point {
        id,
        pos: PlanePoint { x, y },
        name: format!("system-{id}"),
    }
}

fn three_point_engine() -> MapEngine {
    let mut e = MapEngine::new();
    e.add_points(vec![pt(1, 0, 0), pt(2, 10, 0), pt(3, 0, 10)]);
    e
}

#[test]
fn scenario_three_points_one_edge() {
    let mut e = three_point_engine();
    e.add_edges(vec![
        Edge { id: 1, a: 1, b: 2 },
        Edge { id: 3, a: 99, b: 1 },
    ]);

    // The edge between points 1 and 2 is present; the edge referencing the
    // unknown point 99 was dropped at load.
    assert_eq!(e.store.edges.len(), 1);
    assert_eq!(e.store.edges[0].id, 1);
    assert_eq!(e.store.edges[0].a, 1);
    assert_eq!(e.store.edges[0].b, 2);

    // The surviving edge resolves to its endpoint coordinates.
    let segs = e.store.edge_segments();
    assert_eq!(segs, vec![(PlanePoint { x: 0, y: 0 }, PlanePoint { x: 10, y: 0 })]);

    let mut close = e.query_within(PlanePoint { x: 0, y: 0 }, 5);
    close.sort();
    assert_eq!(close, vec![1]);

    let mut all = e.query_within(PlanePoint { x: 0, y: 0 }, 15);
    all.sort();
    assert_eq!(all, vec![1, 2, 3]);
}

#[test]
fn query_radius_is_inclusive() {
    let mut e = MapEngine::new();
    e.add_points(vec![pt(1, 3, 4), pt(2, 3, 5)]);
    // Point 1 sits at distance exactly 5: the boundary is included.
    let mut ids = e.query_within(PlanePoint { x: 0, y: 0 }, 5);
    ids.sort();
    assert_eq!(ids, vec![1]);
}

#[test]
fn query_before_any_load_is_empty() {
    let e = MapEngine::new();
    let ids = e.query_within(PlanePoint { x: 0, y: 0 }, 1_000_000);
    assert!(ids.is_empty());
}

#[test]
fn full_bounds_round_trip() {
    let mut e = three_point_engine();
    // The bounds span (0,0)..(10,10); any radius at least the diagonal,
    // from the bounds midpoint, returns the whole point set.
    let b = e.store.bounds.expect("bounds after load");
    assert_eq!(b.min, PlanePoint { x: 0, y: 0 });
    assert_eq!(b.max, PlanePoint { x: 10, y: 10 });
    let mid = PlanePoint { x: 5, y: 5 };
    let mut ids = e.query_within(mid, 15);
    ids.sort();
    assert_eq!(ids, vec![1, 2, 3]);
}

#[test]
fn larger_dataset_queries_match_linear_scan() {
    let mut points = Vec::new();
    let mut k: i64 = 0;
    for x in -20..20 {
        for y in -20..20 {
            k += 1;
            points.push(pt(k as u64, 37 * x + y, 23 * y - x));
        }
    }
    let expect = |c: PlanePoint, r: i64, pts: &[Point]| {
        let mut ids: Vec<u64> = pts
            .iter()
            .filter(|p| {
                let dx = (p.pos.x - c.x) as i128;
                let dy = (p.pos.y - c.y) as i128;
                dx * dx + dy * dy <= (r as i128) * (r as i128)
            })
            .map(|p| p.id)
            .collect();
        ids.sort();
        ids
    };
    let mut e = MapEngine::new();
    e.add_points(points.clone());
    for (c, r) in [
        (PlanePoint { x: 0, y: 0 }, 100),
        (PlanePoint { x: -300, y: 250 }, 333),
        (PlanePoint { x: 700, y: -400 }, 0),
        (PlanePoint { x: 5, y: 5 }, 2000),
    ] {
        let mut got = e.query_within(c, r);
        got.sort();
        assert_eq!(got, expect(c, r, &points));
    }
}

#[test]
fn first_load_centers_on_midpoint_at_default_zoom() {
    let e = three_point_engine();
    let v = e.viewport.expect("viewport after first load");
    assert_eq!(v.center, PlanePoint { x: 5, y: 5 });
    assert_eq!(v.zoom_milli, 1000);
}

#[test]
fn reload_keeps_pan_position_clamped_into_new_bounds() {
    let mut e = three_point_engine();
    e.set_center(PlanePoint { x: 10, y: 10 });
    e.add_points(vec![pt(7, 0, 0), pt(8, 4, 4)]);
    let v = e.viewport.expect("viewport after reload");
    // The old center (10, 10) is clamped into the new bounds (0,0)..(4,4).
    assert_eq!(v.center, PlanePoint { x: 4, y: 4 });
}

#[test]
fn pan_by_zero_changes_nothing() {
    let mut e = three_point_engine();
    let _ = e.visible_points();
    assert!(!e.cache.dirty);
    let before_center = e.viewport.unwrap().center;
    let moved = e.pan(0, 0);
    assert!(!moved);
    assert_eq!(e.viewport.unwrap().center, before_center);
    // An idempotent pan never invalidates the cache.
    assert!(!e.cache.dirty);
}

#[test]
fn pan_clamps_and_converges_to_the_boundary() {
    let mut e = three_point_engine();
    // Zoom 1.0: a screen delta of 3 is a world delta of 3.
    let moved = e.pan(3, 0);
    assert!(moved);
    assert_eq!(e.viewport.unwrap().center, PlanePoint { x: 8, y: 5 });
    // Repeated pans in the same direction converge to the east bound...
    let moved = e.pan(3, 0);
    assert!(moved);
    assert_eq!(e.viewport.unwrap().center, PlanePoint { x: 10, y: 5 });
    // ...and stop changing thereafter.
    let moved = e.pan(3, 0);
    assert!(!moved);
    assert_eq!(e.viewport.unwrap().center, PlanePoint { x: 10, y: 5 });
}

#[test]
fn pan_scales_with_zoom() {
    let mut e = three_point_engine();
    e.set_zoom(2000);
    // Zoom 2.0: a screen delta of 8 is a world delta of 4.
    e.pan(-8, 0);
    assert_eq!(e.viewport.unwrap().center, PlanePoint { x: 1, y: 5 });
}

#[test]
fn set_zoom_clamps_into_range() {
    let mut e = three_point_engine();
    let changed = e.set_zoom(50);
    assert!(changed);
    assert_eq!(e.viewport.unwrap().zoom_milli, 100);
    let changed = e.set_zoom(9000);
    assert!(changed);
    assert_eq!(e.viewport.unwrap().zoom_milli, 2000);
    let changed = e.set_zoom(2000);
    assert!(!changed);
}

#[test]
fn set_center_outside_bounds_is_clamped_not_rejected() {
    let mut e = three_point_engine();
    let moved = e.set_center(PlanePoint { x: 1_000, y: -1_000 });
    assert!(moved);
    assert_eq!(e.viewport.unwrap().center, PlanePoint { x: 10, y: 0 });
}

#[test]
fn set_center_by_point_id_finds_loaded_points_only() {
    let mut e = three_point_engine();
    assert!(e.set_center_by_point_id(2));
    assert_eq!(e.viewport.unwrap().center, PlanePoint { x: 10, y: 0 });
    let before = e.viewport.unwrap().center;
    assert!(!e.set_center_by_point_id(99));
    assert_eq!(e.viewport.unwrap().center, before);
}

#[test]
fn surface_diagonal_drives_the_visibility_radius() {
    let mut e = three_point_engine();
    // An 800 by 600 surface has a diagonal of exactly 1000 pixels, so the
    // half diagonal is 500 and at zoom 1.0 the radius is 500 world units.
    e.set_surface(800, 600);
    let v = e.viewport.unwrap();
    assert_eq!(v.half_diag, 500);
    assert_eq!(v.radius, 500);
    // Halving the zoom doubles the radius.
    e.set_zoom(500);
    assert_eq!(e.viewport.unwrap().radius, 1000);
}

#[test]
fn visible_points_recomputes_only_when_dirty() {
    let mut e = MapEngine::new();
    e.set_surface(30, 40);
    e.add_points(vec![pt(1, 0, 0), pt(2, 10, 0), pt(3, 0, 10), pt(4, 200, 200)]);
    // Half diagonal 25, zoom 1.0: radius 25 around the midpoint (100,100)
    // sees nobody; recenter on point 1 and its neighborhood appears.
    e.set_center(PlanePoint { x: 0, y: 0 });
    assert!(e.cache.dirty);
    let mut vis = e.visible_points();
    vis.sort();
    assert_eq!(vis, vec![1, 2, 3]);
    assert!(!e.cache.dirty);
    // A clean cache is served unchanged.
    let mut again = e.visible_points();
    again.sort();
    assert_eq!(again, vec![1, 2, 3]);
    // Panning far enough changes the visible set.
    e.pan(200, 200);
    assert!(e.cache.dirty);
    let vis = e.visible_points();
    assert_eq!(vis, vec![4]);
}

#[test]
fn projector_round_trips_exactly() {
    let e = {
        let mut e = three_point_engine();
        e.set_surface(800, 600);
        e.set_zoom(1700);
        e
    };
    let v = e.viewport.unwrap();
    let b = e.store.bounds.unwrap();
    let origin = ScreenPoint { sx: 400_000, sy: 300_000 };
    for (x, y) in [(0, 0), (10, 0), (0, 10), (7, 3)] {
        let w = PlanePoint { x, y };
        let s = telescope::viewport::to_screen(w, &v, &b, origin);
        let back = telescope::viewport::to_world(s, &v, &b, origin);
        assert_eq!(back, w);
    }
    // The projection formula itself: (world - center) * zoom + origin.
    let s = telescope::viewport::to_screen(PlanePoint { x: 7, y: 3 }, &v, &b, origin);
    assert_eq!(s.sx, (7 - 5) * 1700 + 400_000);
    assert_eq!(s.sy, (3 - 5) * 1700 + 300_000);
}

#[test]
fn screen_to_world_hit_tests_through_the_viewport() {
    let mut e = three_point_engine();
    e.set_surface(800, 600);
    let origin = ScreenPoint { sx: 0, sy: 0 };
    // The screen point 2000 milli-pixels east of the origin is 2 world
    // units east of the center (5,5) at zoom 1.0.
    let w = e.screen_to_world(ScreenPoint { sx: 2000, sy: 0 }, origin);
    assert_eq!(w, Some(PlanePoint { x: 7, y: 5 }));
    let empty = MapEngine::new();
    assert_eq!(empty.screen_to_world(ScreenPoint { sx: 0, sy: 0 }, origin), None);
}

#[test]
fn notification_pulse_decays_and_expires() {
    let mut e = three_point_engine();
    e.notify(2, 10_000);
    // At its start the pulse is fully opaque: alpha 2000 / 2000.
    let samples = e.tick(10_000);
    assert_eq!(samples.len(), 1);
    assert_eq!(samples[0].id, 2);
    assert_eq!(samples[0].alpha, 2000);
    assert!(e.animating());
    // Strictly decreasing while it lives.
    let samples = e.tick(10_500);
    assert_eq!(samples[0].alpha, 1500);
    let samples = e.tick(11_999);
    assert_eq!(samples[0].alpha, 1);
    // Gone once the duration has elapsed.
    let samples = e.tick(12_000);
    assert!(samples.is_empty());
    assert!(!e.animating());
}

#[test]
fn renotifying_restarts_instead_of_stacking() {
    let mut e = three_point_engine();
    e.notify(1, 1_000);
    e.notify(3, 1_000);
    e.notify(1, 2_000);
    let mut samples = e.tick(2_000);
    samples.sort_by_key(|s| s.id);
    assert_eq!(samples.len(), 2);
    assert_eq!((samples[0].id, samples[0].alpha), (1, 2000));
    assert_eq!((samples[1].id, samples[1].alpha), (3, 1000));
}

#[test]
fn markers_move_independently_of_pulses() {
    let mut e = three_point_engine();
    e.update_marker(42, 1);
    e.update_marker(43, 2);
    e.update_marker(42, 3);
    let mut markers = e.markers.clone();
    markers.sort_by_key(|m| m.entity);
    assert_eq!(markers, vec![Marker { entity: 42, point: 3 }, Marker { entity: 43, point: 2 }]);
    assert!(e.tracker.entries.is_empty());
}

#[test]
fn sync_commands_drive_the_pane() {
    let mut e = three_point_engine();
    e.apply_sync(MapSync::CenterOn((2, Target::System)));
    assert_eq!(e.viewport.unwrap().center, PlanePoint { x: 10, y: 0 });
    e.apply_sync(MapSync::SystemNotification((3, 500)));
    let samples = e.tick(500);
    assert_eq!((samples[0].id, samples[0].alpha), (3, 2000));
    e.apply_sync(MapSync::PlayerMoved((7, 1)));
    assert_eq!(e.markers, vec![Marker { entity: 7, point: 1 }]);
    // Centering on a region is not a pane-level action.
    let before = e.viewport.unwrap().center;
    e.apply_sync(MapSync::CenterOn((1, Target::Region)));
    assert_eq!(e.viewport.unwrap().center, before);
}

#[test]
fn marker_blink_rises_and_falls_over_its_period() {
    assert_eq!(marker_blink(0), 0);
    assert_eq!(marker_blink(500), 100);
    assert_eq!(marker_blink(1275), 255);
    assert_eq!(marker_blink(1280), 254);
    assert_eq!(marker_blink(2545), 1);
    assert_eq!(marker_blink(2550), 0);
}

#[test]
fn labels_are_stored_for_the_overlay() {
    let mut e = three_point_engine();
    e.add_labels(vec![Label {
        text: String::from("The Forge"),
        anchor: PlanePoint { x: 3, y: 3 },
    }]);
    assert_eq!(e.store.labels.len(), 1);
    assert_eq!(e.store.labels[0].text, "The Forge");
    assert_eq!(e.store.labels[0].anchor, PlanePoint { x: 3, y: 3 });
}

#[test]
fn empty_load_clears_the_viewport() {
    let mut e = three_point_engine();
    e.add_points(Vec::new());
    assert!(e.viewport.is_none());
    assert!(e.store.bounds.is_none());
    assert!(e.visible_points().is_empty());
}
