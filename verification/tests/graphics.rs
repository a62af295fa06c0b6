use nested_backend::geometry::Size;
use nested_backend::graphics::{Rect, WaylandGraphicsBackend};

fn backend(w: i32, h: i32, damage_tracking: bool) -> WaylandGraphicsBackend {
    WaylandGraphicsBackend::new(Size { w, h }, damage_tracking)
}

#[test]
fn frame_callback_single_flight() {
    let mut g = backend(100, 100, true);
    // Any run of requests with no receipt issues exactly one host request.
    assert!(g.request_frame_callback());
    assert!(!g.request_frame_callback());
    assert!(!g.request_frame_callback());
    // After a receipt, the next request issues exactly one new one.
    g.got_frame_callback();
    assert!(g.request_frame_callback());
    assert!(!g.request_frame_callback());
}

#[test]
fn bind_resizes_at_most_once() {
    let mut g = backend(1, 1, true);
    g.set_window_size(Size { w: 640, h: 480 });
    // The first bind after a resize performs the native resize.
    assert_eq!(g.bind(), Some(Size { w: 640, h: 480 }));
    // A second bind with no intervening resize performs none.
    assert_eq!(g.bind(), None);
    // Recording the same size is not a resize either.
    g.set_window_size(Size { w: 640, h: 480 });
    assert_eq!(g.bind(), None);
    g.set_window_size(Size { w: 800, h: 600 });
    assert_eq!(g.bind(), Some(Size { w: 800, h: 600 }));
}

#[test]
fn buffer_age_passes_through_only_with_damage_tracking() {
    let g = backend(100, 100, true);
    assert_eq!(g.buffer_age(Some(2)), Some(2));
    assert_eq!(g.buffer_age(None), None);
    let g = backend(100, 100, false);
    // Without damage tracking the age is 0: assume a full repaint.
    assert_eq!(g.buffer_age(Some(2)), Some(0));
    assert_eq!(g.buffer_age(None), Some(0));
}

#[test]
fn submit_flips_damage_to_bottom_left_origin() {
    let mut g = backend(200, 100, true);
    let damage = vec![
        Rect { x: 1, y: 2, w: 3, h: 4 },
        Rect { x: 0, y: 0, w: 200, h: 100 },
    ];
    let plan = g.submit(Some(&damage));
    assert!(plan.issue_frame_request);
    assert_eq!(
        plan.damage,
        Some(vec![
            Rect { x: 1, y: 100 - 2 - 4, w: 3, h: 4 },
            Rect { x: 0, y: 0, w: 200, h: 100 },
        ])
    );
    // The frame request inside submit is idempotent too.
    let plan = g.submit(Some(&damage));
    assert!(!plan.issue_frame_request);
}

#[test]
fn submit_discards_damage_without_tracking() {
    let mut g = backend(200, 100, false);
    let damage = vec![Rect { x: 1, y: 2, w: 3, h: 4 }];
    let plan = g.submit(Some(&damage));
    // The damage set is discarded: the full surface is presented.
    assert_eq!(plan.damage, None);
    assert!(plan.issue_frame_request);
}
