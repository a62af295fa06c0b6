use nested_backend::backend::{
    clamped_mode_size, CursorHint, RenderResult, WaylandBackend, WaylandBackendEvent,
};
use nested_backend::buffer::{
    derive_constraints, plan_gbm_buffer, plan_shm_buffer, renegotiate, same_constraints,
    supported_modifiers, BufferConstraints, FormatEntry, DRM_MODIFIER_INVALID,
    DRM_MODIFIER_LINEAR,
};
use nested_backend::geometry::{Point, Size};
use nested_backend::graphics::Rect;
use nested_backend::input::KeyboardEvent;
use nested_backend::seat::{GlobalEntry, SeatAction};
use nested_backend::XUnwrap;

const XRGB8888: u32 = 0x34325258;

fn one_seat() -> Vec<GlobalEntry> {
    vec![GlobalEntry { name: 2, is_seat: true, version: 7 }]
}

#[test]
fn cold_start_falls_back_to_shared_memory_and_submits() {
    // The host advertises no usable GPU device: shared-memory fallback.
    let constraints = derive_constraints(None, vec![DRM_MODIFIER_LINEAR], XRGB8888);
    assert_eq!(constraints, BufferConstraints::Shm);

    // Shared-memory path has no damage tracking.
    let (mut backend, actions) = WaylandBackend::new(&one_seat(), false);
    assert_eq!(actions, vec![SeatAction::BindSeat { name: 2, version: 7 }]);

    // The host's first configure picks the real size.
    backend.configure(Some(640), Some(480));
    assert_eq!(backend.take_events(), vec![WaylandBackendEvent::Resize]);

    // First bind resizes the native surface to the configured size.
    assert_eq!(backend.graphics.bind(), Some(Size { w: 640, h: 480 }));

    // The back buffer starts undefined: age 0, full repaint assumed, so the
    // first cycle has damage and is submitted, not reported as no-damage.
    assert_eq!(backend.graphics.buffer_age(None), Some(0));
    let full = vec![Rect { x: 0, y: 0, w: 640, h: 480 }];
    let outcome = backend.render(Some(&full), false, false);
    assert_eq!(outcome.result, RenderResult::Submitted);
    let plan = outcome.submit.unwrap();
    assert!(plan.issue_frame_request);
    assert_eq!(plan.damage, None);
}

#[test]
fn render_without_damage_paces_animations() {
    let (mut backend, _) = WaylandBackend::new(&one_seat(), true);
    backend.configure(Some(100), Some(100));
    backend.take_events();
    let outcome = backend.render(None, false, true);
    assert_eq!(outcome.result, RenderResult::NoDamage);
    assert_eq!(outcome.submit, None);
    // An unfinished animation requests the frame-completion signal once.
    assert!(outcome.extra_frame_request);
    let outcome = backend.render(None, false, true);
    assert!(!outcome.extra_frame_request);
    // The host's signal unblocks the next request and queues the redraw.
    backend.frame();
    assert_eq!(backend.take_events(), vec![WaylandBackendEvent::Frame]);
    let outcome = backend.render(None, false, true);
    assert!(outcome.extra_frame_request);
}

#[test]
fn focus_driven_lock_through_the_facade() {
    let (mut backend, _) = WaylandBackend::new(&one_seat(), true);
    backend.seat_state.on_capabilities(2, 3, true);
    // Keyboard enter on the surface: exactly one lock request.
    let actions = backend.keyboard_event(
        1,
        KeyboardEvent::Enter { serial: 1, raw_keys: vec![] },
        true,
    );
    assert_eq!(actions, vec![SeatAction::LockPointer { pointer: 2, lock: 4 }]);
    // A second enter before a leave: zero additional lock requests.
    let actions = backend.keyboard_event(
        1,
        KeyboardEvent::Enter { serial: 2, raw_keys: vec![] },
        true,
    );
    assert_eq!(actions, vec![]);
    // Keyboard leave: exactly one unlock.
    let actions = backend.keyboard_event(1, KeyboardEvent::Leave { serial: 3 }, true);
    assert_eq!(actions, vec![SeatAction::DestroyLock { lock: 4 }]);
    // Each keyboard event was also translated and queued, in order.
    let events = backend.take_events();
    assert_eq!(events.len(), 3);
}

#[test]
fn edge_unlock_fires_once_and_repeat_hints_are_free() {
    let (mut backend, _) = WaylandBackend::new(&one_seat(), true);
    backend.configure(Some(640), Some(480));
    backend.take_events();
    backend.seat_state.on_capabilities(2, 3, true);
    backend.keyboard_event(1, KeyboardEvent::Enter { serial: 1, raw_keys: vec![] }, true);
    backend.take_events();

    // A position whose transformed x is exactly window_width - 1 (pixels
    // are zero-indexed, so that is the right edge pixel).
    let edge = Point { x: 639 * 256, y: 100 * 256 };
    let (hints, unlocks) = backend.set_cursor_position_hint(edge);
    assert_eq!(hints, vec![CursorHint { lock: 4, x: 639 * 256, y: 100 * 256 }]);
    // All locks of the seat released exactly once.
    assert_eq!(unlocks, vec![SeatAction::DestroyLock { lock: 4 }]);

    // A repeat call with the identical position performs no host round trip.
    let (hints, unlocks) = backend.set_cursor_position_hint(edge);
    assert_eq!(hints, vec![]);
    assert_eq!(unlocks, vec![]);
}

#[test]
fn interior_hints_keep_locks_and_reach_every_lock() {
    let (mut backend, _) = WaylandBackend::new(&one_seat(), true);
    backend.configure(Some(640), Some(480));
    backend.seat_state.on_capabilities(2, 3, true);
    backend.keyboard_event(1, KeyboardEvent::Enter { serial: 1, raw_keys: vec![] }, true);

    let inside = Point { x: 320 * 256, y: 240 * 256 };
    let (hints, unlocks) = backend.set_cursor_position_hint(inside);
    assert_eq!(hints, vec![CursorHint { lock: 4, x: 320 * 256, y: 240 * 256 }]);
    assert_eq!(unlocks, vec![]);
    // The lock survives an interior hint.
    assert_eq!(backend.seat_state.seats[0].devices.locked_pointer, Some(4));
    // Top-left corner is an edge too (x == 0).
    let (_, unlocks) = backend.set_cursor_position_hint(Point { x: 0, y: 100 * 256 });
    assert_eq!(unlocks, vec![SeatAction::DestroyLock { lock: 4 }]);
}

#[test]
fn configure_keeps_open_dimensions_and_skips_no_ops() {
    let (mut backend, _) = WaylandBackend::new(&one_seat(), true);
    backend.configure(Some(640), Some(480));
    assert_eq!(backend.take_events(), vec![WaylandBackendEvent::Resize]);
    // A dimension the host leaves open keeps its current value.
    backend.configure(None, Some(500));
    assert_eq!(backend.graphics.window_size(), Size { w: 640, h: 500 });
    assert_eq!(backend.take_events(), vec![WaylandBackendEvent::Resize]);
    // The same size again is not a resize.
    backend.configure(Some(640), Some(500));
    assert_eq!(backend.take_events(), vec![]);
    backend.configure(None, None);
    assert_eq!(backend.take_events(), vec![]);
}

#[test]
fn waiting_for_completion_is_opt_in_and_needs_damage() {
    let (mut backend, _) = WaylandBackend::new(&one_seat(), true);
    backend.configure(Some(100), Some(100));
    backend.take_events();
    let full = vec![Rect { x: 0, y: 0, w: 100, h: 100 }];
    let outcome = backend.render(Some(&full), true, false);
    assert!(outcome.wait_for_completion);
    let outcome = backend.render(Some(&full), false, false);
    assert!(!outcome.wait_for_completion);
    // Without damage there is nothing to wait on.
    let outcome = backend.render(None, true, false);
    assert!(!outcome.wait_for_completion);
}

#[test]
fn close_request_queues_quit() {
    let (mut backend, _) = WaylandBackend::new(&one_seat(), true);
    backend.request_close();
    assert_eq!(backend.take_events(), vec![WaylandBackendEvent::Close]);
}

#[test]
fn seat_name_is_fixed() {
    let (backend, _) = WaylandBackend::new(&vec![], true);
    assert_eq!(backend.seat_name(), "niri-nested");
}

#[test]
fn modifier_intersection_follows_tranches() {
    let table = vec![
        FormatEntry { format: XRGB8888, modifier: 7 },
        FormatEntry { format: 0x1111, modifier: 9 },
        FormatEntry { format: XRGB8888, modifier: DRM_MODIFIER_LINEAR },
    ];
    // Tranche order decides list order; foreign formats and out-of-table
    // indices are skipped.
    let mods = supported_modifiers(&table, &vec![2, 1, 0, 9], XRGB8888, false);
    assert_eq!(mods, vec![DRM_MODIFIER_LINEAR, 7]);
    // A consumer that needs the linear layout only accepts that row.
    let mods = supported_modifiers(&table, &vec![2, 1, 0], XRGB8888, true);
    assert_eq!(mods, vec![DRM_MODIFIER_LINEAR]);
}

#[test]
fn gbm_plan_falls_back_on_empty_intersection() {
    assert_eq!(plan_gbm_buffer(vec![], 64, 64, XRGB8888), None);
    let plan = plan_gbm_buffer(vec![DRM_MODIFIER_INVALID], 64, 64, XRGB8888).unwrap();
    // Only the sentinel: allocate without explicit modifiers.
    assert!(!plan.use_modifiers);
    let plan = plan_gbm_buffer(vec![DRM_MODIFIER_INVALID, 7], 64, 64, XRGB8888).unwrap();
    assert!(plan.use_modifiers);
}

#[test]
fn shm_pool_is_sized_exactly() {
    let buf = plan_shm_buffer(XRGB8888, 640, 480, 640 * 4);
    assert_eq!(buf.pool_size, 640 * 4 * 480);
    assert_eq!(buf.offset, 0);
    assert_eq!((buf.width, buf.height, buf.stride), (640, 480, 640 * 4));
}

#[test]
fn renegotiation_is_idempotent() {
    let first = derive_constraints(Some(0xE0), vec![7, 8], XRGB8888);
    assert!(matches!(first, BufferConstraints::Gbm { .. }));
    // The same feedback again: same constraints, no new host objects.
    let (second, realloc) = renegotiate(Some(0xE0), vec![7, 8], XRGB8888, Some(&first));
    assert!(same_constraints(&first, &second));
    assert!(!realloc);
    // Changed feedback demands reallocation.
    let (third, realloc) = renegotiate(Some(0xE0), vec![7], XRGB8888, Some(&first));
    assert!(!same_constraints(&first, &third));
    assert!(realloc);
    // Losing the device falls back to shared memory.
    let (fourth, realloc) = renegotiate(None, vec![7, 8], XRGB8888, Some(&first));
    assert_eq!(fourth, BufferConstraints::Shm);
    assert!(realloc);
}

#[test]
fn mode_dimensions_clamp_into_sixteen_bits() {
    assert_eq!(clamped_mode_size(Size { w: 640, h: 480 }), (640, 480));
    assert_eq!(clamped_mode_size(Size { w: 70000, h: -5 }), (65535, 0));
}

#[test]
fn xunwrap_discards_unactionable_errors() {
    let ok: Result<(), &str> = Ok(());
    ok.xunwrap();
    let err: Result<(), &str> = Err("ignored");
    err.xunwrap();
}
