use nested_backend::geometry::{Size, Transform};
use nested_backend::id::IdCounter;
use nested_backend::input::{Axis, InputEvent, PointerEvent, WaylandInputDevice};
use nested_backend::seat::{GlobalEntry, SeatAction, SeatState};

fn seat_global(name: u32, version: u32) -> GlobalEntry {
    GlobalEntry { name, is_seat: true, version }
}

const KEYBOARD_AND_POINTER: u32 = 3;
const ALL_CAPS: u32 = 7;

#[test]
fn id_counter_starts_at_one_and_wraps() {
    let mut ids = IdCounter::new();
    assert_eq!(ids.next(), 1);
    assert_eq!(ids.next(), 2);
    assert_eq!(ids.next(), 3);
    let mut ids = IdCounter { value: 0x100_0000 };
    // The 24-bit space is exhausted: restart at one, never zero.
    assert_eq!(ids.next(), 1);
    assert_eq!(ids.next(), 2);
}

#[test]
fn initial_registry_binds_every_seat_at_supported_version() {
    let globals = vec![
        GlobalEntry { name: 1, is_seat: false, version: 4 },
        seat_global(2, 9),
        seat_global(5, 5),
    ];
    let (state, actions) = SeatState::new(&globals);
    assert_eq!(state.seats.len(), 2);
    assert_eq!(state.seats[0].name, 2);
    assert_eq!(state.seats[1].name, 5);
    assert_eq!(
        actions,
        vec![
            SeatAction::BindSeat { name: 2, version: 7 },
            SeatAction::BindSeat { name: 5, version: 5 },
        ]
    );
}

#[test]
fn new_global_binds_unknown_seats_only() {
    let (mut state, _) = SeatState::new(&vec![seat_global(2, 7)]);
    let actions = state.new_global(9, true, 8);
    assert_eq!(actions, vec![SeatAction::BindSeat { name: 9, version: 7 }]);
    assert_eq!(state.seats.len(), 2);
    // Not a seat: ignored.
    assert_eq!(state.new_global(10, false, 1), vec![]);
    // Already tracked: ignored.
    assert_eq!(state.new_global(2, true, 7), vec![]);
    assert_eq!(state.seats.len(), 2);
}

#[test]
fn capability_announcement_acquires_devices_once() {
    let (mut state, _) = SeatState::new(&vec![seat_global(2, 7)]);
    let (actions, events) = state.on_capabilities(2, KEYBOARD_AND_POINTER, true);
    assert_eq!(
        actions,
        vec![
            SeatAction::GetKeyboard { seat: 2, device: 1 },
            SeatAction::GetPointer { seat: 2, device: 2 },
            SeatAction::GetRelativePointer { pointer: 2, device: 3 },
        ]
    );
    assert_eq!(
        events,
        vec![
            InputEvent::DeviceAdded { device: WaylandInputDevice::Keyboard(1) },
            InputEvent::DeviceAdded { device: WaylandInputDevice::Pointer(2) },
        ]
    );
    // Announcing the same capabilities again acquires nothing new.
    let (actions, events) = state.on_capabilities(2, KEYBOARD_AND_POINTER, true);
    assert_eq!(actions, vec![]);
    assert_eq!(events, vec![]);
}

#[test]
fn relative_companion_is_best_effort() {
    let (mut state, _) = SeatState::new(&vec![seat_global(2, 7)]);
    // Host does not offer the relative-pointer global: the pointer is still
    // usable, only lock support is disabled.
    let (actions, _) = state.on_capabilities(2, 1, false);
    assert_eq!(actions, vec![SeatAction::GetPointer { seat: 2, device: 1 }]);
    assert_eq!(state.seats[0].devices.relative_pointer, None);
    // If it appears later, a fresh announcement acquires the companion.
    let (actions, events) = state.on_capabilities(2, 1, true);
    assert_eq!(actions, vec![SeatAction::GetRelativePointer { pointer: 1, device: 2 }]);
    assert_eq!(events, vec![]);
}

#[test]
fn capability_removal_releases_each_held_device_once() {
    let (mut state, _) = SeatState::new(&vec![seat_global(2, 7)]);
    state.on_capabilities(2, ALL_CAPS, true);
    // All three classes revoked: one release and one removal event each,
    // the pointer preceded by its companion teardown.
    let (actions, events) = state.on_capabilities(2, 0, true);
    assert_eq!(
        actions,
        vec![
            SeatAction::ReleaseKeyboard { device: 1 },
            SeatAction::DestroyRelativePointer { device: 3 },
            SeatAction::ReleasePointer { device: 2 },
            SeatAction::ReleaseTouch { device: 4 },
        ]
    );
    assert_eq!(
        events,
        vec![
            InputEvent::DeviceRemoved { device: WaylandInputDevice::Keyboard(1) },
            InputEvent::DeviceRemoved { device: WaylandInputDevice::Pointer(2) },
            InputEvent::DeviceRemoved { device: WaylandInputDevice::Touch(4) },
        ]
    );
    // Nothing is held any more: a repeat announcement removes nothing.
    let (actions, events) = state.on_capabilities(2, 0, true);
    assert_eq!(actions, vec![]);
    assert_eq!(events, vec![]);
}

#[test]
fn seat_removal_tears_down_all_classes() {
    let (mut state, _) = SeatState::new(&vec![seat_global(2, 7)]);
    state.on_capabilities(2, ALL_CAPS, true);
    // Take a lock so the teardown order (lock, companion, device) shows.
    state.keyboard_enter(1, true);
    let (actions, events) = state.remove_global(2, true);
    assert_eq!(
        actions,
        vec![
            SeatAction::ReleaseKeyboard { device: 1 },
            SeatAction::DestroyLock { lock: 5 },
            SeatAction::DestroyRelativePointer { device: 3 },
            SeatAction::ReleasePointer { device: 2 },
            SeatAction::ReleaseTouch { device: 4 },
        ]
    );
    // One removal event per held device: no leaks, no duplicates.
    assert_eq!(events.len(), 3);
    assert!(state.seats.is_empty());
    // Removing an unknown global does nothing.
    let (actions, events) = state.remove_global(2, true);
    assert_eq!(actions, vec![]);
    assert_eq!(events, vec![]);
}

#[test]
fn focus_driven_lock_is_single_flight() {
    let (mut state, _) = SeatState::new(&vec![seat_global(2, 7)]);
    state.on_capabilities(2, KEYBOARD_AND_POINTER, true);
    // Keyboard enter: exactly one lock request.
    let actions = state.keyboard_enter(1, true);
    assert_eq!(actions, vec![SeatAction::LockPointer { pointer: 2, lock: 4 }]);
    // A second enter before a leave issues zero additional requests.
    let actions = state.keyboard_enter(1, true);
    assert_eq!(actions, vec![]);
    // Keyboard leave: exactly one unlock.
    let actions = state.keyboard_leave(1);
    assert_eq!(actions, vec![SeatAction::DestroyLock { lock: 4 }]);
    // A second leave has nothing left to release.
    let actions = state.keyboard_leave(1);
    assert_eq!(actions, vec![]);
}

#[test]
fn lock_needs_a_relative_motion_companion() {
    let (mut state, _) = SeatState::new(&vec![seat_global(2, 7)]);
    state.on_capabilities(2, KEYBOARD_AND_POINTER, false);
    // Without the companion a lock is useless and none is requested.
    assert_eq!(state.keyboard_enter(1, true), vec![]);
    // Without the pointer-constraints global none can be requested either.
    let (mut state, _) = SeatState::new(&vec![seat_global(3, 7)]);
    state.on_capabilities(3, KEYBOARD_AND_POINTER, true);
    assert_eq!(state.keyboard_enter(1, false), vec![]);
}

#[test]
fn events_for_unknown_devices_are_ignored() {
    let (mut state, _) = SeatState::new(&vec![seat_global(2, 7)]);
    state.on_capabilities(2, KEYBOARD_AND_POINTER, true);
    assert_eq!(state.keyboard_enter(99, true), vec![]);
    let out = state.pointer_event(
        99,
        5,
        PointerEvent::Axis { time: 1, axis: Axis::Vertical, value: 10 },
        Transform::Normal,
        Size { w: 100, h: 100 },
    );
    assert_eq!(out, vec![]);
    let (actions, events) = state.on_capabilities(77, ALL_CAPS, true);
    assert_eq!(actions, vec![]);
    assert_eq!(events, vec![]);
}

#[test]
fn per_seat_scroll_accumulators_are_independent() {
    let (mut state, _) = SeatState::new(&vec![seat_global(2, 7), seat_global(3, 7)]);
    state.on_capabilities(2, 1, false);
    state.on_capabilities(3, 1, false);
    let p1 = state.seats[0].devices.pointer.unwrap();
    let p2 = state.seats[1].devices.pointer.unwrap();
    let size = Size { w: 100, h: 100 };
    state.pointer_event(
        p1,
        5,
        PointerEvent::Axis { time: 1, axis: Axis::Vertical, value: 100 },
        Transform::Normal,
        size,
    );
    assert_eq!(state.seats[0].devices.axis_frame.vertical.absolute, 100);
    assert_eq!(state.seats[1].devices.axis_frame.vertical.absolute, 0);
    let out = state.pointer_event(p2, 5, PointerEvent::Frame, Transform::Normal, size);
    match &out[0] {
        InputEvent::PointerAxis { event } => {
            assert_eq!(event.axis_frame.vertical.absolute, 0);
        }
        other => panic!("expected a pointer axis event, got {other:?}"),
    }
}
