use nested_backend::geometry::{Point, Size, Transform};
use nested_backend::input::{
    decode_keys, process_keyboard_event, process_pointer_event, process_relative_motion,
    process_touch_event, sat_add_i64, sat_add_v120, Axis, AxisFrame, AxisRelativeDirection,
    AxisSource, ButtonState, DeviceCapability, InputEvent, KeyState, KeyboardEvent, PointerEvent,
    TouchEvent, WaylandInputDevice, WaylandInputSpecialEvent, WaylandKeyboardEvent,
};

const SIZE: Size = Size { w: 640, h: 480 };

fn pointer_step(frame: &mut AxisFrame, e: PointerEvent) -> Vec<InputEvent> {
    process_pointer_event(frame, 7, 5, e, Transform::Normal, SIZE)
}

#[test]
fn axis_events_accumulate_additively() {
    let mut frame = AxisFrame::default();
    let out = pointer_step(
        &mut frame,
        PointerEvent::Axis { time: 100, axis: Axis::Vertical, value: 384 },
    );
    assert!(out.is_empty());
    assert_eq!(frame.vertical.absolute, 384);
    let out = pointer_step(
        &mut frame,
        PointerEvent::Axis { time: 150, axis: Axis::Vertical, value: 128 },
    );
    assert!(out.is_empty());
    assert_eq!(frame.vertical.absolute, 384 + 128);
    assert_eq!(frame.horizontal.absolute, 0);
    // The timestamp is set once, from the first sub-event of the batch.
    assert_eq!(frame.time, 100);
}

#[test]
fn frame_event_emits_batch_and_resets() {
    let mut frame = AxisFrame::default();
    pointer_step(&mut frame, PointerEvent::Axis { time: 9, axis: Axis::Horizontal, value: 512 });
    pointer_step(&mut frame, PointerEvent::AxisDiscrete { axis: Axis::Horizontal, discrete: 2 });
    pointer_step(&mut frame, PointerEvent::AxisSource { source: AxisSource::Finger });
    let out = pointer_step(&mut frame, PointerEvent::Frame);
    assert_eq!(out.len(), 1);
    match &out[0] {
        InputEvent::PointerAxis { event } => {
            assert_eq!(event.pointer, 7);
            assert_eq!(event.axis_frame.time, 9);
            assert_eq!(event.axis_frame.horizontal.absolute, 512);
            assert_eq!(event.axis_frame.horizontal.v120, 240);
            assert_eq!(event.axis_frame.source, AxisSource::Finger);
        }
        other => panic!("expected a PointerAxis event, got {other:?}"),
    }
    // After the batch terminator the accumulator is empty again.
    assert_eq!(frame, AxisFrame::default());
    // The next elemental event starts from zero.
    pointer_step(&mut frame, PointerEvent::Axis { time: 20, axis: Axis::Horizontal, value: 100 });
    assert_eq!(frame.horizontal.absolute, 100);
    assert_eq!(frame.time, 20);
}

#[test]
fn axis_value120_and_direction() {
    let mut frame = AxisFrame::default();
    pointer_step(&mut frame, PointerEvent::AxisValue120 { axis: Axis::Vertical, value120: 60 });
    pointer_step(&mut frame, PointerEvent::AxisValue120 { axis: Axis::Vertical, value120: 60 });
    pointer_step(
        &mut frame,
        PointerEvent::AxisRelativeDirection {
            axis: Axis::Vertical,
            direction: AxisRelativeDirection::Inverted,
        },
    );
    assert_eq!(frame.vertical.v120, 120);
    assert_eq!(frame.vertical.relative_direction, AxisRelativeDirection::Inverted);
}

#[test]
fn axis_stop_latches_time_only() {
    let mut frame = AxisFrame::default();
    let out = pointer_step(&mut frame, PointerEvent::AxisStop { time: 42, axis: Axis::Vertical });
    assert!(out.is_empty());
    assert_eq!(frame.time, 42);
    assert_eq!(frame.vertical.absolute, 0);
}

#[test]
fn old_protocol_emits_each_elemental_event_immediately() {
    let mut frame = AxisFrame::default();
    // Version 4 predates batched scrolling: the elemental event is emitted
    // at once as a single-event batch, and the accumulator reset.
    let out = process_pointer_event(
        &mut frame,
        7,
        4,
        PointerEvent::Axis { time: 5, axis: Axis::Vertical, value: 256 },
        Transform::Normal,
        SIZE,
    );
    assert_eq!(out.len(), 1);
    match &out[0] {
        InputEvent::PointerAxis { event } => {
            assert_eq!(event.axis_frame.vertical.absolute, 256);
            assert_eq!(event.axis_frame.time, 5);
        }
        other => panic!("expected a PointerAxis event, got {other:?}"),
    }
    assert_eq!(frame, AxisFrame::default());
    // A non-scroll event under the old protocol emits nothing extra.
    let out = process_pointer_event(
        &mut frame,
        7,
        4,
        PointerEvent::Button { serial: 1, time: 6, button: 0x110, state: ButtonState::Pressed },
        Transform::Normal,
        SIZE,
    );
    assert_eq!(out.len(), 1);
    assert!(matches!(out[0], InputEvent::PointerButton { .. }));
}

#[test]
fn motion_carries_current_transform_and_size() {
    let mut frame = AxisFrame::default();
    let out = process_pointer_event(
        &mut frame,
        7,
        5,
        PointerEvent::Motion { time: 10, x: 512, y: 768 },
        Transform::Rotate90,
        SIZE,
    );
    assert_eq!(out.len(), 1);
    match &out[0] {
        InputEvent::PointerMotionAbsolute { event } => {
            assert_eq!(event.time_us(), 10_000);
            assert_eq!(event.transform, Transform::Rotate90);
            assert_eq!(event.window_size, SIZE);
            // Logical reading applies the transform over the fixed bounds.
            let p = event.position().position();
            assert_eq!(p, Point { x: 479 * 256 - 768, y: 512 });
        }
        other => panic!("expected absolute motion, got {other:?}"),
    }
}

#[test]
fn pointer_enter_and_leave_are_special_events() {
    let mut frame = AxisFrame::default();
    let out = pointer_step(&mut frame, PointerEvent::Enter { serial: 3, x: 10, y: 20 });
    assert_eq!(out.len(), 1);
    match &out[0] {
        InputEvent::Special(WaylandInputSpecialEvent::PointerEnter {
            pointer,
            serial,
            surface_x,
            surface_y,
            ..
        }) => {
            assert_eq!((*pointer, *serial, *surface_x, *surface_y), (7, 3, 10, 20));
        }
        other => panic!("expected a pointer enter, got {other:?}"),
    }
    let out = pointer_step(&mut frame, PointerEvent::Leave { serial: 4 });
    assert!(matches!(
        out[0],
        InputEvent::Special(WaylandInputSpecialEvent::PointerLeave { pointer: 7, serial: 4 })
    ));
}

#[test]
fn keyboard_key_times_convert_to_microseconds() {
    let ev = process_keyboard_event(
        9,
        KeyboardEvent::Key { serial: 1, time: 123, key: 30, state: KeyState::Pressed },
    );
    match ev {
        InputEvent::Keyboard { event } => {
            assert_eq!(
                event,
                WaylandKeyboardEvent {
                    keyboard: 9,
                    time: 123,
                    serial: 1,
                    key: 30,
                    state: KeyState::Pressed,
                }
            );
            assert_eq!(event.time_us(), 123_000);
        }
        other => panic!("expected a keyboard event, got {other:?}"),
    }
}

#[test]
fn keyboard_enter_decodes_pressed_keys() {
    let raw_keys = vec![1, 0, 0, 0, 2, 1, 0, 0];
    let ev = process_keyboard_event(9, KeyboardEvent::Enter { serial: 5, raw_keys });
    match ev {
        InputEvent::Special(WaylandInputSpecialEvent::KeyboardEnter { keyboard, serial, keys }) => {
            assert_eq!((keyboard, serial), (9, 5));
            assert_eq!(keys, vec![1, 258]);
        }
        other => panic!("expected a keyboard enter, got {other:?}"),
    }
}

#[test]
fn key_decoding_ignores_trailing_partial_chunk() {
    assert_eq!(decode_keys(&vec![1, 0, 0, 0, 9]), vec![1]);
    assert_eq!(decode_keys(&vec![]), Vec::<u32>::new());
    assert_eq!(decode_keys(&vec![0xff, 0xff, 0xff, 0xff]), vec![u32::MAX]);
}

#[test]
fn keyboard_state_events_translate_one_to_one() {
    let ev = process_keyboard_event(
        9,
        KeyboardEvent::Modifiers { serial: 2, depressed: 1, latched: 2, locked: 4, group: 1 },
    );
    assert!(matches!(
        ev,
        InputEvent::Special(WaylandInputSpecialEvent::KeyboardModifiers {
            keyboard: 9,
            serial: 2,
            depressed: 1,
            latched: 2,
            locked: 4,
            group: 1,
        })
    ));
    let ev = process_keyboard_event(9, KeyboardEvent::RepeatInfo { rate: 25, delay: 600 });
    assert!(matches!(
        ev,
        InputEvent::Special(WaylandInputSpecialEvent::KeyboardRepeatInfo {
            keyboard: 9,
            rate: 25,
            delay: 600,
        })
    ));
}

#[test]
fn relative_motion_passes_time_through_and_rotates_deltas() {
    let ev = process_relative_motion(
        7,
        5_000_000,
        Point { x: 10, y: 20 },
        Point { x: 30, y: 40 },
        Transform::Rotate90,
    );
    match ev {
        InputEvent::PointerMotion { event } => {
            // Already microseconds: unconverted.
            assert_eq!(event.time_us(), 5_000_000);
            assert_eq!(event.delta_x(), -20);
            assert_eq!(event.delta_y(), 10);
            assert_eq!(event.delta_x_unaccel(), -40);
            assert_eq!(event.delta_y_unaccel(), 30);
        }
        other => panic!("expected relative motion, got {other:?}"),
    }
}

#[test]
fn touch_events_translate() {
    let ev = process_touch_event(
        4,
        TouchEvent::Down { serial: 1, time: 2, id: 6, x: 100, y: 200 },
        Transform::Normal,
        SIZE,
    );
    match ev {
        Some(InputEvent::TouchDown { event }) => {
            assert_eq!(event.slot, Some(6));
            assert_eq!((event.x, event.y), (100, 200));
            assert_eq!(event.time_us(), 2_000);
        }
        other => panic!("expected touch down, got {other:?}"),
    }
    let ev = process_touch_event(4, TouchEvent::Cancel, Transform::Normal, SIZE);
    match ev {
        Some(InputEvent::TouchCancel { event }) => assert_eq!(event.slot, None),
        other => panic!("expected touch cancel, got {other:?}"),
    }
    // Shape and orientation have no unified counterpart.
    assert_eq!(
        process_touch_event(4, TouchEvent::Shape { id: 1 }, Transform::Normal, SIZE),
        None
    );
    assert_eq!(
        process_touch_event(4, TouchEvent::Orientation { id: 1 }, Transform::Normal, SIZE),
        None
    );
}

#[test]
fn saturating_accumulation_never_wraps() {
    assert_eq!(sat_add_i64(i64::MAX - 1, 5), i64::MAX);
    assert_eq!(sat_add_i64(i64::MIN + 1, -5), i64::MIN);
    assert_eq!(sat_add_i64(3, 4), 7);
    assert_eq!(sat_add_v120(i32::MAX - 60, 120), i32::MAX);
    assert_eq!(sat_add_v120(0, -120), -120);
}

#[test]
fn devices_report_identity_and_capability() {
    let d = WaylandInputDevice::Pointer(12);
    assert_eq!(d.id(), 12);
    assert_eq!(d.name(), "WlPointer");
    assert!(d.has_capability(DeviceCapability::Pointer));
    assert!(!d.has_capability(DeviceCapability::Keyboard));
    assert_eq!(WaylandInputDevice::Keyboard(3).name(), "WlKeyboard");
    assert_eq!(WaylandInputDevice::Touch(4).name(), "WlTouch");
}

#[test]
fn default_axis_frame_guesses_wheel() {
    let f = AxisFrame::default();
    assert_eq!(f.source, AxisSource::Wheel);
    assert_eq!(f.time, 0);
    assert_eq!(f.vertical.absolute, 0);
    assert_eq!(f.vertical.v120, 0);
    assert_eq!(f.horizontal.relative_direction, AxisRelativeDirection::Identical);
}
