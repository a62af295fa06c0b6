//! The input translator: every raw host event maps to exactly one unified
//! input event (or, for scroll, accumulates into the current axis frame and
//! is emitted at the batch terminator).
//!
//! Timestamps the host reports in milliseconds are converted to microseconds
//! (multiplied by 1000); relative pointer motion already arrives in
//! microseconds and passes through unconverted. Absolute positions carry the
//! transform and surface size current at translation time, so the logical
//! position is always computed from the present state of the surface.

use vstd::prelude::*;

use crate::geometry::{
    coord_in_range, size_in_range, spec_transform_delta, transform_delta, Point, RawAbsolutePosition,
    Size, Transform,
};

verus! {

/// Type-level tag naming this backend's family of translated input events.
#[derive(Debug)]
pub struct WaylandInputBackend;

/// Type-level tag for input events that enter through the virtual-keyboard
/// protocol instead of a host seat.
#[derive(Debug)]
pub struct VirtualKeyboardInputBackend;

/// The classes of input device a seat can offer.
#[derive(Copy, Clone, Debug, PartialEq, Eq, Structural)]
pub enum DeviceCapability {
    Keyboard,
    Pointer,
    Touch,
}

/// A bound input device: the stable handle the rest of the compositor uses
/// as the device's identity.
#[derive(Copy, Clone, Debug, PartialEq, Eq, Structural)]
pub enum WaylandInputDevice {
    Keyboard(u32),
    Pointer(u32),
    Touch(u32),
}

impl WaylandInputDevice {
    pub open spec fn spec_id(self) -> u32 {
        match self {
            WaylandInputDevice::Keyboard(id) => id,
            WaylandInputDevice::Pointer(id) => id,
            WaylandInputDevice::Touch(id) => id,
        }
    }

    pub open spec fn spec_capability(self) -> DeviceCapability {
        match self {
            WaylandInputDevice::Keyboard(_) => DeviceCapability::Keyboard,
            WaylandInputDevice::Pointer(_) => DeviceCapability::Pointer,
            WaylandInputDevice::Touch(_) => DeviceCapability::Touch,
        }
    }

    /// The stable identity of the device.
    pub fn id(&self) -> (r: u32)
        ensures
            r == self.spec_id(),
    {
        match self {
            WaylandInputDevice::Keyboard(id) => *id,
            WaylandInputDevice::Pointer(id) => *id,
            WaylandInputDevice::Touch(id) => *id,
        }
    }

    pub fn name(&self) -> (r: &'static str)
        ensures
            self is Keyboard ==> r@ == "WlKeyboard"@,
            self is Pointer ==> r@ == "WlPointer"@,
            self is Touch ==> r@ == "WlTouch"@,
    {
        match self {
            WaylandInputDevice::Keyboard(_) => "WlKeyboard",
            WaylandInputDevice::Pointer(_) => "WlPointer",
            WaylandInputDevice::Touch(_) => "WlTouch",
        }
    }

    /// A device has exactly the capability of its class.
    pub fn has_capability(&self, capability: DeviceCapability) -> (r: bool)
        ensures
            r == (self.spec_capability() == capability),
    {
        let own = match self {
            WaylandInputDevice::Keyboard(_) => DeviceCapability::Keyboard,
            WaylandInputDevice::Pointer(_) => DeviceCapability::Pointer,
            WaylandInputDevice::Touch(_) => DeviceCapability::Touch,
        };
        own == capability
    }
}

#[derive(Copy, Clone, Debug, PartialEq, Eq, Structural)]
pub enum KeyState {
    Pressed,
    Released,
}

#[derive(Copy, Clone, Debug, PartialEq, Eq, Structural)]
pub enum ButtonState {
    Pressed,
    Released,
}

#[derive(Copy, Clone, Debug, PartialEq, Eq, Structural)]
pub enum Axis {
    Vertical,
    Horizontal,
}

/// What produced a scroll: a wheel, fingers on a touchpad, a continuous
/// device, or wheel tilt.
#[derive(Copy, Clone, Debug, PartialEq, Eq, Structural)]
pub enum AxisSource {
    Wheel,
    Finger,
    Continuous,
    WheelTilt,
}

#[derive(Copy, Clone, Debug, PartialEq, Eq, Structural)]
pub enum AxisRelativeDirection {
    Identical,
    Inverted,
}

/// Milliseconds to microseconds; a `u32` count of milliseconds always fits.
pub open spec fn spec_ms_to_us(ms: u32) -> int {
    ms * 1000
}

/// A key press or release, with its millisecond host timestamp.
#[derive(Copy, Clone, Debug, PartialEq, Eq, Structural)]
pub struct WaylandKeyboardEvent {
    pub keyboard: u32,
    pub time: u32,
    pub serial: u32,
    pub key: u32,
    pub state: KeyState,
}

impl WaylandKeyboardEvent {
    /// The event timestamp in microseconds.
    pub fn time_us(&self) -> (r: u64)
        ensures
            r as int == spec_ms_to_us(self.time),
    {
        self.time as u64 * 1000
    }
}

/// Relative pointer motion; the host supplies microsecond timestamps for
/// these, so no conversion happens. The raw deltas are kept, and read
/// rotated through the inverse of the output transform.
#[derive(Copy, Clone, Debug, PartialEq, Eq, Structural)]
pub struct WaylandPointerRelativeMotionEvent {
    pub pointer: u32,
    pub utime: u64,
    pub delta: Point,
    pub delta_unaccel: Point,
    pub transform: Transform,
}

impl WaylandPointerRelativeMotionEvent {
    pub open spec fn wf(self) -> bool {
        &&& coord_in_range(self.delta.x)
        &&& coord_in_range(self.delta.y)
        &&& coord_in_range(self.delta_unaccel.x)
        &&& coord_in_range(self.delta_unaccel.y)
    }

    /// Already in microseconds: passes through unconverted.
    pub fn time_us(&self) -> (r: u64)
        ensures
            r == self.utime,
    {
        self.utime
    }

    pub fn delta_x(&self) -> (r: i64)
        requires
            self.wf(),
        ensures
            r as int == spec_transform_delta(
                self.transform,
                self.delta.x as int,
                self.delta.y as int,
            ).0,
    {
        transform_delta(self.transform, self.delta.x, self.delta.y).0
    }

    pub fn delta_y(&self) -> (r: i64)
        requires
            self.wf(),
        ensures
            r as int == spec_transform_delta(
                self.transform,
                self.delta.x as int,
                self.delta.y as int,
            ).1,
    {
        transform_delta(self.transform, self.delta.x, self.delta.y).1
    }

    pub fn delta_x_unaccel(&self) -> (r: i64)
        requires
            self.wf(),
        ensures
            r as int == spec_transform_delta(
                self.transform,
                self.delta_unaccel.x as int,
                self.delta_unaccel.y as int,
            ).0,
    {
        transform_delta(self.transform, self.delta_unaccel.x, self.delta_unaccel.y).0
    }

    pub fn delta_y_unaccel(&self) -> (r: i64)
        requires
            self.wf(),
        ensures
            r as int == spec_transform_delta(
                self.transform,
                self.delta_unaccel.x as int,
                self.delta_unaccel.y as int,
            ).1,
    {
        transform_delta(self.transform, self.delta_unaccel.x, self.delta_unaccel.y).1
    }
}

/// Absolute pointer motion, carrying the transform and surface size current
/// at translation time.
#[derive(Copy, Clone, Debug, PartialEq, Eq, Structural)]
pub struct WaylandPointerMotionEvent {
    pub pointer: u32,
    pub time: u32,
    pub x: i64,
    pub y: i64,
    pub transform: Transform,
    pub window_size: Size,
}

impl WaylandPointerMotionEvent {
    pub open spec fn wf(self) -> bool {
        coord_in_range(self.x) && coord_in_range(self.y) && size_in_range(self.window_size)
    }

    pub fn time_us(&self) -> (r: u64)
        ensures
            r as int == spec_ms_to_us(self.time),
    {
        self.time as u64 * 1000
    }

    /// The position read in logical space, via the current transform.
    pub fn position(&self) -> (r: RawAbsolutePosition)
        requires
            self.wf(),
        ensures
            r == (RawAbsolutePosition {
                pos: Point { x: self.x, y: self.y },
                transform: self.transform,
                window_size: self.window_size,
            }),
            r.wf(),
    {
        RawAbsolutePosition::new(self.x, self.y, self.transform, self.window_size)
    }
}

#[derive(Copy, Clone, Debug, PartialEq, Eq, Structural)]
pub struct WaylandPointerButtonEvent {
    pub pointer: u32,
    pub time: u32,
    pub serial: u32,
    pub button: u32,
    pub state: ButtonState,
}

impl WaylandPointerButtonEvent {
    pub fn time_us(&self) -> (r: u64)
        ensures
            r as int == spec_ms_to_us(self.time),
    {
        self.time as u64 * 1000
    }
}

/// The accumulated scroll of one axis within one gesture: continuous delta
/// in fixed-point units, discrete "click" count in 1/120 steps, and the
/// relative direction the host reported.
#[derive(Copy, Clone, Debug, PartialEq, Eq, Structural)]
pub struct AxisScroll {
    pub absolute: i64,
    pub v120: i32,
    pub relative_direction: AxisRelativeDirection,
}

/// One logical scroll gesture, accumulated over a batch of elemental axis
/// events and emitted whole at the batch terminator.
#[derive(Copy, Clone, Debug, PartialEq, Eq, Structural)]
pub struct AxisFrame {
    pub time: u32,
    pub horizontal: AxisScroll,
    pub vertical: AxisScroll,
    pub source: AxisSource,
}

pub open spec fn spec_axis_scroll_zero() -> AxisScroll {
    AxisScroll { absolute: 0, v120: 0, relative_direction: AxisRelativeDirection::Identical }
}

/// The empty accumulator. The source defaults to `Wheel`: a host old enough
/// never to disclose a source is most likely driving a wheel, a documented
/// best guess rather than a protocol requirement.
pub open spec fn spec_axis_frame_default() -> AxisFrame {
    AxisFrame {
        time: 0,
        horizontal: spec_axis_scroll_zero(),
        vertical: spec_axis_scroll_zero(),
        source: AxisSource::Wheel,
    }
}

impl Default for AxisFrame {
    fn default() -> (r: Self)
        ensures
            r == spec_axis_frame_default(),
    {
        AxisFrame {
            time: 0,
            horizontal: AxisScroll {
                absolute: 0,
                v120: 0,
                relative_direction: AxisRelativeDirection::Identical,
            },
            vertical: AxisScroll {
                absolute: 0,
                v120: 0,
                relative_direction: AxisRelativeDirection::Identical,
            },
            source: AxisSource::Wheel,
        }
    }
}

impl AxisFrame {
    pub open spec fn spec_scroll(self, axis: Axis) -> AxisScroll {
        match axis {
            Axis::Vertical => self.vertical,
            Axis::Horizontal => self.horizontal,
        }
    }

    /// The accumulator of one axis.
    pub fn scroll(&self, axis: Axis) -> (r: AxisScroll)
        ensures
            r == self.spec_scroll(axis),
    {
        match axis {
            Axis::Vertical => self.vertical,
            Axis::Horizontal => self.horizontal,
        }
    }

    /// Sets the gesture timestamp from the first sub-event that carries one;
    /// later timestamps of the same batch are ignored.
    pub fn time(&mut self, time: u32)
        ensures
            *final(self) == (AxisFrame { time: spec_frame_time(old(self).time, time), ..*old(self) }),
    {
        if self.time == 0 {
            self.time = time;
        }
    }
}

pub open spec fn spec_frame_time(current: u32, reported: u32) -> u32 {
    if current == 0 {
        reported
    } else {
        current
    }
}

/// Clamps a mathematical integer into the `i64` range.
pub open spec fn spec_sat_i64(v: int) -> int {
    if v > i64::MAX {
        i64::MAX as int
    } else if v < i64::MIN {
        i64::MIN as int
    } else {
        v
    }
}

/// Clamps a mathematical integer into the `i32` range.
pub open spec fn spec_sat_i32(v: int) -> int {
    if v > i32::MAX {
        i32::MAX as int
    } else if v < i32::MIN {
        i32::MIN as int
    } else {
        v
    }
}

/// Saturating addition: scroll accumulation must accept any run of host
/// deltas without failing, so the sum clamps at the type's range.
pub fn sat_add_i64(a: i64, b: i64) -> (r: i64)
    ensures
        r as int == spec_sat_i64(a as int + b as int),
{
    if b >= 0 {
        if a > i64::MAX - b {
            i64::MAX
        } else {
            a + b
        }
    } else {
        if a < i64::MIN - b {
            i64::MIN
        } else {
            a + b
        }
    }
}

/// Saturating addition of a (possibly pre-scaled) discrete step count.
pub fn sat_add_v120(a: i32, b: i64) -> (r: i32)
    requires
        -0x100_0000_0000 <= b <= 0x100_0000_0000,
    ensures
        r as int == spec_sat_i32(a as int + b as int),
{
    let wide: i64 = a as i64 + b;
    if wide > i32::MAX as i64 {
        i32::MAX
    } else if wide < i32::MIN as i64 {
        i32::MIN
    } else {
        wide as i32
    }
}

/// One emitted scroll gesture.
#[derive(Copy, Clone, Debug, PartialEq, Eq, Structural)]
pub struct WaylandPointerAxisEvent {
    pub pointer: u32,
    pub axis_frame: AxisFrame,
}

impl WaylandPointerAxisEvent {
    pub fn time_us(&self) -> (r: u64)
        ensures
            r as int == spec_ms_to_us(self.axis_frame.time),
    {
        self.axis_frame.time as u64 * 1000
    }
}

#[derive(Copy, Clone, Debug, PartialEq, Eq, Structural)]
pub struct WaylandTouchDownEvent {
    pub touch: u32,
    pub time: u32,
    pub serial: u32,
    pub slot: Option<u32>,
    pub x: i64,
    pub y: i64,
    pub transform: Transform,
    pub window_size: Size,
}

impl WaylandTouchDownEvent {
    pub fn time_us(&self) -> (r: u64)
        ensures
            r as int == spec_ms_to_us(self.time),
    {
        self.time as u64 * 1000
    }

    pub fn position(&self) -> (r: RawAbsolutePosition)
        requires
            coord_in_range(self.x),
            coord_in_range(self.y),
            size_in_range(self.window_size),
        ensures
            r == (RawAbsolutePosition {
                pos: Point { x: self.x, y: self.y },
                transform: self.transform,
                window_size: self.window_size,
            }),
            r.wf(),
    {
        RawAbsolutePosition::new(self.x, self.y, self.transform, self.window_size)
    }
}

#[derive(Copy, Clone, Debug, PartialEq, Eq, Structural)]
pub struct WaylandTouchUpEvent {
    pub touch: u32,
    pub time: u32,
    pub serial: u32,
    pub slot: Option<u32>,
}

#[derive(Copy, Clone, Debug, PartialEq, Eq, Structural)]
pub struct WaylandTouchMotionEvent {
    pub touch: u32,
    pub time: u32,
    pub slot: Option<u32>,
    pub x: i64,
    pub y: i64,
    pub transform: Transform,
    pub window_size: Size,
}

impl WaylandTouchMotionEvent {
    pub fn position(&self) -> (r: RawAbsolutePosition)
        requires
            coord_in_range(self.x),
            coord_in_range(self.y),
            size_in_range(self.window_size),
        ensures
            r == (RawAbsolutePosition {
                pos: Point { x: self.x, y: self.y },
                transform: self.transform,
                window_size: self.window_size,
            }),
            r.wf(),
    {
        RawAbsolutePosition::new(self.x, self.y, self.transform, self.window_size)
    }
}

#[derive(Copy, Clone, Debug, PartialEq, Eq, Structural)]
pub struct WaylandTouchCancelEvent {
    pub touch: u32,
    pub time: u32,
    pub slot: Option<u32>,
}

#[derive(Copy, Clone, Debug, PartialEq, Eq, Structural)]
pub struct WaylandTouchFrameEvent {
    pub touch: u32,
    pub time: u32,
}

/// Events that carry no usable timestamp, or whole-state snapshots: emitted
/// as distinct events rather than coerced into the motion/key shapes.
/// Keyboard enter carries the full currently-pressed-key set, so held-key
/// state can be reconstructed after a focus gap. Pointer enter carries the
/// entry position with the transform and size current at translation time:
/// the host sends no motion event on entry, so this is deliberately the one
/// place the initial position can be read from.
#[derive(Clone, Debug, PartialEq, Eq)]
pub enum WaylandInputSpecialEvent {
    PointerEnter {
        pointer: u32,
        serial: u32,
        surface_x: i64,
        surface_y: i64,
        transform: Transform,
        window_size: Size,
    },
    PointerLeave { pointer: u32, serial: u32 },
    KeyboardEnter { keyboard: u32, serial: u32, keys: Vec<u32> },
    KeyboardLeave { keyboard: u32, serial: u32 },
    KeyboardKeymap { keyboard: u32, fd: i32, size: u32 },
    KeyboardModifiers {
        keyboard: u32,
        serial: u32,
        depressed: u32,
        latched: u32,
        locked: u32,
        group: u32,
    },
    KeyboardRepeatInfo { keyboard: u32, rate: i32, delay: i32 },
}

/// The unified event model this backend hands to the rest of the compositor.
#[derive(Clone, Debug, PartialEq, Eq)]
pub enum InputEvent {
    DeviceAdded { device: WaylandInputDevice },
    DeviceRemoved { device: WaylandInputDevice },
    Keyboard { event: WaylandKeyboardEvent },
    PointerMotion { event: WaylandPointerRelativeMotionEvent },
    PointerMotionAbsolute { event: WaylandPointerMotionEvent },
    PointerButton { event: WaylandPointerButtonEvent },
    PointerAxis { event: WaylandPointerAxisEvent },
    TouchDown { event: WaylandTouchDownEvent },
    TouchUp { event: WaylandTouchUpEvent },
    TouchMotion { event: WaylandTouchMotionEvent },
    TouchCancel { event: WaylandTouchCancelEvent },
    TouchFrame { event: WaylandTouchFrameEvent },
    Special(WaylandInputSpecialEvent),
}

/// A raw keyboard event as the host delivers it, already decoded to plain
/// values; the pressed-key set of an enter event still holds the wire bytes.
#[derive(Clone, Debug, PartialEq, Eq)]
pub enum KeyboardEvent {
    Keymap { fd: i32, size: u32 },
    Enter { serial: u32, raw_keys: Vec<u8> },
    Leave { serial: u32 },
    Key { serial: u32, time: u32, key: u32, state: KeyState },
    Modifiers { serial: u32, depressed: u32, latched: u32, locked: u32, group: u32 },
    RepeatInfo { rate: i32, delay: i32 },
}

/// The little-endian 32-bit value at chunk `i` of a byte sequence.
pub open spec fn spec_le32_at(bytes: Seq<u8>, i: int) -> int {
    bytes[4 * i] + bytes[4 * i + 1] * 0x100 + bytes[4 * i + 2] * 0x1_0000 + bytes[4 * i + 3]
        * 0x100_0000
}

/// Decodes the wire encoding of a key array: each whole 4-byte chunk read as
/// a little-endian 32-bit value; a trailing partial chunk is ignored.
pub fn decode_keys(raw: &Vec<u8>) -> (r: Vec<u32>)
    ensures
        r@.len() == raw@.len() / 4,
        forall|i: int| 0 <= i < r@.len() ==> r@[i] as int == spec_le32_at(raw@, i),
{
    let len = raw.len();
    let n = len / 4;
    let mut out: Vec<u32> = Vec::new();
    let mut i: usize = 0;
    while i < n
        invariant
            len == raw@.len(),
            n == raw@.len() / 4,
            4 * n <= len,
            i <= n,
            out@.len() == i,
            forall|j: int| 0 <= j < i ==> out@[j] as int == spec_le32_at(raw@, j),
        decreases n - i,
    {
        let b0 = raw[4 * i] as u32;
        let b1 = raw[4 * i + 1] as u32;
        let b2 = raw[4 * i + 2] as u32;
        let b3 = raw[4 * i + 3] as u32;
        out.push(b0 + b1 * 0x100 + b2 * 0x1_0000 + b3 * 0x100_0000);
        i = i + 1;
    }
    out
}

/// Translates one host keyboard event into exactly one unified event. An
/// enter event's pressed-key set is decoded from its wire bytes.
/// Whether `r` is the unified event that translating `e` for `keyboard`
/// must yield: every event maps to exactly one unified event, and an enter
/// event's pressed-key set is the decoding of its wire bytes.
pub open spec fn spec_keyboard_translation_matches(
    keyboard: u32,
    e: KeyboardEvent,
    r: InputEvent,
) -> bool {
    match e {
        KeyboardEvent::Keymap { fd, size } => r == InputEvent::Special(
            WaylandInputSpecialEvent::KeyboardKeymap { keyboard, fd, size },
        ),
        KeyboardEvent::Enter { serial, raw_keys } => r matches InputEvent::Special(
            WaylandInputSpecialEvent::KeyboardEnter { keyboard: k, serial: s, keys },
        ) && k == keyboard && s == serial && keys@.len() == raw_keys@.len() / 4 && (forall|i: int|
            0 <= i < keys@.len() ==> keys@[i] as int == spec_le32_at(raw_keys@, i)),
        KeyboardEvent::Leave { serial } => r == InputEvent::Special(
            WaylandInputSpecialEvent::KeyboardLeave { keyboard, serial },
        ),
        KeyboardEvent::Key { serial, time, key, state } => r == (InputEvent::Keyboard {
            event: WaylandKeyboardEvent { keyboard, time, serial, key, state },
        }),
        KeyboardEvent::Modifiers { serial, depressed, latched, locked, group } => r
            == InputEvent::Special(
            WaylandInputSpecialEvent::KeyboardModifiers {
                keyboard,
                serial,
                depressed,
                latched,
                locked,
                group,
            },
        ),
        KeyboardEvent::RepeatInfo { rate, delay } => r == InputEvent::Special(
            WaylandInputSpecialEvent::KeyboardRepeatInfo { keyboard, rate, delay },
        ),
    }
}

pub fn process_keyboard_event(keyboard: u32, event: KeyboardEvent) -> (r: InputEvent)
    ensures
        spec_keyboard_translation_matches(keyboard, event, r),
{
    match event {
        KeyboardEvent::Keymap { fd, size } => InputEvent::Special(
            WaylandInputSpecialEvent::KeyboardKeymap { keyboard, fd, size },
        ),
        KeyboardEvent::Enter { serial, raw_keys } => {
            let keys = decode_keys(&raw_keys);
            InputEvent::Special(WaylandInputSpecialEvent::KeyboardEnter { keyboard, serial, keys })
        },
        KeyboardEvent::Leave { serial } => InputEvent::Special(
            WaylandInputSpecialEvent::KeyboardLeave { keyboard, serial },
        ),
        KeyboardEvent::Key { serial, time, key, state } => InputEvent::Keyboard {
            event: WaylandKeyboardEvent { keyboard, time, serial, key, state },
        },
        KeyboardEvent::Modifiers { serial, depressed, latched, locked, group } => {
            InputEvent::Special(
                WaylandInputSpecialEvent::KeyboardModifiers {
                    keyboard,
                    serial,
                    depressed,
                    latched,
                    locked,
                    group,
                },
            )
        },
        KeyboardEvent::RepeatInfo { rate, delay } => InputEvent::Special(
            WaylandInputSpecialEvent::KeyboardRepeatInfo { keyboard, rate, delay },
        ),
    }
}

/// A raw pointer event as the host delivers it, already decoded to plain
/// values.
#[derive(Copy, Clone, Debug, PartialEq, Eq, Structural)]
pub enum PointerEvent {
    Enter { serial: u32, x: i64, y: i64 },
    Leave { serial: u32 },
    Motion { time: u32, x: i64, y: i64 },
    Button { serial: u32, time: u32, button: u32, state: ButtonState },
    Axis { time: u32, axis: Axis, value: i64 },
    AxisSource { source: AxisSource },
    AxisStop { time: u32, axis: Axis },
    AxisDiscrete { axis: Axis, discrete: i32 },
    AxisValue120 { axis: Axis, value120: i32 },
    AxisRelativeDirection { axis: Axis, direction: AxisRelativeDirection },
    Frame,
}

pub open spec fn spec_update_scroll(f: AxisFrame, axis: Axis, s: AxisScroll) -> AxisFrame {
    match axis {
        Axis::Vertical => AxisFrame { vertical: s, ..f },
        Axis::Horizontal => AxisFrame { horizontal: s, ..f },
    }
}

/// An elemental axis event: the timestamp is latched if it is the first of
/// the batch, and the continuous delta adds onto the accumulator.
pub open spec fn spec_axis_accumulate(f: AxisFrame, time: u32, axis: Axis, value: i64) -> AxisFrame {
    let latched = AxisFrame { time: spec_frame_time(f.time, time), ..f };
    spec_update_scroll(
        latched,
        axis,
        AxisScroll {
            absolute: spec_sat_i64(f.spec_scroll(axis).absolute + value) as i64,
            ..f.spec_scroll(axis)
        },
    )
}

/// How one pointer event moves the axis accumulator, and the unified event
/// it emits, if any. Every non-scroll event emits exactly one unified event;
/// elemental scroll events only accumulate, and the batch terminator emits
/// the whole gesture and resets the accumulator to empty.
pub open spec fn spec_pointer_step(
    f: AxisFrame,
    pointer: u32,
    e: PointerEvent,
    transform: Transform,
    window_size: Size,
) -> (AxisFrame, Option<InputEvent>) {
    match e {
        PointerEvent::Enter { serial, x, y } => (
            f,
            Some(
                InputEvent::Special(
                    WaylandInputSpecialEvent::PointerEnter {
                        pointer,
                        serial,
                        surface_x: x,
                        surface_y: y,
                        transform,
                        window_size,
                    },
                ),
            ),
        ),
        PointerEvent::Leave { serial } => (
            f,
            Some(InputEvent::Special(WaylandInputSpecialEvent::PointerLeave { pointer, serial })),
        ),
        PointerEvent::Motion { time, x, y } => (
            f,
            Some(
                InputEvent::PointerMotionAbsolute {
                    event: WaylandPointerMotionEvent { pointer, time, x, y, transform, window_size },
                },
            ),
        ),
        PointerEvent::Button { serial, time, button, state } => (
            f,
            Some(
                InputEvent::PointerButton {
                    event: WaylandPointerButtonEvent { pointer, time, serial, button, state },
                },
            ),
        ),
        PointerEvent::Axis { time, axis, value } => (
            spec_axis_accumulate(f, time, axis, value),
            None,
        ),
        PointerEvent::AxisSource { source } => (AxisFrame { source, ..f }, None),
        PointerEvent::AxisStop { time, axis } => (
            AxisFrame { time: spec_frame_time(f.time, time), ..f },
            None,
        ),
        PointerEvent::AxisDiscrete { axis, discrete } => (
            spec_update_scroll(
                f,
                axis,
                AxisScroll {
                    v120: spec_sat_i32(f.spec_scroll(axis).v120 + discrete * 120) as i32,
                    ..f.spec_scroll(axis)
                },
            ),
            None,
        ),
        PointerEvent::AxisValue120 { axis, value120 } => (
            spec_update_scroll(
                f,
                axis,
                AxisScroll {
                    v120: spec_sat_i32(f.spec_scroll(axis).v120 + value120) as i32,
                    ..f.spec_scroll(axis)
                },
            ),
            None,
        ),
        PointerEvent::AxisRelativeDirection { axis, direction } => (
            spec_update_scroll(
                f,
                axis,
                AxisScroll { relative_direction: direction, ..f.spec_scroll(axis) },
            ),
            None,
        ),
        PointerEvent::Frame => (
            spec_axis_frame_default(),
            Some(
                InputEvent::PointerAxis {
                    event: WaylandPointerAxisEvent { pointer, axis_frame: f },
                },
            ),
        ),
    }
}

/// The full translation of one pointer event, including the pre-batching
/// fallback: when the host's protocol version predates batched scrolling,
/// any change to the accumulator is emitted immediately as a single-event
/// batch, and the accumulator reset.
pub open spec fn spec_process_pointer_event(
    f: AxisFrame,
    pointer: u32,
    version: u32,
    e: PointerEvent,
    transform: Transform,
    window_size: Size,
) -> (AxisFrame, Seq<InputEvent>) {
    let (f1, emitted) = spec_pointer_step(f, pointer, e, transform, window_size);
    let base = match emitted {
        Some(ev) => seq![ev],
        None => Seq::<InputEvent>::empty(),
    };
    if version < 5 && f1 != spec_axis_frame_default() {
        (
            spec_axis_frame_default(),
            base.push(
                InputEvent::PointerAxis {
                    event: WaylandPointerAxisEvent { pointer, axis_frame: f1 },
                },
            ),
        )
    } else {
        (f1, base)
    }
}

/// Translates one host pointer event against the accumulator of that
/// pointer's current scroll gesture.
pub fn process_pointer_event(
    frame: &mut AxisFrame,
    pointer: u32,
    version: u32,
    event: PointerEvent,
    transform: Transform,
    window_size: Size,
) -> (out: Vec<InputEvent>)
    ensures
        (*final(frame), out@) == spec_process_pointer_event(
            *old(frame),
            pointer,
            version,
            event,
            transform,
            window_size,
        ),
{
    let mut out: Vec<InputEvent> = Vec::new();
    match event {
        PointerEvent::Enter { serial, x, y } => {
            out.push(
                InputEvent::Special(
                    WaylandInputSpecialEvent::PointerEnter {
                        pointer,
                        serial,
                        surface_x: x,
                        surface_y: y,
                        transform,
                        window_size,
                    },
                ),
            );
        },
        PointerEvent::Leave { serial } => {
            out.push(
                InputEvent::Special(WaylandInputSpecialEvent::PointerLeave { pointer, serial }),
            );
        },
        PointerEvent::Motion { time, x, y } => {
            out.push(
                InputEvent::PointerMotionAbsolute {
                    event: WaylandPointerMotionEvent { pointer, time, x, y, transform, window_size },
                },
            );
        },
        PointerEvent::Button { serial, time, button, state } => {
            out.push(
                InputEvent::PointerButton {
                    event: WaylandPointerButtonEvent { pointer, time, serial, button, state },
                },
            );
        },
        PointerEvent::Axis { time, axis, value } => {
            frame.time(time);
            let s = frame.scroll(axis);
            let updated = AxisScroll { absolute: sat_add_i64(s.absolute, value), ..s };
            set_scroll(frame, axis, updated);
        },
        PointerEvent::AxisSource { source } => {
            frame.source = source;
        },
        PointerEvent::AxisStop { time, axis: _ } => {
            frame.time(time);
        },
        PointerEvent::AxisDiscrete { axis, discrete } => {
            let s = frame.scroll(axis);
            let updated = AxisScroll {
                v120: sat_add_v120(s.v120, discrete as i64 * 120),
                ..s
            };
            set_scroll(frame, axis, updated);
        },
        PointerEvent::AxisValue120 { axis, value120 } => {
            let s = frame.scroll(axis);
            let updated = AxisScroll { v120: sat_add_v120(s.v120, value120 as i64), ..s };
            set_scroll(frame, axis, updated);
        },
        PointerEvent::AxisRelativeDirection { axis, direction } => {
            let s = frame.scroll(axis);
            let updated = AxisScroll { relative_direction: direction, ..s };
            set_scroll(frame, axis, updated);
        },
        PointerEvent::Frame => {
            let taken = *frame;
            *frame = AxisFrame::default();
            out.push(
                InputEvent::PointerAxis {
                    event: WaylandPointerAxisEvent { pointer, axis_frame: taken },
                },
            );
        },
    }
    if version < 5 {
        let taken = *frame;
        if taken != AxisFrame::default() {
            *frame = AxisFrame::default();
            out.push(
                InputEvent::PointerAxis {
                    event: WaylandPointerAxisEvent { pointer, axis_frame: taken },
                },
            );
        }
    }
    out
}

/// Writes back the accumulator of one axis.
pub fn set_scroll(frame: &mut AxisFrame, axis: Axis, s: AxisScroll)
    ensures
        *final(frame) == spec_update_scroll(*old(frame), axis, s),
{
    match axis {
        Axis::Vertical => frame.vertical = s,
        Axis::Horizontal => frame.horizontal = s,
    }
}

/// A raw touch event as the host delivers it.
#[derive(Copy, Clone, Debug, PartialEq, Eq, Structural)]
pub enum TouchEvent {
    Down { serial: u32, time: u32, id: i32, x: i64, y: i64 },
    Up { serial: u32, time: u32, id: i32 },
    Motion { time: u32, id: i32, x: i64, y: i64 },
    Frame,
    Cancel,
    Shape { id: i32 },
    Orientation { id: i32 },
}

/// What translating one touch event yields: shape and orientation have no
/// counterpart in the unified model and yield nothing; the frame and cancel
/// events carry no host timestamp, and no consumer reads one, so it is zero.
pub open spec fn spec_process_touch_event(
    touch: u32,
    e: TouchEvent,
    transform: Transform,
    window_size: Size,
) -> Option<InputEvent> {
    match e {
        TouchEvent::Down { serial, time, id, x, y } => Some(
            InputEvent::TouchDown {
                event: WaylandTouchDownEvent {
                    touch,
                    time,
                    serial,
                    slot: Some(id as u32),
                    x,
                    y,
                    transform,
                    window_size,
                },
            },
        ),
        TouchEvent::Up { serial, time, id } => Some(
            InputEvent::TouchUp {
                event: WaylandTouchUpEvent { touch, time, serial, slot: Some(id as u32) },
            },
        ),
        TouchEvent::Motion { time, id, x, y } => Some(
            InputEvent::TouchMotion {
                event: WaylandTouchMotionEvent {
                    touch,
                    time,
                    slot: Some(id as u32),
                    x,
                    y,
                    transform,
                    window_size,
                },
            },
        ),
        TouchEvent::Frame => Some(
            InputEvent::TouchFrame { event: WaylandTouchFrameEvent { touch, time: 0 } },
        ),
        TouchEvent::Cancel => Some(
            InputEvent::TouchCancel {
                event: WaylandTouchCancelEvent { touch, time: 0, slot: None },
            },
        ),
        TouchEvent::Shape { .. } => None,
        TouchEvent::Orientation { .. } => None,
    }
}

/// Translates one host touch event.
pub fn process_touch_event(
    touch: u32,
    event: TouchEvent,
    transform: Transform,
    window_size: Size,
) -> (out: Option<InputEvent>)
    ensures
        out == spec_process_touch_event(touch, event, transform, window_size),
{
    match event {
        TouchEvent::Down { serial, time, id, x, y } => Some(
            InputEvent::TouchDown {
                event: WaylandTouchDownEvent {
                    touch,
                    time,
                    serial,
                    slot: Some(#[verifier::truncate] (id as u32)),
                    x,
                    y,
                    transform,
                    window_size,
                },
            },
        ),
        TouchEvent::Up { serial, time, id } => Some(
            InputEvent::TouchUp {
                event: WaylandTouchUpEvent {
                    touch,
                    time,
                    serial,
                    slot: Some(#[verifier::truncate] (id as u32)),
                },
            },
        ),
        TouchEvent::Motion { time, id, x, y } => Some(
            InputEvent::TouchMotion {
                event: WaylandTouchMotionEvent {
                    touch,
                    time,
                    slot: Some(#[verifier::truncate] (id as u32)),
                    x,
                    y,
                    transform,
                    window_size,
                },
            },
        ),
        TouchEvent::Frame => Some(
            InputEvent::TouchFrame { event: WaylandTouchFrameEvent { touch, time: 0 } },
        ),
        TouchEvent::Cancel => Some(
            InputEvent::TouchCancel {
                event: WaylandTouchCancelEvent { touch, time: 0, slot: None },
            },
        ),
        TouchEvent::Shape { .. } => None,
        TouchEvent::Orientation { .. } => None,
    }
}

/// Translates one relative pointer motion report; the raw deltas are kept
/// with the transform current at translation time, and read back rotated.
pub fn process_relative_motion(
    pointer: u32,
    utime: u64,
    delta: Point,
    delta_unaccel: Point,
    transform: Transform,
) -> (r: InputEvent)
    ensures
        r == (InputEvent::PointerMotion {
            event: WaylandPointerRelativeMotionEvent {
                pointer,
                utime,
                delta,
                delta_unaccel,
                transform,
            },
        }),
{
    InputEvent::PointerMotion {
        event: WaylandPointerRelativeMotionEvent { pointer, utime, delta, delta_unaccel, transform },
    }
}

/// A batch terminator resets the accumulator, so the next elemental axis
/// event starts from the empty frame: its accumulated delta is exactly the
/// event's own value.
pub proof fn lemma_axis_frame_reset(
    f: AxisFrame,
    pointer: u32,
    transform: Transform,
    window_size: Size,
    time: u32,
    axis: Axis,
    value: i64,
)
    ensures
        spec_pointer_step(f, pointer, PointerEvent::Frame, transform, window_size).0
            == spec_axis_frame_default(),
        spec_pointer_step(
            spec_pointer_step(f, pointer, PointerEvent::Frame, transform, window_size).0,
            pointer,
            PointerEvent::Axis { time, axis, value },
            transform,
            window_size,
        ).0.spec_scroll(axis).absolute as int == spec_sat_i64(value as int),
{
}

/// Within one batch, accumulated continuous deltas are strictly additive:
/// two elemental events on one axis add both their values onto the
/// accumulator (as long as the sums stay in range).
pub proof fn lemma_axis_accumulation_additive(
    f: AxisFrame,
    pointer: u32,
    transform: Transform,
    window_size: Size,
    t1: u32,
    t2: u32,
    axis: Axis,
    v1: i64,
    v2: i64,
)
    requires
        i64::MIN <= f.spec_scroll(axis).absolute + v1 <= i64::MAX,
        i64::MIN <= f.spec_scroll(axis).absolute + v1 + v2 <= i64::MAX,
    ensures
        ({
            let f1 = spec_pointer_step(
                f,
                pointer,
                PointerEvent::Axis { time: t1, axis, value: v1 },
                transform,
                window_size,
            ).0;
            let f2 = spec_pointer_step(
                f1,
                pointer,
                PointerEvent::Axis { time: t2, axis, value: v2 },
                transform,
                window_size,
            ).0;
            f2.spec_scroll(axis).absolute == f.spec_scroll(axis).absolute + v1 + v2
        }),
{
}

} // verus!
