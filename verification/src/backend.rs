//! The backend facade: the object the rest of the compositor talks to.
//!
//! It owns the graphics bookkeeping and the seat tracker, and queues the
//! unified events (input, resize, close, frame) that the compositor's main
//! loop consumes strictly in emission order. Every host request a call
//! decides to make is returned as a value.

use vstd::prelude::*;

use crate::geometry::{
    invert, point_in_range, spec_invert, spec_position, spec_swap_flipped_quarter_turns,
    spec_transform_size, swap_flipped_quarter_turns, transform_size, Point, RawAbsolutePosition,
    Size, Transform, FX_ONE, MAX_DIM,
};
use crate::graphics::{
    rect_in_surface, spec_flip_rect, Rect, SubmitPlan, WaylandGraphicsBackend,
};
use crate::input::InputEvent;
use crate::seat::{
    spec_initial_seats, spec_locks, spec_unlock_all, GlobalEntry, SeatAction, SeatState,
};

verus! {

/// What the backend hands to the compositor's main loop.
#[derive(Clone, Debug, PartialEq, Eq)]
pub enum WaylandBackendEvent {
    Input(InputEvent),
    Frame,
    Close,
    Resize,
}

/// Whether a frame was handed to the host or nothing needed presenting.
#[derive(Copy, Clone, Debug, PartialEq, Eq, Structural)]
pub enum RenderResult {
    Submitted,
    NoDamage,
}

/// A cursor-position hint to forward to one held lock.
#[derive(Copy, Clone, Debug, PartialEq, Eq, Structural)]
pub struct CursorHint {
    pub lock: u32,
    pub x: i64,
    pub y: i64,
}

/// Everything one render pass asks of the host: the presentation (if there
/// was damage), whether the caller must block on the GPU fence before
/// queueing (the one opt-in blocking point), and whether a frame-completion
/// signal must additionally be requested for a pending animation.
#[derive(Debug, PartialEq, Eq)]
pub struct RenderOutcome {
    pub result: RenderResult,
    pub submit: Option<SubmitPlan>,
    pub wait_for_completion: bool,
    pub extra_frame_request: bool,
}

/// The backend facade's state: render-surface bookkeeping, tracked seats,
/// the output transform the host applies, the last cursor hint forwarded,
/// and the queue of events not yet consumed by the main loop.
pub struct WaylandBackend {
    pub graphics: WaylandGraphicsBackend,
    pub seat_state: SeatState,
    pub transform: Transform,
    pub prev_cursor_location: Point,
    pub events: Vec<WaylandBackendEvent>,
}

/// Where a cursor hint lands on the host surface: the logical position
/// carried through the inverse of the output transform, over the size of
/// the transformed surface.
pub open spec fn spec_hint_target(location: Point, transform: Transform, window_size: Size) -> (
    int,
    int,
) {
    let t = spec_swap_flipped_quarter_turns(transform);
    let area = spec_transform_size(t, window_size);
    spec_position(
        RawAbsolutePosition { pos: location, transform: spec_invert(t), window_size: area },
    )
}

/// Whether a position sits exactly on an edge pixel of the surface: pixels
/// are zero-indexed, so the edges are 0 and size - 1. A cursor pinned there
/// is indistinguishable from one about to leave the surface.
pub open spec fn spec_on_boundary(x: int, y: int, window_size: Size) -> bool {
    ||| x == 0
    ||| y == 0
    ||| x + FX_ONE == window_size.w * FX_ONE
    ||| y + FX_ONE == window_size.h * FX_ONE
}

impl WaylandBackend {
    pub open spec fn wf(self) -> bool {
        &&& self.graphics.wf()
        &&& self.seat_state.wf()
        &&& point_in_range(self.prev_cursor_location)
    }

    /// A fresh backend: the surface starts at 1x1 (the host chooses a real
    /// size with its first configure), every advertised seat is bound, no
    /// cursor hint has been sent, and the event queue is empty.
    pub fn new(globals: &Vec<GlobalEntry>, damage_tracking: bool) -> (r: (Self, Vec<SeatAction>))
        ensures
            r.0.graphics == (WaylandGraphicsBackend {
                window_size: Size { w: 1, h: 1 },
                damage_tracking,
                bind_size: None,
                pending_frame_callback: false,
            }),
            (r.0.seat_state.seats@, r.1@) == spec_initial_seats(globals@),
            r.0.transform == Transform::Normal,
            r.0.prev_cursor_location == (Point { x: 0, y: 0 }),
            r.0.events@ == Seq::<WaylandBackendEvent>::empty(),
            r.0.wf(),
    {
        let (seat_state, actions) = SeatState::new(globals);
        let backend = WaylandBackend {
            graphics: WaylandGraphicsBackend::new(Size { w: 1, h: 1 }, damage_tracking),
            seat_state,
            transform: Transform::Normal,
            prev_cursor_location: Point { x: 0, y: 0 },
            events: Vec::new(),
        };
        (backend, actions)
    }

    /// Queues one event for the main loop.
    pub fn send_event(&mut self, event: WaylandBackendEvent)
        ensures
            final(self).events@ == old(self).events@.push(event),
            final(self).graphics == old(self).graphics,
            final(self).seat_state == old(self).seat_state,
            final(self).transform == old(self).transform,
            final(self).prev_cursor_location == old(self).prev_cursor_location,
    {
        self.events.push(event);
    }

    /// Queues one input event.
    pub fn send_input_event(&mut self, event: InputEvent)
        ensures
            final(self).events@ == old(self).events@.push(WaylandBackendEvent::Input(event)),
            final(self).graphics == old(self).graphics,
            final(self).seat_state == old(self).seat_state,
            final(self).transform == old(self).transform,
            final(self).prev_cursor_location == old(self).prev_cursor_location,
    {
        self.events.push(WaylandBackendEvent::Input(event));
    }

    /// Hands the queued events to the main loop, in emission order.
    pub fn take_events(&mut self) -> (r: Vec<WaylandBackendEvent>)
        ensures
            r@ == old(self).events@,
            final(self).events@ == Seq::<WaylandBackendEvent>::empty(),
            final(self).graphics == old(self).graphics,
            final(self).seat_state == old(self).seat_state,
            final(self).transform == old(self).transform,
            final(self).prev_cursor_location == old(self).prev_cursor_location,
    {
        let mut taken: Vec<WaylandBackendEvent> = Vec::new();
        core::mem::swap(&mut taken, &mut self.events);
        taken
    }

    /// The seat name this backend reports for itself.
    pub fn seat_name(&self) -> (r: &'static str)
        ensures
            r@ == "niri-nested"@,
    {
        "niri-nested"
    }

    /// The host's frame-completion signal arrived: the redraw trigger is
    /// queued and the outstanding request is spent.
    pub fn frame(&mut self)
        ensures
            final(self).events@ == old(self).events@.push(WaylandBackendEvent::Frame),
            final(self).graphics == (WaylandGraphicsBackend {
                pending_frame_callback: false,
                ..old(self).graphics
            }),
            final(self).seat_state == old(self).seat_state,
            final(self).transform == old(self).transform,
            final(self).prev_cursor_location == old(self).prev_cursor_location,
    {
        self.events.push(WaylandBackendEvent::Frame);
        self.graphics.got_frame_callback();
    }

    /// The host asked the window to close: a quit request is queued.
    pub fn request_close(&mut self)
        ensures
            final(self).events@ == old(self).events@.push(WaylandBackendEvent::Close),
            final(self).graphics == old(self).graphics,
            final(self).seat_state == old(self).seat_state,
            final(self).transform == old(self).transform,
            final(self).prev_cursor_location == old(self).prev_cursor_location,
    {
        self.events.push(WaylandBackendEvent::Close);
    }

    /// A configure notification: dimensions the host leaves open keep their
    /// current value; if the effective size differs from the current one it
    /// is recorded (the native surface resizes on the next bind) and a
    /// resize event is queued.
    pub fn configure(&mut self, new_width: Option<i32>, new_height: Option<i32>)
        requires
            old(self).wf(),
            new_width matches Some(w) ==> 1 <= w <= MAX_DIM,
            new_height matches Some(h) ==> 1 <= h <= MAX_DIM,
        ensures
            final(self).wf(),
            ({
                let w = match new_width {
                    Some(w) => w,
                    None => old(self).graphics.window_size.w,
                };
                let h = match new_height {
                    Some(h) => h,
                    None => old(self).graphics.window_size.h,
                };
                let size = Size { w, h };
                if size != old(self).graphics.window_size {
                    &&& final(self).graphics == (WaylandGraphicsBackend {
                        window_size: size,
                        ..old(self).graphics
                    })
                    &&& final(self).events@ == old(self).events@.push(
                        WaylandBackendEvent::Resize,
                    )
                } else {
                    &&& final(self).graphics == old(self).graphics
                    &&& final(self).events@ == old(self).events@
                }
            }),
            final(self).seat_state == old(self).seat_state,
            final(self).transform == old(self).transform,
            final(self).prev_cursor_location == old(self).prev_cursor_location,
    {
        let current = self.graphics.window_size();
        let w = match new_width {
            Some(w) => w,
            None => current.w,
        };
        let h = match new_height {
            Some(h) => h,
            None => current.h,
        };
        let size = Size { w, h };
        if size != current {
            self.graphics.set_window_size(size);
            self.events.push(WaylandBackendEvent::Resize);
        }
    }

    /// Finishes a render pass. With damage, the frame is handed to
    /// presentation (which always requests a frame-completion signal,
    /// idempotently) and the pass counts as submitted; without damage
    /// nothing is presented. An unfinished animation additionally requests
    /// a frame-completion signal, again idempotently: one pass issues at
    /// most one new host request.
    pub fn render(
        &mut self,
        damage: Option<&Vec<Rect>>,
        wait_for_completion_before_queueing: bool,
        unfinished_animations_remain: bool,
    ) -> (r: RenderOutcome)
        requires
            old(self).wf(),
            damage matches Some(d) ==> forall|i: int|
                0 <= i < d@.len() ==> rect_in_surface(d@[i], old(self).graphics.window_size),
        ensures
            final(self).wf(),
            r.wait_for_completion == (wait_for_completion_before_queueing && damage is Some),
            r.result == (if damage is Some {
                RenderResult::Submitted
            } else {
                RenderResult::NoDamage
            }),
            damage is None ==> r.submit is None,
            damage matches Some(d) ==> (r.submit matches Some(plan) && {
                &&& plan.issue_frame_request == !old(self).graphics.pending_frame_callback
                &&& plan.damage matches Some(flipped) ==> old(self).graphics.damage_tracking
                    && flipped@ == d@.map_values(
                    |rect: Rect| spec_flip_rect(rect, old(self).graphics.window_size.h as int),
                )
                &&& plan.damage is None <==> !old(self).graphics.damage_tracking
            }),
            r.extra_frame_request == (unfinished_animations_remain && damage is None && !old(
                self,
            ).graphics.pending_frame_callback),
            final(self).graphics == (WaylandGraphicsBackend {
                pending_frame_callback: old(self).graphics.pending_frame_callback || damage is Some
                    || unfinished_animations_remain,
                ..old(self).graphics
            }),
            final(self).seat_state == old(self).seat_state,
            final(self).transform == old(self).transform,
            final(self).prev_cursor_location == old(self).prev_cursor_location,
            final(self).events@ == old(self).events@,
    {
        let (result, submit) = match damage {
            Some(d) => {
                let plan = self.graphics.submit(Some(d));
                (RenderResult::Submitted, Some(plan))
            },
            None => (RenderResult::NoDamage, None),
        };
        let extra_frame_request = if unfinished_animations_remain {
            self.graphics.request_frame_callback()
        } else {
            false
        };
        let wait_for_completion = wait_for_completion_before_queueing && matches!(
            damage, Some(_));
        RenderOutcome { result, submit, wait_for_completion, extra_frame_request }
    }

    /// Forwards a cursor-position hint, suppressing redundant host round
    /// trips: if the logical position equals the last one forwarded, nothing
    /// is sent at all. Otherwise the transformed position goes to every held
    /// lock and, if it sits exactly on a surface edge pixel, every lock is
    /// released: a cursor pinned at an edge is indistinguishable from one
    /// about to leave, and hosts differ in whether they auto-release there.
    pub fn set_cursor_position_hint(&mut self, location: Point) -> (r: (
        Vec<CursorHint>,
        Vec<SeatAction>,
    ))
        requires
            old(self).wf(),
            point_in_range(location),
        ensures
            final(self).wf(),
            location == old(self).prev_cursor_location ==> {
                &&& *final(self) == *old(self)
                &&& r.0@ == Seq::<CursorHint>::empty()
                &&& r.1@ == Seq::<SeatAction>::empty()
            },
            location != old(self).prev_cursor_location ==> ({
                let (hx, hy) = spec_hint_target(
                    location,
                    old(self).transform,
                    old(self).graphics.window_size,
                );
                &&& final(self).prev_cursor_location == location
                &&& r.0@ == spec_locks(old(self).seat_state.seats@).map_values(
                    |l: u32| CursorHint { lock: l, x: hx as i64, y: hy as i64 },
                )
                &&& (if spec_on_boundary(hx, hy, old(self).graphics.window_size) {
                    &&& final(self).seat_state.seats@ == spec_unlock_all(
                        old(self).seat_state.seats@,
                    ).0
                    &&& r.1@ == spec_unlock_all(old(self).seat_state.seats@).1
                } else {
                    &&& final(self).seat_state.seats@ == old(self).seat_state.seats@
                    &&& r.1@ == Seq::<SeatAction>::empty()
                })
                &&& final(self).seat_state.ids == old(self).seat_state.ids
                &&& final(self).graphics == old(self).graphics
                &&& final(self).transform == old(self).transform
                &&& final(self).events@ == old(self).events@
            }),
    {
        if location == self.prev_cursor_location {
            return (Vec::new(), Vec::new());
        }
        self.prev_cursor_location = location;

        let t = swap_flipped_quarter_turns(self.transform);
        let area = transform_size(t, self.graphics.window_size());
        let pos = RawAbsolutePosition::new(location.x, location.y, invert(t), area).position();

        let locks = self.seat_state.locked_pointers();
        let mut hints: Vec<CursorHint> = Vec::new();
        let mut i: usize = 0;
        while i < locks.len()
            invariant
                i <= locks@.len(),
                hints@ == locks@.subrange(0, i as int).map_values(
                    |l: u32| CursorHint { lock: l, x: pos.x, y: pos.y },
                ),
            decreases locks@.len() - i,
        {
            hints.push(CursorHint { lock: locks[i], x: pos.x, y: pos.y });
            proof {
                assert(locks@.subrange(0, i + 1 as int).map_values(
                    |l: u32| CursorHint { lock: l, x: pos.x, y: pos.y },
                ) =~= locks@.subrange(0, i as int).map_values(
                    |l: u32| CursorHint { lock: l, x: pos.x, y: pos.y },
                ).push(CursorHint { lock: locks@[i as int], x: pos.x, y: pos.y }));
            }
            i = i + 1;
        }
        proof {
            assert(locks@.subrange(0, locks@.len() as int) =~= locks@);
        }

        let w = self.graphics.window_size().w;
        let h = self.graphics.window_size().h;
        let on_edge = pos.x == 0 || pos.y == 0 || pos.x + FX_ONE == (w as i64) * FX_ONE || pos.y
            + FX_ONE == (h as i64) * FX_ONE;
        let unlocks = if on_edge {
            self.seat_state.unlock_all()
        } else {
            Vec::new()
        };
        (hints, unlocks)
    }
}

impl WaylandBackend {
    /// Translates one keyboard event, queues the unified event, and keeps
    /// the cursor lock in step with keyboard focus: focus entering the
    /// surface requests a lock for the seat owning the keyboard (only with
    /// a relative-motion companion, and idempotently), focus leaving
    /// releases it.
    pub fn keyboard_event(
        &mut self,
        keyboard: u32,
        event: crate::input::KeyboardEvent,
        constraints_available: bool,
    ) -> (r: Vec<SeatAction>)
        requires
            old(self).wf(),
        ensures
            final(self).wf(),
            final(self).events@.len() == old(self).events@.len() + 1,
            final(self).events@.subrange(0, old(self).events@.len() as int) == old(self).events@,
            final(self).events@.last() matches WaylandBackendEvent::Input(ev)
                && crate::input::spec_keyboard_translation_matches(keyboard, event, ev),
            final(self).graphics == old(self).graphics,
            final(self).transform == old(self).transform,
            final(self).prev_cursor_location == old(self).prev_cursor_location,
            !(event is Enter || event is Leave) ==> {
                &&& final(self).seat_state == old(self).seat_state
                &&& r@ == Seq::<SeatAction>::empty()
            },
            event is Enter && (forall|j: int|
                0 <= j < old(self).seat_state.seats@.len() ==> old(
                    self,
                ).seat_state.seats@[j].devices.keyboard != Some(keyboard)) ==> {
                &&& final(self).seat_state == old(self).seat_state
                &&& r@ == Seq::<SeatAction>::empty()
            },
            event is Enter && (exists|j: int|
                0 <= j < old(self).seat_state.seats@.len() && old(
                    self,
                ).seat_state.seats@[j].devices.keyboard == Some(keyboard)) ==> (exists|i: int|
                {
                    &&& 0 <= i < old(self).seat_state.seats@.len()
                    &&& old(self).seat_state.seats@[i].devices.keyboard == Some(keyboard)
                    &&& ({
                        let (d2, ids2, acts) = crate::seat::spec_lock_pointer(
                            old(self).seat_state.seats@[i].devices,
                            old(self).seat_state.ids.value,
                            constraints_available,
                        );
                        &&& final(self).seat_state.seats@ == old(self).seat_state.seats@.update(
                            i,
                            crate::seat::SeatRecord {
                                name: old(self).seat_state.seats@[i].name,
                                devices: d2,
                            },
                        )
                        &&& final(self).seat_state.ids.value == ids2
                        &&& r@ == acts
                    })
                }),
            event is Leave && (exists|j: int|
                0 <= j < old(self).seat_state.seats@.len() && old(
                    self,
                ).seat_state.seats@[j].devices.keyboard == Some(keyboard)) ==> (exists|i: int|
                {
                    &&& 0 <= i < old(self).seat_state.seats@.len()
                    &&& old(self).seat_state.seats@[i].devices.keyboard == Some(keyboard)
                    &&& ({
                        let (d2, acts) = crate::seat::spec_unlock_pointer(
                            old(self).seat_state.seats@[i].devices,
                        );
                        &&& final(self).seat_state.seats@ == old(self).seat_state.seats@.update(
                            i,
                            crate::seat::SeatRecord {
                                name: old(self).seat_state.seats@[i].name,
                                devices: d2,
                            },
                        )
                        &&& r@ == acts
                    })
                }),
    {
        let is_enter = matches!(event, crate::input::KeyboardEvent::Enter { .. });
        let is_leave = matches!(event, crate::input::KeyboardEvent::Leave { .. });
        let translated = crate::input::process_keyboard_event(keyboard, event);
        self.events.push(WaylandBackendEvent::Input(translated));
        if is_enter {
            self.seat_state.keyboard_enter(keyboard, constraints_available)
        } else if is_leave {
            self.seat_state.keyboard_leave(keyboard)
        } else {
            Vec::new()
        }
    }

    /// Translates one pointer event against the owning seat's scroll
    /// accumulator and queues whatever it emits, in order. Events for an
    /// unknown pointer are ignored.
    pub fn pointer_event(
        &mut self,
        pointer: u32,
        version: u32,
        event: crate::input::PointerEvent,
    ) -> (emitted: usize)
        requires
            old(self).wf(),
        ensures
            final(self).wf(),
            final(self).graphics == old(self).graphics,
            final(self).transform == old(self).transform,
            final(self).prev_cursor_location == old(self).prev_cursor_location,
            final(self).seat_state.ids == old(self).seat_state.ids,
            (forall|j: int|
                0 <= j < old(self).seat_state.seats@.len() ==> old(
                    self,
                ).seat_state.seats@[j].devices.pointer != Some(pointer)) ==> {
                &&& final(self).seat_state.seats@ == old(self).seat_state.seats@
                &&& final(self).events@ == old(self).events@
                &&& emitted == 0
            },
            (exists|j: int|
                0 <= j < old(self).seat_state.seats@.len() && old(
                    self,
                ).seat_state.seats@[j].devices.pointer == Some(pointer)) ==> (exists|i: int|
                {
                    &&& 0 <= i < old(self).seat_state.seats@.len()
                    &&& old(self).seat_state.seats@[i].devices.pointer == Some(pointer)
                    &&& ({
                        let (f2, out) = crate::input::spec_process_pointer_event(
                            old(self).seat_state.seats@[i].devices.axis_frame,
                            pointer,
                            version,
                            event,
                            old(self).transform,
                            old(self).graphics.window_size,
                        );
                        &&& final(self).seat_state.seats@ == old(self).seat_state.seats@.update(
                            i,
                            crate::seat::SeatRecord {
                                name: old(self).seat_state.seats@[i].name,
                                devices: crate::seat::SeatDevices {
                                    axis_frame: f2,
                                    ..old(self).seat_state.seats@[i].devices
                                },
                            },
                        )
                        &&& final(self).events@ == old(self).events@ + out.map_values(
                            |ev: InputEvent| WaylandBackendEvent::Input(ev),
                        )
                        &&& emitted == out.len()
                    })
                }),
    {
        let transform = self.transform;
        let window_size = self.graphics.window_size();
        let mut out = self.seat_state.pointer_event(pointer, version, event, transform, window_size);
        let ghost mid = *self;
        let ghost all = out@;
        let n = out.len();
        let mut consumed: usize = 0;
        while consumed < n
            invariant
                consumed <= n,
                n == all.len(),
                out@ =~= all.subrange(consumed as int, all.len() as int),
                self.events@ =~= mid.events@ + all.subrange(0, consumed as int).map_values(
                    |ev: InputEvent| WaylandBackendEvent::Input(ev),
                ),
                self.graphics == mid.graphics,
                self.seat_state == mid.seat_state,
                self.transform == mid.transform,
                self.prev_cursor_location == mid.prev_cursor_location,
            decreases n - consumed,
        {
            let ev = out.remove(0);
            self.events.push(WaylandBackendEvent::Input(ev));
            proof {
                assert(all.subrange(0, consumed + 1 as int).map_values(
                    |ev: InputEvent| WaylandBackendEvent::Input(ev),
                ) =~= all.subrange(0, consumed as int).map_values(
                    |ev: InputEvent| WaylandBackendEvent::Input(ev),
                ).push(WaylandBackendEvent::Input(all[consumed as int])));
                assert(out@ =~= all.subrange(consumed + 1 as int, all.len() as int));
            }
            consumed = consumed + 1;
        }
        proof {
            assert(all.subrange(0, all.len() as int) =~= all);
        }
        n
    }

    /// Translates one touch event and queues it; shape and orientation
    /// reports have no unified counterpart and queue nothing.
    pub fn touch_event(&mut self, touch: u32, event: crate::input::TouchEvent)
        ensures
            ({
                let translated = crate::input::spec_process_touch_event(
                    touch,
                    event,
                    old(self).transform,
                    old(self).graphics.window_size,
                );
                match translated {
                    Some(ev) => final(self).events@ == old(self).events@.push(
                        WaylandBackendEvent::Input(ev),
                    ),
                    None => final(self).events@ == old(self).events@,
                }
            }),
            final(self).graphics == old(self).graphics,
            final(self).seat_state == old(self).seat_state,
            final(self).transform == old(self).transform,
            final(self).prev_cursor_location == old(self).prev_cursor_location,
    {
        let transform = self.transform;
        let window_size = self.graphics.window_size();
        match crate::input::process_touch_event(touch, event, transform, window_size) {
            Some(ev) => {
                self.events.push(WaylandBackendEvent::Input(ev));
            },
            None => {},
        }
    }

    /// Queues one relative pointer motion report, with the transform
    /// current at translation time.
    pub fn relative_pointer_motion(
        &mut self,
        pointer: u32,
        utime: u64,
        delta: Point,
        delta_unaccel: Point,
    )
        ensures
            final(self).events@ == old(self).events@.push(
                WaylandBackendEvent::Input(
                    InputEvent::PointerMotion {
                        event: crate::input::WaylandPointerRelativeMotionEvent {
                            pointer,
                            utime,
                            delta,
                            delta_unaccel,
                            transform: old(self).transform,
                        },
                    },
                ),
            ),
            final(self).graphics == old(self).graphics,
            final(self).seat_state == old(self).seat_state,
            final(self).transform == old(self).transform,
            final(self).prev_cursor_location == old(self).prev_cursor_location,
    {
        let transform = self.transform;
        let ev = crate::input::process_relative_motion(
            pointer,
            utime,
            delta,
            delta_unaccel,
            transform,
        );
        self.events.push(WaylandBackendEvent::Input(ev));
    }
}

/// The output mode dimensions republished over the control socket: clamped
/// into the 16-bit range that the mode listing carries.
pub fn clamped_mode_size(size: Size) -> (r: (u16, u16))
    ensures
        r.0 as int == if size.w < 0 {
            0int
        } else if size.w > u16::MAX {
            u16::MAX as int
        } else {
            size.w as int
        },
        r.1 as int == if size.h < 0 {
            0int
        } else if size.h > u16::MAX {
            u16::MAX as int
        } else {
            size.h as int
        },
{
    let w = if size.w < 0 {
        0
    } else if size.w > u16::MAX as i32 {
        u16::MAX
    } else {
        size.w as u16
    };
    let h = if size.h < 0 {
        0
    } else if size.h > u16::MAX as i32 {
        u16::MAX
    } else {
        size.h as u16
    };
    (w, h)
}

} // verus!
