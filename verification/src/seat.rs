//! The seat/device tracker and the pointer-lock coordinator.
//!
//! Each seat is an independent state machine over the three capability
//! classes (keyboard, pointer, touch). Device records hold the stable
//! identifiers of host-side handles; acquiring or releasing a handle is
//! returned as a `SeatAction` for the caller to perform, in the order the
//! actions are listed. Device-added/removed events are emitted in strict 1:1
//! correspondence with acquisition and release of the underlying handle.

use vstd::prelude::*;

use crate::id::{spec_next_id, spec_next_state, IdCounter};
use crate::input::{spec_axis_frame_default, AxisFrame, InputEvent, WaylandInputDevice};

verus! {

/// Highest seat-interface version this backend binds.
pub const SEAT_VERSION: u32 = 7;

/// A host request the seat tracker decides to make; the caller performs
/// them in order.
#[derive(Copy, Clone, Debug, PartialEq, Eq, Structural)]
pub enum SeatAction {
    BindSeat { name: u32, version: u32 },
    GetKeyboard { seat: u32, device: u32 },
    ReleaseKeyboard { device: u32 },
    GetPointer { seat: u32, device: u32 },
    ReleasePointer { device: u32 },
    GetRelativePointer { pointer: u32, device: u32 },
    DestroyRelativePointer { device: u32 },
    GetTouch { seat: u32, device: u32 },
    ReleaseTouch { device: u32 },
    LockPointer { pointer: u32, lock: u32 },
    DestroyLock { lock: u32 },
}

/// The device records of one seat: at most one per capability class, the
/// pointer's optional relative-motion companion and cursor lock, and the
/// pointer's scroll accumulator.
#[derive(Copy, Clone, Debug, PartialEq, Eq, Structural)]
pub struct SeatDevices {
    pub keyboard: Option<u32>,
    pub pointer: Option<u32>,
    pub relative_pointer: Option<u32>,
    pub locked_pointer: Option<u32>,
    pub touch: Option<u32>,
    pub axis_frame: AxisFrame,
}

pub open spec fn spec_devices_empty() -> SeatDevices {
    SeatDevices {
        keyboard: None,
        pointer: None,
        relative_pointer: None,
        locked_pointer: None,
        touch: None,
        axis_frame: spec_axis_frame_default(),
    }
}

pub fn devices_empty() -> (r: SeatDevices)
    ensures
        r == spec_devices_empty(),
{
    SeatDevices {
        keyboard: None,
        pointer: None,
        relative_pointer: None,
        locked_pointer: None,
        touch: None,
        axis_frame: AxisFrame::default(),
    }
}

/// One tracked seat: its global name and its device records.
#[derive(Copy, Clone, Debug, PartialEq, Eq, Structural)]
pub struct SeatRecord {
    pub name: u32,
    pub devices: SeatDevices,
}

/// How a keyboard capability announcement or revocation moves one seat's
/// records: acquire when newly present, release (with a removal event) when
/// gone, and in both cases do nothing if nothing changed.
pub open spec fn spec_apply_keyboard_cap(d: SeatDevices, ids: u32, seat: u32, cap: bool) -> (
    SeatDevices,
    u32,
    Seq<SeatAction>,
    Seq<InputEvent>,
) {
    if cap {
        if d.keyboard is None {
            let id = spec_next_id(ids);
            (
                SeatDevices { keyboard: Some(id), ..d },
                spec_next_state(ids),
                seq![SeatAction::GetKeyboard { seat, device: id }],
                seq![InputEvent::DeviceAdded { device: WaylandInputDevice::Keyboard(id) }],
            )
        } else {
            (d, ids, Seq::empty(), Seq::empty())
        }
    } else {
        match d.keyboard {
            Some(k) => (
                SeatDevices { keyboard: None, ..d },
                ids,
                seq![SeatAction::ReleaseKeyboard { device: k }],
                seq![InputEvent::DeviceRemoved { device: WaylandInputDevice::Keyboard(k) }],
            ),
            None => (d, ids, Seq::empty(), Seq::empty()),
        }
    }
}

/// The pointer class additionally manages the relative-motion companion
/// (best-effort: only acquired while the host offers the global) and, on
/// revocation, releases in order: the lock, then the companion, then the
/// device itself. A fresh pointer starts a fresh scroll accumulator.
pub open spec fn spec_apply_pointer_cap(
    d: SeatDevices,
    ids: u32,
    seat: u32,
    cap: bool,
    relative_available: bool,
) -> (SeatDevices, u32, Seq<SeatAction>, Seq<InputEvent>) {
    if cap {
        let (d1, ids1, a1, e1): (SeatDevices, u32, Seq<SeatAction>, Seq<InputEvent>) = if d.pointer
            is None {
            let id = spec_next_id(ids);
            (
                SeatDevices { pointer: Some(id), axis_frame: spec_axis_frame_default(), ..d },
                spec_next_state(ids),
                seq![SeatAction::GetPointer { seat, device: id }],
                seq![InputEvent::DeviceAdded { device: WaylandInputDevice::Pointer(id) }],
            )
        } else {
            (d, ids, Seq::empty(), Seq::empty())
        };
        if d1.relative_pointer is None && relative_available {
            let rid = spec_next_id(ids1);
            (
                SeatDevices { relative_pointer: Some(rid), ..d1 },
                spec_next_state(ids1),
                a1.push(
                    SeatAction::GetRelativePointer { pointer: d1.pointer->0, device: rid },
                ),
                e1,
            )
        } else {
            (d1, ids1, a1, e1)
        }
    } else {
        let (d1, a1): (SeatDevices, Seq<SeatAction>) = match d.locked_pointer {
            Some(l) => (
                SeatDevices { locked_pointer: None, ..d },
                seq![SeatAction::DestroyLock { lock: l }],
            ),
            None => (d, Seq::empty()),
        };
        let (d2, a2): (SeatDevices, Seq<SeatAction>) = match d1.relative_pointer {
            Some(r) => (
                SeatDevices { relative_pointer: None, ..d1 },
                a1.push(SeatAction::DestroyRelativePointer { device: r }),
            ),
            None => (d1, a1),
        };
        match d2.pointer {
            Some(p) => (
                SeatDevices { pointer: None, axis_frame: spec_axis_frame_default(), ..d2 },
                ids,
                a2.push(SeatAction::ReleasePointer { device: p }),
                seq![InputEvent::DeviceRemoved { device: WaylandInputDevice::Pointer(p) }],
            ),
            None => (d2, ids, a2, Seq::empty()),
        }
    }
}

pub open spec fn spec_apply_touch_cap(d: SeatDevices, ids: u32, seat: u32, cap: bool) -> (
    SeatDevices,
    u32,
    Seq<SeatAction>,
    Seq<InputEvent>,
) {
    if cap {
        if d.touch is None {
            let id = spec_next_id(ids);
            (
                SeatDevices { touch: Some(id), ..d },
                spec_next_state(ids),
                seq![SeatAction::GetTouch { seat, device: id }],
                seq![InputEvent::DeviceAdded { device: WaylandInputDevice::Touch(id) }],
            )
        } else {
            (d, ids, Seq::empty(), Seq::empty())
        }
    } else {
        match d.touch {
            Some(t) => (
                SeatDevices { touch: None, ..d },
                ids,
                seq![SeatAction::ReleaseTouch { device: t }],
                seq![InputEvent::DeviceRemoved { device: WaylandInputDevice::Touch(t) }],
            ),
            None => (d, ids, Seq::empty(), Seq::empty()),
        }
    }
}

/// A whole capability announcement: the three classes in order (keyboard,
/// pointer, touch), actions and events concatenated in that order.
pub open spec fn spec_apply_capabilities(
    d: SeatDevices,
    ids: u32,
    seat: u32,
    keyboard_cap: bool,
    pointer_cap: bool,
    touch_cap: bool,
    relative_available: bool,
) -> (SeatDevices, u32, Seq<SeatAction>, Seq<InputEvent>) {
    let (dk, idsk, ak, ek) = spec_apply_keyboard_cap(d, ids, seat, keyboard_cap);
    let (dp, idsp, ap, ep) = spec_apply_pointer_cap(dk, idsk, seat, pointer_cap, relative_available);
    let (dt, idst, at, et) = spec_apply_touch_cap(dp, idsp, seat, touch_cap);
    (dt, idst, ak + ap + at, ek + ep + et)
}

/// The keyboard capability bit of the host's announcement.
pub open spec fn spec_cap_keyboard(bits: u32) -> bool {
    bits & 2 != 0
}

pub open spec fn spec_cap_pointer(bits: u32) -> bool {
    bits & 1 != 0
}

pub open spec fn spec_cap_touch(bits: u32) -> bool {
    bits & 4 != 0
}

fn apply_keyboard_cap(
    d: &mut SeatDevices,
    ids: &mut IdCounter,
    seat: u32,
    cap: bool,
    actions: &mut Vec<SeatAction>,
    events: &mut Vec<InputEvent>,
)
    requires
        old(ids).wf(),
    ensures
        ({
            let (d2, ids2, acts, evs) = spec_apply_keyboard_cap(*old(d), old(ids).value, seat, cap);
            &&& *final(d) == d2
            &&& final(ids).value == ids2
            &&& final(ids).wf()
            &&& final(actions)@ == old(actions)@ + acts
            &&& final(events)@ == old(events)@ + evs
        }),
{
    if cap {
        if d.keyboard.is_none() {
            let id = ids.next();
            d.keyboard = Some(id);
            actions.push(SeatAction::GetKeyboard { seat, device: id });
            events.push(InputEvent::DeviceAdded { device: WaylandInputDevice::Keyboard(id) });
        }
    } else {
        match d.keyboard {
            Some(k) => {
                d.keyboard = None;
                actions.push(SeatAction::ReleaseKeyboard { device: k });
                events.push(
                    InputEvent::DeviceRemoved { device: WaylandInputDevice::Keyboard(k) },
                );
            },
            None => {},
        }
    }
    proof {
        assert(actions@ =~= old(actions)@ + spec_apply_keyboard_cap(
            *old(d),
            old(ids).value,
            seat,
            cap,
        ).2);
        assert(events@ =~= old(events)@ + spec_apply_keyboard_cap(
            *old(d),
            old(ids).value,
            seat,
            cap,
        ).3);
    }
}

fn apply_pointer_cap(
    d: &mut SeatDevices,
    ids: &mut IdCounter,
    seat: u32,
    cap: bool,
    relative_available: bool,
    actions: &mut Vec<SeatAction>,
    events: &mut Vec<InputEvent>,
)
    requires
        old(ids).wf(),
    ensures
        ({
            let (d2, ids2, acts, evs) = spec_apply_pointer_cap(
                *old(d),
                old(ids).value,
                seat,
                cap,
                relative_available,
            );
            &&& *final(d) == d2
            &&& final(ids).value == ids2
            &&& final(ids).wf()
            &&& final(actions)@ == old(actions)@ + acts
            &&& final(events)@ == old(events)@ + evs
        }),
{
    if cap {
        if d.pointer.is_none() {
            let id = ids.next();
            d.pointer = Some(id);
            d.axis_frame = AxisFrame::default();
            actions.push(SeatAction::GetPointer { seat, device: id });
            events.push(InputEvent::DeviceAdded { device: WaylandInputDevice::Pointer(id) });
        }
        if d.relative_pointer.is_none() && relative_available {
            let rid = ids.next();
            let p = match d.pointer {
                Some(p) => p,
                None => 0,  // unreachable: the pointer was just ensured present
            };
            d.relative_pointer = Some(rid);
            actions.push(SeatAction::GetRelativePointer { pointer: p, device: rid });
        }
    } else {
        match d.locked_pointer {
            Some(l) => {
                d.locked_pointer = None;
                actions.push(SeatAction::DestroyLock { lock: l });
            },
            None => {},
        }
        match d.relative_pointer {
            Some(r) => {
                d.relative_pointer = None;
                actions.push(SeatAction::DestroyRelativePointer { device: r });
            },
            None => {},
        }
        match d.pointer {
            Some(p) => {
                d.pointer = None;
                d.axis_frame = AxisFrame::default();
                actions.push(SeatAction::ReleasePointer { device: p });
                events.push(InputEvent::DeviceRemoved { device: WaylandInputDevice::Pointer(p) });
            },
            None => {},
        }
    }
    proof {
        let (d2, ids2, acts, evs) = spec_apply_pointer_cap(
            *old(d),
            old(ids).value,
            seat,
            cap,
            relative_available,
        );
        assert(actions@ =~= old(actions)@ + acts);
        assert(events@ =~= old(events)@ + evs);
    }
}

fn apply_touch_cap(
    d: &mut SeatDevices,
    ids: &mut IdCounter,
    seat: u32,
    cap: bool,
    actions: &mut Vec<SeatAction>,
    events: &mut Vec<InputEvent>,
)
    requires
        old(ids).wf(),
    ensures
        ({
            let (d2, ids2, acts, evs) = spec_apply_touch_cap(*old(d), old(ids).value, seat, cap);
            &&& *final(d) == d2
            &&& final(ids).value == ids2
            &&& final(ids).wf()
            &&& final(actions)@ == old(actions)@ + acts
            &&& final(events)@ == old(events)@ + evs
        }),
{
    if cap {
        if d.touch.is_none() {
            let id = ids.next();
            d.touch = Some(id);
            actions.push(SeatAction::GetTouch { seat, device: id });
            events.push(InputEvent::DeviceAdded { device: WaylandInputDevice::Touch(id) });
        }
    } else {
        match d.touch {
            Some(t) => {
                d.touch = None;
                actions.push(SeatAction::ReleaseTouch { device: t });
                events.push(InputEvent::DeviceRemoved { device: WaylandInputDevice::Touch(t) });
            },
            None => {},
        }
    }
    proof {
        let (d2, ids2, acts, evs) = spec_apply_touch_cap(*old(d), old(ids).value, seat, cap);
        assert(actions@ =~= old(actions)@ + acts);
        assert(events@ =~= old(events)@ + evs);
    }
}

/// Applies a whole capability announcement to one seat's records.
pub fn apply_capabilities(
    d: &mut SeatDevices,
    ids: &mut IdCounter,
    seat: u32,
    keyboard_cap: bool,
    pointer_cap: bool,
    touch_cap: bool,
    relative_available: bool,
) -> (r: (Vec<SeatAction>, Vec<InputEvent>))
    requires
        old(ids).wf(),
    ensures
        ({
            let (d2, ids2, acts, evs) = spec_apply_capabilities(
                *old(d),
                old(ids).value,
                seat,
                keyboard_cap,
                pointer_cap,
                touch_cap,
                relative_available,
            );
            &&& *final(d) == d2
            &&& final(ids).value == ids2
            &&& final(ids).wf()
            &&& r.0@ == acts
            &&& r.1@ == evs
        }),
{
    let mut actions: Vec<SeatAction> = Vec::new();
    let mut events: Vec<InputEvent> = Vec::new();
    apply_keyboard_cap(d, ids, seat, keyboard_cap, &mut actions, &mut events);
    apply_pointer_cap(d, ids, seat, pointer_cap, relative_available, &mut actions, &mut events);
    apply_touch_cap(d, ids, seat, touch_cap, &mut actions, &mut events);
    (actions, events)
}

/// How a cursor lock is requested: only when the seat has a pointer with a
/// relative-motion companion (without one a lock is useless), when the host
/// offers pointer constraints at all, and when no lock is already held —
/// requesting while one is outstanding is a no-op, not a second request.
pub open spec fn spec_lock_pointer(d: SeatDevices, ids: u32, constraints_available: bool) -> (
    SeatDevices,
    u32,
    Seq<SeatAction>,
) {
    if d.pointer is Some && d.relative_pointer is Some && d.locked_pointer is None
        && constraints_available {
        let lock = spec_next_id(ids);
        (
            SeatDevices { locked_pointer: Some(lock), ..d },
            spec_next_state(ids),
            seq![SeatAction::LockPointer { pointer: d.pointer->0, lock }],
        )
    } else {
        (d, ids, Seq::empty())
    }
}

pub open spec fn spec_unlock_pointer(d: SeatDevices) -> (SeatDevices, Seq<SeatAction>) {
    match d.locked_pointer {
        Some(l) => (
            SeatDevices { locked_pointer: None, ..d },
            seq![SeatAction::DestroyLock { lock: l }],
        ),
        None => (d, Seq::empty()),
    }
}

/// Requests a persistent cursor lock for one seat, if the conditions allow.
pub fn lock_pointer(d: &mut SeatDevices, ids: &mut IdCounter, constraints_available: bool) -> (r:
    Vec<SeatAction>)
    requires
        old(ids).wf(),
    ensures
        ({
            let (d2, ids2, acts) = spec_lock_pointer(*old(d), old(ids).value, constraints_available);
            &&& *final(d) == d2
            &&& final(ids).value == ids2
            &&& final(ids).wf()
            &&& r@ == acts
        }),
{
    let mut actions: Vec<SeatAction> = Vec::new();
    if constraints_available && d.locked_pointer.is_none() && d.relative_pointer.is_some() {
        match d.pointer {
            Some(p) => {
                let lock = ids.next();
                d.locked_pointer = Some(lock);
                actions.push(SeatAction::LockPointer { pointer: p, lock });
            },
            None => {},
        }
    }
    actions
}

/// Releases one seat's cursor lock, if one is held.
pub fn unlock_pointer(d: &mut SeatDevices) -> (r: Vec<SeatAction>)
    ensures
        ({
            let (d2, acts) = spec_unlock_pointer(*old(d));
            &&& *final(d) == d2
            &&& r@ == acts
        }),
{
    let mut actions: Vec<SeatAction> = Vec::new();
    match d.locked_pointer {
        Some(l) => {
            d.locked_pointer = None;
            actions.push(SeatAction::DestroyLock { lock: l });
        },
        None => {},
    }
    actions
}

/// One entry of the host's global registry, as the seat tracker reads it:
/// whether it is a seat interface, and under which name and version it is
/// advertised.
#[derive(Copy, Clone, Debug, PartialEq, Eq, Structural)]
pub struct GlobalEntry {
    pub name: u32,
    pub is_seat: bool,
    pub version: u32,
}

pub open spec fn spec_min_u32(a: u32, b: u32) -> u32 {
    if a < b {
        a
    } else {
        b
    }
}

/// The seats bound from an initial registry listing: one record and one bind
/// request per advertised seat, in listing order, each bound at the lower of
/// the advertised version and the version this backend supports.
pub open spec fn spec_initial_seats(globals: Seq<GlobalEntry>) -> (Seq<SeatRecord>, Seq<SeatAction>)
    decreases globals.len(),
{
    if globals.len() == 0 {
        (Seq::empty(), Seq::empty())
    } else {
        let (rs, acts) = spec_initial_seats(globals.drop_last());
        let g = globals.last();
        if g.is_seat {
            (
                rs.push(SeatRecord { name: g.name, devices: spec_devices_empty() }),
                acts.push(
                    SeatAction::BindSeat { name: g.name, version: spec_min_u32(g.version, SEAT_VERSION) },
                ),
            )
        } else {
            (rs, acts)
        }
    }
}

/// The dynamic set of seats the host currently offers, and the counter that
/// issues device identities.
pub struct SeatState {
    pub seats: Vec<SeatRecord>,
    pub ids: IdCounter,
}

impl SeatState {
    pub open spec fn wf(self) -> bool {
        self.ids.wf()
    }

    /// Binds every seat the initial registry listing advertises.
    pub fn new(globals: &Vec<GlobalEntry>) -> (r: (SeatState, Vec<SeatAction>))
        ensures
            (r.0.seats@, r.1@) == spec_initial_seats(globals@),
            r.0.ids.value == 1,
            r.0.wf(),
    {
        let mut seats: Vec<SeatRecord> = Vec::new();
        let mut actions: Vec<SeatAction> = Vec::new();
        let mut i: usize = 0;
        while i < globals.len()
            invariant
                i <= globals@.len(),
                (seats@, actions@) == spec_initial_seats(globals@.subrange(0, i as int)),
            decreases globals@.len() - i,
        {
            let g = globals[i];
            if g.is_seat {
                let version = if g.version < SEAT_VERSION {
                    g.version
                } else {
                    SEAT_VERSION
                };
                seats.push(SeatRecord { name: g.name, devices: devices_empty() });
                actions.push(SeatAction::BindSeat { name: g.name, version });
            }
            proof {
                assert(globals@.subrange(0, i + 1 as int).drop_last() =~= globals@.subrange(
                    0,
                    i as int,
                ));
                assert(globals@.subrange(0, i + 1 as int).last() == globals@[i as int]);
            }
            i = i + 1;
        }
        proof {
            assert(globals@.subrange(0, globals@.len() as int) =~= globals@);
        }
        (SeatState { seats, ids: IdCounter::new() }, actions)
    }

    /// The index of the first seat with the given global name.
    pub fn find_seat(&self, name: u32) -> (r: Option<usize>)
        ensures
            match r {
                Some(i) => i < self.seats@.len() && self.seats@[i as int].name == name && (forall|
                    j: int,
                |
                    0 <= j < i ==> self.seats@[j].name != name),
                None => forall|j: int| 0 <= j < self.seats@.len() ==> self.seats@[j].name != name,
            },
    {
        let mut i: usize = 0;
        while i < self.seats.len()
            invariant
                i <= self.seats@.len(),
                forall|j: int| 0 <= j < i ==> self.seats@[j].name != name,
            decreases self.seats@.len() - i,
        {
            if self.seats[i].name == name {
                return Some(i);
            }
            i = i + 1;
        }
        None
    }

    /// A new global appeared: a seat interface that is not yet tracked is
    /// bound (at the lower of the advertised and the supported version) and
    /// recorded with no devices; anything else is ignored.
    pub fn new_global(&mut self, name: u32, is_seat: bool, version: u32) -> (r: Vec<SeatAction>)
        requires
            old(self).wf(),
        ensures
            final(self).wf(),
            final(self).ids == old(self).ids,
            ({
                let fresh = is_seat && (forall|j: int|
                    0 <= j < old(self).seats@.len() ==> old(self).seats@[j].name != name);
                if fresh {
                    &&& final(self).seats@ == old(self).seats@.push(
                        SeatRecord { name, devices: spec_devices_empty() },
                    )
                    &&& r@ == seq![
                        SeatAction::BindSeat { name, version: spec_min_u32(version, SEAT_VERSION) },
                    ]
                } else {
                    &&& final(self).seats@ == old(self).seats@
                    &&& r@ == Seq::<SeatAction>::empty()
                }
            }),
    {
        let mut actions: Vec<SeatAction> = Vec::new();
        if is_seat {
            match self.find_seat(name) {
                Some(_) => {},
                None => {
                    let bound = if version < SEAT_VERSION {
                        version
                    } else {
                        SEAT_VERSION
                    };
                    self.seats.push(SeatRecord { name, devices: devices_empty() });
                    actions.push(SeatAction::BindSeat { name, version: bound });
                },
            }
        }
        actions
    }

    /// A global disappeared: if it is a tracked seat, every class is torn
    /// down as if it had lost its capability (lock, then relative-motion
    /// companion, then each device, with one removal event per held device),
    /// and the seat record is dropped.
    pub fn remove_global(&mut self, name: u32, is_seat: bool) -> (r: (
        Vec<SeatAction>,
        Vec<InputEvent>,
    ))
        requires
            old(self).wf(),
        ensures
            final(self).wf(),
            final(self).ids == old(self).ids,
            (!is_seat || (forall|j: int|
                0 <= j < old(self).seats@.len() ==> old(self).seats@[j].name != name)) ==> {
                &&& final(self).seats@ == old(self).seats@
                &&& r.0@ == Seq::<SeatAction>::empty()
                &&& r.1@ == Seq::<InputEvent>::empty()
            },
            (is_seat && (exists|j: int|
                0 <= j < old(self).seats@.len() && old(self).seats@[j].name == name)) ==> (exists|
                i: int,
            |
                {
                    &&& 0 <= i < old(self).seats@.len()
                    &&& old(self).seats@[i].name == name
                    &&& (forall|j: int| 0 <= j < i ==> old(self).seats@[j].name != name)
                    &&& ({
                        let (d2, ids2, acts, evs) = spec_apply_capabilities(
                            old(self).seats@[i].devices,
                            old(self).ids.value,
                            name,
                            false,
                            false,
                            false,
                            false,
                        );
                        &&& final(self).seats@ == old(self).seats@.remove(i)
                        &&& r.0@ == acts
                        &&& r.1@ == evs
                    })
                }),
    {
        if !is_seat {
            return (Vec::new(), Vec::new());
        }
        match self.find_seat(name) {
            None => (Vec::new(), Vec::new()),
            Some(i) => {
                let mut devices = self.seats[i].devices;
                let (actions, events) = apply_capabilities(
                    &mut devices,
                    &mut self.ids,
                    name,
                    false,
                    false,
                    false,
                    false,
                );
                self.seats.remove(i);
                (actions, events)
            },
        }
    }

    /// The host announced the capability set of a seat: each class is
    /// acquired or released so the records match the announcement. An
    /// announcement for a seat this backend never bound is ignored.
    pub fn on_capabilities(
        &mut self,
        seat_name: u32,
        caps_bits: u32,
        relative_available: bool,
    ) -> (r: (Vec<SeatAction>, Vec<InputEvent>))
        requires
            old(self).wf(),
        ensures
            final(self).wf(),
            (forall|j: int|
                0 <= j < old(self).seats@.len() ==> old(self).seats@[j].name != seat_name) ==> {
                &&& *final(self) == *old(self)
                &&& r.0@ == Seq::<SeatAction>::empty()
                &&& r.1@ == Seq::<InputEvent>::empty()
            },
            (exists|j: int|
                0 <= j < old(self).seats@.len() && old(self).seats@[j].name == seat_name) ==> (
            exists|i: int|
                {
                    &&& 0 <= i < old(self).seats@.len()
                    &&& old(self).seats@[i].name == seat_name
                    &&& (forall|j: int| 0 <= j < i ==> old(self).seats@[j].name != seat_name)
                    &&& ({
                        let (d2, ids2, acts, evs) = spec_apply_capabilities(
                            old(self).seats@[i].devices,
                            old(self).ids.value,
                            seat_name,
                            spec_cap_keyboard(caps_bits),
                            spec_cap_pointer(caps_bits),
                            spec_cap_touch(caps_bits),
                            relative_available,
                        );
                        &&& final(self).seats@ == old(self).seats@.update(
                            i,
                            SeatRecord { name: seat_name, devices: d2 },
                        )
                        &&& final(self).ids.value == ids2
                        &&& r.0@ == acts
                        &&& r.1@ == evs
                    })
                }),
    {
        match self.find_seat(seat_name) {
            None => (Vec::new(), Vec::new()),
            Some(i) => {
                let keyboard_cap = caps_bits & 2 != 0;
                let pointer_cap = caps_bits & 1 != 0;
                let touch_cap = caps_bits & 4 != 0;
                let mut devices = self.seats[i].devices;
                let (actions, events) = apply_capabilities(
                    &mut devices,
                    &mut self.ids,
                    seat_name,
                    keyboard_cap,
                    pointer_cap,
                    touch_cap,
                    relative_available,
                );
                self.seats[i] = SeatRecord { name: seat_name, devices };
                (actions, events)
            },
        }
    }

    /// The index of the first seat that owns the given keyboard.
    pub fn find_seat_by_keyboard(&self, keyboard: u32) -> (r: Option<usize>)
        ensures
            match r {
                Some(i) => i < self.seats@.len() && self.seats@[i as int].devices.keyboard == Some(
                    keyboard,
                ) && (forall|j: int|
                    0 <= j < i ==> self.seats@[j].devices.keyboard != Some(keyboard)),
                None => forall|j: int|
                    0 <= j < self.seats@.len() ==> self.seats@[j].devices.keyboard != Some(keyboard),
            },
    {
        let mut i: usize = 0;
        while i < self.seats.len()
            invariant
                i <= self.seats@.len(),
                forall|j: int| 0 <= j < i ==> self.seats@[j].devices.keyboard != Some(keyboard),
            decreases self.seats@.len() - i,
        {
            match self.seats[i].devices.keyboard {
                Some(k) if k == keyboard => {
                    return Some(i);
                },
                _ => {},
            }
            i = i + 1;
        }
        None
    }

    /// The index of the first seat that owns the given pointer.
    pub fn find_seat_by_pointer(&self, pointer: u32) -> (r: Option<usize>)
        ensures
            match r {
                Some(i) => i < self.seats@.len() && self.seats@[i as int].devices.pointer == Some(
                    pointer,
                ) && (forall|j: int|
                    0 <= j < i ==> self.seats@[j].devices.pointer != Some(pointer)),
                None => forall|j: int|
                    0 <= j < self.seats@.len() ==> self.seats@[j].devices.pointer != Some(pointer),
            },
    {
        let mut i: usize = 0;
        while i < self.seats.len()
            invariant
                i <= self.seats@.len(),
                forall|j: int| 0 <= j < i ==> self.seats@[j].devices.pointer != Some(pointer),
            decreases self.seats@.len() - i,
        {
            match self.seats[i].devices.pointer {
                Some(p) if p == pointer => {
                    return Some(i);
                },
                _ => {},
            }
            i = i + 1;
        }
        None
    }

    /// Keyboard focus entered the surface: the seat owning that keyboard
    /// requests a cursor lock (idempotently, and only with a relative-motion
    /// companion present). Focus events for unknown keyboards are ignored.
    pub fn keyboard_enter(&mut self, keyboard: u32, constraints_available: bool) -> (r: Vec<
        SeatAction,
    >)
        requires
            old(self).wf(),
        ensures
            final(self).wf(),
            (forall|j: int|
                0 <= j < old(self).seats@.len() ==> old(self).seats@[j].devices.keyboard != Some(
                    keyboard,
                )) ==> {
                &&& *final(self) == *old(self)
                &&& r@ == Seq::<SeatAction>::empty()
            },
            (exists|j: int|
                0 <= j < old(self).seats@.len() && old(self).seats@[j].devices.keyboard == Some(
                    keyboard,
                )) ==> (exists|i: int|
                {
                    &&& 0 <= i < old(self).seats@.len()
                    &&& old(self).seats@[i].devices.keyboard == Some(keyboard)
                    &&& (forall|j: int|
                        0 <= j < i ==> old(self).seats@[j].devices.keyboard != Some(keyboard))
                    &&& ({
                        let (d2, ids2, acts) = spec_lock_pointer(
                            old(self).seats@[i].devices,
                            old(self).ids.value,
                            constraints_available,
                        );
                        &&& final(self).seats@ == old(self).seats@.update(
                            i,
                            SeatRecord { name: old(self).seats@[i].name, devices: d2 },
                        )
                        &&& final(self).ids.value == ids2
                        &&& r@ == acts
                    })
                }),
    {
        match self.find_seat_by_keyboard(keyboard) {
            None => Vec::new(),
            Some(i) => {
                let name = self.seats[i].name;
                let mut devices = self.seats[i].devices;
                let actions = lock_pointer(&mut devices, &mut self.ids, constraints_available);
                self.seats[i] = SeatRecord { name, devices };
                actions
            },
        }
    }

    /// Keyboard focus left the surface: the seat owning that keyboard
    /// releases its cursor lock, if one is held.
    pub fn keyboard_leave(&mut self, keyboard: u32) -> (r: Vec<SeatAction>)
        requires
            old(self).wf(),
        ensures
            final(self).wf(),
            final(self).ids == old(self).ids,
            (forall|j: int|
                0 <= j < old(self).seats@.len() ==> old(self).seats@[j].devices.keyboard != Some(
                    keyboard,
                )) ==> {
                &&& final(self).seats@ == old(self).seats@
                &&& r@ == Seq::<SeatAction>::empty()
            },
            (exists|j: int|
                0 <= j < old(self).seats@.len() && old(self).seats@[j].devices.keyboard == Some(
                    keyboard,
                )) ==> (exists|i: int|
                {
                    &&& 0 <= i < old(self).seats@.len()
                    &&& old(self).seats@[i].devices.keyboard == Some(keyboard)
                    &&& (forall|j: int|
                        0 <= j < i ==> old(self).seats@[j].devices.keyboard != Some(keyboard))
                    &&& ({
                        let (d2, acts) = spec_unlock_pointer(old(self).seats@[i].devices);
                        &&& final(self).seats@ == old(self).seats@.update(
                            i,
                            SeatRecord { name: old(self).seats@[i].name, devices: d2 },
                        )
                        &&& r@ == acts
                    })
                }),
    {
        match self.find_seat_by_keyboard(keyboard) {
            None => Vec::new(),
            Some(i) => {
                let name = self.seats[i].name;
                let mut devices = self.seats[i].devices;
                let actions = unlock_pointer(&mut devices);
                self.seats[i] = SeatRecord { name, devices };
                actions
            },
        }
    }

    /// Translates one pointer event against the scroll accumulator of the
    /// seat that owns the pointer. Events for a pointer this backend never
    /// acquired reference no record and are ignored.
    pub fn pointer_event(
        &mut self,
        pointer: u32,
        version: u32,
        event: crate::input::PointerEvent,
        transform: crate::geometry::Transform,
        window_size: crate::geometry::Size,
    ) -> (r: Vec<InputEvent>)
        requires
            old(self).wf(),
        ensures
            final(self).wf(),
            final(self).ids == old(self).ids,
            (forall|j: int|
                0 <= j < old(self).seats@.len() ==> old(self).seats@[j].devices.pointer != Some(
                    pointer,
                )) ==> {
                &&& final(self).seats@ == old(self).seats@
                &&& r@ == Seq::<InputEvent>::empty()
            },
            (exists|j: int|
                0 <= j < old(self).seats@.len() && old(self).seats@[j].devices.pointer == Some(
                    pointer,
                )) ==> (exists|i: int|
                {
                    &&& 0 <= i < old(self).seats@.len()
                    &&& old(self).seats@[i].devices.pointer == Some(pointer)
                    &&& (forall|j: int|
                        0 <= j < i ==> old(self).seats@[j].devices.pointer != Some(pointer))
                    &&& ({
                        let (f2, out) = crate::input::spec_process_pointer_event(
                            old(self).seats@[i].devices.axis_frame,
                            pointer,
                            version,
                            event,
                            transform,
                            window_size,
                        );
                        &&& final(self).seats@ == old(self).seats@.update(
                            i,
                            SeatRecord {
                                name: old(self).seats@[i].name,
                                devices: SeatDevices {
                                    axis_frame: f2,
                                    ..old(self).seats@[i].devices
                                },
                            },
                        )
                        &&& r@ == out
                    })
                }),
    {
        match self.find_seat_by_pointer(pointer) {
            None => Vec::new(),
            Some(i) => {
                let rec = self.seats[i];
                let mut frame = rec.devices.axis_frame;
                let out = crate::input::process_pointer_event(
                    &mut frame,
                    pointer,
                    version,
                    event,
                    transform,
                    window_size,
                );
                self.seats[i] = SeatRecord {
                    name: rec.name,
                    devices: SeatDevices { axis_frame: frame, ..rec.devices },
                };
                out
            },
        }
    }
}

/// The seats after every cursor lock is released, with one destroy request
/// per held lock, in seat order.
pub open spec fn spec_unlock_all(seats: Seq<SeatRecord>) -> (Seq<SeatRecord>, Seq<SeatAction>)
    decreases seats.len(),
{
    if seats.len() == 0 {
        (Seq::empty(), Seq::empty())
    } else {
        let (rs, acts) = spec_unlock_all(seats.drop_last());
        let s = seats.last();
        let (d2, a2) = spec_unlock_pointer(s.devices);
        (rs.push(SeatRecord { name: s.name, devices: d2 }), acts + a2)
    }
}

impl SeatState {
    /// Releases the cursor locks of every seat.
    pub fn unlock_all(&mut self) -> (r: Vec<SeatAction>)
        requires
            old(self).wf(),
        ensures
            final(self).wf(),
            final(self).ids == old(self).ids,
            (final(self).seats@, r@) == spec_unlock_all(old(self).seats@),
    {
        let mut actions: Vec<SeatAction> = Vec::new();
        let mut i: usize = 0;
        while i < self.seats.len()
            invariant
                i <= self.seats@.len(),
                self.seats@.len() == old(self).seats@.len(),
                self.ids == old(self).ids,
                (self.seats@.subrange(0, i as int), actions@) == spec_unlock_all(
                    old(self).seats@.subrange(0, i as int),
                ),
                forall|j: int| i <= j < self.seats@.len() ==> self.seats@[j] == old(
                    self,
                ).seats@[j],
            decreases self.seats@.len() - i,
        {
            let rec = self.seats[i];
            let mut devices = rec.devices;
            let mut acts = unlock_pointer(&mut devices);
            self.seats[i] = SeatRecord { name: rec.name, devices };
            actions.append(&mut acts);
            proof {
                assert(old(self).seats@.subrange(0, i + 1 as int).drop_last() =~= old(
                    self,
                ).seats@.subrange(0, i as int));
                assert(old(self).seats@.subrange(0, i + 1 as int).last() == old(self).seats@[
                    i as int]);
                assert(self.seats@.subrange(0, i + 1 as int) =~= spec_unlock_all(
                    old(self).seats@.subrange(0, i + 1 as int),
                ).0);
                assert(actions@ =~= spec_unlock_all(old(self).seats@.subrange(0, i + 1 as int)).1);
            }
            i = i + 1;
        }
        proof {
            assert(old(self).seats@.subrange(0, old(self).seats@.len() as int) =~= old(
                self,
            ).seats@);
            assert(self.seats@.subrange(0, self.seats@.len() as int) =~= self.seats@);
        }
        actions
    }

    /// The lock handles currently held, in seat order.
    pub fn locked_pointers(&self) -> (r: Vec<u32>)
        ensures
            r@ == spec_locks(self.seats@),
    {
        let mut out: Vec<u32> = Vec::new();
        let mut i: usize = 0;
        while i < self.seats.len()
            invariant
                i <= self.seats@.len(),
                out@ == spec_locks(self.seats@.subrange(0, i as int)),
            decreases self.seats@.len() - i,
        {
            match self.seats[i].devices.locked_pointer {
                Some(l) => {
                    out.push(l);
                },
                None => {},
            }
            proof {
                assert(self.seats@.subrange(0, i + 1 as int).drop_last() =~= self.seats@.subrange(
                    0,
                    i as int,
                ));
                assert(self.seats@.subrange(0, i + 1 as int).last() == self.seats@[i as int]);
            }
            i = i + 1;
        }
        proof {
            assert(self.seats@.subrange(0, self.seats@.len() as int) =~= self.seats@);
        }
        out
    }
}

/// The lock handles of a seat listing, in order.
pub open spec fn spec_locks(seats: Seq<SeatRecord>) -> Seq<u32>
    decreases seats.len(),
{
    if seats.len() == 0 {
        Seq::empty()
    } else {
        let prefix = spec_locks(seats.drop_last());
        match seats.last().devices.locked_pointer {
            Some(l) => prefix.push(l),
            None => prefix,
        }
    }
}

/// How many device records a seat currently holds.
pub open spec fn spec_held_count(d: SeatDevices) -> int {
    (if d.keyboard is Some {
        1int
    } else {
        0int
    }) + (if d.pointer is Some {
        1int
    } else {
        0int
    }) + (if d.touch is Some {
        1int
    } else {
        0int
    })
}

/// How many device-removed events a sequence holds.
pub open spec fn spec_removed_count(evs: Seq<InputEvent>) -> int
    decreases evs.len(),
{
    if evs.len() == 0 {
        0
    } else {
        (if evs[0] is DeviceRemoved {
            1int
        } else {
            0int
        }) + spec_removed_count(evs.subrange(1, evs.len() as int))
    }
}

pub proof fn lemma_removed_count_add(a: Seq<InputEvent>, b: Seq<InputEvent>)
    ensures
        spec_removed_count(a + b) == spec_removed_count(a) + spec_removed_count(b),
    decreases a.len(),
{
    if a.len() == 0 {
        assert(a + b =~= b);
    } else {
        assert((a + b).subrange(1, (a + b).len() as int) =~= a.subrange(1, a.len() as int) + b);
        lemma_removed_count_add(a.subrange(1, a.len() as int), b);
    }
}

/// Processing a capability announcement emits exactly one device-removed
/// event per class that currently holds a device and loses its capability:
/// no leaks, no duplicate removals.
pub proof fn lemma_device_lifecycle_pairing(
    d: SeatDevices,
    ids: u32,
    seat: u32,
    keyboard_cap: bool,
    pointer_cap: bool,
    touch_cap: bool,
    relative_available: bool,
)
    ensures
        ({
            let (d2, ids2, acts, evs) = spec_apply_capabilities(
                d,
                ids,
                seat,
                keyboard_cap,
                pointer_cap,
                touch_cap,
                relative_available,
            );
            spec_removed_count(evs) == (if !keyboard_cap && d.keyboard is Some {
                1int
            } else {
                0int
            }) + (if !pointer_cap && d.pointer is Some {
                1int
            } else {
                0int
            }) + (if !touch_cap && d.touch is Some {
                1int
            } else {
                0int
            })
        }),
{
    let (dk, idsk, ak, ek) = spec_apply_keyboard_cap(d, ids, seat, keyboard_cap);
    let (dp, idsp, ap, ep) = spec_apply_pointer_cap(
        dk,
        idsk,
        seat,
        pointer_cap,
        relative_available,
    );
    let (dt, idst, at, et) = spec_apply_touch_cap(dp, idsp, seat, touch_cap);
    lemma_removed_count_add(ek, ep);
    lemma_removed_count_add(ek + ep, et);
    lemma_removed_count_singletons(ek);
    lemma_removed_count_singletons(ep);
    lemma_removed_count_singletons(et);
}

/// The removed-event count of the empty and the one-element sequence.
proof fn lemma_removed_count_singletons(evs: Seq<InputEvent>)
    requires
        evs.len() <= 1,
    ensures
        evs.len() == 0 ==> spec_removed_count(evs) == 0,
        evs.len() == 1 && evs[0] is DeviceRemoved ==> spec_removed_count(evs) == 1,
        evs.len() == 1 && !(evs[0] is DeviceRemoved) ==> spec_removed_count(evs) == 0,
{
    if evs.len() == 1 {
        assert(evs.subrange(1, 1) =~= Seq::<InputEvent>::empty());
        assert(spec_removed_count(Seq::<InputEvent>::empty()) == 0);
        assert(spec_removed_count(evs) == (if evs[0] is DeviceRemoved {
            1int
        } else {
            0int
        }) + spec_removed_count(evs.subrange(1, 1)));
    }
}

/// Tearing a seat down removes every held device exactly once and leaves no
/// record behind: the emitted removal events match the held records 1:1.
pub proof fn lemma_seat_removal_pairing(d: SeatDevices, ids: u32, seat: u32)
    ensures
        ({
            let (d2, ids2, acts, evs) = spec_apply_capabilities(
                d,
                ids,
                seat,
                false,
                false,
                false,
                false,
            );
            &&& spec_removed_count(evs) == spec_held_count(d)
            &&& d2.keyboard is None
            &&& d2.pointer is None
            &&& d2.touch is None
            &&& d2.relative_pointer is None
            &&& d2.locked_pointer is None
        }),
{
    lemma_device_lifecycle_pairing(d, ids, seat, false, false, false, false);
}

/// A cursor-lock request is single-flight: the first request issues exactly
/// one host request when the seat has a pointer with a relative-motion
/// companion and no lock yet; a second request before any release issues
/// none.
pub proof fn lemma_lock_single_flight(d: SeatDevices, ids: u32, constraints_available: bool)
    ensures
        ({
            let (d1, ids1, a1) = spec_lock_pointer(d, ids, constraints_available);
            let (d2, ids2, a2) = spec_lock_pointer(d1, ids1, constraints_available);
            &&& a1.len() == (if d.pointer is Some && d.relative_pointer is Some
                && d.locked_pointer is None && constraints_available {
                1int
            } else {
                0int
            })
            &&& a2.len() == 0
        }),
{
}

/// Releasing after a granted lock request destroys exactly that one lock.
pub proof fn lemma_unlock_after_lock(d: SeatDevices, ids: u32, constraints_available: bool)
    requires
        d.pointer is Some,
        d.relative_pointer is Some,
        d.locked_pointer is None,
        constraints_available,
    ensures
        ({
            let (d1, ids1, a1) = spec_lock_pointer(d, ids, constraints_available);
            let (d2, a2) = spec_unlock_pointer(d1);
            &&& a1.len() == 1
            &&& a2 == seq![SeatAction::DestroyLock { lock: d1.locked_pointer->0 }]
            &&& d2.locked_pointer is None
        }),
{
}

} // verus!
