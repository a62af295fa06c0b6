//! The graphics backend's bookkeeping: frame-callback pacing and the
//! bind/resize/submit cycle.
//!
//! The GPU context and the host surface live outside this crate; the model
//! here decides, and states in contracts, exactly which host requests each
//! step performs: whether a frame-completion signal is requested, whether the
//! native surface is resized, and which damage rectangles are handed to the
//! presentation call.

use vstd::prelude::*;

use crate::geometry::{size_in_range, Size};

verus! {

/// One of the two operations on the frame-callback state: asking the host
/// for a completion signal, or receiving one.
#[derive(Copy, Clone, Debug, PartialEq, Eq, Structural)]
pub enum FrameOp {
    Request,
    Receipt,
}

/// How one operation moves the frame-callback flag, and whether it makes the
/// host request: a request is issued only when none is outstanding, and a
/// receipt clears the outstanding flag.
pub open spec fn spec_frame_step(pending: bool, op: FrameOp) -> (bool, bool) {
    match op {
        FrameOp::Request => (true, !pending),
        FrameOp::Receipt => (false, false),
    }
}

/// How many host requests a whole run of operations issues, starting from a
/// given outstanding flag.
pub open spec fn spec_issued_requests(pending: bool, ops: Seq<FrameOp>) -> int
    decreases ops.len(),
{
    if ops.len() == 0 {
        0
    } else {
        let (next, issued) = spec_frame_step(pending, ops[0]);
        (if issued {
            1int
        } else {
            0int
        }) + spec_issued_requests(next, ops.subrange(1, ops.len() as int))
    }
}

/// Any run of requests with no intervening receipt issues at most one host
/// request: none when one is already outstanding, exactly one otherwise.
pub proof fn lemma_frame_request_single_flight(pending: bool, ops: Seq<FrameOp>)
    requires
        forall|i: int| 0 <= i < ops.len() ==> ops[i] == FrameOp::Request,
    ensures
        pending ==> spec_issued_requests(pending, ops) == 0,
        !pending && ops.len() > 0 ==> spec_issued_requests(pending, ops) == 1,
        ops.len() == 0 ==> spec_issued_requests(pending, ops) == 0,
    decreases ops.len(),
{
    if ops.len() > 0 {
        assert(ops[0] == FrameOp::Request);
        lemma_frame_request_single_flight(true, ops.subrange(1, ops.len() as int));
    }
}

/// After a receipt, the next run of requests issues exactly one new host
/// request, whatever the flag was before the receipt.
pub proof fn lemma_frame_request_after_receipt(pending: bool, ops: Seq<FrameOp>)
    requires
        ops.len() >= 1,
        ops[0] == FrameOp::Receipt,
        forall|i: int| 1 <= i < ops.len() ==> ops[i] == FrameOp::Request,
    ensures
        spec_issued_requests(pending, ops) == if ops.len() >= 2 {
            1int
        } else {
            0int
        },
{
    lemma_frame_request_single_flight(false, ops.subrange(1, ops.len() as int));
}

/// A damage rectangle in surface-local pixels, top-left origin.
#[derive(Copy, Clone, Debug, PartialEq, Eq, Structural)]
pub struct Rect {
    pub x: i32,
    pub y: i32,
    pub w: i32,
    pub h: i32,
}

/// A damage rectangle that lies inside a surface of the given size.
pub open spec fn rect_in_surface(r: Rect, size: Size) -> bool {
    &&& 0 <= r.x
    &&& 0 <= r.y
    &&& 0 <= r.w
    &&& 0 <= r.h
    &&& r.x + r.w <= size.w
    &&& r.y + r.h <= size.h
}

/// The same rectangle with a bottom-left origin, as the native surface's
/// presentation call expects it.
pub open spec fn spec_flip_rect(r: Rect, surface_h: int) -> Rect {
    Rect { x: r.x, y: (surface_h - r.y - r.h) as i32, w: r.w, h: r.h }
}

/// What one submission hands to the host: whether a new frame-completion
/// signal is requested, and the damage passed to presentation (`None`
/// presents the full surface).
#[derive(Debug, PartialEq, Eq)]
pub struct SubmitPlan {
    pub issue_frame_request: bool,
    pub damage: Option<Vec<Rect>>,
}

/// The render surface's bookkeeping: its current size, the size it was last
/// bound at, whether the host supports damage tracking, and whether a
/// frame-completion signal is outstanding.
pub struct WaylandGraphicsBackend {
    pub window_size: Size,
    pub damage_tracking: bool,
    pub bind_size: Option<Size>,
    pub pending_frame_callback: bool,
}

/// The state after a bind, and the size the native surface must be resized
/// to first (`None`: no resize needed, the bound size is current).
pub open spec fn spec_bind(s: WaylandGraphicsBackend) -> (WaylandGraphicsBackend, Option<Size>) {
    let resize = if s.bind_size != Some(s.window_size) {
        Some(s.window_size)
    } else {
        None
    };
    (
        WaylandGraphicsBackend {
            bind_size: Some(s.window_size),
            ..s
        },
        resize,
    )
}

/// A second bind with no intervening resize performs no native resize.
pub proof fn lemma_bind_idempotent(s: WaylandGraphicsBackend)
    ensures
        spec_bind(spec_bind(s).0).1 == None::<Size>,
{
}

impl WaylandGraphicsBackend {
    pub open spec fn wf(self) -> bool {
        &&& size_in_range(self.window_size)
        &&& match self.bind_size {
            Some(s) => size_in_range(s),
            None => true,
        }
    }

    /// A fresh backend for a surface of the given size; nothing is bound and
    /// no frame-completion signal is outstanding. Whether the host supports
    /// damage tracking is decided at context creation and never changes.
    pub fn new(initial_size: Size, damage_tracking: bool) -> (r: Self)
        requires
            size_in_range(initial_size),
        ensures
            r == (WaylandGraphicsBackend {
                window_size: initial_size,
                damage_tracking,
                bind_size: None,
                pending_frame_callback: false,
            }),
            r.wf(),
    {
        WaylandGraphicsBackend {
            window_size: initial_size,
            damage_tracking,
            bind_size: None,
            pending_frame_callback: false,
        }
    }

    pub fn window_size(&self) -> (r: Size)
        ensures
            r == self.window_size,
    {
        self.window_size
    }

    /// Records a new surface size; the native surface is resized only on the
    /// next `bind`.
    pub fn set_window_size(&mut self, size: Size)
        requires
            size_in_range(size),
        ensures
            *final(self) == (WaylandGraphicsBackend { window_size: size, ..*old(self) }),
    {
        self.window_size = size;
    }

    /// Asks the host for a frame-completion signal unless one is already
    /// outstanding; returns whether the request must actually be sent.
    pub fn request_frame_callback(&mut self) -> (issue: bool)
        ensures
            (final(self).pending_frame_callback, issue) == spec_frame_step(
                old(self).pending_frame_callback,
                FrameOp::Request,
            ),
            *final(self) == (WaylandGraphicsBackend {
                pending_frame_callback: final(self).pending_frame_callback,
                ..*old(self)
            }),
    {
        if !self.pending_frame_callback {
            self.pending_frame_callback = true;
            true
        } else {
            false
        }
    }

    /// The host delivered the frame-completion signal: the single outstanding
    /// request (if any) is spent.
    pub fn got_frame_callback(&mut self)
        ensures
            (final(self).pending_frame_callback, false) == spec_frame_step(
                old(self).pending_frame_callback,
                FrameOp::Receipt,
            ),
            *final(self) == (WaylandGraphicsBackend {
                pending_frame_callback: false,
                ..*old(self)
            }),
    {
        self.pending_frame_callback = false;
    }

    /// Prepares the surface for rendering: if the recorded size differs from
    /// the last bound size, the native surface must be resized now, strictly
    /// before the rendering context is made current; returns that size, or
    /// `None` when the bound size is already current.
    pub fn bind(&mut self) -> (resize: Option<Size>)
        ensures
            (*final(self), resize) == spec_bind(*old(self)),
    {
        let resize = match self.bind_size {
            Some(s) if s == self.window_size => None,
            _ => Some(self.window_size),
        };
        self.bind_size = Some(self.window_size);
        resize
    }

    /// How many frames old the back buffer is, given what the native surface
    /// reports: `0` means fully undefined, and without damage tracking the
    /// age is `0` unconditionally, so callers assume a full repaint.
    pub fn buffer_age(&self, native_age: Option<usize>) -> (r: Option<usize>)
        ensures
            r == if self.damage_tracking {
                native_age
            } else {
                Some(0usize)
            },
    {
        if self.damage_tracking {
            native_age
        } else {
            Some(0)
        }
    }

    /// Finishes a frame: always requests a new frame-completion signal
    /// (idempotently), and computes the damage handed to presentation —
    /// discarded entirely when the host does not track damage, flipped to the
    /// native bottom-left origin otherwise.
    pub fn submit(&mut self, damage: Option<&Vec<Rect>>) -> (plan: SubmitPlan)
        requires
            old(self).wf(),
            match damage {
                Some(d) => forall|i: int|
                    0 <= i < d@.len() ==> rect_in_surface(d@[i], old(self).window_size),
                None => true,
            },
        ensures
            (final(self).pending_frame_callback, plan.issue_frame_request) == spec_frame_step(
                old(self).pending_frame_callback,
                FrameOp::Request,
            ),
            *final(self) == (WaylandGraphicsBackend {
                pending_frame_callback: final(self).pending_frame_callback,
                ..*old(self)
            }),
            plan.damage matches Some(flipped) ==> {
                &&& old(self).damage_tracking
                &&& damage matches Some(d) && flipped@ == d@.map_values(
                    |r: Rect| spec_flip_rect(r, old(self).window_size.h as int),
                )
            },
            plan.damage is None <==> (!old(self).damage_tracking || damage is None),
    {
        let issue = self.request_frame_callback();
        let flipped: Option<Vec<Rect>> = if !self.damage_tracking {
            None
        } else {
            match damage {
                None => None,
                Some(d) => {
                    let h = self.window_size.h;
                    let mut out: Vec<Rect> = Vec::new();
                    let mut i: usize = 0;
                    while i < d.len()
                        invariant
                            i <= d@.len(),
                            forall|j: int|
                                0 <= j < d@.len() ==> rect_in_surface(d@[j], self.window_size),
                            h == self.window_size.h,
                            size_in_range(self.window_size),
                            out@ == d@.subrange(0, i as int).map_values(
                                |r: Rect| spec_flip_rect(r, h as int),
                            ),
                        decreases d@.len() - i,
                    {
                        let r = d[i];
                        out.push(Rect { x: r.x, y: h - r.y - r.h, w: r.w, h: r.h });
                        proof {
                            assert(d@.subrange(0, i + 1 as int).map_values(
                                |r: Rect| spec_flip_rect(r, h as int),
                            ) =~= d@.subrange(0, i as int).map_values(
                                |r: Rect| spec_flip_rect(r, h as int),
                            ).push(spec_flip_rect(d@[i as int], h as int)));
                        }
                        i = i + 1;
                    }
                    proof {
                        assert(d@.subrange(0, d@.len() as int) =~= d@);
                    }
                    Some(out)
                },
            }
        };
        SubmitPlan { issue_frame_request: issue, damage: flipped }
    }
}

} // verus!
