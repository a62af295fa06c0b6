//! A verified model of a nested Wayland compositor backend.
//!
//! The library holds the decision logic of a compositor that runs as a
//! client inside another, already-running Wayland compositor: frame-callback
//! pacing, bind/resize bookkeeping for the render surface, buffer-sharing
//! negotiation, seat and input-device tracking, pointer-lock coordination,
//! and the translation of raw host input events into a unified event model.
//!
//! Everything that talks to the host compositor (sockets, EGL, GPU buffers)
//! lives outside this crate. Host-side objects appear here as plain integer
//! handles, and every protocol request the logic decides to make is returned
//! as a value, so each decision is stated in a contract and proved.

pub mod backend;
pub mod buffer;
pub mod geometry;
pub mod graphics;
pub mod id;
pub mod input;
pub mod seat;

use vstd::prelude::*;

verus! {

/// Discards a result whose error the caller has decided is not actionable:
/// the operation is best-effort and the failure carries no recovery path.
pub trait XUnwrap {
    type T;

    fn xunwrap(self) -> Self::T;
}

impl<E> XUnwrap for Result<(), E> {
    type T = ();

    fn xunwrap(self) -> Self::T {
        match self {
            Ok(u) => u,
            Err(_) => (),
        }
    }
}

} // verus!
