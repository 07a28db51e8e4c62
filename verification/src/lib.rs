//! A verified model of a cross-thread SDL window / OpenGL context ownership
//! scheme for driving a glium-style rendering layer.
//!
//! The native windowing library requires its window objects to be created and
//! torn down on the thread that initialized the video subsystem, while an
//! OpenGL render loop wants to own the window's GL context on a worker
//! thread.  This crate verifies the decision logic of that ownership split:
//!
//! * [`handles`] — non-null identifiers standing for the native window and GL
//!   context resources;
//! * [`layout`] — the size-compatibility gate that guards the in-place
//!   reinterpretation of the impostor window record;
//! * [`impostor`] — the structural stand-in for the windowing library's
//!   private window record, and the discipline of which window operations an
//!   impostor-derived reference may serve;
//! * [`context`] — a model of a thread's currently bound GL context, with the
//!   make-current / release / is-current protocol;
//! * [`backend`] — the transferable owner of the window and context, its
//!   rendering capabilities, and its ordered teardown;
//! * [`builder`] — the step machine that turns a window request into a
//!   backend, including cleanup on every failure path;
//! * [`facade`] — the one-way promotion of a backend into the user-facing
//!   display handle, and the window access it mediates;
//! * [`shutdown`] — the render loop's reaction to a shared shutdown flag.
//!
//! The native calls themselves (SDL window and context management, glium
//! context construction) are performed by an unverified shell around this
//! crate; every function here is a decision from plain values to plain
//! values, and the shell hands native outcomes in as arguments.

pub mod backend;
pub mod builder;
pub mod context;
pub mod facade;
pub mod handles;
pub mod impostor;
pub mod layout;
pub mod shutdown;

use vstd::prelude::*;

verus! {

/// Shorthand for the steady-state rendering handle.
pub type Display = crate::facade::SdlGliumDisplayFacade;

/// Shorthand for the transferable window owner.
pub type Window = crate::backend::SdlGlWindowBackend;

} // verus!
