//! The structural stand-in for the windowing library's window record.
//!
//! The library's window type is private and owns a video-subsystem handle
//! that must never leave the thread that initialized the subsystem.  The
//! stand-in mirrors the record's shape — a subsystem-shaped slot and the raw
//! window pointer — but its subsystem slot holds only an empty drop token,
//! never a real subsystem reference.  A reference to the stand-in is
//! reinterpreted in place by the unverified shell, guarded by
//! [`crate::layout::check_layout`], as a reference to the real window type.
//!
//! Because the subsystem slot is empty, any window method that would clone or
//! dereference the subsystem — above all, building a new window — is
//! forbidden on a reference obtained this way; [`impostor_permits`] is that
//! discipline as a decision.

use vstd::prelude::*;
use crate::handles::WindowHandle;

verus! {

/// The mark that fills the subsystem-shaped slot of the context stand-in.  It
/// carries no information and is never dereferenced for a subsystem's
/// purpose; it exists only so the slot is occupied by a live shared owner.
/// That it holds no fields is the invariant: no real subsystem reference can
/// ever sit in the slot.
#[derive(Clone, Copy, PartialEq, Eq, Structural, Debug)]
pub struct DropToken {}

impl DropToken {
    /// Produces the one token value.
    pub fn new() -> (r: DropToken) {
        DropToken {}
    }
}

/// Stand-in for the library's private window-context record: the subsystem
/// slot, holding only a drop token, and the raw window pointer.
#[derive(Clone, Copy, PartialEq, Eq, Structural, Debug)]
pub struct SdlWindowContextImpostor {
    /// Occupies the slot where the real record keeps its video-subsystem
    /// handle; never a real subsystem reference.
    pub video_subsystem_token: DropToken,
    /// The real raw window this record aliases.
    pub window_raw: WindowHandle,
}

/// Stand-in for the library's window type itself: one shared-ownership slot
/// pointing at the context record.
#[derive(Clone, Copy, PartialEq, Eq, Structural, Debug)]
pub struct SdlWindowImpostor {
    /// The context record the window stand-in points at.
    pub window_context_impostor: SdlWindowContextImpostor,
}

impl SdlWindowContextImpostor {
    /// An impostor context is well formed when it aliases a real window; its
    /// subsystem slot can hold nothing but the empty token by construction.
    pub open spec fn wf(self) -> bool {
        self.window_raw.wf()
    }

    /// Builds the context stand-in for the given window.  The subsystem slot
    /// is filled with the empty token, never a real handle.
    pub fn new(window_raw: WindowHandle) -> (r: SdlWindowContextImpostor)
        requires
            window_raw.wf(),
        ensures
            r.window_raw == window_raw,
            r.wf(),
    {
        SdlWindowContextImpostor { video_subsystem_token: DropToken::new(), window_raw }
    }
}

impl SdlWindowImpostor {
    /// Well-formedness passes through to the context record.
    pub open spec fn wf(self) -> bool {
        self.window_context_impostor.wf()
    }

    /// The raw window the whole stand-in aliases.
    pub open spec fn window_raw(self) -> WindowHandle {
        self.window_context_impostor.window_raw
    }

    /// Wraps a context stand-in into a window stand-in.
    pub fn new(window_context_impostor: SdlWindowContextImpostor) -> (r: SdlWindowImpostor)
        requires
            window_context_impostor.wf(),
        ensures
            r.window_context_impostor == window_context_impostor,
            r.wf(),
    {
        SdlWindowImpostor { window_context_impostor }
    }
}

/// The operations a caller may ask of a window reference, whether genuine or
/// derived from an impostor.
#[derive(Clone, Copy, PartialEq, Eq, Structural, Debug)]
pub enum WindowOp {
    /// Read the window's title.
    QueryTitle,
    /// Change the window's title.
    SetTitle,
    /// Read the window's size.
    QuerySize,
    /// Clone the video-subsystem handle out of the window.
    CloneSubsystem,
    /// Build a new window through the window's subsystem handle.
    BuildNewWindow,
}

/// True of the operations that reach through the window into the
/// video-subsystem handle.
pub open spec fn uses_subsystem(op: WindowOp) -> bool {
    op is CloneSubsystem || op is BuildNewWindow
}

/// Decides whether an operation is permitted on an impostor-derived window
/// reference: exactly those that touch only the window's own fields.  An
/// operation that would clone or dereference the subsystem handle finds an
/// empty drop token there and must never be called.
pub fn impostor_permits(op: WindowOp) -> (r: bool)
    ensures
        r <==> !uses_subsystem(op),
{
    match op {
        WindowOp::QueryTitle => true,
        WindowOp::SetTitle => true,
        WindowOp::QuerySize => true,
        WindowOp::CloneSubsystem => false,
        WindowOp::BuildNewWindow => false,
    }
}

} // verus!
