//! Non-null identifiers for the native resources this crate reasons about.
//!
//! The windowing library hands out raw pointers for the window it creates and
//! for the GL context bound to it.  The model keeps only what the logic reads
//! of such a pointer: its address, which identifies the resource and is null
//! exactly when the native call failed.

use vstd::prelude::*;

verus! {

/// Identifies one native window. The address is never null: a null result
/// from the native window constructor is a failure, not a window.
#[derive(Clone, Copy, PartialEq, Eq, Structural, Debug)]
pub struct WindowHandle {
    pub addr: usize,
}

/// Identifies one native GL context, likewise never null.
#[derive(Clone, Copy, PartialEq, Eq, Structural, Debug)]
pub struct GlContextHandle {
    pub addr: usize,
}

impl WindowHandle {
    /// True of every handle actually held by the library.
    pub open spec fn wf(self) -> bool {
        self.addr != 0
    }

    /// Classifies a raw address as a window handle: `Some` exactly when the
    /// address is non-null.
    pub fn from_raw(addr: usize) -> (r: Option<WindowHandle>)
        ensures
            addr == 0 <==> r is None,
            addr != 0 ==> (r matches Some(h) && h.addr == addr && h.wf()),
    {
        if addr == 0 {
            None
        } else {
            Some(WindowHandle { addr })
        }
    }
}

impl GlContextHandle {
    /// True of every handle actually held by the library.
    pub open spec fn wf(self) -> bool {
        self.addr != 0
    }

    /// Classifies a raw address as a GL context handle: `Some` exactly when
    /// the address is non-null.
    pub fn from_raw(addr: usize) -> (r: Option<GlContextHandle>)
        ensures
            addr == 0 <==> r is None,
            addr != 0 ==> (r matches Some(h) && h.addr == addr && h.wf()),
    {
        if addr == 0 {
            None
        } else {
            Some(GlContextHandle { addr })
        }
    }
}

} // verus!
