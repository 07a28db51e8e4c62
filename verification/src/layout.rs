//! The layout-compatibility gate.
//!
//! The impostor technique reinterprets a reference to the crate's own window
//! record in place as a reference to the windowing library's private window
//! type.  That is sound only while both the window record and the context
//! record it points to are byte-for-byte the same size as the library's
//! types.  The sizes are owned by an external library the crate does not
//! control, so they are measured at startup and construction must abort —
//! loudly, never silently — when the check fails.

use vstd::prelude::*;

verus! {

/// The measured sizes of the two real windowing-library records and of the
/// two stand-ins meant to alias them.
#[derive(Clone, Copy, PartialEq, Eq, Structural, Debug)]
pub struct LayoutMeasurement {
    /// Size in bytes of the library's window type.
    pub window_size: usize,
    /// Size in bytes of the stand-in for the window type.
    pub window_impostor_size: usize,
    /// Size in bytes of the library's window-context type.
    pub context_size: usize,
    /// Size in bytes of the stand-in for the window-context type.
    pub context_impostor_size: usize,
}

impl LayoutMeasurement {
    /// Both stand-ins occupy exactly as many bytes as the types they alias.
    pub open spec fn compatible(self) -> bool {
        &&& self.window_size == self.window_impostor_size
        &&& self.context_size == self.context_impostor_size
    }
}

/// Decides whether the impostor technique may be used at all: true exactly
/// when each stand-in matches the size of the real type it aliases.  A caller
/// that receives `false` must abort construction; continuing would alias
/// memory incorrectly.
pub fn check_layout(m: &LayoutMeasurement) -> (ok: bool)
    ensures
        ok <==> m.compatible(),
{
    m.window_size == m.window_impostor_size && m.context_size == m.context_impostor_size
}

} // verus!
