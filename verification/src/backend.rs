//! The transferable owner of one native window and its GL context.
//!
//! A backend is produced by the builder with the context released, so the
//! value may move to a worker thread.  There it serves the rendering layer's
//! capability set — current-context queries, buffer swap, entry-point
//! resolution, framebuffer size — and is finally torn down by destroying the
//! window first and deleting the GL context second.  The native calls behind
//! each capability are made by the unverified shell; this module decides what
//! each call is given and what its raw outcome means.

use vstd::prelude::*;
use crate::context::ThreadGlState;
use crate::handles::GlContextHandle;
use crate::handles::WindowHandle;

verus! {

/// Marks the set of GL entry points the builder resolved while the fresh
/// context was current.  The pointers themselves live in the rendering layer;
/// the model keeps only their presence, which promotion consumes exactly
/// once.
#[derive(Clone, Copy, PartialEq, Eq, Structural, Debug)]
pub struct GlFns {}

/// The native window's own mutable fields as far as this model tracks them:
/// the title, the one field the impostor-derived reference path reads and
/// writes end to end.
#[derive(Clone, PartialEq, Eq, Debug)]
pub struct WindowState {
    /// The window's current title.
    pub title: String,
}

impl WindowState {
    /// The title as a sequence of characters.
    pub open spec fn spec_title(self) -> Seq<char> {
        self.title@
    }

    /// The state after the title has been replaced.
    pub open spec fn spec_with_title(self, title: String) -> WindowState {
        WindowState { title }
    }

    /// Replaces the window's title.
    pub fn set_title(&mut self, title: String)
        ensures
            *final(self) == old(self).spec_with_title(title),
            final(self).spec_title() == title@,
    {
        self.title = title;
    }

    /// Reads the window's title.
    pub fn title(&self) -> (t: &String)
        ensures
            t@ == self.spec_title(),
    {
        &self.title
    }
}

/// Round-trip title mutation: writing a title into a window's state and
/// reading it back yields exactly the written string, whatever was there
/// before.
pub proof fn lemma_title_round_trip(state: WindowState, title: String)
    ensures
        state.spec_with_title(title).spec_title() == title@,
{
}

/// One native teardown call, in the order the owner must issue them.
#[derive(Clone, Copy, PartialEq, Eq, Structural, Debug)]
pub enum NativeAction {
    /// Destroy the native window.
    DestroyWindow(WindowHandle),
    /// Delete the native GL context.
    DeleteGlContext(GlContextHandle),
}

/// Reported by `swap_buffers` when the native present call fails; the
/// windowing library's swap reports no failure, so the backend never returns
/// it, but the rendering layer's capability contract allows for it.
#[derive(Clone, Copy, PartialEq, Eq, Structural, Debug)]
pub enum SwapBuffersError {
    /// The GL context was lost.
    ContextLost,
    /// The frame was already presented.
    AlreadySwapped,
}

/// Owns one native window and one native GL context, plus the resolved GL
/// entry points until a display facade consumes them.
#[derive(Clone, PartialEq, Eq, Debug)]
pub struct SdlGlWindowBackend {
    /// The owned native window.
    pub window_raw: WindowHandle,
    /// The owned native GL context.
    pub gl_context_raw: GlContextHandle,
    /// The resolved GL entry points; populated until the backend is handed to
    /// a display facade, permanently empty afterwards.
    pub gl_funs: Option<GlFns>,
    /// The owned window's tracked state.
    pub window_state: WindowState,
}

impl SdlGlWindowBackend {
    /// Both owned handles are real resources.
    pub open spec fn wf(self) -> bool {
        &&& self.window_raw.wf()
        &&& self.gl_context_raw.wf()
    }

    /// The state the builder hands out: well formed, with the entry-point set
    /// still populated, as promotion requires.
    pub open spec fn ready_for_promotion(self) -> bool {
        &&& self.wf()
        &&& self.gl_funs is Some
    }

    /// Binds this backend's context on the calling thread.  The native bind
    /// is the one call whose failure is fatal: the shell aborts rather than
    /// return with the binding not in place.
    pub fn make_current(&self, thread: &mut ThreadGlState)
        ensures
            final(thread).current == Some(self.gl_context_raw),
    {
        thread.make_current(self.gl_context_raw);
    }

    /// True exactly when this backend's context is the one bound on the
    /// calling thread.
    pub fn is_current(&self, thread: &ThreadGlState) -> (r: bool)
        ensures
            r <==> thread.spec_is_current(self.gl_context_raw),
    {
        thread.is_current(self.gl_context_raw)
    }

    /// Presents the back buffer.  The native swap call reports no failure, so
    /// the result is always success; the `Result` is the shape the rendering
    /// layer's capability contract asks for.
    pub fn swap_buffers(&self) -> (r: Result<(), SwapBuffersError>)
        ensures
            r is Ok,
    {
        Ok(())
    }

    /// Interprets the raw drawable-size query results as framebuffer
    /// dimensions in pixels.  A negative raw value can only mean the query
    /// failed, and becomes 0; callers must tolerate a zero dimension, which
    /// is not distinguished from a legitimately zero-sized window.
    pub fn get_framebuffer_dimensions(&self, raw_width: i32, raw_height: i32) -> (r: (u32, u32))
        ensures
            r == spec_framebuffer_dimensions(raw_width, raw_height),
    {
        let width: u32 = if raw_width >= 0 {
            raw_width as u32
        } else {
            0
        };
        let height: u32 = if raw_height >= 0 {
            raw_height as u32
        } else {
            0
        };
        (width, height)
    }

    /// The teardown calls the owner must issue, in order: destroy the window
    /// first, then delete the GL context.
    pub fn teardown_actions(&self) -> (r: Vec<NativeAction>)
        ensures
            r@.len() == 2,
            r@[0] == NativeAction::DestroyWindow(self.window_raw),
            r@[1] == NativeAction::DeleteGlContext(self.gl_context_raw),
    {
        let mut actions: Vec<NativeAction> = Vec::new();
        actions.push(NativeAction::DestroyWindow(self.window_raw));
        actions.push(NativeAction::DeleteGlContext(self.gl_context_raw));
        actions
    }
}

/// What the drawable-size interpretation returns for given raw query results.
pub open spec fn spec_framebuffer_dimensions(raw_width: i32, raw_height: i32) -> (u32, u32) {
    (
        if raw_width >= 0 {
            raw_width as u32
        } else {
            0u32
        },
        if raw_height >= 0 {
            raw_height as u32
        } else {
            0u32
        },
    )
}

/// Decides whether a GL entry-point name can be handed to the native
/// resolver at all: true exactly when the name carries no embedded
/// terminator byte.  For an unrepresentable name the resolution must answer
/// with the null address rather than raise.
pub fn symbol_representable(symbol: &[u8]) -> (r: bool)
    ensures
        r <==> (forall|i: int| 0 <= i < symbol@.len() ==> symbol@[i] != 0),
{
    let len = symbol.len();
    let mut idx: usize = 0;
    while idx < len
        invariant
            len == symbol@.len(),
            idx <= len,
            forall|i: int| 0 <= i < idx ==> symbol@[i] != 0,
        decreases len - idx,
    {
        if symbol[idx] == 0 {
            return false;
        }
        idx = idx + 1;
    }
    true
}

} // verus!
