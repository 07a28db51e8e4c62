//! A model of one thread's currently bound GL context.
//!
//! The native GL layer keeps, per thread, at most one context bound at a
//! time.  The render thread must bind this crate's context before any GL call
//! and the builder must release it before the backend crosses threads.  This
//! module is that register as a value: the unverified shell keeps one
//! `ThreadGlState` per thread beside the native state and moves both in step.

use vstd::prelude::*;
use crate::handles::GlContextHandle;

verus! {

/// What the calling thread currently has bound: some GL context, or none.
#[derive(Clone, Copy, PartialEq, Eq, Structural, Debug)]
pub struct ThreadGlState {
    /// The context bound on this thread, if any.
    pub current: Option<GlContextHandle>,
}

impl ThreadGlState {
    /// The state of a thread that has never bound a context.
    pub fn new() -> (r: ThreadGlState)
        ensures
            r.current is None,
    {
        ThreadGlState { current: None }
    }

    /// True when the given context is the one bound on this thread.
    pub open spec fn spec_is_current(self, context: GlContextHandle) -> bool {
        self.current == Some(context)
    }

    /// Binds the given context on this thread.  In the native layer this is
    /// the one operation whose failure is fatal: the shell aborts rather than
    /// hand back a state in which the binding did not happen.
    pub fn make_current(&mut self, context: GlContextHandle)
        ensures
            final(self).current == Some(context),
    {
        self.current = Some(context);
    }

    /// Releases whatever context this thread had bound, so the context is
    /// current on no thread and its owner may move elsewhere.
    pub fn release_current(&mut self)
        ensures
            final(self).current is None,
    {
        self.current = None;
    }

    /// Answers whether the given context is the one bound on this thread.
    pub fn is_current(&self, context: GlContextHandle) -> (r: bool)
        ensures
            r <==> self.spec_is_current(context),
    {
        match self.current {
            Some(c) => c == context,
            None => false,
        }
    }
}

/// Current-context correctness: once `make_current` has bound a context on a
/// thread, `is_current` holds for that context there; after the thread
/// releases, or binds a different context, it no longer holds.
pub proof fn lemma_current_context_correct(context: GlContextHandle, other: GlContextHandle)
    ensures
        (ThreadGlState { current: Some(context) }).spec_is_current(context),
        !(ThreadGlState { current: None::<GlContextHandle> }).spec_is_current(context),
        context != other ==> !(ThreadGlState { current: Some(other) }).spec_is_current(context),
{
}

} // verus!
