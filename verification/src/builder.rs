//! The step machine that turns a window request into a window backend.
//!
//! Building a backend alternates native work with decisions: measure the
//! layouts and abort on a mismatch, force GL support onto the request, build
//! the window, create a GL context bound to it (destroying the window again
//! if that fails), resolve the GL entry points while the fresh context is
//! current, and finally release the context so the backend may move to
//! another thread.  The decisions are here, verified; the unverified shell
//! performs each native step and feeds its raw outcome back into the machine.

use vstd::prelude::*;
use crate::backend::GlFns;
use crate::backend::SdlGlWindowBackend;
use crate::backend::WindowState;
use crate::context::ThreadGlState;
use crate::handles::GlContextHandle;
use crate::handles::WindowHandle;
use crate::layout::LayoutMeasurement;
use crate::layout::check_layout;

verus! {

/// What the caller asks of the native window constructor.  Whatever the
/// caller set, the builder forces `opengl` on: a backend without GL support
/// would be useless to the rendering layer.
#[derive(Clone, PartialEq, Eq, Debug)]
pub struct WindowRequest {
    /// The requested window title.
    pub title: String,
    /// The requested width in points.
    pub width: u32,
    /// The requested height in points.
    pub height: u32,
    /// Whether the window is to support a GL context.
    pub opengl: bool,
}

/// Why the native window constructor refused a request; carried verbatim
/// into [`BackendBuildError::WindowBuildError`].
#[derive(Clone, PartialEq, Eq, Debug)]
pub enum WindowBuildFailure {
    /// The requested height does not fit the native size type.
    HeightOverflows(u32),
    /// The requested width does not fit the native size type.
    WidthOverflows(u32),
    /// The requested title contains an embedded terminator.
    InvalidTitle,
    /// Any other failure, with the windowing library's diagnostic.
    SdlError(String),
}

/// The recoverable ways a backend build can fail.  A layout mismatch is not
/// here: it is a violated precondition the system cannot continue past, and
/// the machine parks in [`BuildPhase::LayoutMismatch`] for the shell to abort
/// on.
#[derive(Clone, PartialEq, Eq, Debug)]
pub enum BackendBuildError {
    /// The native window constructor refused the request.
    WindowBuildError(WindowBuildFailure),
    /// GL context creation failed, with the windowing library's diagnostic.
    ContextCreationError(String),
}

impl From<WindowBuildFailure> for BackendBuildError {
    /// A refused window request becomes a build error verbatim.
    fn from(failure: WindowBuildFailure) -> (r: BackendBuildError) {
        BackendBuildError::WindowBuildError(failure)
    }
}

impl vstd::std_specs::convert::FromSpecImpl<WindowBuildFailure> for BackendBuildError {
    open spec fn obeys_from_spec() -> bool {
        true
    }

    open spec fn from_spec(failure: WindowBuildFailure) -> BackendBuildError {
        BackendBuildError::WindowBuildError(failure)
    }
}

impl From<String> for BackendBuildError {
    /// A bare diagnostic string is a context-creation failure.
    fn from(diagnostic: String) -> (r: BackendBuildError) {
        BackendBuildError::ContextCreationError(diagnostic)
    }
}

impl vstd::std_specs::convert::FromSpecImpl<String> for BackendBuildError {
    open spec fn obeys_from_spec() -> bool {
        true
    }

    open spec fn from_spec(diagnostic: String) -> BackendBuildError {
        BackendBuildError::ContextCreationError(diagnostic)
    }
}

/// Where the build stands: which native step is owed next, or how it ended.
#[derive(Clone, PartialEq, Eq, Debug)]
pub enum BuildPhase {
    /// Awaiting the layout measurement of the impostor types.
    Measuring,
    /// Layouts match; awaiting the native window constructor's outcome.
    LayoutChecked,
    /// The window exists; awaiting the context constructor's outcome.
    WindowBuilt {
        /// The window the native constructor produced.
        window: WindowHandle,
    },
    /// The context exists and is current; awaiting the resolved entry points.
    ContextCreated {
        /// The window the context is bound to.
        window: WindowHandle,
        /// The fresh GL context.
        context: GlContextHandle,
    },
    /// Entry points are resolved; awaiting the context release.
    Loaded {
        /// The window the context is bound to.
        window: WindowHandle,
        /// The GL context, still current on the building thread.
        context: GlContextHandle,
        /// The resolved entry points.
        gl_funs: GlFns,
    },
    /// The build succeeded and the backend is ready to hand out.
    Done {
        /// The finished backend, context released.
        backend: SdlGlWindowBackend,
    },
    /// The build failed recoverably; no native resource is left allocated.
    Failed {
        /// Why the build failed.
        error: BackendBuildError,
    },
    /// The impostor layouts do not match the real types.  Continuing would
    /// alias memory incorrectly: the shell must abort, loudly.
    LayoutMismatch,
}

impl BuildPhase {
    /// The window the machine holds in this phase, if any.
    pub open spec fn spec_window(self) -> Option<WindowHandle> {
        match self {
            BuildPhase::WindowBuilt { window } => Some(window),
            BuildPhase::ContextCreated { window, .. } => Some(window),
            BuildPhase::Loaded { window, .. } => Some(window),
            _ => None,
        }
    }

    /// The GL context the machine holds in this phase, if any.
    pub open spec fn spec_context(self) -> Option<GlContextHandle> {
        match self {
            BuildPhase::ContextCreated { context, .. } => Some(context),
            BuildPhase::Loaded { context, .. } => Some(context),
            _ => None,
        }
    }

    /// The resolved entry points the machine holds in this phase, if any.
    pub open spec fn spec_gl_funs(self) -> Option<GlFns> {
        match self {
            BuildPhase::Loaded { gl_funs, .. } => Some(gl_funs),
            _ => None,
        }
    }

    /// Every resource the machine holds is real, and a finished backend is
    /// fit for promotion.
    pub open spec fn wf(self) -> bool {
        match self {
            BuildPhase::Measuring => true,
            BuildPhase::LayoutChecked => true,
            BuildPhase::WindowBuilt { window } => window.wf(),
            BuildPhase::ContextCreated { window, context } => window.wf() && context.wf(),
            BuildPhase::Loaded { window, context, .. } => window.wf() && context.wf(),
            BuildPhase::Done { backend } => backend.ready_for_promotion(),
            BuildPhase::Failed { .. } => true,
            BuildPhase::LayoutMismatch => true,
        }
    }
}

/// Drives one backend build: the request being served and the phase the
/// build is in.
#[derive(Clone, PartialEq, Eq, Debug)]
pub struct BackendBuilder {
    /// The request, with GL support forced on.
    pub request: WindowRequest,
    /// Where the build stands.
    pub phase: BuildPhase,
}

impl BackendBuilder {
    /// Every resource the build holds so far is real.
    pub open spec fn wf(self) -> bool {
        self.phase.wf()
    }

    /// Starts a build for the given request.  GL support is forced onto the
    /// request regardless of what the caller set.
    pub fn new(request: WindowRequest) -> (b: BackendBuilder)
        ensures
            b.request == (WindowRequest { opengl: true, ..request }),
            b.request.opengl,
            b.phase is Measuring,
            b.wf(),
    {
        BackendBuilder {
            request: WindowRequest { opengl: true, ..request },
            phase: BuildPhase::Measuring,
        }
    }

    /// Judges the measured sizes of the impostor types against the real
    /// types before any native resource is touched.  On a mismatch the
    /// machine parks in `LayoutMismatch` and the shell must abort; a build
    /// that went on would corrupt memory.
    pub fn measure_layout(&mut self, measurement: &LayoutMeasurement)
        requires
            old(self).phase is Measuring,
        ensures
            final(self).request == old(self).request,
            final(self).wf(),
            measurement.compatible() ==> final(self).phase is LayoutChecked,
            !measurement.compatible() ==> final(self).phase is LayoutMismatch,
    {
        if check_layout(measurement) {
            self.phase = BuildPhase::LayoutChecked;
        } else {
            self.phase = BuildPhase::LayoutMismatch;
        }
    }

    /// Takes the native window constructor's outcome.  A failure is carried
    /// verbatim into the build error; at that point no native resource has
    /// been allocated, so there is nothing to clean up.
    pub fn window_built(&mut self, outcome: Result<WindowHandle, WindowBuildFailure>)
        requires
            old(self).phase is LayoutChecked,
            outcome matches Ok(w) ==> w.wf(),
        ensures
            final(self).request == old(self).request,
            final(self).wf(),
            outcome matches Ok(w) ==> final(self).phase == (BuildPhase::WindowBuilt { window: w }),
            outcome matches Err(e) ==> final(self).phase == (BuildPhase::Failed {
                error: BackendBuildError::WindowBuildError(e),
            }),
    {
        match outcome {
            Ok(window) => {
                self.phase = BuildPhase::WindowBuilt { window };
            },
            Err(failure) => {
                self.phase = BuildPhase::Failed {
                    error: BackendBuildError::WindowBuildError(failure),
                };
            },
        }
    }

    /// Takes the native context constructor's raw result: the context
    /// address, null on failure, and the windowing library's diagnostic for
    /// the failure case.  On success the fresh context is current on the
    /// building thread.  On failure the already-built window must not leak:
    /// the returned cleanup order names it, exactly once, for the shell to
    /// destroy.
    pub fn context_created(
        &mut self,
        raw_context: usize,
        diagnostic: String,
        thread: &mut ThreadGlState,
    ) -> (cleanup: Option<WindowHandle>)
        requires
            old(self).wf(),
            old(self).phase matches BuildPhase::WindowBuilt { window },
        ensures
            final(self).request == old(self).request,
            final(self).wf(),
            raw_context != 0 ==> {
                &&& final(self).phase matches BuildPhase::ContextCreated { window, context }
                &&& Some(window) == old(self).phase.spec_window()
                &&& context.addr == raw_context
                &&& final(thread).current == Some(context)
                &&& cleanup is None
            },
            raw_context == 0 ==> {
                &&& final(self).phase == (BuildPhase::Failed {
                    error: BackendBuildError::ContextCreationError(diagnostic),
                })
                &&& cleanup == old(self).phase.spec_window()
                &&& *final(thread) == *old(thread)
            },
    {
        let window = match &self.phase {
            BuildPhase::WindowBuilt { window } => *window,
            _ => unreached(),
        };
        match GlContextHandle::from_raw(raw_context) {
            Some(context) => {
                thread.make_current(context);
                self.phase = BuildPhase::ContextCreated { window, context };
                None
            },
            None => {
                self.phase = BuildPhase::Failed {
                    error: BackendBuildError::ContextCreationError(diagnostic),
                };
                Some(window)
            },
        }
    }

    /// Takes the resolved GL entry points.  They are only meaningful if they
    /// were resolved against this build's context, so the context must still
    /// be current on the resolving thread.
    pub fn gl_functions_loaded(&mut self, gl_funs: GlFns, thread: &ThreadGlState)
        requires
            old(self).wf(),
            old(self).phase matches BuildPhase::ContextCreated { window, context },
            thread.spec_is_current(old(self).phase.spec_context()->0),
        ensures
            final(self).request == old(self).request,
            final(self).wf(),
            final(self).phase matches BuildPhase::Loaded { window, context, gl_funs: f }
                && Some(window) == old(self).phase.spec_window()
                && Some(context) == old(self).phase.spec_context()
                && f == gl_funs,
    {
        let (window, context) = match &self.phase {
            BuildPhase::ContextCreated { window, context } => (*window, *context),
            _ => unreached(),
        };
        self.phase = BuildPhase::Loaded { window, context, gl_funs };
    }

    /// Releases the context from the building thread and finishes the
    /// backend.  On return the context is current on no thread, so the
    /// backend is free to move to the thread that will render with it.
    pub fn release_context(&mut self, thread: &mut ThreadGlState)
        requires
            old(self).wf(),
            old(self).phase matches BuildPhase::Loaded { window, context, gl_funs },
        ensures
            final(self).request == old(self).request,
            final(self).wf(),
            final(thread).current is None,
            final(self).phase matches BuildPhase::Done { backend }
                && Some(backend.window_raw) == old(self).phase.spec_window()
                && Some(backend.gl_context_raw) == old(self).phase.spec_context()
                && backend.gl_funs == old(self).phase.spec_gl_funs()
                && backend.window_state.title@ == old(self).request.title@,
    {
        let (window, context, gl_funs) = match &self.phase {
            BuildPhase::Loaded { window, context, gl_funs } => (*window, *context, *gl_funs),
            _ => unreached(),
        };
        thread.release_current();
        let backend = SdlGlWindowBackend {
            window_raw: window,
            gl_context_raw: context,
            gl_funs: Some(gl_funs),
            window_state: WindowState { title: self.request.title.clone() },
        };
        self.phase = BuildPhase::Done { backend };
    }

    /// Hands the finished build out: the backend on success, the error
    /// otherwise.
    pub fn finish(self) -> (r: Result<SdlGlWindowBackend, BackendBuildError>)
        requires
            self.wf(),
            self.phase matches BuildPhase::Done { .. } || self.phase matches BuildPhase::Failed {
                ..
            },
        ensures
            self.phase matches BuildPhase::Done { backend } ==> r == Ok::<
                SdlGlWindowBackend,
                BackendBuildError,
            >(backend),
            self.phase matches BuildPhase::Failed { error } ==> r == Err::<
                SdlGlWindowBackend,
                BackendBuildError,
            >(error),
            r matches Ok(backend) ==> backend.ready_for_promotion(),
    {
        match self.phase {
            BuildPhase::Done { backend } => Ok(backend),
            BuildPhase::Failed { error } => Err(error),
            _ => unreached(),
        }
    }
}

} // verus!
