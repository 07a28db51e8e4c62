//! The user-facing display handle and the one-way promotion that creates it.
//!
//! Promotion consumes a [`SdlGlWindowBackend`] by value: afterwards the only
//! owner of the window and context is the facade, whose backend carries an
//! empty entry-point slot, so no second promotion of the same backend can be
//! asked for — the move makes it impossible to write, and the emptied slot
//! makes it impossible to satisfy.  The rendering layer's own verdict on the
//! resolved GL entry points decides between the facade and a recoverable
//! failure that hands the untouched backend back for a retry.
//!
//! A facade is confined to the thread that promoted it: it hands out the
//! impostor-derived window reference, whose safe use is scoped to that
//! thread.

use vstd::prelude::*;
use crate::backend::GlFns;
use crate::backend::NativeAction;
use crate::backend::SdlGlWindowBackend;
use crate::backend::WindowState;
use crate::backend::spec_framebuffer_dimensions;
use crate::context::ThreadGlState;
use crate::handles::GlContextHandle;
use crate::impostor::SdlWindowContextImpostor;
use crate::impostor::SdlWindowImpostor;

verus! {

/// How the rendering layer is to report GL debug messages; handed through to
/// it unread.
#[derive(Clone, Copy, PartialEq, Eq, Structural, Debug)]
pub enum DebugCallbackBehavior {
    /// Ignore debug messages.
    Ignore,
    /// Report debug messages on errors only.
    DebugMessageOnError,
    /// Report every debug message.
    PrintAll,
}

impl Default for DebugCallbackBehavior {
    /// The rendering layer's default: report on errors.
    fn default() -> (r: DebugCallbackBehavior)
        ensures
            r is DebugMessageOnError,
    {
        DebugCallbackBehavior::DebugMessageOnError
    }
}

/// The rendering layer rejected the resolved GL entry points as insufficient;
/// carries its diagnostic.
#[derive(Clone, PartialEq, Eq, Debug)]
pub struct IncompatibleOpenGl {
    /// The rendering layer's diagnostic.
    pub message: String,
}

/// A failed promotion: the backend comes back untouched, still fit for a
/// retry with different parameters, along with the rendering layer's verdict.
#[derive(Clone, PartialEq, Eq, Debug)]
pub struct PromotionFailure {
    /// The backend, not consumed; its resources are intact.
    pub window_backend: SdlGlWindowBackend,
    /// Why the rendering layer refused.
    pub error: IncompatibleOpenGl,
}

/// The rendering context the facade shares with the rendering layer: bound
/// to the backend's GL context, configured at promotion.
#[derive(Clone, Copy, PartialEq, Eq, Structural, Debug)]
pub struct GliumContext {
    /// The GL context the rendering layer draws through.
    pub gl_context: GlContextHandle,
    /// Whether the rendering layer re-checks the thread's current context on
    /// every call.
    pub check_current_context: bool,
    /// How GL debug messages are reported.
    pub debug: DebugCallbackBehavior,
}

/// One frame being drawn: bound to the shared rendering context and to the
/// framebuffer dimensions measured when the frame began.  Finishing the
/// frame presents the buffer at once, whatever the vsync configuration.
#[derive(Clone, Copy, PartialEq, Eq, Structural, Debug)]
pub struct Frame {
    /// The rendering context the frame draws through.
    pub gl_context: GlContextHandle,
    /// The framebuffer width the frame was begun with, in pixels.
    pub width: u32,
    /// The framebuffer height the frame was begun with, in pixels.
    pub height: u32,
}

/// The steady-state rendering handle: the rendering context, the backend and
/// the window impostor, shared for as long as any owner lives.
#[derive(Clone, PartialEq, Eq, Debug)]
pub struct SdlGliumDisplayFacade {
    /// The shared rendering context.
    pub glium_context: GliumContext,
    /// The shared backend; its entry-point slot is empty for good.
    pub window_backend: SdlGlWindowBackend,
    /// The shared stand-in from which window references are derived.
    pub sdl_window_impostor: SdlWindowImpostor,
}

impl SdlGliumDisplayFacade {
    /// Everything a promotion establishes: the backend is well formed with
    /// its entry points consumed, the impostor aliases exactly the backend's
    /// window, and the rendering context is bound to the backend's GL
    /// context.
    pub open spec fn wf(self) -> bool {
        &&& self.window_backend.wf()
        &&& self.window_backend.gl_funs is None
        &&& self.sdl_window_impostor.wf()
        &&& self.sdl_window_impostor.window_raw() == self.window_backend.window_raw
        &&& self.glium_context.gl_context == self.window_backend.gl_context_raw
    }

    /// A reference to the window the impostor aliases — the model of the
    /// impostor-derived window reference.  It reaches only the window's own
    /// fields; operations that would use the window's subsystem handle are
    /// forbidden on it (see [`crate::impostor::impostor_permits`]).
    pub fn window(&self) -> (w: &WindowState)
        ensures
            *w == self.window_backend.window_state,
    {
        &self.window_backend.window_state
    }

    /// The mutable form of [`Self::window`]: same aliasing, same limits.
    /// Callers must hold at most one such reference at a time and must not
    /// retain it beyond the facade.
    pub fn window_mut(&mut self) -> (w: &mut WindowState)
        ensures
            *w == old(self).window_backend.window_state,
            *final(self) == (SdlGliumDisplayFacade {
                window_backend: (SdlGlWindowBackend {
                    window_state: *final(w),
                    ..old(self).window_backend
                }),
                ..*old(self)
            }),
    {
        &mut self.window_backend.window_state
    }

    /// Begins a frame, bound to the shared rendering context and to the
    /// framebuffer dimensions the backend reads from the given raw
    /// drawable-size query results.  Destroying the frame presents the
    /// buffer.
    pub fn draw(&self, raw_width: i32, raw_height: i32) -> (frame: Frame)
        ensures
            frame.gl_context == self.glium_context.gl_context,
            (frame.width, frame.height) == spec_framebuffer_dimensions(raw_width, raw_height),
    {
        let dimensions = self.window_backend.get_framebuffer_dimensions(raw_width, raw_height);
        Frame { gl_context: self.glium_context.gl_context, width: dimensions.0, height: dimensions.1 }
    }

    /// The teardown calls owed when the last owner of the facade goes away:
    /// the backend's, window first, context second.
    pub fn teardown_actions(&self) -> (r: Vec<NativeAction>)
        ensures
            r@.len() == 2,
            r@[0] == NativeAction::DestroyWindow(self.window_backend.window_raw),
            r@[1] == NativeAction::DeleteGlContext(self.window_backend.gl_context_raw),
    {
        self.window_backend.teardown_actions()
    }
}

impl SdlGlWindowBackend {
    /// Promotes this backend into a display facade with current-context
    /// checks and the default debug behavior.
    pub fn build_glium(self, gl_verdict: Result<(), IncompatibleOpenGl>, thread: &mut ThreadGlState)
        -> (r: Result<SdlGliumDisplayFacade, PromotionFailure>)
        requires
            self.ready_for_promotion(),
        ensures
            promotion_ensures(self, true, DebugCallbackBehavior::DebugMessageOnError, gl_verdict, r),
            final(thread).current == Some(self.gl_context_raw),
    {
        self.build_glium_debug(DebugCallbackBehavior::default(), gl_verdict, thread)
    }

    /// Promotes this backend into a display facade without current-context
    /// checks and with the default debug behavior.
    pub fn build_glium_unchecked(
        self,
        gl_verdict: Result<(), IncompatibleOpenGl>,
        thread: &mut ThreadGlState,
    ) -> (r: Result<SdlGliumDisplayFacade, PromotionFailure>)
        requires
            self.ready_for_promotion(),
        ensures
            promotion_ensures(
                self,
                false,
                DebugCallbackBehavior::DebugMessageOnError,
                gl_verdict,
                r,
            ),
            final(thread).current == Some(self.gl_context_raw),
    {
        self.build_glium_unchecked_debug(DebugCallbackBehavior::default(), gl_verdict, thread)
    }

    /// Promotes this backend into a display facade with current-context
    /// checks and the given debug behavior.
    pub fn build_glium_debug(
        self,
        debug: DebugCallbackBehavior,
        gl_verdict: Result<(), IncompatibleOpenGl>,
        thread: &mut ThreadGlState,
    ) -> (r: Result<SdlGliumDisplayFacade, PromotionFailure>)
        requires
            self.ready_for_promotion(),
        ensures
            promotion_ensures(self, true, debug, gl_verdict, r),
            final(thread).current == Some(self.gl_context_raw),
    {
        self.promote(true, debug, gl_verdict, thread)
    }

    /// Promotes this backend into a display facade without current-context
    /// checks and with the given debug behavior.
    pub fn build_glium_unchecked_debug(
        self,
        debug: DebugCallbackBehavior,
        gl_verdict: Result<(), IncompatibleOpenGl>,
        thread: &mut ThreadGlState,
    ) -> (r: Result<SdlGliumDisplayFacade, PromotionFailure>)
        requires
            self.ready_for_promotion(),
        ensures
            promotion_ensures(self, false, debug, gl_verdict, r),
            final(thread).current == Some(self.gl_context_raw),
    {
        self.promote(false, debug, gl_verdict, thread)
    }

    /// The one promotion path.  Handing the backend to the rendering layer
    /// re-acquires the GL context on the calling thread; `gl_verdict` is what
    /// the rendering layer then reported of the resolved entry points.  On
    /// acceptance the backend's entry points are consumed and the facade owns
    /// everything; on refusal the backend comes back untouched.
    fn promote(
        self,
        check_current_context: bool,
        debug: DebugCallbackBehavior,
        gl_verdict: Result<(), IncompatibleOpenGl>,
        thread: &mut ThreadGlState,
    ) -> (r: Result<SdlGliumDisplayFacade, PromotionFailure>)
        requires
            self.ready_for_promotion(),
        ensures
            promotion_ensures(self, check_current_context, debug, gl_verdict, r),
            final(thread).current == Some(self.gl_context_raw),
    {
        thread.make_current(self.gl_context_raw);
        match gl_verdict {
            Ok(()) => {
                let impostor = SdlWindowImpostor::new(
                    SdlWindowContextImpostor::new(self.window_raw),
                );
                let backend = SdlGlWindowBackend { gl_funs: None, ..self };
                Ok(
                    SdlGliumDisplayFacade {
                        glium_context: GliumContext {
                            gl_context: backend.gl_context_raw,
                            check_current_context,
                            debug,
                        },
                        window_backend: backend,
                        sdl_window_impostor: impostor,
                    },
                )
            },
            Err(error) => Err(PromotionFailure { window_backend: self, error }),
        }
    }
}

/// What every promotion guarantees: acceptance yields a well-formed facade
/// built from exactly this backend, configured as asked; refusal hands the
/// backend back untouched with the rendering layer's diagnostic.
pub open spec fn promotion_ensures(
    backend: SdlGlWindowBackend,
    check_current_context: bool,
    debug: DebugCallbackBehavior,
    gl_verdict: Result<(), IncompatibleOpenGl>,
    r: Result<SdlGliumDisplayFacade, PromotionFailure>,
) -> bool {
    &&& (gl_verdict matches Ok(()) ==> {
        &&& r matches Ok(facade)
        &&& facade.wf()
        &&& facade.window_backend == (SdlGlWindowBackend { gl_funs: None, ..backend })
        &&& facade.glium_context == (GliumContext {
            gl_context: backend.gl_context_raw,
            check_current_context,
            debug,
        })
        &&& facade.sdl_window_impostor.window_raw() == backend.window_raw
    })
    &&& (gl_verdict matches Err(e) ==> r == Err::<SdlGliumDisplayFacade, PromotionFailure>(
        PromotionFailure { window_backend: backend, error: e },
    ))
}

/// One-way promotion: the backend inside a facade has its entry-point slot
/// permanently empty, so it can never satisfy what promotion requires of a
/// backend.  Together with promotion consuming its backend by value, no
/// backend can be promoted twice.
pub proof fn lemma_promotion_one_way(facade: SdlGliumDisplayFacade)
    requires
        facade.wf(),
    ensures
        !facade.window_backend.ready_for_promotion(),
{
}

} // verus!
