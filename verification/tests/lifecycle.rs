//! Scenarios for the backend build machine and the promotion to a facade.

use glium_sdl2_backend::backend::GlFns;
use glium_sdl2_backend::backend::NativeAction;
use glium_sdl2_backend::backend::SdlGlWindowBackend;
use glium_sdl2_backend::backend::WindowState;
use glium_sdl2_backend::builder::BackendBuildError;
use glium_sdl2_backend::builder::BackendBuilder;
use glium_sdl2_backend::builder::BuildPhase;
use glium_sdl2_backend::builder::WindowBuildFailure;
use glium_sdl2_backend::builder::WindowRequest;
use glium_sdl2_backend::context::ThreadGlState;
use glium_sdl2_backend::facade::DebugCallbackBehavior;
use glium_sdl2_backend::facade::IncompatibleOpenGl;
use glium_sdl2_backend::handles::GlContextHandle;
use glium_sdl2_backend::handles::WindowHandle;
use glium_sdl2_backend::layout::LayoutMeasurement;

fn request(title: &str) -> WindowRequest {
    WindowRequest { title: title.to_string(), width: 320, height: 240, opengl: false }
}

fn matching_layout() -> LayoutMeasurement {
    LayoutMeasurement {
        window_size: 8,
        window_impostor_size: 8,
        context_size: 16,
        context_impostor_size: 16,
    }
}

fn built_backend(title: &str) -> SdlGlWindowBackend {
    let mut builder = BackendBuilder::new(request(title));
    let mut thread = ThreadGlState::new();
    builder.measure_layout(&matching_layout());
    builder.window_built(Ok(WindowHandle { addr: 0x700 }));
    let cleanup = builder.context_created(0x900, String::new(), &mut thread);
    assert!(cleanup.is_none());
    builder.gl_functions_loaded(GlFns {}, &thread);
    builder.release_context(&mut thread);
    builder.finish().unwrap()
}

#[test]
fn builder_forces_opengl() {
    let builder = BackendBuilder::new(request("my window"));
    assert!(builder.request.opengl);
    assert_eq!(builder.request.title, "my window");
    assert_eq!(builder.request.width, 320);
    assert_eq!(builder.request.height, 240);
}

#[test]
fn build_success_path() {
    let backend = built_backend("my window");
    assert_eq!(backend.window_raw, WindowHandle { addr: 0x700 });
    assert_eq!(backend.gl_context_raw, GlContextHandle { addr: 0x900 });
    assert_eq!(backend.gl_funs, Some(GlFns {}));
    assert_eq!(backend.window_state.title, "my window");
}

#[test]
fn build_releases_context_before_handing_out() {
    let mut builder = BackendBuilder::new(request("w"));
    let mut thread = ThreadGlState::new();
    builder.measure_layout(&matching_layout());
    builder.window_built(Ok(WindowHandle { addr: 0x700 }));
    builder.context_created(0x900, String::new(), &mut thread);
    // creation leaves the fresh context current on the building thread
    assert_eq!(thread.current, Some(GlContextHandle { addr: 0x900 }));
    builder.gl_functions_loaded(GlFns {}, &thread);
    builder.release_context(&mut thread);
    assert_eq!(thread.current, None);
}

#[test]
fn layout_mismatch_parks_the_build() {
    let mut builder = BackendBuilder::new(request("w"));
    let measurement = LayoutMeasurement {
        window_size: 8,
        window_impostor_size: 16,
        context_size: 16,
        context_impostor_size: 16,
    };
    builder.measure_layout(&measurement);
    assert!(matches!(builder.phase, BuildPhase::LayoutMismatch));
}

#[test]
fn window_build_failure_is_carried_verbatim() {
    let mut builder = BackendBuilder::new(request("w"));
    builder.measure_layout(&matching_layout());
    builder.window_built(Err(WindowBuildFailure::SdlError("display unavailable".to_string())));
    let error = builder.finish().unwrap_err();
    assert_eq!(
        error,
        BackendBuildError::WindowBuildError(WindowBuildFailure::SdlError(
            "display unavailable".to_string()
        ))
    );
}

#[test]
fn width_overflow_failure_is_carried_verbatim() {
    let mut builder = BackendBuilder::new(request("w"));
    builder.measure_layout(&matching_layout());
    builder.window_built(Err(WindowBuildFailure::WidthOverflows(u32::MAX)));
    let error = builder.finish().unwrap_err();
    assert_eq!(
        error,
        BackendBuildError::WindowBuildError(WindowBuildFailure::WidthOverflows(u32::MAX))
    );
}

#[test]
fn context_failure_destroys_the_window_once() {
    let mut builder = BackendBuilder::new(request("w"));
    let mut thread = ThreadGlState::new();
    builder.measure_layout(&matching_layout());
    builder.window_built(Ok(WindowHandle { addr: 0x700 }));
    let cleanup = builder.context_created(0, "out of memory".to_string(), &mut thread);
    // exactly the window that was built is named for destruction, exactly once
    assert_eq!(cleanup, Some(WindowHandle { addr: 0x700 }));
    assert_eq!(thread.current, None);
    let error = builder.finish().unwrap_err();
    assert_eq!(error, BackendBuildError::ContextCreationError("out of memory".to_string()));
}

#[test]
fn promotion_success_shares_the_resources() {
    let backend = built_backend("w");
    let mut thread = ThreadGlState::new();
    let facade = backend.build_glium(Ok(()), &mut thread).unwrap();
    assert_eq!(facade.window_backend.window_raw, WindowHandle { addr: 0x700 });
    assert_eq!(facade.window_backend.gl_context_raw, GlContextHandle { addr: 0x900 });
    assert_eq!(facade.glium_context.gl_context, GlContextHandle { addr: 0x900 });
    assert!(facade.glium_context.check_current_context);
    assert_eq!(facade.glium_context.debug, DebugCallbackBehavior::DebugMessageOnError);
    assert_eq!(
        facade.sdl_window_impostor.window_context_impostor.window_raw,
        WindowHandle { addr: 0x700 }
    );
    // promotion re-acquires the context on the promoting thread
    assert_eq!(thread.current, Some(GlContextHandle { addr: 0x900 }));
}

#[test]
fn promotion_consumes_the_entry_points() {
    let backend = built_backend("w");
    let mut thread = ThreadGlState::new();
    let facade = backend.build_glium(Ok(()), &mut thread).unwrap();
    assert_eq!(facade.window_backend.gl_funs, None);
}

#[test]
fn promotion_unchecked_disables_current_context_checks() {
    let backend = built_backend("w");
    let mut thread = ThreadGlState::new();
    let facade = backend.build_glium_unchecked(Ok(()), &mut thread).unwrap();
    assert!(!facade.glium_context.check_current_context);
}

#[test]
fn promotion_debug_behavior_is_handed_through() {
    let backend = built_backend("w");
    let mut thread = ThreadGlState::new();
    let facade = backend
        .build_glium_debug(DebugCallbackBehavior::PrintAll, Ok(()), &mut thread)
        .unwrap();
    assert_eq!(facade.glium_context.debug, DebugCallbackBehavior::PrintAll);
    assert!(facade.glium_context.check_current_context);

    let backend2 = built_backend("w");
    let facade2 = backend2
        .build_glium_unchecked_debug(DebugCallbackBehavior::Ignore, Ok(()), &mut thread)
        .unwrap();
    assert_eq!(facade2.glium_context.debug, DebugCallbackBehavior::Ignore);
    assert!(!facade2.glium_context.check_current_context);
}

#[test]
fn failed_promotion_returns_the_backend_untouched() {
    let backend = built_backend("w");
    let expected = backend.clone();
    let mut thread = ThreadGlState::new();
    let verdict = Err(IncompatibleOpenGl { message: "GL 1.1 only".to_string() });
    let failure = backend.build_glium(verdict, &mut thread).unwrap_err();
    assert_eq!(failure.error.message, "GL 1.1 only");
    assert_eq!(failure.window_backend, expected);
    // the returned backend is still fit for a retry
    assert!(failure.window_backend.gl_funs.is_some());
}

#[test]
fn teardown_destroys_window_before_deleting_context() {
    let backend = built_backend("w");
    let mut thread = ThreadGlState::new();
    let facade = backend.build_glium(Ok(()), &mut thread).unwrap();
    let actions = facade.teardown_actions();
    assert_eq!(
        actions,
        vec![
            NativeAction::DestroyWindow(WindowHandle { addr: 0x700 }),
            NativeAction::DeleteGlContext(GlContextHandle { addr: 0x900 }),
        ]
    );
}

#[test]
fn draw_binds_the_frame_to_the_shared_context() {
    let backend = built_backend("w");
    let mut thread = ThreadGlState::new();
    let facade = backend.build_glium(Ok(()), &mut thread).unwrap();
    let frame = facade.draw(320, 240);
    assert_eq!(frame.gl_context, GlContextHandle { addr: 0x900 });
    assert_eq!((frame.width, frame.height), (320, 240));
    // a failed drawable query shows as a zero dimension
    let frame = facade.draw(-3, 240);
    assert_eq!((frame.width, frame.height), (0, 240));
}

#[test]
fn facade_clone_shares_the_same_resources() {
    let backend = built_backend("w");
    let mut thread = ThreadGlState::new();
    let facade = backend.build_glium(Ok(()), &mut thread).unwrap();
    let clone = facade.clone();
    assert_eq!(clone, facade);
}

#[test]
fn title_round_trip_through_the_alias() {
    let backend = built_backend("old title");
    let mut thread = ThreadGlState::new();
    let mut facade = backend.build_glium(Ok(()), &mut thread).unwrap();
    assert_eq!(facade.window().title().as_str(), "old title");
    facade.window_mut().set_title("new title".to_string());
    assert_eq!(facade.window().title().as_str(), "new title");
}

#[test]
fn error_conversions() {
    let e: BackendBuildError = WindowBuildFailure::InvalidTitle.into();
    assert_eq!(e, BackendBuildError::WindowBuildError(WindowBuildFailure::InvalidTitle));
    let e: BackendBuildError = BackendBuildError::from(WindowBuildFailure::HeightOverflows(7));
    assert_eq!(e, BackendBuildError::WindowBuildError(WindowBuildFailure::HeightOverflows(7)));
    let e: BackendBuildError = "no context".to_string().into();
    assert_eq!(e, BackendBuildError::ContextCreationError("no context".to_string()));
}

#[test]
fn default_debug_behavior_reports_on_errors() {
    assert_eq!(DebugCallbackBehavior::default(), DebugCallbackBehavior::DebugMessageOnError);
}

#[test]
fn shorthand_names_cover_the_handles() {
    let backend: glium_sdl2_backend::Window = built_backend("w");
    let mut thread = ThreadGlState::new();
    let facade: glium_sdl2_backend::Display = backend.build_glium(Ok(()), &mut thread).unwrap();
    assert_eq!(facade.window_backend.window_raw, WindowHandle { addr: 0x700 });
}

#[test]
fn worker_thread_scenario() {
    // the main thread builds the backend and releases the context
    let backend = built_backend("my window");
    // the worker thread re-acquires it by promoting
    let mut worker = ThreadGlState::new();
    let mut facade = backend.build_glium(Ok(()), &mut worker).unwrap();
    assert!(facade.window_backend.is_current(&worker));
    // it may touch the window's own fields through the alias
    facade.window_mut().set_title("new title".to_string());
    assert_eq!(facade.window().title().as_str(), "new title");
    // it renders one frame per flag read until the main thread clears the flag
    let flag_reads = vec![true, true, true, false];
    assert_eq!(glium_sdl2_backend::shutdown::frames_until_shutdown(&flag_reads), 3);
    let frame = facade.draw(320, 240);
    assert_eq!(frame.gl_context, facade.glium_context.gl_context);
    // after the join, teardown destroys the window before the context
    let actions = facade.teardown_actions();
    assert!(matches!(actions[0], NativeAction::DestroyWindow(_)));
    assert!(matches!(actions[1], NativeAction::DeleteGlContext(_)));
}

#[test]
fn window_state_round_trip_alone() {
    let mut state = WindowState { title: String::new() };
    state.set_title("a window".to_string());
    assert_eq!(state.title().as_str(), "a window");
}
