//! Scenarios for the backend's rendering capabilities, the layout gate, the
//! impostor discipline and the shutdown loop.

use glium_sdl2_backend::backend::GlFns;
use glium_sdl2_backend::backend::SdlGlWindowBackend;
use glium_sdl2_backend::backend::WindowState;
use glium_sdl2_backend::backend::symbol_representable;
use glium_sdl2_backend::context::ThreadGlState;
use glium_sdl2_backend::handles::GlContextHandle;
use glium_sdl2_backend::handles::WindowHandle;
use glium_sdl2_backend::impostor::WindowOp;
use glium_sdl2_backend::impostor::impostor_permits;
use glium_sdl2_backend::layout::LayoutMeasurement;
use glium_sdl2_backend::layout::check_layout;
use glium_sdl2_backend::shutdown::frames_until_shutdown;

fn backend() -> SdlGlWindowBackend {
    SdlGlWindowBackend {
        window_raw: WindowHandle { addr: 0x700 },
        gl_context_raw: GlContextHandle { addr: 0x900 },
        gl_funs: Some(GlFns {}),
        window_state: WindowState { title: String::new() },
    }
}

#[test]
fn handles_reject_null() {
    assert_eq!(WindowHandle::from_raw(0), None);
    assert_eq!(WindowHandle::from_raw(0x700), Some(WindowHandle { addr: 0x700 }));
    assert_eq!(GlContextHandle::from_raw(0), None);
    assert_eq!(GlContextHandle::from_raw(0x900), Some(GlContextHandle { addr: 0x900 }));
}

#[test]
fn layout_check_is_exact() {
    assert!(check_layout(&LayoutMeasurement {
        window_size: 8,
        window_impostor_size: 8,
        context_size: 24,
        context_impostor_size: 24,
    }));
    assert!(!check_layout(&LayoutMeasurement {
        window_size: 8,
        window_impostor_size: 16,
        context_size: 24,
        context_impostor_size: 24,
    }));
    assert!(!check_layout(&LayoutMeasurement {
        window_size: 8,
        window_impostor_size: 8,
        context_size: 24,
        context_impostor_size: 16,
    }));
}

#[test]
fn impostor_discipline() {
    assert!(impostor_permits(WindowOp::QueryTitle));
    assert!(impostor_permits(WindowOp::SetTitle));
    assert!(impostor_permits(WindowOp::QuerySize));
    assert!(!impostor_permits(WindowOp::CloneSubsystem));
    assert!(!impostor_permits(WindowOp::BuildNewWindow));
}

#[test]
fn make_current_then_is_current() {
    let b = backend();
    let mut thread = ThreadGlState::new();
    assert!(!b.is_current(&thread));
    b.make_current(&mut thread);
    assert!(b.is_current(&thread));
    thread.release_current();
    assert!(!b.is_current(&thread));
}

#[test]
fn another_context_displaces_the_current_one() {
    let b = backend();
    let mut other = backend();
    other.gl_context_raw = GlContextHandle { addr: 0xA00 };
    let mut thread = ThreadGlState::new();
    b.make_current(&mut thread);
    assert!(b.is_current(&thread));
    other.make_current(&mut thread);
    assert!(!b.is_current(&thread));
    assert!(other.is_current(&thread));
}

#[test]
fn swap_buffers_reports_success() {
    assert_eq!(backend().swap_buffers(), Ok(()));
}

#[test]
fn framebuffer_dimensions_from_raw_queries() {
    let b = backend();
    assert_eq!(b.get_framebuffer_dimensions(320, 240), (320, 240));
    assert_eq!(b.get_framebuffer_dimensions(0, 0), (0, 0));
    // a negative raw value can only mean the query failed
    assert_eq!(b.get_framebuffer_dimensions(-1, 240), (0, 240));
    assert_eq!(b.get_framebuffer_dimensions(320, -7), (320, 0));
    assert_eq!(b.get_framebuffer_dimensions(i32::MAX, i32::MAX), (i32::MAX as u32, i32::MAX as u32));
}

#[test]
fn symbol_names_with_embedded_terminators_are_refused() {
    assert!(symbol_representable(b"glClear"));
    assert!(symbol_representable(b""));
    assert!(!symbol_representable(b"gl\0Clear"));
    assert!(!symbol_representable(b"\0"));
    assert!(!symbol_representable(b"glClear\0"));
}

#[test]
fn worker_exits_on_the_first_false_read() {
    assert_eq!(frames_until_shutdown(&vec![true, true, false, true]), 2);
    assert_eq!(frames_until_shutdown(&vec![false]), 0);
    assert_eq!(frames_until_shutdown(&vec![]), 0);
    assert_eq!(frames_until_shutdown(&vec![true; 100]), 100);
    // once the flag goes false the worker leaves within that frame
    let mut reads = vec![true; 50];
    reads.push(false);
    reads.extend(vec![true; 50]);
    assert_eq!(frames_until_shutdown(&reads), 50);
}
