use ezgl::{debug_entry_point, DebugEntryPoint, EzGl, Unsupported};
use gl_struct_loader::GlFns;

#[test]
fn the_standard_entry_point_is_preferred() {
    assert_eq!(debug_entry_point(true, true), Ok(DebugEntryPoint::Core));
    assert_eq!(debug_entry_point(true, false), Ok(DebugEntryPoint::Core));
}

#[test]
fn the_extension_is_the_fallback() {
    assert_eq!(debug_entry_point(false, true), Ok(DebugEntryPoint::Khr));
}

#[test]
fn no_entry_point_is_reported_as_unsupported() {
    assert_eq!(debug_entry_point(false, false), Err(Unsupported));
}

#[test]
fn a_blank_context_cannot_register_a_debug_callback() {
    let gl = EzGl::new_boxed();
    assert_eq!(gl.set_stderr_debug_message_callback(), Err(Unsupported));
    assert!(!gl.fns().has_loaded().DebugMessageCallback());
    assert!(!gl.fns().has_loaded().DebugMessageCallbackKHR());
}

#[test]
fn a_context_over_a_given_table_decides_on_that_table() {
    let gl = EzGl::from_fns(GlFns::new_boxed());
    assert_eq!(gl.set_stderr_debug_message_callback(), Err(Unsupported));
    let fns = gl.into_fns();
    assert!(!fns.has_loaded().CreateShader());
}
