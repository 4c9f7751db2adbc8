use ezgl::{
    append_decimal, debug_message_line, debug_severity_label, debug_source_label,
    debug_type_label, format_debug_message, nul_terminated,
};
use gl_constants::{
    GL_DEBUG_SEVERITY_HIGH, GL_DEBUG_SEVERITY_LOW, GL_DEBUG_SEVERITY_MEDIUM,
    GL_DEBUG_SEVERITY_NOTIFICATION, GL_DEBUG_SOURCE_API, GL_DEBUG_SOURCE_APPLICATION,
    GL_DEBUG_SOURCE_OTHER, GL_DEBUG_SOURCE_SHADER_COMPILER, GL_DEBUG_SOURCE_THIRD_PARTY,
    GL_DEBUG_SOURCE_WINDOW_SYSTEM, GL_DEBUG_TYPE_DEPRECATED_BEHAVIOR, GL_DEBUG_TYPE_ERROR,
    GL_DEBUG_TYPE_MARKER, GL_DEBUG_TYPE_OTHER, GL_DEBUG_TYPE_PERFORMANCE,
    GL_DEBUG_TYPE_PORTABILITY, GL_DEBUG_TYPE_PUSH_GROUP, GL_DEBUG_TYPE_UNDEFINED_BEHAVIOR,
};

#[test]
fn every_known_source_has_its_label() {
    assert_eq!(debug_source_label(GL_DEBUG_SOURCE_API), "API");
    assert_eq!(debug_source_label(GL_DEBUG_SOURCE_WINDOW_SYSTEM), "Window");
    assert_eq!(debug_source_label(GL_DEBUG_SOURCE_SHADER_COMPILER), "ShaderCompiler");
    assert_eq!(debug_source_label(GL_DEBUG_SOURCE_THIRD_PARTY), "3rdParty");
    assert_eq!(debug_source_label(GL_DEBUG_SOURCE_APPLICATION), "App");
}

#[test]
fn every_known_type_has_its_label() {
    assert_eq!(debug_type_label(GL_DEBUG_TYPE_ERROR), "Error");
    assert_eq!(debug_type_label(GL_DEBUG_TYPE_DEPRECATED_BEHAVIOR), "Deprecated");
    assert_eq!(debug_type_label(GL_DEBUG_TYPE_UNDEFINED_BEHAVIOR), "Undefined");
    assert_eq!(debug_type_label(GL_DEBUG_TYPE_PORTABILITY), "Portability");
    assert_eq!(debug_type_label(GL_DEBUG_TYPE_PERFORMANCE), "Performance");
    assert_eq!(debug_type_label(GL_DEBUG_TYPE_MARKER), "Marker");
}

#[test]
fn every_known_severity_has_its_label() {
    assert_eq!(debug_severity_label(GL_DEBUG_SEVERITY_HIGH), "High");
    assert_eq!(debug_severity_label(GL_DEBUG_SEVERITY_MEDIUM), "Medium");
    assert_eq!(debug_severity_label(GL_DEBUG_SEVERITY_LOW), "Low");
    assert_eq!(debug_severity_label(GL_DEBUG_SEVERITY_NOTIFICATION), "Note");
}

#[test]
fn unknown_classifiers_get_the_generic_label_of_their_kind() {
    assert_eq!(debug_source_label(GL_DEBUG_SOURCE_OTHER), "OtherSrc");
    assert_eq!(debug_source_label(0), "OtherSrc");
    assert_eq!(debug_source_label(u32::MAX), "OtherSrc");
    assert_eq!(debug_type_label(GL_DEBUG_TYPE_OTHER), "OtherTy");
    assert_eq!(debug_type_label(GL_DEBUG_TYPE_PUSH_GROUP), "OtherTy");
    assert_eq!(debug_type_label(0), "OtherTy");
    assert_eq!(debug_severity_label(0), "OtherSeverity");
    assert_eq!(debug_severity_label(GL_DEBUG_SOURCE_API), "OtherSeverity");
}

#[test]
fn a_classifier_of_one_kind_is_unknown_to_the_others() {
    assert_eq!(debug_source_label(GL_DEBUG_TYPE_ERROR), "OtherSrc");
    assert_eq!(debug_type_label(GL_DEBUG_SEVERITY_HIGH), "OtherTy");
    assert_eq!(debug_severity_label(GL_DEBUG_TYPE_MARKER), "OtherSeverity");
}

#[test]
fn a_message_is_formatted_as_one_line_of_five_fields() {
    let line = format_debug_message(
        GL_DEBUG_SOURCE_API,
        GL_DEBUG_TYPE_ERROR,
        17,
        GL_DEBUG_SEVERITY_NOTIFICATION,
        "hi",
    );
    assert_eq!(line, "API>Error>17>Note>hi");
}

#[test]
fn the_line_of_unknown_classifiers_and_an_empty_message() {
    assert_eq!(format_debug_message(1, 2, 0, 3, ""), "OtherSrc>OtherTy>0>OtherSeverity>");
}

#[test]
fn the_identifier_is_written_in_decimal() {
    let line = |id: u32| {
        format_debug_message(
            GL_DEBUG_SOURCE_APPLICATION,
            GL_DEBUG_TYPE_MARKER,
            id,
            GL_DEBUG_SEVERITY_LOW,
            "m",
        )
    };
    assert_eq!(line(0), "App>Marker>0>Low>m");
    assert_eq!(line(9), "App>Marker>9>Low>m");
    assert_eq!(line(10), "App>Marker>10>Low>m");
    assert_eq!(line(1_000_000), "App>Marker>1000000>Low>m");
    assert_eq!(line(u32::MAX), "App>Marker>4294967295>Low>m");
}

#[test]
fn append_decimal_matches_the_standard_rendering() {
    for n in [0u32, 1, 7, 9, 10, 11, 99, 100, 101, 12_345, 4_000_000_000, u32::MAX] {
        let mut out = String::from("id=");
        append_decimal(&mut out, n);
        assert_eq!(out, format!("id={}", n));
    }
}

#[test]
fn message_bytes_are_decoded_as_utf8() {
    let line = debug_message_line(
        GL_DEBUG_SOURCE_SHADER_COMPILER,
        GL_DEBUG_TYPE_PERFORMANCE,
        131_218,
        GL_DEBUG_SEVERITY_MEDIUM,
        "recompiled \u{2713}".as_bytes(),
    );
    assert_eq!(line, "ShaderCompiler>Performance>131218>Medium>recompiled \u{2713}");
}

#[test]
fn bytes_that_are_not_utf8_are_replaced_not_rejected() {
    let line = debug_message_line(
        GL_DEBUG_SOURCE_WINDOW_SYSTEM,
        GL_DEBUG_TYPE_PORTABILITY,
        1,
        GL_DEBUG_SEVERITY_HIGH,
        &[b'a', 0xFF, b'b'],
    );
    assert_eq!(line, "Window>Portability>1>High>a\u{FFFD}b");
}

#[test]
fn an_empty_message_leaves_the_last_field_empty() {
    let line = debug_message_line(
        GL_DEBUG_SOURCE_THIRD_PARTY,
        GL_DEBUG_TYPE_UNDEFINED_BEHAVIOR,
        2,
        GL_DEBUG_SEVERITY_LOW,
        &[],
    );
    assert_eq!(line, "3rdParty>Undefined>2>Low>");
}

#[test]
fn the_line_is_no_longer_than_its_fields_and_the_message_bytes() {
    let message = b"texture 3 is base level inconsistent";
    let line = debug_message_line(
        GL_DEBUG_SOURCE_API,
        GL_DEBUG_TYPE_DEPRECATED_BEHAVIOR,
        42,
        GL_DEBUG_SEVERITY_NOTIFICATION,
        message,
    );
    assert_eq!(line.len(), "API>Deprecated>42>Note>".len() + message.len());
}

#[test]
fn a_name_is_terminated_with_nul() {
    assert_eq!(nul_terminated("tint"), "tint\0");
    assert_eq!(nul_terminated(""), "\0");
    assert_eq!(nul_terminated("u_mvp").as_bytes().last(), Some(&0u8));
}
