//! Decoding of the driver's debug messages.
//!
//! The driver reports a message with three enumerated classifiers, a numeric
//! identifier and the message bytes. Each classifier is read into one of a
//! fixed set of labels; a value that this library does not know gets the
//! generic label of its kind, so that constants of later driver versions are
//! still reported.

use vstd::prelude::*;
use vstd::string::*;
use vstd::utf8::{decode_utf8, valid_utf8};
use crate::constants;
use crate::text::{append_decimal, decimal_digits, decode_utf8_lossy, utf8_lossy};

verus! {

/// The label of a message source.
pub open spec fn source_label(source: u32) -> Seq<char> {
    if source == 0x8246u32 {
        "API"@
    } else if source == 0x8247u32 {
        "Window"@
    } else if source == 0x8248u32 {
        "ShaderCompiler"@
    } else if source == 0x8249u32 {
        "3rdParty"@
    } else if source == 0x824Au32 {
        "App"@
    } else {
        "OtherSrc"@
    }
}

/// The label of a message type.
pub open spec fn type_label(ty: u32) -> Seq<char> {
    if ty == 0x824Cu32 {
        "Error"@
    } else if ty == 0x824Du32 {
        "Deprecated"@
    } else if ty == 0x824Eu32 {
        "Undefined"@
    } else if ty == 0x824Fu32 {
        "Portability"@
    } else if ty == 0x8250u32 {
        "Performance"@
    } else if ty == 0x8268u32 {
        "Marker"@
    } else {
        "OtherTy"@
    }
}

/// The label of a message severity.
pub open spec fn severity_label(severity: u32) -> Seq<char> {
    if severity == 0x9146u32 {
        "High"@
    } else if severity == 0x9147u32 {
        "Medium"@
    } else if severity == 0x9148u32 {
        "Low"@
    } else if severity == 0x826Bu32 {
        "Note"@
    } else {
        "OtherSeverity"@
    }
}

/// The line that reports a message whose text is `message`: the three labels
/// and the identifier in decimal, each followed by `>`, then the text.
pub open spec fn debug_line(source: u32, ty: u32, id: u32, severity: u32, message: Seq<char>) -> Seq<
    char,
> {
    source_label(source) + ">"@ + type_label(ty) + ">"@ + decimal_digits(id as nat) + ">"@
        + severity_label(severity) + ">"@ + message
}

/// Reads the source classifier of a debug message.
pub fn debug_source_label(source: u32) -> (r: &'static str)
    ensures
        r@ == source_label(source),
{
    if source == constants::debug_source_api() {
        "API"
    } else if source == constants::debug_source_window_system() {
        "Window"
    } else if source == constants::debug_source_shader_compiler() {
        "ShaderCompiler"
    } else if source == constants::debug_source_third_party() {
        "3rdParty"
    } else if source == constants::debug_source_application() {
        "App"
    } else {
        "OtherSrc"
    }
}

/// Reads the type classifier of a debug message.
pub fn debug_type_label(ty: u32) -> (r: &'static str)
    ensures
        r@ == type_label(ty),
{
    if ty == constants::debug_type_error() {
        "Error"
    } else if ty == constants::debug_type_deprecated_behavior() {
        "Deprecated"
    } else if ty == constants::debug_type_undefined_behavior() {
        "Undefined"
    } else if ty == constants::debug_type_portability() {
        "Portability"
    } else if ty == constants::debug_type_performance() {
        "Performance"
    } else if ty == constants::debug_type_marker() {
        "Marker"
    } else {
        "OtherTy"
    }
}

/// Reads the severity classifier of a debug message.
pub fn debug_severity_label(severity: u32) -> (r: &'static str)
    ensures
        r@ == severity_label(severity),
{
    if severity == constants::debug_severity_high() {
        "High"
    } else if severity == constants::debug_severity_medium() {
        "Medium"
    } else if severity == constants::debug_severity_low() {
        "Low"
    } else if severity == constants::debug_severity_notification() {
        "Note"
    } else {
        "OtherSeverity"
    }
}

/// Formats the line that reports a debug message whose text is already
/// decoded.
pub fn format_debug_message(source: u32, ty: u32, id: u32, severity: u32, message: &str) -> (r:
    String)
    ensures
        r@ == debug_line(source, ty, id, severity, message@),
{
    let mut line = String::from_str(debug_source_label(source));
    line.append(">");
    line.append(debug_type_label(ty));
    line.append(">");
    append_decimal(&mut line, id);
    line.append(">");
    line.append(debug_severity_label(severity));
    line.append(">");
    line.append(message);
    line
}

/// Formats the line that reports a debug message as the driver delivered it.
///
/// `message` holds exactly the bytes that the driver reported, so the line is
/// no longer than the labels, the identifier and that many bytes call for.
/// Bytes that are not UTF-8 are replaced, never rejected.
pub fn debug_message_line(source: u32, ty: u32, id: u32, severity: u32, message: &[u8]) -> (r:
    String)
    ensures
        r@ == debug_line(source, ty, id, severity, utf8_lossy(message@)),
        valid_utf8(message@) ==> r@ == debug_line(
            source,
            ty,
            id,
            severity,
            decode_utf8(message@),
        ),
{
    let text = decode_utf8_lossy(message);
    format_debug_message(source, ty, id, severity, text.as_str())
}

} // verus!
