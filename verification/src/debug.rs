//! The driver's debug messages.

use crate::gl;
use crate::text::{append_decimal, decimal};
use vstd::prelude::*;
use vstd::string::*;

verus! {

/// The name of the part of the driver that a debug message comes from.
pub open spec fn origin_name(source: u32) -> Seq<char> {
    if source == gl::DEBUG_SOURCE_API {
        "API"@
    } else if source == gl::DEBUG_SOURCE_WINDOW_SYSTEM {
        "WINDOW SYSTEM"@
    } else if source == gl::DEBUG_SOURCE_SHADER_COMPILER {
        "SHADER COMPILE"@
    } else if source == gl::DEBUG_SOURCE_THIRD_PARTY {
        "THIRD PARTY"@
    } else if source == gl::DEBUG_SOURCE_APPLICATION {
        "SOURCE APP"@
    } else if source == gl::DEBUG_SOURCE_OTHER {
        "OTHER"@
    } else {
        "UNKNOWN"@
    }
}

/// The name of the kind of a debug message.
pub open spec fn kind_name(er_type: u32) -> Seq<char> {
    if er_type == gl::DEBUG_TYPE_ERROR {
        "ERROR"@
    } else if er_type == gl::DEBUG_TYPE_DEPRECATED_BEHAVIOR {
        "DEPRECATED"@
    } else if er_type == gl::DEBUG_TYPE_UNDEFINED_BEHAVIOR {
        "UNDEFINED BEHAVIOUR"@
    } else if er_type == gl::DEBUG_TYPE_PORTABILITY {
        "PORTABILITY"@
    } else if er_type == gl::DEBUG_TYPE_PERFORMANCE {
        "PERFORMANCE"@
    } else if er_type == gl::DEBUG_TYPE_MARKER {
        "MARKER"@
    } else if er_type == gl::DEBUG_TYPE_PUSH_GROUP {
        "PUSH GROUP"@
    } else if er_type == gl::DEBUG_TYPE_POP_GROUP {
        "POP GROUP"@
    } else if er_type == gl::DEBUG_TYPE_OTHER {
        "OTHER"@
    } else {
        "UNKNOWN"@
    }
}

/// The name of the severity of a debug message.
pub open spec fn severity_name(severity: u32) -> Seq<char> {
    if severity == gl::DEBUG_SEVERITY_NOTIFICATION {
        "NOTICE"@
    } else if severity == gl::DEBUG_SEVERITY_LOW {
        "LOW"@
    } else if severity == gl::DEBUG_SEVERITY_MEDIUM {
        "MEDIUM"@
    } else if severity == gl::DEBUG_SEVERITY_HIGH {
        "HIGH"@
    } else {
        "UNKNOWN"@
    }
}

/// The line that reports a debug message.
pub open spec fn debug_line(
    source: u32,
    er_type: u32,
    id: u32,
    severity: u32,
    message: Seq<char>,
) -> Seq<char> {
    "GL ERROR: "@ + decimal(id as nat) + " ["@ + severity_name(severity) + "] "@ + kind_name(
        er_type,
    ) + ": "@ + origin_name(source) + " "@ + message
}

/// The name of the part of the driver that a debug message comes from.
pub fn debug_source(source: u32) -> (name: &'static str)
    ensures
        name@ == origin_name(source),
{
    if source == gl::DEBUG_SOURCE_API {
        "API"
    } else if source == gl::DEBUG_SOURCE_WINDOW_SYSTEM {
        "WINDOW SYSTEM"
    } else if source == gl::DEBUG_SOURCE_SHADER_COMPILER {
        "SHADER COMPILE"
    } else if source == gl::DEBUG_SOURCE_THIRD_PARTY {
        "THIRD PARTY"
    } else if source == gl::DEBUG_SOURCE_APPLICATION {
        "SOURCE APP"
    } else if source == gl::DEBUG_SOURCE_OTHER {
        "OTHER"
    } else {
        "UNKNOWN"
    }
}

/// The name of the kind of a debug message.
pub fn debug_type(er_type: u32) -> (name: &'static str)
    ensures
        name@ == kind_name(er_type),
{
    if er_type == gl::DEBUG_TYPE_ERROR {
        "ERROR"
    } else if er_type == gl::DEBUG_TYPE_DEPRECATED_BEHAVIOR {
        "DEPRECATED"
    } else if er_type == gl::DEBUG_TYPE_UNDEFINED_BEHAVIOR {
        "UNDEFINED BEHAVIOUR"
    } else if er_type == gl::DEBUG_TYPE_PORTABILITY {
        "PORTABILITY"
    } else if er_type == gl::DEBUG_TYPE_PERFORMANCE {
        "PERFORMANCE"
    } else if er_type == gl::DEBUG_TYPE_MARKER {
        "MARKER"
    } else if er_type == gl::DEBUG_TYPE_PUSH_GROUP {
        "PUSH GROUP"
    } else if er_type == gl::DEBUG_TYPE_POP_GROUP {
        "POP GROUP"
    } else if er_type == gl::DEBUG_TYPE_OTHER {
        "OTHER"
    } else {
        "UNKNOWN"
    }
}

/// The name of the severity of a debug message.
pub fn debug_severity(severity: u32) -> (name: &'static str)
    ensures
        name@ == severity_name(severity),
{
    if severity == gl::DEBUG_SEVERITY_NOTIFICATION {
        "NOTICE"
    } else if severity == gl::DEBUG_SEVERITY_LOW {
        "LOW"
    } else if severity == gl::DEBUG_SEVERITY_MEDIUM {
        "MEDIUM"
    } else if severity == gl::DEBUG_SEVERITY_HIGH {
        "HIGH"
    } else {
        "UNKNOWN"
    }
}

/// Formats one debug message of the driver as a line for the diagnostic
/// stream: its number, then severity, kind and source by name, then the
/// driver's own text. Names that are not known read `UNKNOWN`.
pub fn gl_debug_callback(source: u32, er_type: u32, id: u32, severity: u32, message: &str) -> (line:
    String)
    ensures
        line@ == debug_line(source, er_type, id, severity, message@),
{
    let mut line = String::from_str("GL ERROR: ");
    append_decimal(&mut line, id);
    line.append(" [");
    line.append(debug_severity(severity));
    line.append("] ");
    line.append(debug_type(er_type));
    line.append(": ");
    line.append(debug_source(source));
    line.append(" ");
    line.append(message);
    line
}

} // verus!
