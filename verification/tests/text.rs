use render_core::debug::{debug_severity, debug_source, debug_type, gl_debug_callback};
use render_core::error::RenderError;
use render_core::gl;
use render_core::shader::ShaderType;
use render_core::text::decimal_string;

#[test]
fn numbers_are_written_in_decimal() {
    assert_eq!(decimal_string(0), "0");
    assert_eq!(decimal_string(7), "7");
    assert_eq!(decimal_string(10), "10");
    assert_eq!(decimal_string(909), "909");
    assert_eq!(decimal_string(1234567890), "1234567890");
    assert_eq!(decimal_string(u32::MAX), "4294967295");
}

#[test]
fn debug_message_is_formatted_as_one_line() {
    let line = gl_debug_callback(
        gl::DEBUG_SOURCE_SHADER_COMPILER,
        gl::DEBUG_TYPE_ERROR,
        1282,
        gl::DEBUG_SEVERITY_HIGH,
        "GL_INVALID_OPERATION in glUseProgram",
    );
    assert_eq!(
        line,
        "GL ERROR: 1282 [HIGH] ERROR: SHADER COMPILE GL_INVALID_OPERATION in glUseProgram"
    );
}

#[test]
fn debug_message_with_unknown_numbers_reads_unknown() {
    assert_eq!(gl_debug_callback(1, 2, 0, 3, ""), "GL ERROR: 0 [UNKNOWN] UNKNOWN: UNKNOWN ");
}

#[test]
fn debug_names_cover_the_drivers_constants() {
    assert_eq!(debug_source(0x8246), "API");
    assert_eq!(debug_source(0x8247), "WINDOW SYSTEM");
    assert_eq!(debug_source(0x8248), "SHADER COMPILE");
    assert_eq!(debug_source(0x8249), "THIRD PARTY");
    assert_eq!(debug_source(0x824A), "SOURCE APP");
    assert_eq!(debug_source(0x824B), "OTHER");
    assert_eq!(debug_type(0x824C), "ERROR");
    assert_eq!(debug_type(0x824D), "DEPRECATED");
    assert_eq!(debug_type(0x824E), "UNDEFINED BEHAVIOUR");
    assert_eq!(debug_type(0x824F), "PORTABILITY");
    assert_eq!(debug_type(0x8250), "PERFORMANCE");
    assert_eq!(debug_type(0x8268), "MARKER");
    assert_eq!(debug_type(0x8269), "PUSH GROUP");
    assert_eq!(debug_type(0x826A), "POP GROUP");
    assert_eq!(debug_type(0x8251), "OTHER");
    assert_eq!(debug_severity(0x826B), "NOTICE");
    assert_eq!(debug_severity(0x9148), "LOW");
    assert_eq!(debug_severity(0x9147), "MEDIUM");
    assert_eq!(debug_severity(0x9146), "HIGH");
    assert_eq!(debug_severity(0), "UNKNOWN");
}

#[test]
fn every_error_has_its_message() {
    assert_eq!(
        RenderError::ConfigSelectionFailed.message(),
        "no graphics configuration to choose from"
    );
    assert_eq!(RenderError::ContextCreationFailed.message(), "failed to create context");
    assert_eq!(RenderError::SurfaceCreationFailed.message(), "failed to create surface");
    assert_eq!(RenderError::MakeCurrentFailed.message(), "failed to make context current");
    assert_eq!(
        RenderError::ShaderReadError { stage: ShaderType::VERTEX }.message(),
        "failed to read shader source file"
    );
    assert_eq!(
        RenderError::ShaderSourceError { stage: ShaderType::FRAGMENT }.message(),
        "failed to convert shader source to c string"
    );
    assert_eq!(
        RenderError::ShaderCompileError { stage: ShaderType::VERTEX, log: String::from("0:3: x") }
            .message(),
        "0:3: x"
    );
    assert_eq!(RenderError::ProgramCreateError.message(), "glCreateProgram failed");
    assert_eq!(
        RenderError::ProgramLinkError { log: String::from("no main") }.message(),
        "glLinkProgram failed: no main"
    );
    assert_eq!(
        RenderError::TextureReadError { path: String::from("textures/stone.png") }.message(),
        "failed to read source file textures/stone.png"
    );
    assert_eq!(
        RenderError::TextureDecodeError { path: String::from("a.png") }.message(),
        "failed to decode image source file a.png"
    );
}
