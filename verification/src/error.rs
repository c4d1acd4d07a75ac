//! The ways in which an activation of the renderer can fail.

use crate::shader::ShaderType;
use vstd::prelude::*;
use vstd::string::*;

verus! {

/// Why an activation attempt was given up. None of these is retried.
#[derive(Clone, Debug, PartialEq, Eq)]
pub enum RenderError {
    /// The platform offered no graphics configuration to choose from.
    ConfigSelectionFailed,
    /// Every strategy of the fallback chain failed to create a context.
    ContextCreationFailed,
    /// The platform could not build a drawable for the window.
    SurfaceCreationFailed,
    /// The platform refused to bind context and surface to the thread.
    MakeCurrentFailed,
    /// The shader's source file could not be read as text.
    ShaderReadError { stage: ShaderType },
    /// The shader's source holds a NUL byte and cannot be handed over.
    ShaderSourceError { stage: ShaderType },
    /// The native compiler rejected the shader; `log` is its own diagnostic.
    ShaderCompileError { stage: ShaderType, log: String },
    /// The driver made no program object.
    ProgramCreateError,
    /// The native linker rejected the program; `log` is its own diagnostic.
    ProgramLinkError { log: String },
    /// The texture's image file could not be read.
    TextureReadError { path: String },
    /// The texture's image file does not hold an image that can be uploaded.
    TextureDecodeError { path: String },
}

/// The mathematical content of a [`RenderError`].
pub enum RenderErrorView {
    ConfigSelectionFailed,
    ContextCreationFailed,
    SurfaceCreationFailed,
    MakeCurrentFailed,
    ShaderReadError { stage: ShaderType },
    ShaderSourceError { stage: ShaderType },
    ShaderCompileError { stage: ShaderType, log: Seq<char> },
    ProgramCreateError,
    ProgramLinkError { log: Seq<char> },
    TextureReadError { path: Seq<char> },
    TextureDecodeError { path: Seq<char> },
}

impl DeepView for RenderError {
    type V = RenderErrorView;

    open spec fn deep_view(&self) -> RenderErrorView {
        match *self {
            RenderError::ConfigSelectionFailed => RenderErrorView::ConfigSelectionFailed,
            RenderError::ContextCreationFailed => RenderErrorView::ContextCreationFailed,
            RenderError::SurfaceCreationFailed => RenderErrorView::SurfaceCreationFailed,
            RenderError::MakeCurrentFailed => RenderErrorView::MakeCurrentFailed,
            RenderError::ShaderReadError { stage } => RenderErrorView::ShaderReadError { stage },
            RenderError::ShaderSourceError { stage } => RenderErrorView::ShaderSourceError {
                stage,
            },
            RenderError::ShaderCompileError { stage, log } => RenderErrorView::ShaderCompileError {
                stage,
                log: log@,
            },
            RenderError::ProgramCreateError => RenderErrorView::ProgramCreateError,
            RenderError::ProgramLinkError { log } => RenderErrorView::ProgramLinkError { log: log@ },
            RenderError::TextureReadError { path } => RenderErrorView::TextureReadError {
                path: path@,
            },
            RenderError::TextureDecodeError { path } => RenderErrorView::TextureDecodeError {
                path: path@,
            },
        }
    }
}

impl RenderErrorView {
    /// The error in words, for the diagnostic stream. A compile or link
    /// error reads as the driver's own log.
    pub open spec fn message(self) -> Seq<char> {
        match self {
            RenderErrorView::ConfigSelectionFailed => "no graphics configuration to choose from"@,
            RenderErrorView::ContextCreationFailed => "failed to create context"@,
            RenderErrorView::SurfaceCreationFailed => "failed to create surface"@,
            RenderErrorView::MakeCurrentFailed => "failed to make context current"@,
            RenderErrorView::ShaderReadError { .. } => "failed to read shader source file"@,
            RenderErrorView::ShaderSourceError { .. } => {
                "failed to convert shader source to c string"@
            },
            RenderErrorView::ShaderCompileError { log, .. } => log,
            RenderErrorView::ProgramCreateError => "glCreateProgram failed"@,
            RenderErrorView::ProgramLinkError { log } => "glLinkProgram failed: "@ + log,
            RenderErrorView::TextureReadError { path } => "failed to read source file "@ + path,
            RenderErrorView::TextureDecodeError { path } => {
                "failed to decode image source file "@ + path
            },
        }
    }
}

impl RenderError {
    /// The error in words, for the diagnostic stream.
    pub fn message(&self) -> (text: String)
        ensures
            text@ == self.deep_view().message(),
    {
        match self {
            RenderError::ConfigSelectionFailed => String::from_str(
                "no graphics configuration to choose from",
            ),
            RenderError::ContextCreationFailed => String::from_str("failed to create context"),
            RenderError::SurfaceCreationFailed => String::from_str("failed to create surface"),
            RenderError::MakeCurrentFailed => String::from_str("failed to make context current"),
            RenderError::ShaderReadError { .. } => String::from_str(
                "failed to read shader source file",
            ),
            RenderError::ShaderSourceError { .. } => String::from_str(
                "failed to convert shader source to c string",
            ),
            RenderError::ShaderCompileError { log, .. } => log.clone(),
            RenderError::ProgramCreateError => String::from_str("glCreateProgram failed"),
            RenderError::ProgramLinkError { log } => {
                let mut text = String::from_str("glLinkProgram failed: ");
                text.append(log.as_str());
                text
            },
            RenderError::TextureReadError { path } => {
                let mut text = String::from_str("failed to read source file ");
                text.append(path.as_str());
                text
            },
            RenderError::TextureDecodeError { path } => {
                let mut text = String::from_str("failed to decode image source file ");
                text.append(path.as_str());
                text
            },
        }
    }
}

} // verus!
