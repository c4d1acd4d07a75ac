//! The native constants and the vocabulary of native calls.

use vstd::prelude::*;

verus! {

pub const FALSE: i32 = 0;
pub const TRUE: i32 = 1;

pub const RENDERER: u32 = 0x1F01;
pub const VERSION: u32 = 0x1F02;
pub const SHADING_LANGUAGE_VERSION: u32 = 0x8B8C;

pub const DEBUG_OUTPUT_SYNCHRONOUS: u32 = 0x8242;
pub const DEBUG_OUTPUT: u32 = 0x92E0;

pub const FRAGMENT_SHADER: u32 = 0x8B30;
pub const VERTEX_SHADER: u32 = 0x8B31;
pub const COMPILE_STATUS: u32 = 0x8B81;
pub const LINK_STATUS: u32 = 0x8B82;
pub const INFO_LOG_LENGTH: u32 = 0x8B84;

pub const TEXTURE_2D: u32 = 0x0DE1;
pub const TEXTURE_MAX_LEVEL: u32 = 0x813D;
pub const TEXTURE_MAG_FILTER: u32 = 0x2800;
pub const TEXTURE_MIN_FILTER: u32 = 0x2801;
pub const NEAREST: i32 = 0x2600;
pub const RGB: u32 = 0x1907;
pub const RGB8: u32 = 0x8051;
pub const UNSIGNED_BYTE: u32 = 0x1401;
pub const UNPACK_ALIGNMENT: u32 = 0x0CF5;

pub const UNIFORM_BUFFER: u32 = 0x8A11;
pub const DYNAMIC_STORAGE_BIT: u32 = 0x0100;

pub const DEPTH_TEST: u32 = 0x0B71;
pub const LESS: u32 = 0x0201;
pub const POLYGON_OFFSET_LINE: u32 = 0x2A02;
pub const COLOR_BUFFER_BIT: u32 = 0x4000;
pub const DEPTH_BUFFER_BIT: u32 = 0x0100;
pub const FRONT_AND_BACK: u32 = 0x0408;
pub const LINE: u32 = 0x1B01;
pub const FILL: u32 = 0x1B02;
pub const TRIANGLES: u32 = 0x0004;

pub const DEBUG_SOURCE_API: u32 = 0x8246;
pub const DEBUG_SOURCE_WINDOW_SYSTEM: u32 = 0x8247;
pub const DEBUG_SOURCE_SHADER_COMPILER: u32 = 0x8248;
pub const DEBUG_SOURCE_THIRD_PARTY: u32 = 0x8249;
pub const DEBUG_SOURCE_APPLICATION: u32 = 0x824A;
pub const DEBUG_SOURCE_OTHER: u32 = 0x824B;

pub const DEBUG_TYPE_ERROR: u32 = 0x824C;
pub const DEBUG_TYPE_DEPRECATED_BEHAVIOR: u32 = 0x824D;
pub const DEBUG_TYPE_UNDEFINED_BEHAVIOR: u32 = 0x824E;
pub const DEBUG_TYPE_PORTABILITY: u32 = 0x824F;
pub const DEBUG_TYPE_PERFORMANCE: u32 = 0x8250;
pub const DEBUG_TYPE_OTHER: u32 = 0x8251;
pub const DEBUG_TYPE_MARKER: u32 = 0x8268;
pub const DEBUG_TYPE_PUSH_GROUP: u32 = 0x8269;
pub const DEBUG_TYPE_POP_GROUP: u32 = 0x826A;

pub const DEBUG_SEVERITY_NOTIFICATION: u32 = 0x826B;
pub const DEBUG_SEVERITY_HIGH: u32 = 0x9146;
pub const DEBUG_SEVERITY_MEDIUM: u32 = 0x9147;
pub const DEBUG_SEVERITY_LOW: u32 = 0x9148;

/// One native call with its scalar arguments.
///
/// Floating-point arguments travel as IEEE-754 single-precision bit patterns.
/// The three calls that hand the driver a block of memory (`ShaderSource`,
/// `TextureSubImage2D`, `NamedBufferSubData`) find it beside them, in
/// [`crate::protocol::Command::data`].
#[derive(Clone, Copy, Debug, PartialEq, Eq)]
pub enum GlCall {
    GetString { name: u32 },
    Enable { cap: u32 },
    DebugMessageCallback,
    ClearColor { red: u32, green: u32, blue: u32, alpha: u32 },
    Clear { mask: u32 },
    DepthFunc { func: u32 },
    PolygonOffset { factor: u32, units: u32 },
    PolygonMode { face: u32, mode: u32 },
    Viewport { x: i32, y: i32, width: i32, height: i32 },
    DrawArrays { mode: u32, first: i32, count: i32 },
    CreateShader { stage: u32 },
    ShaderSource { shader: u32 },
    CompileShader { shader: u32 },
    GetShaderiv { shader: u32, pname: u32 },
    GetShaderInfoLog { shader: u32, capacity: i32 },
    DeleteShader { shader: u32 },
    CreateProgram,
    AttachShader { program: u32, shader: u32 },
    LinkProgram { program: u32 },
    GetProgramiv { program: u32, pname: u32 },
    GetProgramInfoLog { program: u32, capacity: i32 },
    UseProgram { program: u32 },
    DeleteProgram { program: u32 },
    CreateTextures { target: u32 },
    TextureParameteri { texture: u32, pname: u32, param: i32 },
    TextureStorage2D { texture: u32, levels: i32, internal_format: u32, width: i32, height: i32 },
    PixelStorei { pname: u32, param: i32 },
    TextureSubImage2D {
        texture: u32,
        level: i32,
        xoffset: i32,
        yoffset: i32,
        width: i32,
        height: i32,
        format: u32,
        pixel_type: u32,
    },
    BindTextures { unit: u32, texture: u32 },
    DeleteTextures { texture: u32 },
    CreateVertexArrays,
    BindVertexArray { array: u32 },
    DeleteVertexArrays { array: u32 },
    CreateBuffers,
    NamedBufferStorage { buffer: u32, size: isize, flags: u32 },
    BindBufferRange { target: u32, index: u32, buffer: u32, offset: isize, size: isize },
    NamedBufferSubData { buffer: u32, offset: isize, size: isize },
    DeleteBuffers { buffer: u32 },
}

/// The kinds of native object that the renderer owns.
#[derive(Clone, Copy, Debug, PartialEq, Eq)]
pub enum HandleKind {
    Shader,
    Program,
    Texture,
    VertexArray,
    Buffer,
}

/// A native object: its kind and the name the driver gave it.
#[derive(Clone, Copy, Debug, PartialEq, Eq)]
pub struct Handle {
    pub kind: HandleKind,
    pub id: u32,
}

impl Handle {
    /// The one native call that deletes this object.
    pub open spec fn release_call(self) -> GlCall {
        match self.kind {
            HandleKind::Shader => GlCall::DeleteShader { shader: self.id },
            HandleKind::Program => GlCall::DeleteProgram { program: self.id },
            HandleKind::Texture => GlCall::DeleteTextures { texture: self.id },
            HandleKind::VertexArray => GlCall::DeleteVertexArrays { array: self.id },
            HandleKind::Buffer => GlCall::DeleteBuffers { buffer: self.id },
        }
    }
}

impl GlCall {
    /// The object that this call deletes, if it is a delete call.
    pub open spec fn deletes(self) -> Option<Handle> {
        match self {
            GlCall::DeleteShader { shader } => Some(Handle { kind: HandleKind::Shader, id: shader }),
            GlCall::DeleteProgram { program } => Some(
                Handle { kind: HandleKind::Program, id: program },
            ),
            GlCall::DeleteTextures { texture } => Some(
                Handle { kind: HandleKind::Texture, id: texture },
            ),
            GlCall::DeleteVertexArrays { array } => Some(
                Handle { kind: HandleKind::VertexArray, id: array },
            ),
            GlCall::DeleteBuffers { buffer } => Some(Handle { kind: HandleKind::Buffer, id: buffer }),
            _ => None,
        }
    }
}

/// Deleting is matched to the kind: the call that releases an object
/// deletes that object and nothing else.
pub proof fn lemma_release_call_deletes(h: Handle)
    ensures
        h.release_call().deletes() == Some(h),
{
}

} // verus!
