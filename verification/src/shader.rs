//! Shader objects: compiling source text into a shader handle.

use crate::error::{RenderError, RenderErrorView};
use crate::gl;
use crate::gl::{GlCall, Handle, HandleKind};
use crate::protocol::{
    deletes_nothing, no_calls, plain, plain_script, push_plain, push_with_data, release_script,
    single, Command, CommandView, Event, EventView, Progress, ProgressView, Request, RequestView,
};
use crate::text::{append_decimal, decimal};
use vstd::prelude::*;
use vstd::string::*;
use vstd::utf8::encode_utf8;

verus! {

/// The two programmable stages that the renderer uses.
#[allow(non_camel_case_types)]
#[derive(Clone, Copy, Debug, PartialEq, Eq)]
pub enum ShaderType {
    FRAGMENT,
    VERTEX,
}

impl ShaderType {
    /// The native constant that names the stage.
    pub open spec fn spec_native(self) -> u32 {
        match self {
            ShaderType::FRAGMENT => gl::FRAGMENT_SHADER,
            ShaderType::VERTEX => gl::VERTEX_SHADER,
        }
    }

    /// The native constant that names the stage. This is the one place where
    /// the stages are mapped to the driver's numbers.
    #[verifier::when_used_as_spec(spec_native)]
    pub fn native(self) -> (stage: u32)
        ensures
            stage == self.spec_native(),
    {
        match self {
            ShaderType::FRAGMENT => gl::FRAGMENT_SHADER,
            ShaderType::VERTEX => gl::VERTEX_SHADER,
        }
    }
}

/// A compiled shader object.
#[derive(Debug, PartialEq, Eq)]
pub struct Shader {
    pub handle: u32,
    pub shader_type: ShaderType,
    /// Whether the native object has been deleted.
    pub released: bool,
}

impl DeepView for Shader {
    type V = Shader;

    open spec fn deep_view(&self) -> Shader {
        *self
    }
}

/// Where the compilation of a shader stands.
#[derive(Clone, Copy, Debug, PartialEq, Eq)]
pub enum ShaderPhase {
    /// Asked for a shader object; waits for its name.
    Creating,
    /// Asked for the source file; waits for its text.
    Reading { handle: u32 },
    /// Handed the source to the compiler; waits for the compile status.
    Compiling { handle: u32 },
    /// The compiler failed; waits for the length of its log.
    LogLength { handle: u32 },
    /// Waits for the compiler's log.
    ReadingLog { handle: u32 },
}

/// The machine that compiles one shader.
#[derive(Debug)]
pub struct ShaderBuild {
    pub stage: ShaderType,
    pub source_file: String,
    pub phase: ShaderPhase,
}

/// The mathematical content of a [`ShaderBuild`].
pub struct ShaderBuildView {
    pub stage: ShaderType,
    pub source_file: Seq<char>,
    pub phase: ShaderPhase,
}

impl DeepView for ShaderBuild {
    type V = ShaderBuildView;

    open spec fn deep_view(&self) -> ShaderBuildView {
        ShaderBuildView { stage: self.stage, source_file: self.source_file@, phase: self.phase }
    }
}

/// The batch that hands a source text to the compiler and asks how it went.
pub open spec fn compile_script(handle: u32, source: Seq<u8>) -> Seq<CommandView> {
    seq![
        CommandView { call: GlCall::ShaderSource { shader: handle }, data: source },
        plain(GlCall::CompileShader { shader: handle }),
        plain(GlCall::GetShaderiv { shader: handle, pname: gl::COMPILE_STATUS }),
    ]
}

impl ShaderBuildView {
    /// The objects that the machine holds in this state.
    pub open spec fn owned(self) -> Seq<Handle> {
        match self.phase {
            ShaderPhase::Creating => Seq::empty(),
            ShaderPhase::Reading { handle } => seq![Handle { kind: HandleKind::Shader, id: handle }],
            ShaderPhase::Compiling { handle } => seq![
                Handle { kind: HandleKind::Shader, id: handle },
            ],
            ShaderPhase::LogLength { handle } => seq![
                Handle { kind: HandleKind::Shader, id: handle },
            ],
            ShaderPhase::ReadingLog { handle } => seq![
                Handle { kind: HandleKind::Shader, id: handle },
            ],
        }
    }

    /// The objects that the event hands to the machine in this state.
    pub open spec fn gains(self, event: EventView) -> Seq<Handle> {
        match self.phase {
            ShaderPhase::Creating => seq![Handle { kind: HandleKind::Shader, id: event.id() }],
            _ => Seq::empty(),
        }
    }

    /// The machine in another phase.
    pub open spec fn at(self, phase: ShaderPhase) -> ShaderBuildView {
        ShaderBuildView { phase, ..self }
    }

    /// The first state.
    pub open spec fn initial(stage: ShaderType, source_file: Seq<char>) -> ShaderBuildView {
        ShaderBuildView { stage, source_file, phase: ShaderPhase::Creating }
    }

    /// The request that goes with the first state.
    pub open spec fn first_request(stage: ShaderType) -> RequestView {
        RequestView::Gl(plain_script(seq![GlCall::CreateShader { stage: stage.spec_native() }]))
    }

    /// The first state, and the request that goes with it.
    pub open spec fn start(stage: ShaderType, source_file: Seq<char>) -> ProgressView<
        ShaderBuildView,
        Shader,
    > {
        ProgressView::Pending(Self::initial(stage, source_file), Self::first_request(stage))
    }

    /// What the machine does with an event.
    ///
    /// The compiler's verdict is its status alone: anything but `TRUE` is a
    /// failure, and the error then carries the driver's own log (empty where
    /// the driver reports a log of at most the terminating NUL). Every
    /// failure deletes the shader object.
    pub open spec fn step(self, event: EventView) -> ProgressView<ShaderBuildView, Shader> {
        match self.phase {
            ShaderPhase::Creating => ProgressView::Pending(
                self.at(ShaderPhase::Reading { handle: event.id() }),
                RequestView::ReadText(self.source_file),
            ),
            ShaderPhase::Reading { handle } => match event.text() {
                None => ProgressView::Failed(
                    RenderErrorView::ShaderReadError { stage: self.stage },
                    plain_script(seq![GlCall::DeleteShader { shader: handle }]),
                ),
                Some(text) => if encode_utf8(text).contains(0u8) {
                    ProgressView::Failed(
                        RenderErrorView::ShaderSourceError { stage: self.stage },
                        plain_script(seq![GlCall::DeleteShader { shader: handle }]),
                    )
                } else {
                    ProgressView::Pending(
                        self.at(ShaderPhase::Compiling { handle }),
                        RequestView::Gl(compile_script(handle, encode_utf8(text))),
                    )
                },
            },
            ShaderPhase::Compiling { handle } => if event.value() == gl::TRUE {
                ProgressView::Ready(
                    Shader { handle, shader_type: self.stage, released: false },
                    Seq::empty(),
                )
            } else {
                ProgressView::Pending(
                    self.at(ShaderPhase::LogLength { handle }),
                    RequestView::Gl(
                        plain_script(
                            seq![GlCall::GetShaderiv { shader: handle, pname: gl::INFO_LOG_LENGTH }],
                        ),
                    ),
                )
            },
            ShaderPhase::LogLength { handle } => if event.value() <= 1 {
                ProgressView::Failed(
                    RenderErrorView::ShaderCompileError { stage: self.stage, log: Seq::empty() },
                    plain_script(seq![GlCall::DeleteShader { shader: handle }]),
                )
            } else {
                ProgressView::Pending(
                    self.at(ShaderPhase::ReadingLog { handle }),
                    RequestView::Gl(
                        plain_script(
                            seq![
                                GlCall::GetShaderInfoLog { shader: handle, capacity: event.value() },
                            ],
                        ),
                    ),
                )
            },
            ShaderPhase::ReadingLog { handle } => ProgressView::Failed(
                RenderErrorView::ShaderCompileError { stage: self.stage, log: event.log() },
                plain_script(seq![GlCall::DeleteShader { shader: handle }]),
            ),
        }
    }
}

/// Whether a byte string holds a NUL byte.
pub fn contains_nul(bytes: &Vec<u8>) -> (found: bool)
    ensures
        found == bytes@.contains(0u8),
{
    let mut i: usize = 0;
    while i < bytes.len()
        invariant
            i <= bytes.len(),
            forall|j: int| 0 <= j < i ==> bytes@[j] != 0u8,
        decreases bytes.len() - i,
    {
        if bytes[i] == 0 {
            return true;
        }
        i += 1;
    }
    false
}

impl Shader {
    /// The object that this handle stands for, while it is not released.
    pub open spec fn owned(self) -> Seq<Handle> {
        if self.released {
            Seq::empty()
        } else {
            seq![Handle { kind: HandleKind::Shader, id: self.handle }]
        }
    }

    /// Starts to compile the shader of the given stage from the given file.
    pub fn new(shader_type: ShaderType, source_file: &str) -> (progress: Progress<
        ShaderBuild,
        Shader,
    >)
        ensures
            progress.deep_view() == ShaderBuildView::start(shader_type, source_file@),
    {
        let (machine, request) = ShaderBuild::begin(shader_type, source_file);
        Progress::Pending(machine, request)
    }

    /// The shader in words: its stage and its name.
    pub open spec fn description(self) -> Seq<char> {
        match self.shader_type {
            ShaderType::FRAGMENT => "fragment shader #"@ + decimal(self.handle as nat),
            ShaderType::VERTEX => "vertex shader #"@ + decimal(self.handle as nat),
        }
    }

    /// The shader in words: its stage and its name.
    pub fn to_string(&self) -> (text: String)
        ensures
            text@ == self.description(),
    {
        let mut text = match self.shader_type {
            ShaderType::FRAGMENT => String::from_str("fragment shader #"),
            ShaderType::VERTEX => String::from_str("vertex shader #"),
        };
        append_decimal(&mut text, self.handle);
        text
    }

    /// Deletes the native object, once: the first call returns the delete
    /// call, every later one returns nothing.
    pub fn dispose(&mut self) -> (calls: Vec<Command>)
        ensures
            calls.deep_view() == release_script(old(self).owned()),
            old(self).released ==> calls@.len() == 0,
            final(self).released,
            final(self).handle == old(self).handle,
            final(self).shader_type == old(self).shader_type,
    {
        if self.released {
            let calls = no_calls();
            assert(calls.deep_view() =~= release_script(old(self).owned()));
            calls
        } else {
            self.released = true;
            let calls = single(GlCall::DeleteShader { shader: self.handle });
            assert(calls.deep_view() =~= release_script(old(self).owned()));
            calls
        }
    }
}

impl ShaderBuild {
    /// The machine in its first state, and the request that goes with it.
    pub fn begin(stage: ShaderType, source_file: &str) -> (start: (ShaderBuild, Request))
        ensures
            start.0.deep_view() == ShaderBuildView::initial(stage, source_file@),
            start.1.deep_view() == ShaderBuildView::first_request(stage),
    {
        (
            ShaderBuild { stage, source_file: source_file.to_owned(), phase: ShaderPhase::Creating },
            Request::Gl(single(GlCall::CreateShader { stage: stage.native() })),
        )
    }

    /// The batch that deletes the shader object and nothing else.
    fn delete(handle: u32) -> (calls: Vec<Command>)
        ensures
            calls.deep_view() == plain_script(seq![GlCall::DeleteShader { shader: handle }]),
    {
        single(GlCall::DeleteShader { shader: handle })
    }

    /// Breaks the build off between two steps: the calls that give back
    /// what the machine holds.
    pub fn abandon(self) -> (calls: Vec<Command>)
        ensures
            calls.deep_view() == release_script(self.deep_view().owned()),
    {
        let calls = match self.phase {
            ShaderPhase::Creating => no_calls(),
            ShaderPhase::Reading { handle } => Self::delete(handle),
            ShaderPhase::Compiling { handle } => Self::delete(handle),
            ShaderPhase::LogLength { handle } => Self::delete(handle),
            ShaderPhase::ReadingLog { handle } => Self::delete(handle),
        };
        assert(calls.deep_view() =~= release_script(self.deep_view().owned()));
        calls
    }

    /// Takes what the host handed back and decides how to go on.
    pub fn advance(self, event: Event) -> (progress: Progress<ShaderBuild, Shader>)
        ensures
            progress.deep_view() == self.deep_view().step(event.deep_view()),
    {
        let stage = self.stage;
        match self.phase {
            ShaderPhase::Creating => {
                let handle = event.id();
                let path = self.source_file.clone();
                Progress::Pending(
                    ShaderBuild {
                        stage,
                        source_file: self.source_file,
                        phase: ShaderPhase::Reading { handle },
                    },
                    Request::ReadText(path),
                )
            },
            ShaderPhase::Reading { handle } => {
                match event.into_text() {
                    None => Progress::Failed(
                        RenderError::ShaderReadError { stage },
                        Self::delete(handle),
                    ),
                    Some(text) => {
                        let source = text.as_str().as_bytes_vec();
                        if contains_nul(&source) {
                            Progress::Failed(
                                RenderError::ShaderSourceError { stage },
                                Self::delete(handle),
                            )
                        } else {
                            let mut calls = no_calls();
                            push_with_data(
                                &mut calls,
                                GlCall::ShaderSource { shader: handle },
                                source,
                            );
                            push_plain(&mut calls, GlCall::CompileShader { shader: handle });
                            push_plain(
                                &mut calls,
                                GlCall::GetShaderiv { shader: handle, pname: gl::COMPILE_STATUS },
                            );
                            assert(calls.deep_view() =~= compile_script(handle, source@));
                            Progress::Pending(
                                ShaderBuild {
                                    stage,
                                    source_file: self.source_file,
                                    phase: ShaderPhase::Compiling { handle },
                                },
                                Request::Gl(calls),
                            )
                        }
                    },
                }
            },
            ShaderPhase::Compiling { handle } => {
                if event.value() == gl::TRUE {
                    Progress::Ready(Shader { handle, shader_type: stage, released: false }, no_calls())
                } else {
                    Progress::Pending(
                        ShaderBuild {
                            stage,
                            source_file: self.source_file,
                            phase: ShaderPhase::LogLength { handle },
                        },
                        Request::Gl(
                            single(GlCall::GetShaderiv { shader: handle, pname: gl::INFO_LOG_LENGTH }),
                        ),
                    )
                }
            },
            ShaderPhase::LogLength { handle } => {
                let capacity = event.value();
                if capacity <= 1 {
                    Progress::Failed(
                        RenderError::ShaderCompileError { stage, log: String::new() },
                        Self::delete(handle),
                    )
                } else {
                    Progress::Pending(
                        ShaderBuild {
                            stage,
                            source_file: self.source_file,
                            phase: ShaderPhase::ReadingLog { handle },
                        },
                        Request::Gl(single(GlCall::GetShaderInfoLog { shader: handle, capacity })),
                    )
                }
            },
            ShaderPhase::ReadingLog { handle } => {
                Progress::Failed(
                    RenderError::ShaderCompileError { stage, log: event.into_log() },
                    Self::delete(handle),
                )
            },
        }
    }
}

/// Nothing leaks from a shader build. While the machine goes on, and when it
/// hands out the shader, it holds exactly what it held before and what the
/// event brought, and deletes nothing. When it gives up, its last batch
/// deletes exactly that, each object once.
pub proof fn lemma_shader_step_keeps_ledger(machine: ShaderBuildView, event: EventView)
    ensures
        match machine.step(event) {
            ProgressView::Pending(next, request) => next.owned() == machine.owned()
                + machine.gains(event) && request.deletes_nothing(),
            ProgressView::Ready(shader, calls) => shader.owned() == machine.owned() + machine.gains(
                event,
            ) && deletes_nothing(calls),
            ProgressView::Failed(_, calls) => calls == release_script(
                machine.owned() + machine.gains(event),
            ),
        },
{
    match machine.step(event) {
        ProgressView::Pending(next, request) => {
            assert(next.owned() =~= machine.owned() + machine.gains(event));
        },
        ProgressView::Ready(shader, calls) => {
            assert(shader.owned() =~= machine.owned() + machine.gains(event));
        },
        ProgressView::Failed(_, calls) => {
            assert(calls =~= release_script(machine.owned() + machine.gains(event)));
        },
    }
}

} // verus!
