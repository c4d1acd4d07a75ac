//! Program objects: linking two shaders into a program handle.

use crate::error::{RenderError, RenderErrorView};
use crate::gl;
use crate::gl::{GlCall, Handle, HandleKind};
use crate::protocol::{
    deletes_nothing, no_calls, plain, plain_script, push_plain, release_script, single, Command,
    CommandView, Event, EventView, Progress, ProgressView, Request, RequestView,
};
use crate::shader::Shader;
use crate::text::{append_decimal, decimal};
use vstd::string::*;
use vstd::prelude::*;

verus! {

/// A linked program object.
#[derive(Debug, PartialEq, Eq)]
pub struct Program {
    pub handle: u32,
    /// Whether the native object has been deleted.
    pub released: bool,
}

impl DeepView for Program {
    type V = Program;

    open spec fn deep_view(&self) -> Program {
        *self
    }
}

/// Where the linking of a program stands.
#[derive(Clone, Copy, Debug, PartialEq, Eq)]
pub enum ProgramPhase {
    /// Asked for a program object; waits for its name.
    Creating,
    /// Attached both shaders and linked; waits for the link status.
    Linking { handle: u32 },
    /// The linker failed; waits for the length of its log.
    LogLength { handle: u32 },
    /// Waits for the linker's log.
    ReadingLog { handle: u32 },
}

/// The machine that links one program from a vertex and a fragment shader.
/// It borrows the shaders' names and never deletes them.
#[derive(Clone, Copy, Debug, PartialEq, Eq)]
pub struct ProgramBuild {
    pub vertex: u32,
    pub fragment: u32,
    pub phase: ProgramPhase,
}

impl DeepView for ProgramBuild {
    type V = ProgramBuild;

    open spec fn deep_view(&self) -> ProgramBuild {
        *self
    }
}

/// The batch that attaches both shaders, links, and asks how it went.
pub open spec fn link_script(program: u32, vertex: u32, fragment: u32) -> Seq<CommandView> {
    plain_script(
        seq![
            GlCall::AttachShader { program, shader: vertex },
            GlCall::AttachShader { program, shader: fragment },
            GlCall::LinkProgram { program },
            GlCall::GetProgramiv { program, pname: gl::LINK_STATUS },
        ],
    )
}

impl ProgramBuild {
    /// The objects that the machine holds in this state.
    pub open spec fn owned(self) -> Seq<Handle> {
        match self.phase {
            ProgramPhase::Creating => Seq::empty(),
            ProgramPhase::Linking { handle } => seq![
                Handle { kind: HandleKind::Program, id: handle },
            ],
            ProgramPhase::LogLength { handle } => seq![
                Handle { kind: HandleKind::Program, id: handle },
            ],
            ProgramPhase::ReadingLog { handle } => seq![
                Handle { kind: HandleKind::Program, id: handle },
            ],
        }
    }

    /// The objects that the event hands to the machine in this state. The
    /// name zero is no object.
    pub open spec fn gains(self, event: EventView) -> Seq<Handle> {
        match self.phase {
            ProgramPhase::Creating => if event.id() == 0 {
                Seq::empty()
            } else {
                seq![Handle { kind: HandleKind::Program, id: event.id() }]
            },
            _ => Seq::empty(),
        }
    }

    /// The machine in another phase.
    pub open spec fn at(self, phase: ProgramPhase) -> ProgramBuild {
        ProgramBuild { phase, ..self }
    }

    /// The first state.
    pub open spec fn initial(vertex: u32, fragment: u32) -> ProgramBuild {
        ProgramBuild { vertex, fragment, phase: ProgramPhase::Creating }
    }

    /// The request that goes with the first state.
    pub open spec fn first_request() -> RequestView {
        RequestView::Gl(plain_script(seq![GlCall::CreateProgram]))
    }

    /// The first state, and the request that goes with it.
    pub open spec fn start(vertex: u32, fragment: u32) -> ProgressView<ProgramBuild, Program> {
        ProgressView::Pending(Self::initial(vertex, fragment), Self::first_request())
    }

    /// The machine in its first state, and the request that goes with it.
    pub fn begin(vertex_shader: &Shader, fragment_shader: &Shader) -> (start: (
        ProgramBuild,
        Request,
    ))
        ensures
            start.0 == Self::initial(vertex_shader.handle, fragment_shader.handle),
            start.1.deep_view() == Self::first_request(),
    {
        (
            ProgramBuild {
                vertex: vertex_shader.handle,
                fragment: fragment_shader.handle,
                phase: ProgramPhase::Creating,
            },
            Request::Gl(single(GlCall::CreateProgram)),
        )
    }

    /// What the machine does with an event.
    ///
    /// A program named zero was not created. The linker's verdict is its
    /// status alone: anything but `TRUE` is a failure, and the error then
    /// carries the driver's own log. A failed link deletes the program
    /// object; the shaders stay with their owner either way.
    pub open spec fn step(self, event: EventView) -> ProgressView<ProgramBuild, Program> {
        match self.phase {
            ProgramPhase::Creating => if event.id() == 0 {
                ProgressView::Failed(RenderErrorView::ProgramCreateError, Seq::empty())
            } else {
                ProgressView::Pending(
                    self.at(ProgramPhase::Linking { handle: event.id() }),
                    RequestView::Gl(link_script(event.id(), self.vertex, self.fragment)),
                )
            },
            ProgramPhase::Linking { handle } => if event.value() == gl::TRUE {
                ProgressView::Ready(Program { handle, released: false }, Seq::empty())
            } else {
                ProgressView::Pending(
                    self.at(ProgramPhase::LogLength { handle }),
                    RequestView::Gl(
                        plain_script(
                            seq![
                                GlCall::GetProgramiv { program: handle, pname: gl::INFO_LOG_LENGTH },
                            ],
                        ),
                    ),
                )
            },
            ProgramPhase::LogLength { handle } => if event.value() <= 1 {
                ProgressView::Failed(
                    RenderErrorView::ProgramLinkError { log: Seq::empty() },
                    plain_script(seq![GlCall::DeleteProgram { program: handle }]),
                )
            } else {
                ProgressView::Pending(
                    self.at(ProgramPhase::ReadingLog { handle }),
                    RequestView::Gl(
                        plain_script(
                            seq![
                                GlCall::GetProgramInfoLog {
                                    program: handle,
                                    capacity: event.value(),
                                },
                            ],
                        ),
                    ),
                )
            },
            ProgramPhase::ReadingLog { handle } => ProgressView::Failed(
                RenderErrorView::ProgramLinkError { log: event.log() },
                plain_script(seq![GlCall::DeleteProgram { program: handle }]),
            ),
        }
    }

    /// Breaks the build off between two steps: the calls that give back
    /// what the machine holds.
    pub fn abandon(self) -> (calls: Vec<Command>)
        ensures
            calls.deep_view() == release_script(self.owned()),
    {
        let calls = match self.phase {
            ProgramPhase::Creating => no_calls(),
            ProgramPhase::Linking { handle } => single(GlCall::DeleteProgram { program: handle }),
            ProgramPhase::LogLength { handle } => single(GlCall::DeleteProgram { program: handle }),
            ProgramPhase::ReadingLog { handle } => single(
                GlCall::DeleteProgram { program: handle },
            ),
        };
        assert(calls.deep_view() =~= release_script(self.owned()));
        calls
    }

    /// Takes what the host handed back and decides how to go on.
    pub fn advance(self, event: Event) -> (progress: Progress<ProgramBuild, Program>)
        ensures
            progress.deep_view() == self.step(event.deep_view()),
    {
        let vertex = self.vertex;
        let fragment = self.fragment;
        match self.phase {
            ProgramPhase::Creating => {
                let program = event.id();
                if program == 0 {
                    Progress::Failed(RenderError::ProgramCreateError, no_calls())
                } else {
                    let mut calls = no_calls();
                    push_plain(&mut calls, GlCall::AttachShader { program, shader: vertex });
                    push_plain(&mut calls, GlCall::AttachShader { program, shader: fragment });
                    push_plain(&mut calls, GlCall::LinkProgram { program });
                    push_plain(&mut calls, GlCall::GetProgramiv { program, pname: gl::LINK_STATUS });
                    assert(calls.deep_view() =~= link_script(program, vertex, fragment));
                    Progress::Pending(
                        ProgramBuild {
                            vertex,
                            fragment,
                            phase: ProgramPhase::Linking { handle: program },
                        },
                        Request::Gl(calls),
                    )
                }
            },
            ProgramPhase::Linking { handle } => {
                if event.value() == gl::TRUE {
                    Progress::Ready(Program { handle, released: false }, no_calls())
                } else {
                    Progress::Pending(
                        ProgramBuild { vertex, fragment, phase: ProgramPhase::LogLength { handle } },
                        Request::Gl(
                            single(
                                GlCall::GetProgramiv { program: handle, pname: gl::INFO_LOG_LENGTH },
                            ),
                        ),
                    )
                }
            },
            ProgramPhase::LogLength { handle } => {
                let capacity = event.value();
                if capacity <= 1 {
                    Progress::Failed(
                        RenderError::ProgramLinkError { log: String::new() },
                        single(GlCall::DeleteProgram { program: handle }),
                    )
                } else {
                    Progress::Pending(
                        ProgramBuild { vertex, fragment, phase: ProgramPhase::ReadingLog { handle } },
                        Request::Gl(single(GlCall::GetProgramInfoLog { program: handle, capacity })),
                    )
                }
            },
            ProgramPhase::ReadingLog { handle } => {
                Progress::Failed(
                    RenderError::ProgramLinkError { log: event.into_log() },
                    single(GlCall::DeleteProgram { program: handle }),
                )
            },
        }
    }
}

impl Program {
    /// The object that this handle stands for, while it is not released.
    pub open spec fn owned(self) -> Seq<Handle> {
        if self.released {
            Seq::empty()
        } else {
            seq![Handle { kind: HandleKind::Program, id: self.handle }]
        }
    }

    /// Starts to link a program from the two shaders.
    pub fn new(vertex_shader: &Shader, fragment_shader: &Shader) -> (progress: Progress<
        ProgramBuild,
        Program,
    >)
        ensures
            progress.deep_view() == ProgramBuild::start(
                vertex_shader.handle,
                fragment_shader.handle,
            ),
    {
        let (machine, request) = ProgramBuild::begin(vertex_shader, fragment_shader);
        Progress::Pending(machine, request)
    }

    /// The call that makes the program the active one for the draw calls
    /// that follow.
    pub fn use_program(&self) -> (command: Command)
        ensures
            command.deep_view() == plain(GlCall::UseProgram { program: self.handle }),
    {
        Command::plain(GlCall::UseProgram { program: self.handle })
    }

    /// The program in words.
    pub open spec fn description(self) -> Seq<char> {
        "program #"@ + decimal(self.handle as nat)
    }

    /// The program in words.
    pub fn to_string(&self) -> (text: String)
        ensures
            text@ == self.description(),
    {
        let mut text = String::from_str("program #");
        append_decimal(&mut text, self.handle);
        text
    }

    /// Deletes the native object, once: the first call returns the delete
    /// call, every later one returns nothing.
    pub fn dispose(&mut self) -> (calls: Vec<Command>)
        ensures
            calls.deep_view() == release_script(old(self).owned()),
            old(self).released ==> calls@.len() == 0,
            final(self).released,
            final(self).handle == old(self).handle,
    {
        if self.released {
            let calls = no_calls();
            assert(calls.deep_view() =~= release_script(old(self).owned()));
            calls
        } else {
            self.released = true;
            let calls = single(GlCall::DeleteProgram { program: self.handle });
            assert(calls.deep_view() =~= release_script(old(self).owned()));
            calls
        }
    }
}

/// Nothing leaks from a program build. While the machine goes on, and when
/// it hands out the program, it holds exactly what it held before and what
/// the event brought, and deletes nothing. When it gives up, its last batch
/// deletes exactly that, each object once.
pub proof fn lemma_program_step_keeps_ledger(machine: ProgramBuild, event: EventView)
    ensures
        match machine.step(event) {
            ProgressView::Pending(next, request) => next.owned() == machine.owned()
                + machine.gains(event) && request.deletes_nothing(),
            ProgressView::Ready(program, calls) => program.owned() == machine.owned()
                + machine.gains(event) && deletes_nothing(calls),
            ProgressView::Failed(_, calls) => calls == release_script(
                machine.owned() + machine.gains(event),
            ),
        },
{
    match machine.step(event) {
        ProgressView::Pending(next, request) => {
            assert(next.owned() =~= machine.owned() + machine.gains(event));
        },
        ProgressView::Ready(program, calls) => {
            assert(program.owned() =~= machine.owned() + machine.gains(event));
        },
        ProgressView::Failed(_, calls) => {
            assert(calls =~= release_script(machine.owned() + machine.gains(event)));
        },
    }
}

} // verus!
