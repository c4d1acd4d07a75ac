//! The initialisation of the renderer: all of its objects, or none.

use crate::gl;
use crate::gl::{GlCall, Handle};
use crate::program::{lemma_program_step_keeps_ledger, Program, ProgramBuild};
use crate::protocol::{
    append, deletes_nothing, lemma_release_script_concat, no_calls, plain_script, prepend,
    prepended, push_command, push_plain, release_script, Command, CommandView, Event, EventView,
    Progress, ProgressView, Request, RequestView,
};
use crate::renderer::{DrawConfig, PerFrameData, Renderer, RendererView, MINUS_ONE, ONE};
use crate::shader::{
    lemma_shader_step_keeps_ledger, Shader, ShaderBuild, ShaderBuildView, ShaderType,
};
use crate::texture::{lemma_texture_step_keeps_ledger, Texture, TextureBuild, TextureBuildView};
use crate::vertex_array_objects::{
    lemma_vertex_array_step_keeps_ledger, VertexArrayBuild, VertexArrayObjects,
};
use crate::vertex_buffer_objects::{
    lemma_buffer_step_keeps_ledger, BufferBuild, BufferBuildView, ByteOrder,
};
use vstd::prelude::*;

verus! {

/// What a renderer is set up with.
#[derive(Clone, Copy, Debug, PartialEq, Eq)]
pub struct ApplicationConfig {
    /// Whether the driver's debug messages are asked for.
    pub diagnostics: bool,
    /// The byte order of the host, in which the per-frame record is laid
    /// out.
    pub byte_order: ByteOrder,
    /// Whether every frame gets a wireframe pass over the filled one.
    pub wireframe_overlay: bool,
}

/// The machine that initialises a renderer. Each state names the step that
/// is under way and holds what the steps before it have made.
#[derive(Debug)]
pub enum RendererBuild {
    VertexShader { config: ApplicationConfig, build: ShaderBuild },
    FragmentShader { config: ApplicationConfig, vertex_shader: Shader, build: ShaderBuild },
    Linking {
        config: ApplicationConfig,
        vertex_shader: Shader,
        fragment_shader: Shader,
        build: ProgramBuild,
    },
    Texturing {
        config: ApplicationConfig,
        vertex_shader: Shader,
        fragment_shader: Shader,
        program: Program,
        build: TextureBuild,
    },
    VertexArray {
        config: ApplicationConfig,
        vertex_shader: Shader,
        fragment_shader: Shader,
        program: Program,
        texture: Texture,
        build: VertexArrayBuild,
    },
    Buffer {
        config: ApplicationConfig,
        vertex_shader: Shader,
        fragment_shader: Shader,
        program: Program,
        texture: Texture,
        vertex_array_object: VertexArrayObjects,
        build: BufferBuild<PerFrameData>,
    },
}

/// The mathematical content of a [`RendererBuild`].
pub enum RendererBuildView {
    VertexShader { config: ApplicationConfig, build: ShaderBuildView },
    FragmentShader { config: ApplicationConfig, vertex_shader: Shader, build: ShaderBuildView },
    Linking {
        config: ApplicationConfig,
        vertex_shader: Shader,
        fragment_shader: Shader,
        build: ProgramBuild,
    },
    Texturing {
        config: ApplicationConfig,
        vertex_shader: Shader,
        fragment_shader: Shader,
        program: Program,
        build: TextureBuildView,
    },
    VertexArray {
        config: ApplicationConfig,
        vertex_shader: Shader,
        fragment_shader: Shader,
        program: Program,
        texture: Texture,
        build: VertexArrayBuild,
    },
    Buffer {
        config: ApplicationConfig,
        vertex_shader: Shader,
        fragment_shader: Shader,
        program: Program,
        texture: Texture,
        vertex_array_object: VertexArrayObjects,
        build: BufferBuildView,
    },
}

impl DeepView for RendererBuild {
    type V = RendererBuildView;

    open spec fn deep_view(&self) -> RendererBuildView {
        match *self {
            RendererBuild::VertexShader { config, build } => RendererBuildView::VertexShader {
                config,
                build: build.deep_view(),
            },
            RendererBuild::FragmentShader {
                config,
                vertex_shader,
                build,
            } => RendererBuildView::FragmentShader {
                config,
                vertex_shader,
                build: build.deep_view(),
            },
            RendererBuild::Linking {
                config,
                vertex_shader,
                fragment_shader,
                build,
            } => RendererBuildView::Linking { config, vertex_shader, fragment_shader, build },
            RendererBuild::Texturing {
                config,
                vertex_shader,
                fragment_shader,
                program,
                build,
            } => RendererBuildView::Texturing {
                config,
                vertex_shader,
                fragment_shader,
                program,
                build: build.deep_view(),
            },
            RendererBuild::VertexArray {
                config,
                vertex_shader,
                fragment_shader,
                program,
                texture,
                build,
            } => RendererBuildView::VertexArray {
                config,
                vertex_shader,
                fragment_shader,
                program,
                texture,
                build,
            },
            RendererBuild::Buffer {
                config,
                vertex_shader,
                fragment_shader,
                program,
                texture,
                vertex_array_object,
                build,
            } => RendererBuildView::Buffer {
                config,
                vertex_shader,
                fragment_shader,
                program,
                texture,
                vertex_array_object,
                build: build.deep_view(),
            },
        }
    }
}

/// The calls that open the initialisation: the three strings that identify
/// the context are asked for, for the host to report, and with diagnostics
/// the driver's debug messages are switched on, synchronously.
pub open spec fn prelude_script(diagnostics: bool) -> Seq<CommandView> {
    let strings = seq![
        GlCall::GetString { name: gl::RENDERER },
        GlCall::GetString { name: gl::VERSION },
        GlCall::GetString { name: gl::SHADING_LANGUAGE_VERSION },
    ];
    if diagnostics {
        plain_script(
            strings + seq![
                GlCall::Enable { cap: gl::DEBUG_OUTPUT_SYNCHRONOUS },
                GlCall::DebugMessageCallback,
                GlCall::Enable { cap: gl::DEBUG_OUTPUT },
            ],
        )
    } else {
        plain_script(strings)
    }
}

impl RendererBuildView {
    /// The objects of the steps that are done, in the order in which they
    /// were created.
    pub open spec fn kept(self) -> Seq<Handle> {
        match self {
            RendererBuildView::VertexShader { .. } => Seq::empty(),
            RendererBuildView::FragmentShader { vertex_shader, .. } => vertex_shader.owned(),
            RendererBuildView::Linking { vertex_shader, fragment_shader, .. } => {
                vertex_shader.owned() + fragment_shader.owned()
            },
            RendererBuildView::Texturing { vertex_shader, fragment_shader, program, .. } => {
                vertex_shader.owned() + fragment_shader.owned() + program.owned()
            },
            RendererBuildView::VertexArray {
                vertex_shader,
                fragment_shader,
                program,
                texture,
                ..
            } => {
                vertex_shader.owned() + fragment_shader.owned() + program.owned() + texture.owned()
            },
            RendererBuildView::Buffer {
                vertex_shader,
                fragment_shader,
                program,
                texture,
                vertex_array_object,
                ..
            } => {
                vertex_shader.owned() + fragment_shader.owned() + program.owned() + texture.owned()
                    + vertex_array_object.owned()
            },
        }
    }

    /// What the steps that are done have made is still there, and the
    /// buffer under way is one for the per-frame record.
    pub open spec fn wf(self) -> bool {
        match self {
            RendererBuildView::VertexShader { .. } => true,
            RendererBuildView::FragmentShader { vertex_shader, .. } => !vertex_shader.released,
            RendererBuildView::Linking { vertex_shader, fragment_shader, .. } => {
                !vertex_shader.released && !fragment_shader.released
            },
            RendererBuildView::Texturing { vertex_shader, fragment_shader, program, .. } => {
                !vertex_shader.released && !fragment_shader.released && !program.released
            },
            RendererBuildView::VertexArray {
                vertex_shader,
                fragment_shader,
                program,
                texture,
                ..
            } => {
                !vertex_shader.released && !fragment_shader.released && !program.released
                    && !texture.released
            },
            RendererBuildView::Buffer {
                vertex_shader,
                fragment_shader,
                program,
                texture,
                vertex_array_object,
                build,
                ..
            } => {
                !vertex_shader.released && !fragment_shader.released && !program.released
                    && !texture.released && !vertex_array_object.released && build.memory_size
                    == 68
            },
        }
    }

    /// The objects that the machine holds in this state: those of the steps
    /// that are done, then those of the step under way.
    pub open spec fn owned(self) -> Seq<Handle> {
        self.kept() + match self {
            RendererBuildView::VertexShader { build, .. } => build.owned(),
            RendererBuildView::FragmentShader { build, .. } => build.owned(),
            RendererBuildView::Linking { build, .. } => build.owned(),
            RendererBuildView::Texturing { build, .. } => build.owned(),
            RendererBuildView::VertexArray { build, .. } => build.owned(),
            RendererBuildView::Buffer { build, .. } => build.owned(),
        }
    }

    /// The objects that the event hands to the machine in this state.
    pub open spec fn gains(self, event: EventView) -> Seq<Handle> {
        match self {
            RendererBuildView::VertexShader { build, .. } => build.gains(event),
            RendererBuildView::FragmentShader { build, .. } => build.gains(event),
            RendererBuildView::Linking { build, .. } => build.gains(event),
            RendererBuildView::Texturing { build, .. } => build.gains(event),
            RendererBuildView::VertexArray { build, .. } => build.gains(event),
            RendererBuildView::Buffer { build, .. } => build.gains(event),
        }
    }

    /// The first state.
    pub open spec fn initial(config: ApplicationConfig) -> RendererBuildView {
        RendererBuildView::VertexShader {
            config,
            build: ShaderBuildView::initial(ShaderType::VERTEX, "shaders/vertex_tex.glsl"@),
        }
    }

    /// The request that goes with the first state: the opening calls, then
    /// the first request of the vertex shader.
    pub open spec fn first_request(config: ApplicationConfig) -> RequestView {
        prepended(
            prelude_script(config.diagnostics),
            ShaderBuildView::first_request(ShaderType::VERTEX),
        )
    }

    /// The first state, and the request that goes with it.
    pub open spec fn start(config: ApplicationConfig) -> ProgressView<
        RendererBuildView,
        RendererView,
    > {
        ProgressView::Pending(Self::initial(config), Self::first_request(config))
    }

    /// What the machine does with an event.
    ///
    /// The event goes to the step under way. While that step goes on, so
    /// does the machine. When it is done, what it made is kept and the next
    /// step begins, in this order: vertex shader, fragment shader, program,
    /// texture, vertex array, per-frame buffer; after the last, the renderer
    /// is ready and its objects are made the active state. When a step gives
    /// up, the machine gives up with the same error, and after the step's
    /// own cleanup everything that was kept is given back, last made first.
    pub open spec fn step(self, event: EventView) -> ProgressView<RendererBuildView, RendererView> {
        match self {
            RendererBuildView::VertexShader { config, build } => match build.step(event) {
                ProgressView::Pending(next, request) => ProgressView::Pending(
                    RendererBuildView::VertexShader { config, build: next },
                    request,
                ),
                ProgressView::Ready(vertex_shader, calls) => ProgressView::Pending(
                    RendererBuildView::FragmentShader {
                        config,
                        vertex_shader,
                        build: ShaderBuildView::initial(
                            ShaderType::FRAGMENT,
                            "shaders/fragment_tex.glsl"@,
                        ),
                    },
                    prepended(calls, ShaderBuildView::first_request(ShaderType::FRAGMENT)),
                ),
                ProgressView::Failed(error, cleanup) => ProgressView::Failed(
                    error,
                    cleanup + release_script(self.kept()),
                ),
            },
            RendererBuildView::FragmentShader { config, vertex_shader, build } => match build.step(
                event,
            ) {
                ProgressView::Pending(next, request) => ProgressView::Pending(
                    RendererBuildView::FragmentShader { config, vertex_shader, build: next },
                    request,
                ),
                ProgressView::Ready(fragment_shader, calls) => ProgressView::Pending(
                    RendererBuildView::Linking {
                        config,
                        vertex_shader,
                        fragment_shader,
                        build: ProgramBuild::initial(vertex_shader.handle, fragment_shader.handle),
                    },
                    prepended(calls, ProgramBuild::first_request()),
                ),
                ProgressView::Failed(error, cleanup) => ProgressView::Failed(
                    error,
                    cleanup + release_script(self.kept()),
                ),
            },
            RendererBuildView::Linking {
                config,
                vertex_shader,
                fragment_shader,
                build,
            } => match build.step(event) {
                ProgressView::Pending(next, request) => ProgressView::Pending(
                    RendererBuildView::Linking {
                        config,
                        vertex_shader,
                        fragment_shader,
                        build: next,
                    },
                    request,
                ),
                ProgressView::Ready(program, calls) => ProgressView::Pending(
                    RendererBuildView::Texturing {
                        config,
                        vertex_shader,
                        fragment_shader,
                        program,
                        build: TextureBuildView::initial("textures/stone.png"@),
                    },
                    prepended(calls, TextureBuildView::first_request("textures/stone.png"@)),
                ),
                ProgressView::Failed(error, cleanup) => ProgressView::Failed(
                    error,
                    cleanup + release_script(self.kept()),
                ),
            },
            RendererBuildView::Texturing {
                config,
                vertex_shader,
                fragment_shader,
                program,
                build,
            } => match build.step(event) {
                ProgressView::Pending(next, request) => ProgressView::Pending(
                    RendererBuildView::Texturing {
                        config,
                        vertex_shader,
                        fragment_shader,
                        program,
                        build: next,
                    },
                    request,
                ),
                ProgressView::Ready(texture, calls) => ProgressView::Pending(
                    RendererBuildView::VertexArray {
                        config,
                        vertex_shader,
                        fragment_shader,
                        program,
                        texture,
                        build: VertexArrayBuild {  },
                    },
                    prepended(calls, VertexArrayBuild::first_request()),
                ),
                ProgressView::Failed(error, cleanup) => ProgressView::Failed(
                    error,
                    cleanup + release_script(self.kept()),
                ),
            },
            RendererBuildView::VertexArray {
                config,
                vertex_shader,
                fragment_shader,
                program,
                texture,
                build,
            } => match build.step(event) {
                ProgressView::Pending(next, request) => ProgressView::Pending(
                    RendererBuildView::VertexArray {
                        config,
                        vertex_shader,
                        fragment_shader,
                        program,
                        texture,
                        build: next,
                    },
                    request,
                ),
                ProgressView::Ready(vertex_array_object, calls) => ProgressView::Pending(
                    RendererBuildView::Buffer {
                        config,
                        vertex_shader,
                        fragment_shader,
                        program,
                        texture,
                        vertex_array_object,
                        build: BufferBuildView { memory_size: 68 },
                    },
                    prepended(calls, BufferBuildView::first_request()),
                ),
                ProgressView::Failed(error, cleanup) => ProgressView::Failed(
                    error,
                    cleanup + release_script(self.kept()),
                ),
            },
            RendererBuildView::Buffer {
                config,
                vertex_shader,
                fragment_shader,
                program,
                texture,
                vertex_array_object,
                build,
            } => match build.step(event) {
                ProgressView::Pending(next, request) => ProgressView::Pending(
                    RendererBuildView::Buffer {
                        config,
                        vertex_shader,
                        fragment_shader,
                        program,
                        texture,
                        vertex_array_object,
                        build: next,
                    },
                    request,
                ),
                ProgressView::Ready(per_frame_buffer_object, calls) => {
                    let renderer = RendererView {
                        vertex_shader,
                        fragment_shader,
                        program,
                        vertex_array_object,
                        per_frame_buffer_object,
                        texture,
                        draw_config: DrawConfig::initial(config.wireframe_overlay),
                        byte_order: config.byte_order,
                    };
                    ProgressView::Ready(renderer, calls + renderer.activation_script())
                },
                ProgressView::Failed(error, cleanup) => ProgressView::Failed(
                    error,
                    cleanup + release_script(self.kept()),
                ),
            },
        }
    }
}

/// The calls that give back a vertex shader.
fn release_one(vertex_shader: Shader) -> (calls: Vec<Command>)
    ensures
        calls.deep_view() == release_script(vertex_shader.owned()),
{
    let mut vertex_shader = vertex_shader;
    vertex_shader.dispose()
}

/// The calls that give back two shaders, the fragment shader first.
fn release_two(vertex_shader: Shader, fragment_shader: Shader) -> (calls: Vec<Command>)
    ensures
        calls.deep_view() == release_script(vertex_shader.owned() + fragment_shader.owned()),
{
    let mut fragment_shader = fragment_shader;
    let calls = fragment_shader.dispose();
    proof {
        lemma_release_script_concat(vertex_shader.owned(), fragment_shader.owned());
    }
    append(calls, release_one(vertex_shader))
}

/// The calls that give back a program and its two shaders, the program
/// first.
fn release_three(vertex_shader: Shader, fragment_shader: Shader, program: Program) -> (calls: Vec<
    Command,
>)
    ensures
        calls.deep_view() == release_script(
            vertex_shader.owned() + fragment_shader.owned() + program.owned(),
        ),
{
    let mut program = program;
    let calls = program.dispose();
    proof {
        lemma_release_script_concat(
            vertex_shader.owned() + fragment_shader.owned(),
            program.owned(),
        );
    }
    append(calls, release_two(vertex_shader, fragment_shader))
}

/// The calls that give back a texture, a program and its two shaders, the
/// texture first.
fn release_four(
    vertex_shader: Shader,
    fragment_shader: Shader,
    program: Program,
    texture: Texture,
) -> (calls: Vec<Command>)
    ensures
        calls.deep_view() == release_script(
            vertex_shader.owned() + fragment_shader.owned() + program.owned() + texture.owned(),
        ),
{
    let mut texture = texture;
    let calls = texture.dispose();
    proof {
        lemma_release_script_concat(
            vertex_shader.owned() + fragment_shader.owned() + program.owned(),
            texture.owned(),
        );
    }
    append(calls, release_three(vertex_shader, fragment_shader, program))
}

/// The calls that give back a vertex array, a texture, a program and its
/// two shaders, the vertex array first.
fn release_five(
    vertex_shader: Shader,
    fragment_shader: Shader,
    program: Program,
    texture: Texture,
    vertex_array_object: VertexArrayObjects,
) -> (calls: Vec<Command>)
    ensures
        calls.deep_view() == release_script(
            vertex_shader.owned() + fragment_shader.owned() + program.owned() + texture.owned()
                + vertex_array_object.owned(),
        ),
{
    let mut vertex_array_object = vertex_array_object;
    let calls = vertex_array_object.dispose();
    proof {
        lemma_release_script_concat(
            vertex_shader.owned() + fragment_shader.owned() + program.owned() + texture.owned(),
            vertex_array_object.owned(),
        );
    }
    append(calls, release_four(vertex_shader, fragment_shader, program, texture))
}

/// The batch that opens the initialisation.
fn prelude(diagnostics: bool) -> (calls: Vec<Command>)
    ensures
        calls.deep_view() == prelude_script(diagnostics),
{
    let mut calls = no_calls();
    push_plain(&mut calls, GlCall::GetString { name: gl::RENDERER });
    push_plain(&mut calls, GlCall::GetString { name: gl::VERSION });
    push_plain(&mut calls, GlCall::GetString { name: gl::SHADING_LANGUAGE_VERSION });
    if diagnostics {
        push_plain(&mut calls, GlCall::Enable { cap: gl::DEBUG_OUTPUT_SYNCHRONOUS });
        push_plain(&mut calls, GlCall::DebugMessageCallback);
        push_plain(&mut calls, GlCall::Enable { cap: gl::DEBUG_OUTPUT });
    }
    assert(calls.deep_view() =~= prelude_script(diagnostics));
    calls
}

/// The batch that makes a renderer's objects the active state.
fn activation(renderer: &Renderer) -> (calls: Vec<Command>)
    ensures
        calls.deep_view() == renderer.deep_view().activation_script(),
{
    let mut calls = no_calls();
    push_command(&mut calls, renderer.program.use_program());
    push_command(&mut calls, renderer.vertex_array_object.bind());
    push_command(&mut calls, renderer.texture.bind(0));
    push_command(&mut calls, renderer.per_frame_buffer_object.bind());
    push_plain(&mut calls, GlCall::ClearColor { red: ONE, green: ONE, blue: ONE, alpha: ONE });
    push_plain(&mut calls, GlCall::Enable { cap: gl::DEPTH_TEST });
    push_plain(&mut calls, GlCall::DepthFunc { func: gl::LESS });
    push_plain(&mut calls, GlCall::Enable { cap: gl::POLYGON_OFFSET_LINE });
    push_plain(&mut calls, GlCall::PolygonOffset { factor: MINUS_ONE, units: MINUS_ONE });
    assert(calls.deep_view() =~= renderer.deep_view().activation_script());
    calls
}

impl Renderer {
    /// Starts to initialise a renderer.
    pub fn new(config: &ApplicationConfig) -> (progress: Progress<RendererBuild, Renderer>)
        ensures
            progress.deep_view() == RendererBuildView::start(*config),
    {
        let (machine, request) = RendererBuild::begin(config);
        Progress::Pending(machine, request)
    }
}

impl RendererBuild {
    /// The machine in its first state, and the request that goes with it.
    pub fn begin(config: &ApplicationConfig) -> (start: (RendererBuild, Request))
        ensures
            start.0.deep_view() == RendererBuildView::initial(*config),
            start.1.deep_view() == RendererBuildView::first_request(*config),
    {
        let (build, request) = ShaderBuild::begin(ShaderType::VERTEX, "shaders/vertex_tex.glsl");
        (
            RendererBuild::VertexShader { config: *config, build },
            prepend(prelude(config.diagnostics), request),
        )
    }

    /// Breaks the initialisation off between two steps: the calls that
    /// give back everything that the machine holds, last made first.
    pub fn abandon(self) -> (calls: Vec<Command>)
        ensures
            calls.deep_view() == release_script(self.deep_view().owned()),
    {
        let ghost kept = self.deep_view().kept();
        match self {
            RendererBuild::VertexShader { build, .. } => {
                proof {
                    lemma_release_script_concat(kept, build.deep_view().owned());
                }
                let calls = build.abandon();
                assert(calls.deep_view() + release_script(kept) =~= calls.deep_view());
                calls
            },
            RendererBuild::FragmentShader { vertex_shader, build, .. } => {
                proof {
                    lemma_release_script_concat(kept, build.deep_view().owned());
                }
                append(build.abandon(), release_one(vertex_shader))
            },
            RendererBuild::Linking { vertex_shader, fragment_shader, build, .. } => {
                proof {
                    lemma_release_script_concat(kept, build.owned());
                }
                append(build.abandon(), release_two(vertex_shader, fragment_shader))
            },
            RendererBuild::Texturing { vertex_shader, fragment_shader, program, build, .. } => {
                assert(kept + build.deep_view().owned() =~= kept);
                release_three(vertex_shader, fragment_shader, program)
            },
            RendererBuild::VertexArray {
                vertex_shader,
                fragment_shader,
                program,
                texture,
                build,
                ..
            } => {
                assert(kept + build.owned() =~= kept);
                release_four(vertex_shader, fragment_shader, program, texture)
            },
            RendererBuild::Buffer {
                vertex_shader,
                fragment_shader,
                program,
                texture,
                vertex_array_object,
                build,
                ..
            } => {
                assert(kept + build.deep_view().owned() =~= kept);
                release_five(vertex_shader, fragment_shader, program, texture, vertex_array_object)
            },
        }
    }

    /// Takes what the host handed back and decides how to go on.
    pub fn advance(self, event: Event) -> (progress: Progress<RendererBuild, Renderer>)
        ensures
            progress.deep_view() == self.deep_view().step(event.deep_view()),
    {
        match self {
            RendererBuild::VertexShader { config, build } => match build.advance(event) {
                Progress::Pending(next, request) => Progress::Pending(
                    RendererBuild::VertexShader { config, build: next },
                    request,
                ),
                Progress::Ready(vertex_shader, calls) => {
                    let (build, request) = ShaderBuild::begin(
                        ShaderType::FRAGMENT,
                        "shaders/fragment_tex.glsl",
                    );
                    Progress::Pending(
                        RendererBuild::FragmentShader { config, vertex_shader, build },
                        prepend(calls, request),
                    )
                },
                Progress::Failed(error, cleanup) => {
                    assert(cleanup.deep_view() + release_script(Seq::<Handle>::empty())
                        =~= cleanup.deep_view());
                    Progress::Failed(error, cleanup)
                },
            },
            RendererBuild::FragmentShader { config, vertex_shader, build } => match build.advance(
                event,
            ) {
                Progress::Pending(next, request) => Progress::Pending(
                    RendererBuild::FragmentShader { config, vertex_shader, build: next },
                    request,
                ),
                Progress::Ready(fragment_shader, calls) => {
                    let (build, request) = ProgramBuild::begin(&vertex_shader, &fragment_shader);
                    Progress::Pending(
                        RendererBuild::Linking { config, vertex_shader, fragment_shader, build },
                        prepend(calls, request),
                    )
                },
                Progress::Failed(error, cleanup) => Progress::Failed(
                    error,
                    append(cleanup, release_one(vertex_shader)),
                ),
            },
            RendererBuild::Linking {
                config,
                vertex_shader,
                fragment_shader,
                build,
            } => match build.advance(event) {
                Progress::Pending(next, request) => Progress::Pending(
                    RendererBuild::Linking { config, vertex_shader, fragment_shader, build: next },
                    request,
                ),
                Progress::Ready(program, calls) => {
                    // Linking leaves no call behind, so none is lost before the file.
                    assert(calls.deep_view().len() == 0);
                    let (build, request) = TextureBuild::begin("textures/stone.png");
                    Progress::Pending(
                        RendererBuild::Texturing {
                            config,
                            vertex_shader,
                            fragment_shader,
                            program,
                            build,
                        },
                        prepend(calls, request),
                    )
                },
                Progress::Failed(error, cleanup) => Progress::Failed(
                    error,
                    append(cleanup, release_two(vertex_shader, fragment_shader)),
                ),
            },
            RendererBuild::Texturing {
                config,
                vertex_shader,
                fragment_shader,
                program,
                build,
            } => match build.advance(event) {
                Progress::Pending(next, request) => Progress::Pending(
                    RendererBuild::Texturing {
                        config,
                        vertex_shader,
                        fragment_shader,
                        program,
                        build: next,
                    },
                    request,
                ),
                Progress::Ready(texture, calls) => {
                    let (build, request) = VertexArrayBuild::begin();
                    Progress::Pending(
                        RendererBuild::VertexArray {
                            config,
                            vertex_shader,
                            fragment_shader,
                            program,
                            texture,
                            build,
                        },
                        prepend(calls, request),
                    )
                },
                Progress::Failed(error, cleanup) => Progress::Failed(
                    error,
                    append(cleanup, release_three(vertex_shader, fragment_shader, program)),
                ),
            },
            RendererBuild::VertexArray {
                config,
                vertex_shader,
                fragment_shader,
                program,
                texture,
                build,
            } => match build.advance(event) {
                Progress::Pending(next, request) => Progress::Pending(
                    RendererBuild::VertexArray {
                        config,
                        vertex_shader,
                        fragment_shader,
                        program,
                        texture,
                        build: next,
                    },
                    request,
                ),
                Progress::Ready(vertex_array_object, calls) => {
                    let (build, request) = BufferBuild::<PerFrameData>::begin();
                    Progress::Pending(
                        RendererBuild::Buffer {
                            config,
                            vertex_shader,
                            fragment_shader,
                            program,
                            texture,
                            vertex_array_object,
                            build,
                        },
                        prepend(calls, request),
                    )
                },
                Progress::Failed(error, cleanup) => Progress::Failed(
                    error,
                    append(cleanup, release_four(vertex_shader, fragment_shader, program, texture)),
                ),
            },
            RendererBuild::Buffer {
                config,
                vertex_shader,
                fragment_shader,
                program,
                texture,
                vertex_array_object,
                build,
            } => match build.advance(event) {
                Progress::Pending(next, request) => Progress::Pending(
                    RendererBuild::Buffer {
                        config,
                        vertex_shader,
                        fragment_shader,
                        program,
                        texture,
                        vertex_array_object,
                        build: next,
                    },
                    request,
                ),
                Progress::Ready(per_frame_buffer_object, calls) => {
                    let mut draw_config = DrawConfig::new((300, 300));
                    draw_config.wireframe_overlay = config.wireframe_overlay;
                    let renderer = Renderer {
                        vertex_shader,
                        fragment_shader,
                        program,
                        vertex_array_object,
                        per_frame_buffer_object,
                        texture,
                        draw_config,
                        byte_order: config.byte_order,
                    };
                    let calls = append(calls, activation(&renderer));
                    Progress::Ready(renderer, calls)
                },
                Progress::Failed(error, cleanup) => Progress::Failed(
                    error,
                    append(
                        cleanup,
                        release_five(
                            vertex_shader,
                            fragment_shader,
                            program,
                            texture,
                            vertex_array_object,
                        ),
                    ),
                ),
            },
        }
    }
}

/// A batch that deletes nothing, put in front of a request that deletes
/// nothing, makes a request that deletes nothing.
proof fn lemma_prepended_deletes_nothing(calls: Seq<CommandView>, request: RequestView)
    requires
        deletes_nothing(calls),
        request.deletes_nothing(),
    ensures
        prepended(calls, request).deletes_nothing(),
{
    match request {
        RequestView::Gl(batch) => {
            assert forall|i: int| 0 <= i < (calls + batch).len() implies (#[trigger] (calls
                + batch)[i]).call.deletes() is None by {
                if i < calls.len() {
                    assert((calls + batch)[i] == calls[i]);
                } else {
                    assert((calls + batch)[i] == batch[i - calls.len()]);
                }
            }
        },
        _ => {},
    }
}

/// Nothing leaks from the initialisation of a renderer. While the machine
/// goes on, and when it hands out the renderer, it holds exactly what it
/// held before and what the event brought, and deletes nothing. When it
/// gives up, its last batch deletes exactly that, each object by the one
/// call that matches its kind, the last made first: no object that was
/// created is left with the driver.
pub proof fn lemma_renderer_step_keeps_ledger(machine: RendererBuildView, event: EventView)
    ensures
        match machine.step(event) {
            ProgressView::Pending(next, request) => next.owned() == machine.owned()
                + machine.gains(event) && request.deletes_nothing(),
            ProgressView::Ready(renderer, calls) => renderer.owned() == machine.owned()
                + machine.gains(event) && deletes_nothing(calls),
            ProgressView::Failed(_, calls) => calls == release_script(
                machine.owned() + machine.gains(event),
            ),
        },
{
    let kept = machine.kept();
    match machine {
        RendererBuildView::VertexShader { build, .. } => {
            lemma_shader_step_keeps_ledger(build, event);
            lemma_release_script_concat(kept, build.owned() + build.gains(event));
            match build.step(event) {
                ProgressView::Ready(_, calls) => {
                    lemma_prepended_deletes_nothing(
                        calls,
                        ShaderBuildView::first_request(ShaderType::FRAGMENT),
                    );
                },
                _ => {},
            }
        },
        RendererBuildView::FragmentShader { build, .. } => {
            lemma_shader_step_keeps_ledger(build, event);
            lemma_release_script_concat(kept, build.owned() + build.gains(event));
            match build.step(event) {
                ProgressView::Ready(_, calls) => {
                    lemma_prepended_deletes_nothing(calls, ProgramBuild::first_request());
                },
                _ => {},
            }
        },
        RendererBuildView::Linking { build, .. } => {
            lemma_program_step_keeps_ledger(build, event);
            lemma_release_script_concat(kept, build.owned() + build.gains(event));
            match build.step(event) {
                ProgressView::Ready(_, calls) => {
                    lemma_prepended_deletes_nothing(
                        calls,
                        TextureBuildView::first_request("textures/stone.png"@),
                    );
                },
                _ => {},
            }
        },
        RendererBuildView::Texturing { build, .. } => {
            lemma_texture_step_keeps_ledger(build, event);
            lemma_release_script_concat(kept, build.owned() + build.gains(event));
            match build.step(event) {
                ProgressView::Ready(_, calls) => {
                    lemma_prepended_deletes_nothing(calls, VertexArrayBuild::first_request());
                },
                _ => {},
            }
        },
        RendererBuildView::VertexArray { build, .. } => {
            lemma_vertex_array_step_keeps_ledger(build, event);
            match build.step(event) {
                ProgressView::Ready(_, calls) => {
                    lemma_prepended_deletes_nothing(calls, BufferBuildView::first_request());
                },
                _ => {},
            }
        },
        RendererBuildView::Buffer { build, .. } => {
            lemma_buffer_step_keeps_ledger(build, event);
            match machine.step(event) {
                ProgressView::Ready(renderer, calls) => {
                    assert(deletes_nothing(renderer.activation_script()));
                    assert forall|i: int| 0 <= i < calls.len() implies (#[trigger] calls[i])
                        .call.deletes() is None by {
                        let storage = build.step(event)->Ready_1;
                        if i < storage.len() {
                            assert(calls[i] == storage[i]);
                        } else {
                            assert(calls[i] == renderer.activation_script()[i - storage.len()]);
                        }
                    }
                },
                _ => {},
            }
        },
    }
    match machine.step(event) {
        ProgressView::Pending(next, request) => {
            assert(next.owned() =~= machine.owned() + machine.gains(event));
        },
        ProgressView::Ready(renderer, calls) => {
            assert(renderer.owned() =~= machine.owned() + machine.gains(event));
        },
        ProgressView::Failed(_, calls) => {
            assert(calls =~= release_script(machine.owned() + machine.gains(event)));
        },
    }
}

/// An initialisation that succeeds yields a renderer that is ready to
/// draw: it owns all six of its objects, its buffer has the size of the
/// per-frame record, and its configuration is the initial one.
pub proof fn lemma_renderer_step_keeps_wf(machine: RendererBuildView, event: EventView)
    requires
        machine.wf(),
    ensures
        match machine.step(event) {
            ProgressView::Pending(next, _) => next.wf(),
            ProgressView::Ready(renderer, _) => renderer.ready() && renderer.owned().len() == 6,
            ProgressView::Failed(_, _) => true,
        },
{
    match machine.step(event) {
        ProgressView::Ready(renderer, _) => {
            assert(renderer.owned().len() == 6);
        },
        _ => {},
    }
}

/// Where the initialisation stands after the host has answered its
/// requests with the given events, one after the other. Events that come
/// after the end are not looked at.
pub open spec fn run(config: ApplicationConfig, events: Seq<EventView>) -> ProgressView<
    RendererBuildView,
    RendererView,
>
    decreases events.len(),
{
    if events.len() == 0 {
        RendererBuildView::start(config)
    } else {
        match run(config, events.drop_last()) {
            ProgressView::Pending(machine, _) => machine.step(events.last()),
            ended => ended,
        }
    }
}

/// Every object that the driver has made in a run, in the order of making:
/// what each event handed to the machine that took it.
pub open spec fn created(config: ApplicationConfig, events: Seq<EventView>) -> Seq<Handle>
    decreases events.len(),
{
    if events.len() == 0 {
        Seq::empty()
    } else {
        match run(config, events.drop_last()) {
            ProgressView::Pending(machine, _) => created(config, events.drop_last())
                + machine.gains(events.last()),
            _ => created(config, events.drop_last()),
        }
    }
}

/// Initialisation is all or nothing, whatever the driver and the disk
/// answer. While a run goes on, the machine holds every object that the
/// driver has made so far, and has asked for none to be deleted. A run
/// that ends with a renderer hands all of them to the renderer. A run that
/// ends with an error ends with a batch that deletes all of them, each
/// once, the last made first.
pub proof fn lemma_run_keeps_ledger(config: ApplicationConfig, events: Seq<EventView>)
    ensures
        match run(config, events) {
            ProgressView::Pending(machine, request) => machine.owned() == created(config, events)
                && request.deletes_nothing() && machine.wf(),
            ProgressView::Ready(renderer, calls) => renderer.owned() == created(config, events)
                && deletes_nothing(calls) && renderer.ready(),
            ProgressView::Failed(_, calls) => calls == release_script(created(config, events)),
        },
    decreases events.len(),
{
    if events.len() == 0 {
        let machine = RendererBuildView::initial(config);
        assert(machine.owned() =~= Seq::<Handle>::empty());
        assert(deletes_nothing(prelude_script(config.diagnostics)));
        lemma_prepended_deletes_nothing(
            prelude_script(config.diagnostics),
            ShaderBuildView::first_request(ShaderType::VERTEX),
        );
    } else {
        lemma_run_keeps_ledger(config, events.drop_last());
        match run(config, events.drop_last()) {
            ProgressView::Pending(machine, _) => {
                lemma_renderer_step_keeps_ledger(machine, events.last());
                lemma_renderer_step_keeps_wf(machine, events.last());
            },
            _ => {},
        }
    }
}

} // verus!
