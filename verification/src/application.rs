//! The application: what the renderer and its platform objects go through
//! from activation to exit.
//!
//! The host owns the window, the context and the surface, and reports what
//! the event loop delivers. The application keeps count of them, decides
//! what is to be done next, and hands the host a list of [`Directive`]s to
//! carry out in order. Only the last directive of a list can call for an
//! answer.

use crate::context::{
    after_attempt, context_attempted, ContextAttributes, ContextProgress, ContextProgressView,
    ContextStrategy,
};
use crate::error::{RenderError, RenderErrorView};
use crate::protocol::{
    release_script, Command, CommandView, Event, EventView, Progress, ProgressView, Request,
    RequestView,
};
use crate::renderer::{DrawConfig, Renderer, RendererView};
use crate::renderer_build::{ApplicationConfig, RendererBuild, RendererBuildView};
use vstd::prelude::*;

verus! {

/// Whether the display has been built, and with it the configuration
/// chosen.
#[derive(Clone, Copy, Debug, PartialEq, Eq)]
pub enum GlDisplayCreationState {
    /// The display was not built yet.
    Builder,
    /// The display was built; its configuration is remembered by the
    /// context and is not chosen again.
    Created,
}

/// Where the application stands.
#[derive(Clone, Copy, Debug, PartialEq, Eq)]
pub enum Phase {
    /// No window and no surface.
    Inactive,
    /// The host builds the display, the window and chooses the
    /// configuration.
    BuildingDisplay,
    /// The host builds a new window for the remembered configuration.
    RecreatingWindow,
    /// The host attempts to create a context by this strategy.
    CreatingContext(ContextStrategy),
    /// The host builds the surface of the window.
    CreatingSurface,
    /// The host makes context and surface current.
    MakingCurrent,
    /// The renderer is being initialised.
    Initializing,
    /// The host asks for vertical synchronisation.
    SettingSwapInterval,
    /// Context, surface and renderer are there; frames are drawn.
    Active,
    /// A frame is under way: the host computes its transform. `present`
    /// says whether the frame is shown when it is drawn.
    Drawing { present: bool },
    /// Exit was asked for; the event loop has not ended yet.
    Closing,
    /// The event loop has ended and everything was given back.
    Terminated,
}

/// What the window system reports about the window.
#[derive(Clone, Copy, Debug, PartialEq, Eq)]
pub enum WindowEvent {
    Resized { width: u32, height: u32 },
    CloseRequested,
    EscapePressed,
}

/// One thing for the host to do.
#[derive(Debug)]
pub enum Directive {
    /// Build the display and the window, and choose the configuration.
    /// Answer whether that worked.
    BuildDisplay,
    /// Build a new window for the configuration of the context. Answer
    /// whether that worked.
    RecreateWindow,
    /// Attempt to create a context with these attributes. Answer whether a
    /// context came of it.
    CreateContext(ContextAttributes),
    /// Build the surface of the window. Answer whether that worked.
    CreateSurface,
    /// Make context and surface current. Answer whether that worked.
    MakeCurrent,
    /// Perform the renderer's request and answer with what came back.
    Render(Request),
    /// Perform these native calls; there is nothing to answer.
    Perform(Vec<Command>),
    /// Ask for a swap at every n-th vertical blank. Answer when done; a
    /// refusal is reported and does no harm.
    SetSwapInterval(u32),
    /// Resize the surface.
    ResizeSurface { width: u32, height: u32 },
    /// Compute the transform of the frame and answer with it. The times
    /// are in milliseconds: since the application started, and since the
    /// frame before.
    ComputeTransform { elapsed: u64, frame_delta: u64, draw_config: DrawConfig },
    /// Ask the window system for another redraw.
    RequestRedraw,
    /// Show the frame.
    SwapBuffers,
    /// Destroy surface and window.
    DropSurface,
    /// Release the context, and what the platform wants released with it.
    ReleaseContext,
    /// End the event loop.
    Exit,
}

/// The mathematical content of a [`Directive`].
pub enum DirectiveView {
    BuildDisplay,
    RecreateWindow,
    CreateContext(ContextAttributes),
    CreateSurface,
    MakeCurrent,
    Render(RequestView),
    Perform(Seq<CommandView>),
    SetSwapInterval(u32),
    ResizeSurface { width: u32, height: u32 },
    ComputeTransform { elapsed: u64, frame_delta: u64, draw_config: DrawConfig },
    RequestRedraw,
    SwapBuffers,
    DropSurface,
    ReleaseContext,
    Exit,
}

impl DeepView for Directive {
    type V = DirectiveView;

    open spec fn deep_view(&self) -> DirectiveView {
        match *self {
            Directive::BuildDisplay => DirectiveView::BuildDisplay,
            Directive::RecreateWindow => DirectiveView::RecreateWindow,
            Directive::CreateContext(attributes) => DirectiveView::CreateContext(attributes),
            Directive::CreateSurface => DirectiveView::CreateSurface,
            Directive::MakeCurrent => DirectiveView::MakeCurrent,
            Directive::Render(request) => DirectiveView::Render(request.deep_view()),
            Directive::Perform(calls) => DirectiveView::Perform(calls.deep_view()),
            Directive::SetSwapInterval(interval) => DirectiveView::SetSwapInterval(interval),
            Directive::ResizeSurface { width, height } => DirectiveView::ResizeSurface {
                width,
                height,
            },
            Directive::ComputeTransform {
                elapsed,
                frame_delta,
                draw_config,
            } => DirectiveView::ComputeTransform { elapsed, frame_delta, draw_config },
            Directive::RequestRedraw => DirectiveView::RequestRedraw,
            Directive::SwapBuffers => DirectiveView::SwapBuffers,
            Directive::DropSurface => DirectiveView::DropSurface,
            Directive::ReleaseContext => DirectiveView::ReleaseContext,
            Directive::Exit => DirectiveView::Exit,
        }
    }
}

/// The application.
#[derive(Debug)]
pub struct App {
    pub config: ApplicationConfig,
    pub gl_display: GlDisplayCreationState,
    /// Whether the host holds a context.
    pub gl_context: bool,
    /// Whether the host holds a window with its surface.
    pub surface: bool,
    pub renderer: Option<Renderer>,
    /// The initialisation of the renderer, while it is under way.
    pub build: Option<RendererBuild>,
    pub phase: Phase,
    /// The time of the last frame, in milliseconds.
    pub now: u64,
    /// The time at which the application started, in milliseconds.
    pub start_time: u64,
    /// How the run ended, if it ended with an error.
    pub exit_state: Result<(), RenderError>,
}

/// The mathematical content of an [`App`].
pub struct AppView {
    pub config: ApplicationConfig,
    pub gl_display: GlDisplayCreationState,
    pub gl_context: bool,
    pub surface: bool,
    pub renderer: Option<RendererView>,
    pub build: Option<RendererBuildView>,
    pub phase: Phase,
    pub now: u64,
    pub start_time: u64,
    pub exit_state: Option<RenderErrorView>,
}

impl DeepView for App {
    type V = AppView;

    open spec fn deep_view(&self) -> AppView {
        AppView {
            config: self.config,
            gl_display: self.gl_display,
            gl_context: self.gl_context,
            surface: self.surface,
            renderer: match self.renderer {
                Some(renderer) => Some(renderer.deep_view()),
                None => None,
            },
            build: match self.build {
                Some(build) => Some(build.deep_view()),
                None => None,
            },
            phase: self.phase,
            now: self.now,
            start_time: self.start_time,
            exit_state: match self.exit_state {
                Ok(_) => None,
                Err(error) => Some(error.deep_view()),
            },
        }
    }
}

/// The time from `earlier` to `later`, zero if the clock went back.
pub open spec fn elapsed_between(earlier: u64, later: u64) -> u64 {
    if later >= earlier {
        (later - earlier) as u64
    } else {
        0
    }
}

/// A reported size can be taken over if neither side is zero and both fit
/// the driver's signed sizes.
pub open spec fn usable_size(width: u32, height: u32) -> bool {
    0 < width <= i32::MAX && 0 < height <= i32::MAX
}

impl AppView {
    /// The application as it starts.
    pub open spec fn initial(config: ApplicationConfig, now: u64) -> AppView {
        AppView {
            config,
            gl_display: GlDisplayCreationState::Builder,
            gl_context: false,
            surface: false,
            renderer: None,
            build: None,
            phase: Phase::Inactive,
            now,
            start_time: now,
            exit_state: None,
        }
    }

    /// The order of the lifecycle: a context needs a display, a surface
    /// needs a context, a renderer needs a surface, and frames are drawn
    /// only with a renderer, which is ready. Each phase of an activation
    /// has what the phases before it made.
    pub open spec fn wf(self) -> bool {
        &&& self.gl_context ==> self.gl_display == GlDisplayCreationState::Created
        &&& self.surface ==> self.gl_context
        &&& self.renderer is Some ==> self.surface
        &&& self.build is Some ==> self.phase == Phase::Initializing
        &&& self.build matches Some(build) ==> build.wf()
        &&& self.renderer matches Some(renderer) ==> renderer.ready()
        &&& self.phase == Phase::Inactive ==> !self.surface && (self.gl_context <==> self.gl_display
            == GlDisplayCreationState::Created)
        &&& self.phase == Phase::BuildingDisplay ==> self.gl_display
            == GlDisplayCreationState::Builder
        &&& self.phase == Phase::RecreatingWindow ==> self.gl_context
        &&& self.phase is CreatingContext ==> self.gl_display == GlDisplayCreationState::Created
        &&& self.phase == Phase::CreatingSurface ==> self.gl_context
        &&& self.phase == Phase::MakingCurrent ==> self.surface
        &&& self.phase == Phase::Initializing ==> self.surface && self.renderer is None
        &&& self.phase == Phase::SettingSwapInterval ==> self.renderer is Some
        &&& (self.phase == Phase::Active || self.phase is Drawing) ==> self.renderer is Some
        &&& self.phase == Phase::Terminated ==> !self.gl_context && !self.surface
    }

    /// The renderer that frames can be drawn with.
    pub open spec fn drawing_renderer(self) -> Option<RendererView> {
        match self.renderer {
            Some(renderer) => if renderer.ready() {
                Some(renderer)
            } else {
                None
            },
            None => None,
        }
    }

    /// Giving up: the error is kept as the outcome of the run, and the
    /// event loop is asked to end.
    pub open spec fn fail(self, error: RenderErrorView) -> (AppView, Seq<DirectiveView>) {
        (
            AppView { phase: Phase::Closing, exit_state: Some(error), ..self },
            seq![DirectiveView::Exit],
        )
    }

    /// The directive that asks for the transform of a frame at time `now`.
    pub open spec fn transform_request(self, now: u64, draw_config: DrawConfig) -> DirectiveView {
        DirectiveView::ComputeTransform {
            elapsed: elapsed_between(self.start_time, now),
            frame_delta: elapsed_between(self.now, now),
            draw_config,
        }
    }

    /// Activation begins. The first time the display is built and the
    /// configuration chosen; every later time only a window is built, for
    /// the configuration that the context remembers.
    pub open spec fn resumed(self) -> (AppView, Seq<DirectiveView>) {
        if self.phase == Phase::Inactive {
            match self.gl_display {
                GlDisplayCreationState::Builder => (
                    AppView { phase: Phase::BuildingDisplay, ..self },
                    seq![DirectiveView::BuildDisplay],
                ),
                GlDisplayCreationState::Created => (
                    AppView { phase: Phase::RecreatingWindow, ..self },
                    seq![DirectiveView::RecreateWindow],
                ),
            }
        } else {
            (self, Seq::empty())
        }
    }

    /// The host has answered a platform directive.
    ///
    /// Activation goes on in this order: display and configuration,
    /// context (by the fallback chain), surface, making current, renderer,
    /// swap interval. A failure of any step but the last ends the run with
    /// the error of that step; the swap interval is asked for at best
    /// effort, and with its answer the application is active and its frame
    /// timer starts anew.
    pub open spec fn answered(self, succeeded: bool, now: u64) -> (AppView, Seq<DirectiveView>) {
        match self.phase {
            Phase::BuildingDisplay => if succeeded {
                (
                    AppView {
                        gl_display: GlDisplayCreationState::Created,
                        phase: Phase::CreatingContext(ContextStrategy::ModernCore),
                        ..self
                    },
                    seq![
                        DirectiveView::CreateContext(ContextStrategy::ModernCore.spec_attributes()),
                    ],
                )
            } else {
                self.fail(RenderErrorView::ConfigSelectionFailed)
            },
            Phase::RecreatingWindow => if succeeded {
                (
                    AppView { phase: Phase::CreatingSurface, ..self },
                    seq![DirectiveView::CreateSurface],
                )
            } else {
                self.fail(RenderErrorView::SurfaceCreationFailed)
            },
            Phase::CreatingContext(strategy) => match after_attempt(strategy, succeeded) {
                ContextProgressView::Created(_) => (
                    AppView { gl_context: true, phase: Phase::CreatingSurface, ..self },
                    seq![DirectiveView::CreateSurface],
                ),
                ContextProgressView::Attempt(next) => (
                    AppView { phase: Phase::CreatingContext(next), ..self },
                    seq![DirectiveView::CreateContext(next.spec_attributes())],
                ),
                ContextProgressView::Failed => self.fail(RenderErrorView::ContextCreationFailed),
            },
            Phase::CreatingSurface => if succeeded {
                (
                    AppView { surface: true, phase: Phase::MakingCurrent, ..self },
                    seq![DirectiveView::MakeCurrent],
                )
            } else {
                self.fail(RenderErrorView::SurfaceCreationFailed)
            },
            Phase::MakingCurrent => if !succeeded {
                self.fail(RenderErrorView::MakeCurrentFailed)
            } else if self.renderer is Some {
                (
                    AppView { phase: Phase::SettingSwapInterval, ..self },
                    seq![DirectiveView::SetSwapInterval(1)],
                )
            } else {
                (
                    AppView {
                        build: Some(RendererBuildView::initial(self.config)),
                        phase: Phase::Initializing,
                        ..self
                    },
                    seq![DirectiveView::Render(RendererBuildView::first_request(self.config))],
                )
            },
            Phase::SettingSwapInterval => (
                AppView { phase: Phase::Active, now, ..self },
                Seq::empty(),
            ),
            _ => (self, Seq::empty()),
        }
    }

    /// The host has answered a request of the renderer's initialisation.
    /// When the renderer is ready its last calls are performed and the swap
    /// interval asked for. When the initialisation gives up, its cleanup is
    /// performed and the run ends with its error.
    pub open spec fn rendered(self, event: EventView) -> (AppView, Seq<DirectiveView>) {
        match self.build {
            Some(build) => if self.phase == Phase::Initializing {
                match build.step(event) {
                    ProgressView::Pending(next, request) => (
                        AppView { build: Some(next), ..self },
                        seq![DirectiveView::Render(request)],
                    ),
                    ProgressView::Ready(renderer, calls) => (
                        AppView {
                            build: None,
                            renderer: Some(renderer),
                            phase: Phase::SettingSwapInterval,
                            ..self
                        },
                        seq![DirectiveView::Perform(calls), DirectiveView::SetSwapInterval(1)],
                    ),
                    ProgressView::Failed(error, cleanup) => (
                        AppView {
                            build: None,
                            phase: Phase::Closing,
                            exit_state: Some(error),
                            ..self
                        },
                        seq![DirectiveView::Perform(cleanup), DirectiveView::Exit],
                    ),
                }
            } else {
                (self, Seq::empty())
            },
            None => (self, Seq::empty()),
        }
    }

    /// The window system has reported about the window. A request to close
    /// and the escape key ask the event loop to end. A new size is taken
    /// over by surface and renderer, and a frame is drawn for it without
    /// being shown; a size that cannot be used is ignored altogether.
    pub open spec fn window_event(self, event: WindowEvent, now: u64) -> (
        AppView,
        Seq<DirectiveView>,
    ) {
        match event {
            WindowEvent::CloseRequested => (self, seq![DirectiveView::Exit]),
            WindowEvent::EscapePressed => (self, seq![DirectiveView::Exit]),
            WindowEvent::Resized { width, height } => match self.drawing_renderer() {
                Some(renderer) => if self.phase == Phase::Active && usable_size(width, height) {
                    let draw_config = renderer.draw_config.resized(width as i32, height as i32);
                    (
                        AppView {
                            renderer: Some(RendererView { draw_config, ..renderer }),
                            phase: Phase::Drawing { present: false },
                            now,
                            ..self
                        },
                        seq![
                            DirectiveView::ResizeSurface { width, height },
                            DirectiveView::Perform(
                                RendererView::resize_script(width as i32, height as i32),
                            ),
                            self.transform_request(now, draw_config),
                        ],
                    )
                } else {
                    (self, Seq::empty())
                },
                None => (self, Seq::empty()),
            },
        }
    }

    /// The event loop is about to wait: the next frame begins.
    pub open spec fn about_to_wait(self, now: u64) -> (AppView, Seq<DirectiveView>) {
        match self.drawing_renderer() {
            Some(renderer) => if self.phase == Phase::Active {
                (
                    AppView { phase: Phase::Drawing { present: true }, now, ..self },
                    seq![self.transform_request(now, renderer.draw_config)],
                )
            } else {
                (self, Seq::empty())
            },
            None => (self, Seq::empty()),
        }
    }

    /// The host has computed the transform of the frame under way: the
    /// frame is drawn and, if it is to be shown, another redraw is asked
    /// for and the buffers are swapped.
    pub open spec fn frame(self, transform: Seq<u32>) -> (AppView, Seq<DirectiveView>) {
        match self.drawing_renderer() {
            Some(renderer) => match self.phase {
                Phase::Drawing { present } => (
                    AppView { phase: Phase::Active, ..self },
                    if present {
                        seq![
                            DirectiveView::Perform(renderer.draw_script(transform)),
                            DirectiveView::RequestRedraw,
                            DirectiveView::SwapBuffers,
                        ]
                    } else {
                        seq![DirectiveView::Perform(renderer.draw_script(transform))]
                    },
                ),
                _ => (self, Seq::empty()),
            },
            None => (self, Seq::empty()),
        }
    }

    /// The platform takes the window away: the renderer gives back its
    /// objects, then the surface is destroyed. The context stays, and with
    /// it the configuration, for the next activation.
    pub open spec fn suspended(self) -> (AppView, Seq<DirectiveView>) {
        match self.renderer {
            Some(renderer) => if self.phase == Phase::Active || self.phase is Drawing {
                (
                    AppView { renderer: None, surface: false, phase: Phase::Inactive, ..self },
                    seq![
                        DirectiveView::Perform(renderer.dispose_script()),
                        DirectiveView::DropSurface,
                    ],
                )
            } else {
                (self, Seq::empty())
            },
            None => (self, Seq::empty()),
        }
    }

    /// What is given back when the event loop ends, in this order: what an
    /// initialisation under way holds, the renderer's objects, then the
    /// surface, then the context.
    pub open spec fn teardown(self) -> Seq<DirectiveView> {
        (match self.build {
            Some(build) => seq![DirectiveView::Perform(release_script(build.owned()))],
            None => Seq::empty(),
        }) + (match self.renderer {
            Some(renderer) => seq![DirectiveView::Perform(renderer.dispose_script())],
            None => Seq::empty(),
        }) + (if self.surface {
            seq![DirectiveView::DropSurface]
        } else {
            Seq::empty()
        }) + (if self.gl_context {
            seq![DirectiveView::ReleaseContext]
        } else {
            Seq::empty()
        })
    }

    /// The event loop ends: everything that is still held is given back.
    pub open spec fn exiting(self) -> (AppView, Seq<DirectiveView>) {
        if self.phase == Phase::Terminated {
            (self, Seq::empty())
        } else {
            (
                AppView {
                    renderer: None,
                    build: None,
                    surface: false,
                    gl_context: false,
                    phase: Phase::Terminated,
                    ..self
                },
                self.teardown(),
            )
        }
    }

    /// The exit code of the process: zero unless the run ended with an
    /// error.
    pub open spec fn exit_code(self) -> int {
        match self.exit_state {
            None => 0,
            Some(_) => 1,
        }
    }
}

/// An empty list of directives.
fn nothing() -> (directives: Vec<Directive>)
    ensures
        directives.deep_view() == Seq::<DirectiveView>::empty(),
{
    let directives: Vec<Directive> = Vec::new();
    assert(directives.deep_view() =~= Seq::<DirectiveView>::empty());
    directives
}

/// Adds one directive to a list.
fn direct(directives: &mut Vec<Directive>, directive: Directive)
    ensures
        final(directives).deep_view() == old(directives).deep_view().push(directive.deep_view()),
{
    directives.push(directive);
    assert(directives.deep_view() =~= old(directives).deep_view().push(directive.deep_view()));
}

/// A list of one directive.
fn only(directive: Directive) -> (directives: Vec<Directive>)
    ensures
        directives.deep_view() == seq![directive.deep_view()],
{
    let mut directives = nothing();
    direct(&mut directives, directive);
    assert(directives.deep_view() =~= seq![directive.deep_view()]);
    directives
}

/// The time from `earlier` to `later`, zero if the clock went back.
pub fn elapsed(earlier: u64, later: u64) -> (time: u64)
    ensures
        time == elapsed_between(earlier, later),
{
    if later >= earlier {
        later - earlier
    } else {
        0
    }
}

impl App {
    /// The application as it starts, at time `now`.
    pub fn new(config: ApplicationConfig, now: u64) -> (app: App)
        ensures
            app.deep_view() == AppView::initial(config, now),
            app.deep_view().wf(),
    {
        App {
            config,
            gl_display: GlDisplayCreationState::Builder,
            gl_context: false,
            surface: false,
            renderer: None,
            build: None,
            phase: Phase::Inactive,
            now,
            start_time: now,
            exit_state: Ok(()),
        }
    }

    /// Gives up with an error.
    fn fail(&mut self, error: RenderError) -> (directives: Vec<Directive>)
        ensures
            (final(self).deep_view(), directives.deep_view()) == old(self).deep_view().fail(
                error.deep_view(),
            ),
    {
        self.phase = Phase::Closing;
        self.exit_state = Err(error);
        only(Directive::Exit)
    }

    /// Activation begins.
    pub fn resumed(&mut self) -> (directives: Vec<Directive>)
        ensures
            (final(self).deep_view(), directives.deep_view()) == old(self).deep_view().resumed(),
    {
        match self.phase {
            Phase::Inactive => match self.gl_display {
                GlDisplayCreationState::Builder => {
                    self.phase = Phase::BuildingDisplay;
                    only(Directive::BuildDisplay)
                },
                GlDisplayCreationState::Created => {
                    self.phase = Phase::RecreatingWindow;
                    only(Directive::RecreateWindow)
                },
            },
            _ => nothing(),
        }
    }

    /// The host has answered a platform directive, at time `now`.
    pub fn answered(&mut self, succeeded: bool, now: u64) -> (directives: Vec<Directive>)
        ensures
            (final(self).deep_view(), directives.deep_view()) == old(self).deep_view().answered(
                succeeded,
                now,
            ),
    {
        match self.phase {
            Phase::BuildingDisplay => {
                if succeeded {
                    self.gl_display = GlDisplayCreationState::Created;
                    self.phase = Phase::CreatingContext(ContextStrategy::ModernCore);
                    only(Directive::CreateContext(ContextStrategy::ModernCore.attributes()))
                } else {
                    self.fail(RenderError::ConfigSelectionFailed)
                }
            },
            Phase::RecreatingWindow => {
                if succeeded {
                    self.phase = Phase::CreatingSurface;
                    only(Directive::CreateSurface)
                } else {
                    self.fail(RenderError::SurfaceCreationFailed)
                }
            },
            Phase::CreatingContext(strategy) => {
                match context_attempted(strategy, succeeded) {
                    ContextProgress::Created(_) => {
                        self.gl_context = true;
                        self.phase = Phase::CreatingSurface;
                        only(Directive::CreateSurface)
                    },
                    ContextProgress::Attempt(next) => {
                        self.phase = Phase::CreatingContext(next);
                        only(Directive::CreateContext(next.attributes()))
                    },
                    ContextProgress::Failed(error) => self.fail(error),
                }
            },
            Phase::CreatingSurface => {
                if succeeded {
                    self.surface = true;
                    self.phase = Phase::MakingCurrent;
                    only(Directive::MakeCurrent)
                } else {
                    self.fail(RenderError::SurfaceCreationFailed)
                }
            },
            Phase::MakingCurrent => {
                if !succeeded {
                    self.fail(RenderError::MakeCurrentFailed)
                } else if self.renderer.is_some() {
                    self.phase = Phase::SettingSwapInterval;
                    only(Directive::SetSwapInterval(1))
                } else {
                    let (build, request) = RendererBuild::begin(&self.config);
                    self.build = Some(build);
                    self.phase = Phase::Initializing;
                    only(Directive::Render(request))
                }
            },
            Phase::SettingSwapInterval => {
                self.phase = Phase::Active;
                self.now = now;
                nothing()
            },
            _ => nothing(),
        }
    }

    /// The host has answered a request of the renderer's initialisation.
    pub fn rendered(&mut self, event: Event) -> (directives: Vec<Directive>)
        ensures
            (final(self).deep_view(), directives.deep_view()) == old(self).deep_view().rendered(
                event.deep_view(),
            ),
    {
        match self.phase {
            Phase::Initializing => {},
            _ => {
                return nothing();
            },
        }
        match self.build.take() {
            None => nothing(),
            Some(build) => match build.advance(event) {
                Progress::Pending(next, request) => {
                    self.build = Some(next);
                    only(Directive::Render(request))
                },
                Progress::Ready(renderer, calls) => {
                    self.renderer = Some(renderer);
                    self.phase = Phase::SettingSwapInterval;
                    let mut directives = only(Directive::Perform(calls));
                    direct(&mut directives, Directive::SetSwapInterval(1));
                    assert(directives.deep_view() =~= seq![
                        DirectiveView::Perform(calls.deep_view()),
                        DirectiveView::SetSwapInterval(1),
                    ]);
                    directives
                },
                Progress::Failed(error, cleanup) => {
                    self.phase = Phase::Closing;
                    self.exit_state = Err(error);
                    let mut directives = only(Directive::Perform(cleanup));
                    direct(&mut directives, Directive::Exit);
                    assert(directives.deep_view() =~= seq![
                        DirectiveView::Perform(cleanup.deep_view()),
                        DirectiveView::Exit,
                    ]);
                    directives
                },
            },
        }
    }

    /// The window system has reported about the window, at time `now`.
    pub fn window_event(&mut self, event: WindowEvent, now: u64) -> (directives: Vec<Directive>)
        ensures
            (final(self).deep_view(), directives.deep_view()) == old(self).deep_view().window_event(
                event,
                now,
            ),
    {
        match event {
            WindowEvent::CloseRequested => only(Directive::Exit),
            WindowEvent::EscapePressed => only(Directive::Exit),
            WindowEvent::Resized { width, height } => {
                let active = match self.phase {
                    Phase::Active => true,
                    _ => false,
                };
                if !active || width == 0 || height == 0 || width > 0x7fff_ffff || height
                    > 0x7fff_ffff {
                    return nothing();
                }
                match self.renderer.take() {
                    None => nothing(),
                    Some(renderer) => {
                        if !renderer.is_ready() {
                            self.renderer = Some(renderer);
                            return nothing();
                        }
                        let mut renderer = renderer;
                        let calls = renderer.resize(width as i32, height as i32);
                        let request = Directive::ComputeTransform {
                            elapsed: elapsed(self.start_time, now),
                            frame_delta: elapsed(self.now, now),
                            draw_config: renderer.draw_config,
                        };
                        self.renderer = Some(renderer);
                        self.phase = Phase::Drawing { present: false };
                        self.now = now;
                        let mut directives = only(Directive::ResizeSurface { width, height });
                        direct(&mut directives, Directive::Perform(calls));
                        direct(&mut directives, request);
                        assert(directives.deep_view() =~= old(self).deep_view().window_event(
                            event,
                            now,
                        ).1);
                        directives
                    },
                }
            },
        }
    }

    /// The event loop is about to wait, at time `now`.
    pub fn about_to_wait(&mut self, now: u64) -> (directives: Vec<Directive>)
        ensures
            (final(self).deep_view(), directives.deep_view()) == old(self).deep_view().about_to_wait(
                now,
            ),
    {
        match self.phase {
            Phase::Active => {},
            _ => {
                return nothing();
            },
        }
        let draw_config = match &self.renderer {
            None => {
                return nothing();
            },
            Some(renderer) => {
                if !renderer.is_ready() {
                    return nothing();
                }
                renderer.draw_config
            },
        };
        let request = Directive::ComputeTransform {
            elapsed: elapsed(self.start_time, now),
            frame_delta: elapsed(self.now, now),
            draw_config,
        };
        self.phase = Phase::Drawing { present: true };
        self.now = now;
        only(request)
    }

    /// The host has computed the transform of the frame under way.
    pub fn frame(&mut self, transform: [u32; 16]) -> (directives: Vec<Directive>)
        ensures
            (final(self).deep_view(), directives.deep_view()) == old(self).deep_view().frame(
                transform@,
            ),
    {
        let present = match self.phase {
            Phase::Drawing { present } => present,
            _ => {
                return nothing();
            },
        };
        let calls = match &self.renderer {
            None => {
                return nothing();
            },
            Some(renderer) => {
                if !renderer.is_ready() {
                    return nothing();
                }
                renderer.draw(transform)
            },
        };
        self.phase = Phase::Active;
        let mut directives = only(Directive::Perform(calls));
        if present {
            direct(&mut directives, Directive::RequestRedraw);
            direct(&mut directives, Directive::SwapBuffers);
        }
        assert(directives.deep_view() =~= old(self).deep_view().frame(transform@).1);
        directives
    }

    /// The platform takes the window away.
    pub fn suspended(&mut self) -> (directives: Vec<Directive>)
        ensures
            (final(self).deep_view(), directives.deep_view()) == old(self).deep_view().suspended(),
    {
        match self.phase {
            Phase::Active => {},
            Phase::Drawing { .. } => {},
            _ => {
                return nothing();
            },
        }
        match self.renderer.take() {
            None => nothing(),
            Some(renderer) => {
                let mut renderer = renderer;
                let calls = renderer.dispose();
                self.surface = false;
                self.phase = Phase::Inactive;
                let mut directives = only(Directive::Perform(calls));
                direct(&mut directives, Directive::DropSurface);
                assert(directives.deep_view() =~= old(self).deep_view().suspended().1);
                directives
            },
        }
    }

    /// The event loop ends.
    pub fn exiting(&mut self) -> (directives: Vec<Directive>)
        ensures
            (final(self).deep_view(), directives.deep_view()) == old(self).deep_view().exiting(),
    {
        match self.phase {
            Phase::Terminated => {
                return nothing();
            },
            _ => {},
        }
        let mut directives = nothing();
        match self.build.take() {
            None => {},
            Some(build) => {
                direct(&mut directives, Directive::Perform(build.abandon()));
            },
        }
        match self.renderer.take() {
            None => {},
            Some(renderer) => {
                let mut renderer = renderer;
                let calls = renderer.dispose();
                direct(&mut directives, Directive::Perform(calls));
            },
        }
        if self.surface {
            direct(&mut directives, Directive::DropSurface);
        }
        if self.gl_context {
            direct(&mut directives, Directive::ReleaseContext);
        }
        self.surface = false;
        self.gl_context = false;
        self.phase = Phase::Terminated;
        assert(directives.deep_view() =~= old(self).deep_view().teardown());
        directives
    }

    /// The exit code of the process: zero unless the run ended with an
    /// error.
    pub fn exit_code(&self) -> (code: i32)
        ensures
            code == self.deep_view().exit_code(),
    {
        match &self.exit_state {
            Ok(_) => 0,
            Err(_) => 1,
        }
    }
}

/// The order of the lifecycle holds throughout: whatever happens, a
/// surface is held only with a context, a renderer only with a surface, and
/// frames are drawn only with a renderer; and when the application has
/// terminated, the host holds nothing any more.
pub proof fn lemma_lifecycle_order_kept(
    app: AppView,
    succeeded: bool,
    now: u64,
    event: EventView,
    window: WindowEvent,
    transform: Seq<u32>,
)
    requires
        app.wf(),
    ensures
        app.resumed().0.wf(),
        app.answered(succeeded, now).0.wf(),
        app.rendered(event).0.wf(),
        app.window_event(window, now).0.wf(),
        app.about_to_wait(now).0.wf(),
        app.frame(transform).0.wf(),
        app.suspended().0.wf(),
        app.exiting().0.wf(),
        app.exiting().0.renderer is None && app.exiting().0.build is None,
{
    match app.build {
        Some(build) => {
            crate::renderer_build::lemma_renderer_step_keeps_wf(build, event);
        },
        None => {},
    }
}

/// An active application draws: every time the event loop is about to
/// wait, the host is asked for the transform of the frame, and when it has
/// answered, the frame is drawn, another redraw is asked for and the
/// buffers are swapped.
pub proof fn lemma_active_application_draws(app: AppView, now: u64, transform: Seq<u32>)
    requires
        app.wf(),
        app.phase == Phase::Active,
    ensures
        ({
            let renderer = app.renderer.unwrap();
            let (waiting, asked) = app.about_to_wait(now);
            let (after, shown) = waiting.frame(transform);
            &&& asked == seq![app.transform_request(now, renderer.draw_config)]
            &&& shown == seq![
                DirectiveView::Perform(renderer.draw_script(transform)),
                DirectiveView::RequestRedraw,
                DirectiveView::SwapBuffers,
            ]
            &&& after.phase == Phase::Active
            &&& after.wf()
        }),
{
}

/// The configuration is chosen once. The display is built, and with it
/// the configuration chosen, only by an activation that finds no display;
/// once a display is there it stays, and every later activation builds a
/// window only.
pub proof fn lemma_configuration_chosen_once(
    app: AppView,
    succeeded: bool,
    now: u64,
    event: EventView,
    window: WindowEvent,
    transform: Seq<u32>,
)
    requires
        app.gl_display == GlDisplayCreationState::Created,
    ensures
        app.resumed().0.gl_display == GlDisplayCreationState::Created,
        app.answered(succeeded, now).0.gl_display == GlDisplayCreationState::Created,
        app.rendered(event).0.gl_display == GlDisplayCreationState::Created,
        app.window_event(window, now).0.gl_display == GlDisplayCreationState::Created,
        app.about_to_wait(now).0.gl_display == GlDisplayCreationState::Created,
        app.frame(transform).0.gl_display == GlDisplayCreationState::Created,
        app.suspended().0.gl_display == GlDisplayCreationState::Created,
        app.exiting().0.gl_display == GlDisplayCreationState::Created,
        app.phase == Phase::Inactive ==> app.resumed().1 == seq![DirectiveView::RecreateWindow],
        app.suspended().0.gl_context == app.gl_context,
{
}

/// A degenerate size is ignored by the application altogether: nothing
/// changes, and the host is told to do nothing, neither to resize the
/// surface nor to draw.
pub proof fn lemma_degenerate_size_ignored(app: AppView, width: u32, height: u32, now: u64)
    requires
        width == 0 || height == 0,
    ensures
        app.window_event(WindowEvent::Resized { width, height }, now) == (
            app,
            Seq::<DirectiveView>::empty(),
        ),
{
}

/// Drawing does not touch the renderer: from the beginning of a frame to
/// its end the configuration of the projection, aspect ratio and clip
/// planes, stays as it is, whatever the time and the transform.
pub proof fn lemma_frames_leave_projection(app: AppView, now: u64, transform: Seq<u32>)
    ensures
        app.about_to_wait(now).0.renderer == app.renderer,
        app.frame(transform).0.renderer == app.renderer,
        app.about_to_wait(now).0.frame(transform).0.renderer == app.renderer,
{
}

/// A failed initialisation leaves nothing with the driver and ends the
/// run: the host performs the calls that release everything that the
/// initialisation held, the application keeps no renderer, and the error is
/// the outcome of the run.
pub proof fn lemma_failed_initialisation_cleans_up(app: AppView, event: EventView)
    requires
        app.phase == Phase::Initializing,
        app.build is Some,
        app.build.unwrap().step(event) is Failed,
    ensures
        ({
            let build = app.build.unwrap();
            let (after, directives) = app.rendered(event);
            &&& directives == seq![
                DirectiveView::Perform(release_script(build.owned() + build.gains(event))),
                DirectiveView::Exit,
            ]
            &&& after.build is None
            &&& after.renderer == app.renderer
            &&& after.exit_state is Some
            &&& after.exit_code() != 0
        }),
{
    crate::renderer_build::lemma_renderer_step_keeps_ledger(app.build.unwrap(), event);
}

} // verus!
