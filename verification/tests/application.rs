use render_core::application::{App, Directive, GlDisplayCreationState, Phase, WindowEvent};
use render_core::context::{ContextApi, ContextAttributes};
use render_core::error::RenderError;
use render_core::gl;
use render_core::gl::GlCall;
use render_core::protocol::{Command, Event, Request};
use render_core::renderer::AspectRatio;
use render_core::renderer_build::ApplicationConfig;
use render_core::shader::ShaderType;
use render_core::vertex_buffer_objects::ByteOrder;

/// A host that does what it is told and keeps a record of it. Its platform
/// refuses what the test says it refuses.
struct Host {
    done: Vec<String>,
    next: u32,
    live: Vec<u32>,
    display_builds: bool,
    contexts: [bool; 3],
    context_attempts: Vec<ContextAttributes>,
    surface_builds: bool,
    current_works: bool,
    swap_interval_works: bool,
    shaders_readable: bool,
    exit_asked: bool,
}

impl Host {
    fn new() -> Host {
        Host {
            done: Vec::new(),
            next: 1,
            live: Vec::new(),
            display_builds: true,
            contexts: [true, true, true],
            context_attempts: Vec::new(),
            surface_builds: true,
            current_works: true,
            swap_interval_works: true,
            shaders_readable: true,
            exit_asked: false,
        }
    }

    fn perform(&mut self, command: &Command) -> Event {
        match command.call {
            GlCall::CreateShader { .. }
            | GlCall::CreateProgram
            | GlCall::CreateTextures { .. }
            | GlCall::CreateVertexArrays
            | GlCall::CreateBuffers => {
                let id = self.next;
                self.next += 1;
                self.live.push(id);
                Event::Id(id)
            }
            GlCall::DeleteShader { shader: id }
            | GlCall::DeleteProgram { program: id }
            | GlCall::DeleteTextures { texture: id }
            | GlCall::DeleteVertexArrays { array: id }
            | GlCall::DeleteBuffers { buffer: id } => {
                let before = self.live.len();
                self.live.retain(|live| *live != id);
                assert_eq!(before, self.live.len() + 1, "deleted an object that does not live");
                Event::Done
            }
            GlCall::GetShaderiv { .. } | GlCall::GetProgramiv { .. } => Event::Value(1),
            _ => Event::Done,
        }
    }

    fn run(&mut self, calls: &Vec<Command>) -> Event {
        let mut event = Event::Done;
        for command in calls {
            event = self.perform(command);
        }
        event
    }

    fn serve(&mut self, request: &Request) -> Event {
        match request {
            Request::Gl(calls) => self.run(calls),
            Request::ReadText(_) => {
                if self.shaders_readable {
                    Event::FileText(Some(String::from("void main() { }")))
                } else {
                    Event::FileText(None)
                }
            }
            Request::ReadBytes(_) => {
                let picture = image::RgbImage::from_raw(1, 1, vec![1, 2, 3]).unwrap();
                let mut file = std::io::Cursor::new(Vec::new());
                picture.write_to(&mut file, image::ImageFormat::Png).unwrap();
                Event::FileBytes(Some(file.into_inner()))
            }
        }
    }

    /// Carries out directives until the application has nothing more to
    /// say, answering as the platform would.
    fn carry_out(&mut self, app: &mut App, directives: Vec<Directive>, now: u64) {
        let mut pending = directives;
        loop {
            let mut next = Vec::new();
            for directive in pending {
                match directive {
                    Directive::BuildDisplay => {
                        self.done.push(String::from("build display"));
                        next = app.answered(self.display_builds, now);
                    }
                    Directive::RecreateWindow => {
                        self.done.push(String::from("recreate window"));
                        next = app.answered(true, now);
                    }
                    Directive::CreateContext(attributes) => {
                        self.done.push(String::from("create context"));
                        let works = self.contexts[self.context_attempts.len() % 3];
                        self.context_attempts.push(attributes);
                        next = app.answered(works, now);
                    }
                    Directive::CreateSurface => {
                        self.done.push(String::from("create surface"));
                        next = app.answered(self.surface_builds, now);
                    }
                    Directive::MakeCurrent => {
                        self.done.push(String::from("make current"));
                        next = app.answered(self.current_works, now);
                    }
                    Directive::Render(request) => {
                        let event = self.serve(&request);
                        next = app.rendered(event);
                    }
                    Directive::Perform(calls) => {
                        self.done.push(format!("perform {}", calls.len()));
                        self.run(&calls);
                    }
                    Directive::SetSwapInterval(interval) => {
                        self.done.push(format!("swap interval {}", interval));
                        next = app.answered(self.swap_interval_works, now);
                    }
                    Directive::ResizeSurface { width, height } => {
                        self.done.push(format!("resize surface {}x{}", width, height));
                    }
                    Directive::ComputeTransform { elapsed, frame_delta, draw_config } => {
                        self.done.push(format!(
                            "transform at {} after {} for {}:{}",
                            elapsed,
                            frame_delta,
                            draw_config.display_aspect.numerator,
                            draw_config.display_aspect.denominator
                        ));
                        next = app.frame([elapsed as u32; 16]);
                    }
                    Directive::RequestRedraw => self.done.push(String::from("request redraw")),
                    Directive::SwapBuffers => self.done.push(String::from("swap buffers")),
                    Directive::DropSurface => self.done.push(String::from("drop surface")),
                    Directive::ReleaseContext => self.done.push(String::from("release context")),
                    Directive::Exit => {
                        self.done.push(String::from("exit"));
                        self.exit_asked = true;
                    }
                }
            }
            if next.is_empty() {
                return;
            }
            pending = next;
        }
    }
}

fn settings() -> ApplicationConfig {
    ApplicationConfig {
        diagnostics: false,
        byte_order: ByteOrder::LittleEndian,
        wireframe_overlay: false,
    }
}

fn activate(host: &mut Host, app: &mut App, now: u64) {
    let directives = app.resumed();
    host.carry_out(app, directives, now);
}

#[test]
fn application_starts_inactive_and_holds_nothing() {
    let app = App::new(settings(), 1000);
    assert_eq!(app.phase, Phase::Inactive);
    assert_eq!(app.gl_display, GlDisplayCreationState::Builder);
    assert!(!app.gl_context);
    assert!(!app.surface);
    assert!(app.renderer.is_none());
    assert!(app.build.is_none());
    assert_eq!(app.start_time, 1000);
    assert_eq!(app.now, 1000);
    assert_eq!(app.exit_state, Ok(()));
    assert_eq!(app.exit_code(), 0);
}

#[test]
fn activation_builds_everything_in_order() {
    let mut host = Host::new();
    let mut app = App::new(settings(), 0);
    activate(&mut host, &mut app, 40);
    assert_eq!(
        host.done,
        vec![
            "build display",
            "create context",
            "create surface",
            "make current",
            "perform 10",
            "swap interval 1"
        ]
    );
    assert_eq!(app.phase, Phase::Active);
    assert_eq!(app.gl_display, GlDisplayCreationState::Created);
    assert!(app.gl_context);
    assert!(app.surface);
    assert!(app.renderer.as_ref().unwrap().is_ready());
    assert!(app.build.is_none());
    assert_eq!(app.now, 40);
    assert_eq!(host.live.len(), 6);
    assert_eq!(
        host.context_attempts,
        vec![ContextAttributes { api: ContextApi::Default, version: None }]
    );
}

#[test]
fn context_is_created_by_the_first_strategy_that_works() {
    let mut host = Host::new();
    host.contexts = [false, false, true];
    let mut app = App::new(settings(), 0);
    activate(&mut host, &mut app, 0);
    assert_eq!(
        host.context_attempts,
        vec![
            ContextAttributes { api: ContextApi::Default, version: None },
            ContextAttributes { api: ContextApi::Gles, version: None },
            ContextAttributes { api: ContextApi::OpenGl, version: Some((2, 1)) },
        ]
    );
    assert_eq!(app.phase, Phase::Active);
}

#[test]
fn run_ends_when_no_context_can_be_created() {
    let mut host = Host::new();
    host.contexts = [false, false, false];
    let mut app = App::new(settings(), 0);
    activate(&mut host, &mut app, 0);
    assert_eq!(host.context_attempts.len(), 3);
    assert!(host.exit_asked);
    assert_eq!(app.phase, Phase::Closing);
    assert_eq!(app.exit_state, Err(RenderError::ContextCreationFailed));
    assert_eq!(app.exit_code(), 1);
    assert!(!app.gl_context);
    let directives = app.exiting();
    assert!(directives.is_empty());
    assert_eq!(app.phase, Phase::Terminated);
}

#[test]
fn run_ends_when_the_display_cannot_be_built() {
    let mut host = Host::new();
    host.display_builds = false;
    let mut app = App::new(settings(), 0);
    activate(&mut host, &mut app, 0);
    assert_eq!(host.done, vec!["build display", "exit"]);
    assert_eq!(app.exit_state, Err(RenderError::ConfigSelectionFailed));
    assert_eq!(app.gl_display, GlDisplayCreationState::Builder);
}

#[test]
fn run_ends_when_the_surface_cannot_be_built() {
    let mut host = Host::new();
    host.surface_builds = false;
    let mut app = App::new(settings(), 0);
    activate(&mut host, &mut app, 0);
    assert_eq!(app.exit_state, Err(RenderError::SurfaceCreationFailed));
    assert!(host.exit_asked);
    assert!(app.gl_context);
    assert!(!app.surface);
    host.done.clear();
    let directives = app.exiting();
    host.carry_out(&mut app, directives, 0);
    assert_eq!(host.done, vec!["release context"]);
}

#[test]
fn run_ends_when_the_context_cannot_be_made_current() {
    let mut host = Host::new();
    host.current_works = false;
    let mut app = App::new(settings(), 0);
    activate(&mut host, &mut app, 0);
    assert_eq!(app.exit_state, Err(RenderError::MakeCurrentFailed));
    assert!(host.live.is_empty());
    host.done.clear();
    let directives = app.exiting();
    host.carry_out(&mut app, directives, 0);
    assert_eq!(host.done, vec!["drop surface", "release context"]);
}

#[test]
fn failed_initialisation_ends_the_run_and_leaves_no_object() {
    let mut host = Host::new();
    host.shaders_readable = false;
    let mut app = App::new(settings(), 0);
    activate(&mut host, &mut app, 0);
    assert_eq!(app.exit_state, Err(RenderError::ShaderReadError { stage: ShaderType::VERTEX }));
    assert_eq!(app.exit_code(), 1);
    assert!(host.exit_asked);
    assert!(host.live.is_empty());
    assert!(app.renderer.is_none());
    assert!(app.build.is_none());
    assert_eq!(app.phase, Phase::Closing);
}

#[test]
fn refused_swap_interval_does_no_harm() {
    let mut host = Host::new();
    host.swap_interval_works = false;
    let mut app = App::new(settings(), 0);
    activate(&mut host, &mut app, 5);
    assert_eq!(app.phase, Phase::Active);
    assert_eq!(app.exit_state, Ok(()));
    assert!(!host.exit_asked);
}

#[test]
fn frame_is_timed_drawn_and_shown() {
    let mut host = Host::new();
    let mut app = App::new(settings(), 100);
    activate(&mut host, &mut app, 150);
    host.done.clear();
    let directives = app.about_to_wait(400);
    assert_eq!(app.phase, Phase::Drawing { present: true });
    host.carry_out(&mut app, directives, 400);
    assert_eq!(
        host.done,
        vec!["transform at 300 after 250 for 300:300", "perform 6", "request redraw", "swap buffers"]
    );
    assert_eq!(app.phase, Phase::Active);
    assert_eq!(app.now, 400);
    host.done.clear();
    let directives = app.about_to_wait(416);
    host.carry_out(&mut app, directives, 416);
    assert_eq!(host.done[0], "transform at 316 after 16 for 300:300");
}

#[test]
fn frame_before_activation_is_not_drawn() {
    let mut app = App::new(settings(), 0);
    assert!(app.about_to_wait(10).is_empty());
    assert!(app.frame([0; 16]).is_empty());
    assert!(app.rendered(Event::Id(1)).is_empty());
    assert!(app.answered(true, 10).is_empty());
    assert!(app.suspended().is_empty());
    assert_eq!(app.phase, Phase::Inactive);
    assert_eq!(app.now, 0);
}

#[test]
fn new_size_goes_to_surface_and_renderer_and_a_frame_is_drawn() {
    let mut host = Host::new();
    let mut app = App::new(settings(), 0);
    activate(&mut host, &mut app, 0);
    host.done.clear();
    let directives = app.window_event(WindowEvent::Resized { width: 600, height: 300 }, 20);
    host.carry_out(&mut app, directives, 20);
    assert_eq!(
        host.done,
        vec![
            "resize surface 600x300",
            "perform 1",
            "transform at 20 after 20 for 600:300",
            "perform 6"
        ]
    );
    assert_eq!(
        app.renderer.as_ref().unwrap().draw_config.display_aspect,
        AspectRatio { numerator: 600, denominator: 300 }
    );
    assert_eq!(app.phase, Phase::Active);
}

#[test]
fn empty_size_is_ignored_by_surface_and_renderer() {
    let mut host = Host::new();
    let mut app = App::new(settings(), 0);
    activate(&mut host, &mut app, 0);
    let directives = app.window_event(WindowEvent::Resized { width: 300, height: 300 }, 1);
    host.carry_out(&mut app, directives, 1);
    let directives = app.window_event(WindowEvent::Resized { width: 600, height: 300 }, 2);
    host.carry_out(&mut app, directives, 2);
    let before = app.renderer.as_ref().unwrap().draw_config;
    host.done.clear();
    for (width, height) in [(0, 0), (0, 300), (600, 0), (0x8000_0000, 10)] {
        let directives = app.window_event(WindowEvent::Resized { width, height }, 3);
        assert!(directives.is_empty());
        assert_eq!(app.renderer.as_ref().unwrap().draw_config, before);
        assert_eq!(app.now, 2);
        assert_eq!(app.phase, Phase::Active);
    }
    assert!(host.done.is_empty());
    let directives = app.window_event(WindowEvent::Resized { width: 150, height: 150 }, 4);
    host.carry_out(&mut app, directives, 4);
    let aspect = app.renderer.as_ref().unwrap().draw_config.display_aspect;
    assert_eq!(aspect.numerator as f32 / aspect.denominator as f32, 1.0);
}

#[test]
fn close_request_and_escape_key_ask_for_exit() {
    let mut host = Host::new();
    let mut app = App::new(settings(), 0);
    activate(&mut host, &mut app, 0);
    assert!(matches!(
        app.window_event(WindowEvent::CloseRequested, 1).as_slice(),
        [Directive::Exit]
    ));
    assert!(matches!(
        app.window_event(WindowEvent::EscapePressed, 1).as_slice(),
        [Directive::Exit]
    ));
    assert_eq!(app.phase, Phase::Active);
    assert_eq!(app.exit_state, Ok(()));
}

#[test]
fn suspension_keeps_the_context_and_resumption_reuses_the_configuration() {
    let mut host = Host::new();
    let mut app = App::new(settings(), 0);
    activate(&mut host, &mut app, 0);
    host.done.clear();
    let directives = app.suspended();
    host.carry_out(&mut app, directives, 10);
    assert_eq!(host.done, vec!["perform 6", "drop surface"]);
    assert!(host.live.is_empty());
    assert_eq!(app.phase, Phase::Inactive);
    assert!(app.gl_context);
    assert!(!app.surface);
    assert!(app.renderer.is_none());
    assert_eq!(app.gl_display, GlDisplayCreationState::Created);

    host.done.clear();
    activate(&mut host, &mut app, 90);
    assert_eq!(
        host.done,
        vec!["recreate window", "create surface", "make current", "perform 10", "swap interval 1"]
    );
    assert_eq!(host.context_attempts.len(), 1);
    assert_eq!(app.phase, Phase::Active);
    assert_eq!(app.now, 90);
    assert_eq!(app.start_time, 0);
    assert_eq!(host.live.len(), 6);
}

#[test]
fn exit_gives_back_renderer_surface_and_context_in_that_order() {
    let mut host = Host::new();
    let mut app = App::new(settings(), 0);
    activate(&mut host, &mut app, 0);
    host.done.clear();
    let directives = app.exiting();
    host.carry_out(&mut app, directives, 10);
    assert_eq!(host.done, vec!["perform 6", "drop surface", "release context"]);
    assert!(host.live.is_empty());
    assert_eq!(app.phase, Phase::Terminated);
    assert!(!app.gl_context);
    assert!(!app.surface);
    assert!(app.renderer.is_none());
    assert_eq!(app.exit_code(), 0);
    assert!(app.exiting().is_empty());
    assert!(app.resumed().is_empty());
}

#[test]
fn exit_during_initialisation_gives_back_what_was_made() {
    let mut host = Host::new();
    let mut app = App::new(settings(), 0);
    let mut directives = app.resumed();
    for outcome in [true, true, true, true] {
        assert_eq!(directives.len(), 1);
        directives = app.answered(outcome, 0);
    }
    assert_eq!(app.phase, Phase::Initializing);
    for _ in 0..4 {
        let event = match &directives[0] {
            Directive::Render(request) => host.serve(request),
            _ => panic!("the initialisation asks the renderer's requests"),
        };
        directives = app.rendered(event);
    }
    assert_eq!(host.live.len(), 2);
    let directives = app.exiting();
    host.carry_out(&mut app, directives, 0);
    assert!(host.live.is_empty());
    assert_eq!(host.done, vec!["perform 2", "drop surface", "release context"]);
    assert_eq!(gl::TRUE, 1);
}
