use render_core::error::RenderError;
use render_core::gl;
use render_core::gl::GlCall;
use render_core::program::{Program, ProgramBuild};
use render_core::protocol::{Command, Event, Progress, Request};
use render_core::renderer::PerFrameData;
use render_core::shader::{Shader, ShaderBuild, ShaderType};
use render_core::texture::{DecodedImage, Texture, TextureBuild};
use render_core::vertex_array_objects::{VertexArrayBuild, VertexArrayObjects};
use render_core::vertex_buffer_objects::{
    BufferBuild, ByteOrder, UniformBlock, VertexBufferObjects,
};

/// A driver that does nothing but count: it hands out names, remembers
/// which objects live, and answers status queries as it is told to.
struct Driver {
    next: u32,
    live: Vec<u32>,
    calls: Vec<GlCall>,
    compile_status: i32,
    link_status: i32,
    log: String,
    text: Option<String>,
    bytes: Option<Vec<u8>>,
}

impl Driver {
    fn new() -> Driver {
        Driver {
            next: 1,
            live: Vec::new(),
            calls: Vec::new(),
            compile_status: 1,
            link_status: 1,
            log: String::new(),
            text: Some(String::from("void main() {}")),
            bytes: None,
        }
    }

    fn create(&mut self) -> Event {
        let id = self.next;
        self.next += 1;
        self.live.push(id);
        Event::Id(id)
    }

    fn delete(&mut self, id: u32) -> Event {
        let before = self.live.len();
        self.live.retain(|live| *live != id);
        assert_eq!(before, self.live.len() + 1, "deleted an object that does not live");
        Event::Done
    }

    fn perform(&mut self, command: &Command) -> Event {
        self.calls.push(command.call);
        match command.call {
            GlCall::CreateShader { .. }
            | GlCall::CreateProgram
            | GlCall::CreateTextures { .. }
            | GlCall::CreateVertexArrays
            | GlCall::CreateBuffers => self.create(),
            GlCall::DeleteShader { shader } => self.delete(shader),
            GlCall::DeleteProgram { program } => self.delete(program),
            GlCall::DeleteTextures { texture } => self.delete(texture),
            GlCall::DeleteVertexArrays { array } => self.delete(array),
            GlCall::DeleteBuffers { buffer } => self.delete(buffer),
            GlCall::GetShaderiv { pname, .. } => {
                if pname == gl::COMPILE_STATUS {
                    Event::Value(self.compile_status)
                } else {
                    Event::Value(self.log.len() as i32 + 1)
                }
            }
            GlCall::GetProgramiv { pname, .. } => {
                if pname == gl::LINK_STATUS {
                    Event::Value(self.link_status)
                } else {
                    Event::Value(self.log.len() as i32 + 1)
                }
            }
            GlCall::GetShaderInfoLog { .. } | GlCall::GetProgramInfoLog { .. } => {
                Event::Log(self.log.clone())
            }
            _ => Event::Done,
        }
    }

    fn run(&mut self, calls: &Vec<Command>) -> Event {
        let mut event = Event::Done;
        for command in calls {
            event = self.perform(command);
        }
        event
    }

    fn serve(&mut self, request: &Request) -> Event {
        match request {
            Request::Gl(calls) => self.run(calls),
            Request::ReadText(_) => Event::FileText(self.text.clone()),
            Request::ReadBytes(_) => Event::FileBytes(self.bytes.clone()),
        }
    }
}

fn build_shader(driver: &mut Driver, stage: ShaderType) -> Result<Shader, RenderError> {
    let mut progress = Shader::new(stage, "shaders/some.glsl");
    loop {
        match progress {
            Progress::Pending(machine, request) => {
                let event = driver.serve(&request);
                progress = machine.advance(event);
            }
            Progress::Ready(shader, calls) => {
                driver.run(&calls);
                return Ok(shader);
            }
            Progress::Failed(error, cleanup) => {
                driver.run(&cleanup);
                return Err(error);
            }
        }
    }
}

fn build_program(
    driver: &mut Driver,
    vertex: &Shader,
    fragment: &Shader,
) -> Result<Program, RenderError> {
    let mut progress = Program::new(vertex, fragment);
    loop {
        match progress {
            Progress::Pending(machine, request) => {
                let event = driver.serve(&request);
                progress = machine.advance(event);
            }
            Progress::Ready(program, calls) => {
                driver.run(&calls);
                return Ok(program);
            }
            Progress::Failed(error, cleanup) => {
                driver.run(&cleanup);
                return Err(error);
            }
        }
    }
}

fn build_texture(driver: &mut Driver, path: &str) -> Result<(Texture, Vec<Command>), RenderError> {
    let mut progress = Texture::new(path);
    loop {
        match progress {
            Progress::Pending(machine, request) => {
                let event = driver.serve(&request);
                progress = machine.advance(event);
            }
            Progress::Ready(texture, calls) => {
                driver.run(&calls);
                return Ok((texture, calls));
            }
            Progress::Failed(error, cleanup) => {
                driver.run(&cleanup);
                return Err(error);
            }
        }
    }
}

fn png_of(width: u32, height: u32, rgba: Vec<u8>) -> Vec<u8> {
    let picture = image::RgbaImage::from_raw(width, height, rgba).unwrap();
    let mut file = std::io::Cursor::new(Vec::new());
    picture.write_to(&mut file, image::ImageFormat::Png).unwrap();
    file.into_inner()
}

#[test]
fn shader_stages_map_to_native_constants() {
    assert_eq!(ShaderType::VERTEX.native(), 0x8B31);
    assert_eq!(ShaderType::FRAGMENT.native(), 0x8B30);
}

#[test]
fn shader_build_asks_for_object_then_file_then_compiles() {
    let progress = Shader::new(ShaderType::VERTEX, "shaders/v.glsl");
    let (machine, request) = match progress {
        Progress::Pending(machine, request) => (machine, request),
        _ => panic!("a build starts pending"),
    };
    assert_eq!(request, Request::Gl(vec![Command::plain(GlCall::CreateShader { stage: 0x8B31 })]));
    let (machine, request) = match machine.advance(Event::Id(7)) {
        Progress::Pending(machine, request) => (machine, request),
        _ => panic!("the file is read next"),
    };
    assert_eq!(request, Request::ReadText(String::from("shaders/v.glsl")));
    let (machine, request) = match machine.advance(Event::FileText(Some(String::from("ab")))) {
        Progress::Pending(machine, request) => (machine, request),
        _ => panic!("the source is compiled next"),
    };
    assert_eq!(
        request,
        Request::Gl(vec![
            Command::with_data(GlCall::ShaderSource { shader: 7 }, vec![b'a', b'b']),
            Command::plain(GlCall::CompileShader { shader: 7 }),
            Command::plain(GlCall::GetShaderiv { shader: 7, pname: gl::COMPILE_STATUS }),
        ])
    );
    match machine.advance(Event::Value(1)) {
        Progress::Ready(shader, calls) => {
            assert_eq!(shader.handle, 7);
            assert_eq!(shader.shader_type, ShaderType::VERTEX);
            assert!(!shader.released);
            assert!(calls.is_empty());
        }
        _ => panic!("a compiled shader is ready"),
    }
}

#[test]
fn shader_with_unreadable_source_fails_and_deletes_its_object() {
    let mut driver = Driver::new();
    driver.text = None;
    let outcome = build_shader(&mut driver, ShaderType::FRAGMENT);
    assert_eq!(outcome, Err(RenderError::ShaderReadError { stage: ShaderType::FRAGMENT }));
    assert!(driver.live.is_empty());
    assert_eq!(driver.calls.last(), Some(&GlCall::DeleteShader { shader: 1 }));
}

#[test]
fn shader_source_with_nul_byte_is_rejected() {
    let mut driver = Driver::new();
    driver.text = Some(String::from("void\0main"));
    let outcome = build_shader(&mut driver, ShaderType::VERTEX);
    assert_eq!(outcome, Err(RenderError::ShaderSourceError { stage: ShaderType::VERTEX }));
    assert!(driver.live.is_empty());
    assert!(!driver.calls.contains(&GlCall::CompileShader { shader: 1 }));
}

#[test]
fn shader_compile_failure_carries_the_drivers_log() {
    let mut driver = Driver::new();
    driver.compile_status = 0;
    driver.log = String::from("0:1: syntax error");
    let outcome = build_shader(&mut driver, ShaderType::VERTEX);
    assert_eq!(
        outcome,
        Err(RenderError::ShaderCompileError {
            stage: ShaderType::VERTEX,
            log: String::from("0:1: syntax error"),
        })
    );
    assert!(driver.live.is_empty());
    assert!(driver.calls.contains(&GlCall::GetShaderInfoLog { shader: 1, capacity: 18 }));
}

#[test]
fn shader_compile_failure_without_log_reads_no_log() {
    let mut driver = Driver::new();
    driver.compile_status = 0;
    let outcome = build_shader(&mut driver, ShaderType::VERTEX);
    assert_eq!(
        outcome,
        Err(RenderError::ShaderCompileError { stage: ShaderType::VERTEX, log: String::new() })
    );
    assert!(driver.live.is_empty());
    assert!(driver.calls.iter().all(|call| !matches!(call, GlCall::GetShaderInfoLog { .. })));
}

#[test]
fn shader_status_other_than_true_is_failure() {
    let machine = match Shader::new(ShaderType::VERTEX, "v") {
        Progress::Pending(machine, _) => machine,
        _ => panic!("a build starts pending"),
    };
    let machine = match machine.advance(Event::Id(3)) {
        Progress::Pending(machine, _) => machine,
        _ => panic!(),
    };
    let machine = match machine.advance(Event::FileText(Some(String::from("x")))) {
        Progress::Pending(machine, _) => machine,
        _ => panic!(),
    };
    match machine.advance(Event::Value(2)) {
        Progress::Pending(_, request) => assert_eq!(
            request,
            Request::Gl(vec![Command::plain(GlCall::GetShaderiv {
                shader: 3,
                pname: gl::INFO_LOG_LENGTH
            })])
        ),
        _ => panic!("the log length is asked for"),
    }
}

#[test]
fn shader_event_of_wrong_kind_reads_as_failure() {
    let machine = match Shader::new(ShaderType::VERTEX, "v") {
        Progress::Pending(machine, _) => machine,
        _ => panic!(),
    };
    let machine = match machine.advance(Event::Done) {
        Progress::Pending(machine, _) => machine,
        _ => panic!(),
    };
    match machine.advance(Event::Value(5)) {
        Progress::Failed(error, cleanup) => {
            assert_eq!(error, RenderError::ShaderReadError { stage: ShaderType::VERTEX });
            assert_eq!(cleanup, vec![Command::plain(GlCall::DeleteShader { shader: 0 })]);
        }
        _ => panic!("no text is no file"),
    }
}

#[test]
fn shader_dispose_twice_deletes_once() {
    let mut driver = Driver::new();
    let mut shader = build_shader(&mut driver, ShaderType::VERTEX).unwrap();
    let first = shader.dispose();
    assert_eq!(first, vec![Command::plain(GlCall::DeleteShader { shader: shader.handle })]);
    assert!(shader.released);
    driver.run(&first);
    let second = shader.dispose();
    assert!(second.is_empty());
    driver.run(&second);
    assert!(driver.live.is_empty());
}

#[test]
fn shader_build_can_be_abandoned() {
    let machine = match Shader::new(ShaderType::VERTEX, "v") {
        Progress::Pending(machine, _) => machine,
        _ => panic!(),
    };
    let fresh: ShaderBuild = match Shader::new(ShaderType::VERTEX, "v") {
        Progress::Pending(machine, _) => machine,
        _ => panic!(),
    };
    assert!(fresh.abandon().is_empty());
    let machine = match machine.advance(Event::Id(9)) {
        Progress::Pending(machine, _) => machine,
        _ => panic!(),
    };
    assert_eq!(machine.abandon(), vec![Command::plain(GlCall::DeleteShader { shader: 9 })]);
}

#[test]
fn compiled_shaders_link_into_a_usable_program() {
    let mut driver = Driver::new();
    let vertex = build_shader(&mut driver, ShaderType::VERTEX).unwrap();
    let fragment = build_shader(&mut driver, ShaderType::FRAGMENT).unwrap();
    let program = build_program(&mut driver, &vertex, &fragment).unwrap();
    assert_eq!(program.handle, 3);
    assert!(!program.released);
    assert_eq!(program.use_program(), Command::plain(GlCall::UseProgram { program: 3 }));
    assert_eq!(driver.perform(&program.use_program()), Event::Done);
    assert!(driver.calls.contains(&GlCall::AttachShader { program: 3, shader: 1 }));
    assert!(driver.calls.contains(&GlCall::AttachShader { program: 3, shader: 2 }));
    assert!(driver.calls.contains(&GlCall::LinkProgram { program: 3 }));
    assert_eq!(driver.live, vec![1, 2, 3]);
}

#[test]
fn program_build_links_in_one_batch() {
    let vertex = Shader { handle: 4, shader_type: ShaderType::VERTEX, released: false };
    let fragment = Shader { handle: 5, shader_type: ShaderType::FRAGMENT, released: false };
    let (machine, request) = ProgramBuild::begin(&vertex, &fragment);
    assert_eq!(request, Request::Gl(vec![Command::plain(GlCall::CreateProgram)]));
    match machine.advance(Event::Id(6)) {
        Progress::Pending(_, request) => assert_eq!(
            request,
            Request::Gl(vec![
                Command::plain(GlCall::AttachShader { program: 6, shader: 4 }),
                Command::plain(GlCall::AttachShader { program: 6, shader: 5 }),
                Command::plain(GlCall::LinkProgram { program: 6 }),
                Command::plain(GlCall::GetProgramiv { program: 6, pname: gl::LINK_STATUS }),
            ])
        ),
        _ => panic!("linking is next"),
    }
}

#[test]
fn program_that_the_driver_does_not_create_fails_without_cleanup() {
    let vertex = Shader { handle: 4, shader_type: ShaderType::VERTEX, released: false };
    let fragment = Shader { handle: 5, shader_type: ShaderType::FRAGMENT, released: false };
    let (machine, _) = ProgramBuild::begin(&vertex, &fragment);
    match machine.advance(Event::Id(0)) {
        Progress::Failed(error, cleanup) => {
            assert_eq!(error, RenderError::ProgramCreateError);
            assert!(cleanup.is_empty());
        }
        _ => panic!("no program, no build"),
    }
}

#[test]
fn program_link_failure_deletes_the_program_and_keeps_the_shaders() {
    let mut driver = Driver::new();
    let vertex = build_shader(&mut driver, ShaderType::VERTEX).unwrap();
    let fragment = build_shader(&mut driver, ShaderType::FRAGMENT).unwrap();
    driver.link_status = 0;
    driver.log = String::from("unresolved symbol");
    let outcome = build_program(&mut driver, &vertex, &fragment);
    assert_eq!(
        outcome,
        Err(RenderError::ProgramLinkError { log: String::from("unresolved symbol") })
    );
    assert_eq!(driver.live, vec![1, 2]);
}

#[test]
fn program_dispose_twice_deletes_once() {
    let mut program = Program { handle: 8, released: false };
    assert_eq!(program.dispose(), vec![Command::plain(GlCall::DeleteProgram { program: 8 })]);
    assert!(program.dispose().is_empty());
    let build = ProgramBuild::begin(
        &Shader { handle: 1, shader_type: ShaderType::VERTEX, released: false },
        &Shader { handle: 2, shader_type: ShaderType::FRAGMENT, released: false },
    )
    .0;
    assert!(build.abandon().is_empty());
}

#[test]
fn texture_from_unreadable_file_is_a_read_error_with_the_path() {
    let mut driver = Driver::new();
    let outcome = build_texture(&mut driver, "textures/none.png");
    assert_eq!(
        outcome.err(),
        Some(RenderError::TextureReadError { path: String::from("textures/none.png") })
    );
    assert!(driver.calls.is_empty());
}

#[test]
fn texture_from_malformed_file_is_a_decode_error_with_the_path() {
    let mut driver = Driver::new();
    driver.bytes = Some(vec![1, 2, 3, 4, 5]);
    let outcome = build_texture(&mut driver, "textures/bad.png");
    assert_eq!(
        outcome.err(),
        Some(RenderError::TextureDecodeError { path: String::from("textures/bad.png") })
    );
    assert!(driver.calls.is_empty());
}

#[test]
fn texture_with_unknown_extension_is_a_decode_error() {
    let mut driver = Driver::new();
    driver.bytes = Some(png_of(1, 1, vec![1, 2, 3, 255]));
    let outcome = build_texture(&mut driver, "textures/stone.unknown");
    assert_eq!(
        outcome.err(),
        Some(RenderError::TextureDecodeError { path: String::from("textures/stone.unknown") })
    );
}

#[test]
fn texture_is_decoded_to_rgb_and_uploaded_whole() {
    let mut driver = Driver::new();
    let rgba = vec![
        10, 20, 30, 255, 40, 50, 60, 128, //
        70, 80, 90, 0, 100, 110, 120, 255, //
        1, 2, 3, 4, 5, 6, 7, 8,
    ];
    driver.bytes = Some(png_of(2, 3, rgba));
    let (texture, calls) = build_texture(&mut driver, "textures/stone.png").unwrap();
    assert_eq!(texture.handle, 1);
    let rgb = vec![10, 20, 30, 40, 50, 60, 70, 80, 90, 100, 110, 120, 1, 2, 3, 5, 6, 7];
    assert_eq!(
        calls,
        vec![
            Command::plain(GlCall::TextureParameteri {
                texture: 1,
                pname: gl::TEXTURE_MAX_LEVEL,
                param: 0
            }),
            Command::plain(GlCall::TextureParameteri {
                texture: 1,
                pname: gl::TEXTURE_MIN_FILTER,
                param: 0x2600
            }),
            Command::plain(GlCall::TextureParameteri {
                texture: 1,
                pname: gl::TEXTURE_MAG_FILTER,
                param: 0x2600
            }),
            Command::plain(GlCall::TextureStorage2D {
                texture: 1,
                levels: 1,
                internal_format: gl::RGB8,
                width: 2,
                height: 3
            }),
            Command::plain(GlCall::PixelStorei { pname: gl::UNPACK_ALIGNMENT, param: 1 }),
            Command::with_data(
                GlCall::TextureSubImage2D {
                    texture: 1,
                    level: 0,
                    xoffset: 0,
                    yoffset: 0,
                    width: 2,
                    height: 3,
                    format: gl::RGB,
                    pixel_type: gl::UNSIGNED_BYTE
                },
                rgb
            ),
        ]
    );
}

#[test]
fn texture_block_of_wrong_size_is_not_uploaded() {
    let short = DecodedImage { width: 2, height: 2, pixels: vec![0; 11] };
    match Texture::from_decoded(String::from("t.png"), Some(short)) {
        Progress::Failed(error, cleanup) => {
            assert_eq!(error, RenderError::TextureDecodeError { path: String::from("t.png") });
            assert!(cleanup.is_empty());
        }
        _ => panic!("eleven bytes are not four pixels"),
    }
    let wide = DecodedImage { width: 0x8000_0000, height: 0, pixels: Vec::new() };
    assert!(matches!(
        Texture::from_decoded(String::from("t.png"), Some(wide)),
        Progress::Failed(..)
    ));
    let exact = DecodedImage { width: 2, height: 2, pixels: vec![0; 12] };
    match Texture::from_decoded(String::from("t.png"), Some(exact)) {
        Progress::Pending(machine, request) => {
            assert_eq!(
                request,
                Request::Gl(vec![Command::plain(GlCall::CreateTextures { target: gl::TEXTURE_2D })])
            );
            assert_eq!(machine.pixels.len(), 12);
        }
        _ => panic!("twelve bytes are four pixels"),
    }
    assert!(matches!(Texture::from_decoded(String::from("t.png"), None), Progress::Failed(..)));
}

#[test]
fn texture_binds_to_the_unit_asked_for() {
    let mut texture = Texture { handle: 12, released: false };
    assert_eq!(texture.bind(0), Command::plain(GlCall::BindTextures { unit: 0, texture: 12 }));
    assert_eq!(texture.bind(3), Command::plain(GlCall::BindTextures { unit: 3, texture: 12 }));
    assert_eq!(texture.dispose(), vec![Command::plain(GlCall::DeleteTextures { texture: 12 })]);
    assert!(texture.dispose().is_empty());
    let (machine, request): (TextureBuild, Request) = TextureBuild::begin("a.png");
    assert_eq!(request, Request::ReadBytes(String::from("a.png")));
    assert!(machine.pixels.is_empty());
}

#[test]
fn vertex_array_is_created_bound_and_deleted_once() {
    let (machine, request): (VertexArrayBuild, Request) = VertexArrayBuild::begin();
    assert_eq!(request, Request::Gl(vec![Command::plain(GlCall::CreateVertexArrays)]));
    assert!(matches!(VertexArrayObjects::new(), Progress::Pending(..)));
    let mut array = match machine.advance(Event::Id(21)) {
        Progress::Ready(array, calls) => {
            assert!(calls.is_empty());
            array
        }
        _ => panic!("a vertex array is ready at once"),
    };
    assert_eq!(array.handle, 21);
    assert_eq!(array.bind(), Command::plain(GlCall::BindVertexArray { array: 21 }));
    assert_eq!(array.dispose(), vec![Command::plain(GlCall::DeleteVertexArrays { array: 21 })]);
    assert!(array.released);
    assert!(array.dispose().is_empty());
}

#[test]
fn buffer_is_created_with_storage_for_one_record() {
    let (machine, request): (BufferBuild<PerFrameData>, Request) = BufferBuild::begin();
    assert_eq!(machine.memory_size, 68);
    assert_eq!(request, Request::Gl(vec![Command::plain(GlCall::CreateBuffers)]));
    assert!(matches!(VertexBufferObjects::<PerFrameData>::new(), Progress::Pending(..)));
    let mut buffer = match machine.advance(Event::Id(30)) {
        Progress::Ready(buffer, calls) => {
            assert_eq!(
                calls,
                vec![Command::plain(GlCall::NamedBufferStorage {
                    buffer: 30,
                    size: 68,
                    flags: gl::DYNAMIC_STORAGE_BIT
                })]
            );
            buffer
        }
        _ => panic!("a buffer is ready at once"),
    };
    assert_eq!(
        buffer.bind(),
        Command::plain(GlCall::BindBufferRange {
            target: gl::UNIFORM_BUFFER,
            index: 0,
            buffer: 30,
            offset: 0,
            size: 68
        })
    );
    let record = PerFrameData { perspective_transform: [0; 16], wire_frame_enabled: 1 };
    let upload = buffer.sub_buffer(record, ByteOrder::LittleEndian);
    assert_eq!(upload.call, GlCall::NamedBufferSubData { buffer: 30, offset: 0, size: 68 });
    assert_eq!(upload.data.len(), 68);
    assert_eq!(buffer.dispose(), vec![Command::plain(GlCall::DeleteBuffers { buffer: 30 })]);
    assert!(buffer.dispose().is_empty());
}

#[test]
fn per_frame_record_is_laid_out_in_host_byte_order() {
    let mut transform = [0u32; 16];
    transform[0] = 0x3F80_0000;
    transform[15] = 0x0102_0304;
    let record = PerFrameData { perspective_transform: transform, wire_frame_enabled: 1 };
    assert_eq!(PerFrameData::size(), 68);
    let little = record.encode(ByteOrder::LittleEndian);
    assert_eq!(little.len(), 68);
    assert_eq!(&little[0..4], &[0x00, 0x00, 0x80, 0x3F]);
    assert_eq!(&little[60..64], &[0x04, 0x03, 0x02, 0x01]);
    assert_eq!(&little[64..68], &[1, 0, 0, 0]);
    assert!(little[4..60].iter().all(|byte| *byte == 0));
    let big = record.encode(ByteOrder::BigEndian);
    assert_eq!(&big[0..4], &[0x3F, 0x80, 0x00, 0x00]);
    assert_eq!(&big[60..64], &[0x01, 0x02, 0x03, 0x04]);
    assert_eq!(&big[64..68], &[0, 0, 0, 1]);
    let words: Vec<u8> = transform
        .iter()
        .chain(std::iter::once(&1u32))
        .flat_map(|word| word.to_le_bytes())
        .collect();
    assert_eq!(little, words);
}

#[test]
fn handles_describe_themselves() {
    let vertex = Shader { handle: 1, shader_type: ShaderType::VERTEX, released: false };
    let fragment = Shader { handle: 20, shader_type: ShaderType::FRAGMENT, released: false };
    assert_eq!(vertex.to_string(), "vertex shader #1");
    assert_eq!(fragment.to_string(), "fragment shader #20");
    assert_eq!(Program { handle: 305, released: false }.to_string(), "program #305");
    assert_eq!(Texture { handle: 0, released: false }.to_string(), "texture #0");
    assert_eq!(
        VertexArrayObjects { handle: 4294967295, released: false }.to_string(),
        "vertex array object #4294967295"
    );
    let buffer = match BufferBuild::<PerFrameData>::begin().0.advance(Event::Id(7)) {
        Progress::Ready(buffer, _) => buffer,
        _ => panic!(),
    };
    assert_eq!(buffer.to_string(), "vertex buffer object #7");
}
