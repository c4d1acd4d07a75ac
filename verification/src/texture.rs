//! Texture objects: decoding an image file into an immutable 2D texture.

use crate::error::{RenderError, RenderErrorView};
use crate::gl;
use crate::gl::{GlCall, Handle, HandleKind};
use crate::protocol::{
    deletes_nothing, no_calls, plain, push_plain, push_with_data, release_script, single, Command,
    CommandView, Event, EventView, Progress, ProgressView, Request, RequestView,
};
use crate::text::{append_decimal, decimal};
use vstd::string::*;
use vstd::prelude::*;

verus! {

/// An image decoded to 8-bit RGB: three bytes a pixel, rows from the top,
/// no padding.
#[derive(Clone, Debug, PartialEq, Eq)]
pub struct DecodedImage {
    pub width: u32,
    pub height: u32,
    pub pixels: Vec<u8>,
}

/// The mathematical content of what a decoding returned: width, height and
/// pixel bytes, or nothing.
pub open spec fn image_view(image: Option<DecodedImage>) -> Option<(u32, u32, Seq<u8>)> {
    match image {
        Some(decoded) => Some((decoded.width, decoded.height, decoded.pixels@)),
        None => None,
    }
}

/// What the image decoder makes of the contents of a file with the given
/// path: the image as 8-bit RGB, or nothing where the path's extension names
/// no format that the decoder knows or the contents are no image of that
/// format.
pub uninterp spec fn decoded_rgb8(path: Seq<char>, bytes: Seq<u8>) -> Option<(u32, u32, Seq<u8>)>;

/// Decodes the contents of an image file. The format is the one that
/// `image::ImageFormat::from_path` reads off the path's extension; the
/// decoding is `image::load_from_memory_with_format`, converted by
/// `DynamicImage::into_rgb8`. The contract claims only that the outcome is
/// determined by the path and the bytes.
#[verifier::external_body]
fn decode_rgb8(path: &str, bytes: &Vec<u8>) -> (image: Option<DecodedImage>)
    ensures
        image_view(image) == decoded_rgb8(path@, bytes@),
{
    let format = image::ImageFormat::from_path(path).ok()?;
    let rgb = image::load_from_memory_with_format(bytes, format).ok()?.into_rgb8();
    Some(DecodedImage { width: rgb.width(), height: rgb.height(), pixels: rgb.into_raw() })
}

/// A 2D texture object.
#[derive(Debug, PartialEq, Eq)]
pub struct Texture {
    pub handle: u32,
    /// Whether the native object has been deleted.
    pub released: bool,
}

impl DeepView for Texture {
    type V = Texture;

    open spec fn deep_view(&self) -> Texture {
        *self
    }
}

/// Where the loading of a texture stands.
#[derive(Clone, Copy, Debug, PartialEq, Eq)]
pub enum TexturePhase {
    /// Asked for the image file; waits for its contents.
    Reading,
    /// Holds the decoded pixels and has asked for a texture object; waits
    /// for its name.
    Creating { width: i32, height: i32 },
}

/// The machine that loads one texture.
#[derive(Debug)]
pub struct TextureBuild {
    pub source_file: String,
    pub phase: TexturePhase,
    pub pixels: Vec<u8>,
}

/// The mathematical content of a [`TextureBuild`].
pub struct TextureBuildView {
    pub source_file: Seq<char>,
    pub phase: TexturePhase,
    pub pixels: Seq<u8>,
}

impl DeepView for TextureBuild {
    type V = TextureBuildView;

    open spec fn deep_view(&self) -> TextureBuildView {
        TextureBuildView {
            source_file: self.source_file@,
            phase: self.phase,
            pixels: self.pixels@,
        }
    }
}

/// An image can be uploaded if the driver can take its dimensions and its
/// pixel block holds exactly three bytes for each pixel.
pub open spec fn uploadable(width: u32, height: u32, pixels: Seq<u8>) -> bool {
    &&& width <= i32::MAX
    &&& height <= i32::MAX
    &&& pixels.len() == 3 * width * height
}

/// The batch that makes a texture object an immutable RGB texture with the
/// base level only and nearest-neighbour filtering both ways, and fills it
/// with tightly packed pixels.
pub open spec fn upload_script(texture: u32, width: i32, height: i32, pixels: Seq<u8>) -> Seq<
    CommandView,
> {
    seq![
        plain(GlCall::TextureParameteri { texture, pname: gl::TEXTURE_MAX_LEVEL, param: 0 }),
        plain(
            GlCall::TextureParameteri { texture, pname: gl::TEXTURE_MIN_FILTER, param: gl::NEAREST },
        ),
        plain(
            GlCall::TextureParameteri { texture, pname: gl::TEXTURE_MAG_FILTER, param: gl::NEAREST },
        ),
        plain(
            GlCall::TextureStorage2D {
                texture,
                levels: 1,
                internal_format: gl::RGB8,
                width,
                height,
            },
        ),
        plain(GlCall::PixelStorei { pname: gl::UNPACK_ALIGNMENT, param: 1 }),
        CommandView {
            call: GlCall::TextureSubImage2D {
                texture,
                level: 0,
                xoffset: 0,
                yoffset: 0,
                width,
                height,
                format: gl::RGB,
                pixel_type: gl::UNSIGNED_BYTE,
            },
            data: pixels,
        },
    ]
}

impl TextureBuildView {
    /// The machine holds no object while it waits: the texture object is
    /// the last thing it asks for.
    pub open spec fn owned(self) -> Seq<Handle> {
        Seq::empty()
    }

    /// The objects that the event hands to the machine in this state.
    pub open spec fn gains(self, event: EventView) -> Seq<Handle> {
        match self.phase {
            TexturePhase::Reading => Seq::empty(),
            TexturePhase::Creating { .. } => seq![
                Handle { kind: HandleKind::Texture, id: event.id() },
            ],
        }
    }

    /// The first state.
    pub open spec fn initial(source_file: Seq<char>) -> TextureBuildView {
        TextureBuildView { source_file, phase: TexturePhase::Reading, pixels: Seq::empty() }
    }

    /// The request that goes with the first state.
    pub open spec fn first_request(source_file: Seq<char>) -> RequestView {
        RequestView::ReadBytes(source_file)
    }

    /// The first state, and the request that goes with it.
    pub open spec fn start(source_file: Seq<char>) -> ProgressView<TextureBuildView, Texture> {
        ProgressView::Pending(Self::initial(source_file), Self::first_request(source_file))
    }

    /// What follows the decoding of the file: an image that can be uploaded
    /// is kept and a texture object asked for; anything else is a decode
    /// error that carries the path.
    pub open spec fn after_decode(
        source_file: Seq<char>,
        decoded: Option<(u32, u32, Seq<u8>)>,
    ) -> ProgressView<TextureBuildView, Texture> {
        match decoded {
            Some((width, height, pixels)) => if uploadable(width, height, pixels) {
                ProgressView::Pending(
                    TextureBuildView {
                        source_file,
                        phase: TexturePhase::Creating {
                            width: width as i32,
                            height: height as i32,
                        },
                        pixels,
                    },
                    RequestView::Gl(seq![plain(GlCall::CreateTextures { target: gl::TEXTURE_2D })]),
                )
            } else {
                ProgressView::Failed(
                    RenderErrorView::TextureDecodeError { path: source_file },
                    Seq::empty(),
                )
            },
            None => ProgressView::Failed(
                RenderErrorView::TextureDecodeError { path: source_file },
                Seq::empty(),
            ),
        }
    }

    /// What the machine does with an event. A file that could not be read
    /// is a read error that carries the path.
    pub open spec fn step(self, event: EventView) -> ProgressView<TextureBuildView, Texture> {
        match self.phase {
            TexturePhase::Reading => match event.bytes() {
                None => ProgressView::Failed(
                    RenderErrorView::TextureReadError { path: self.source_file },
                    Seq::empty(),
                ),
                Some(bytes) => Self::after_decode(
                    self.source_file,
                    decoded_rgb8(self.source_file, bytes),
                ),
            },
            TexturePhase::Creating { width, height } => ProgressView::Ready(
                Texture { handle: event.id(), released: false },
                upload_script(event.id(), width, height, self.pixels),
            ),
        }
    }
}

/// Whether an image can be uploaded.
pub fn is_uploadable(image: &DecodedImage) -> (ok: bool)
    ensures
        ok == uploadable(image.width, image.height, image.pixels@),
{
    if image.width > 0x7fff_ffff || image.height > 0x7fff_ffff {
        return false;
    }
    let width: u64 = image.width as u64;
    let height: u64 = image.height as u64;
    assert(width * height <= 0x7fff_ffff * 0x7fff_ffff) by (nonlinear_arith)
        requires
            width <= 0x7fff_ffff,
            height <= 0x7fff_ffff,
    ;
    let area: u64 = width * height;
    let size: u64 = 3 * area;
    assert(3 * image.width * image.height == 3 * (width * height)) by (nonlinear_arith)
        requires
            width == image.width,
            height == image.height,
    ;
    image.pixels.len() as u64 == size
}

impl Texture {
    /// The object that this handle stands for, while it is not released.
    pub open spec fn owned(self) -> Seq<Handle> {
        if self.released {
            Seq::empty()
        } else {
            seq![Handle { kind: HandleKind::Texture, id: self.handle }]
        }
    }

    /// Starts to load a texture from the image file at the given path.
    pub fn new(source_file: &str) -> (progress: Progress<TextureBuild, Texture>)
        ensures
            progress.deep_view() == TextureBuildView::start(source_file@),
    {
        let (machine, request) = TextureBuild::begin(source_file);
        Progress::Pending(machine, request)
    }

    /// Goes on from a decoded image, or from the lack of one.
    pub fn from_decoded(source_file: String, decoded: Option<DecodedImage>) -> (progress: Progress<
        TextureBuild,
        Texture,
    >)
        ensures
            progress.deep_view() == TextureBuildView::after_decode(
                source_file@,
                image_view(decoded),
            ),
    {
        match decoded {
            Some(image) => {
                if is_uploadable(&image) {
                    let calls = single(GlCall::CreateTextures { target: gl::TEXTURE_2D });
                    assert(calls.deep_view() =~= seq![
                        plain(GlCall::CreateTextures { target: gl::TEXTURE_2D }),
                    ]);
                    Progress::Pending(
                        TextureBuild {
                            source_file,
                            phase: TexturePhase::Creating {
                                width: image.width as i32,
                                height: image.height as i32,
                            },
                            pixels: image.pixels,
                        },
                        Request::Gl(calls),
                    )
                } else {
                    Progress::Failed(
                        RenderError::TextureDecodeError { path: source_file },
                        no_calls(),
                    )
                }
            },
            None => Progress::Failed(
                RenderError::TextureDecodeError { path: source_file },
                no_calls(),
            ),
        }
    }

    /// The call that binds the texture to a sampling unit.
    pub fn bind(&self, unit: u32) -> (command: Command)
        ensures
            command.deep_view() == plain(GlCall::BindTextures { unit, texture: self.handle }),
    {
        Command::plain(GlCall::BindTextures { unit, texture: self.handle })
    }

    /// The texture in words.
    pub open spec fn description(self) -> Seq<char> {
        "texture #"@ + decimal(self.handle as nat)
    }

    /// The texture in words.
    pub fn to_string(&self) -> (text: String)
        ensures
            text@ == self.description(),
    {
        let mut text = String::from_str("texture #");
        append_decimal(&mut text, self.handle);
        text
    }

    /// Deletes the native object, once: the first call returns the delete
    /// call, every later one returns nothing.
    pub fn dispose(&mut self) -> (calls: Vec<Command>)
        ensures
            calls.deep_view() == release_script(old(self).owned()),
            old(self).released ==> calls@.len() == 0,
            final(self).released,
            final(self).handle == old(self).handle,
    {
        if self.released {
            let calls = no_calls();
            assert(calls.deep_view() =~= release_script(old(self).owned()));
            calls
        } else {
            self.released = true;
            let calls = single(GlCall::DeleteTextures { texture: self.handle });
            assert(calls.deep_view() =~= release_script(old(self).owned()));
            calls
        }
    }
}

impl TextureBuild {
    /// The machine in its first state, and the request that goes with it.
    pub fn begin(source_file: &str) -> (start: (TextureBuild, Request))
        ensures
            start.0.deep_view() == TextureBuildView::initial(source_file@),
            start.1.deep_view() == TextureBuildView::first_request(source_file@),
    {
        (
            TextureBuild {
                source_file: source_file.to_owned(),
                phase: TexturePhase::Reading,
                pixels: Vec::new(),
            },
            Request::ReadBytes(source_file.to_owned()),
        )
    }

    /// Takes what the host handed back and decides how to go on.
    pub fn advance(self, event: Event) -> (progress: Progress<TextureBuild, Texture>)
        ensures
            progress.deep_view() == self.deep_view().step(event.deep_view()),
    {
        match self.phase {
            TexturePhase::Reading => {
                match event.into_bytes() {
                    None => Progress::Failed(
                        RenderError::TextureReadError { path: self.source_file },
                        no_calls(),
                    ),
                    Some(bytes) => {
                        let decoded = decode_rgb8(self.source_file.as_str(), &bytes);
                        Texture::from_decoded(self.source_file, decoded)
                    },
                }
            },
            TexturePhase::Creating { width, height } => {
                let texture = event.id();
                let mut calls = no_calls();
                push_plain(
                    &mut calls,
                    GlCall::TextureParameteri { texture, pname: gl::TEXTURE_MAX_LEVEL, param: 0 },
                );
                push_plain(
                    &mut calls,
                    GlCall::TextureParameteri {
                        texture,
                        pname: gl::TEXTURE_MIN_FILTER,
                        param: gl::NEAREST,
                    },
                );
                push_plain(
                    &mut calls,
                    GlCall::TextureParameteri {
                        texture,
                        pname: gl::TEXTURE_MAG_FILTER,
                        param: gl::NEAREST,
                    },
                );
                push_plain(
                    &mut calls,
                    GlCall::TextureStorage2D {
                        texture,
                        levels: 1,
                        internal_format: gl::RGB8,
                        width,
                        height,
                    },
                );
                push_plain(&mut calls, GlCall::PixelStorei { pname: gl::UNPACK_ALIGNMENT, param: 1 });
                push_with_data(
                    &mut calls,
                    GlCall::TextureSubImage2D {
                        texture,
                        level: 0,
                        xoffset: 0,
                        yoffset: 0,
                        width,
                        height,
                        format: gl::RGB,
                        pixel_type: gl::UNSIGNED_BYTE,
                    },
                    self.pixels,
                );
                assert(calls.deep_view() =~= upload_script(texture, width, height, self.pixels@));
                Progress::Ready(Texture { handle: texture, released: false }, calls)
            },
        }
    }
}

/// Nothing leaks from a texture build. While the machine goes on, and when
/// it hands out the texture, it holds exactly what it held before and what
/// the event brought, and deletes nothing. It gives up only before it has
/// asked for the texture object, and then has nothing to delete.
pub proof fn lemma_texture_step_keeps_ledger(machine: TextureBuildView, event: EventView)
    ensures
        match machine.step(event) {
            ProgressView::Pending(next, request) => next.owned() == machine.owned()
                + machine.gains(event) && request.deletes_nothing(),
            ProgressView::Ready(texture, calls) => texture.owned() == machine.owned()
                + machine.gains(event) && deletes_nothing(calls),
            ProgressView::Failed(_, calls) => calls == release_script(
                machine.owned() + machine.gains(event),
            ),
        },
{
    match machine.step(event) {
        ProgressView::Pending(next, request) => {
            assert(next.owned() =~= machine.owned() + machine.gains(event));
        },
        ProgressView::Ready(texture, calls) => {
            assert(texture.owned() =~= machine.owned() + machine.gains(event));
        },
        ProgressView::Failed(_, calls) => {
            assert(calls =~= release_script(machine.owned() + machine.gains(event)));
        },
    }
}

/// The pixel block that goes to the driver is exactly as large as the
/// texture that was allocated for it: three bytes for each pixel.
pub proof fn lemma_upload_fits(
    source_file: Seq<char>,
    decoded: Option<(u32, u32, Seq<u8>)>,
    event: EventView,
)
    ensures
        match TextureBuildView::after_decode(source_file, decoded) {
            ProgressView::Pending(machine, _) => match machine.step(event) {
                ProgressView::Ready(_, calls) => calls.len() == 6 && match calls[3].call {
                    GlCall::TextureStorage2D { width, height, .. } => width >= 0 && height >= 0
                        && calls[5].data.len() == 3 * width * height,
                    _ => false,
                },
                _ => false,
            },
            _ => true,
        },
{
}

} // verus!
