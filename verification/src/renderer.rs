//! The frame renderer: one program, one vertex array, one per-frame block of
//! shader parameters and one texture, from initialisation to disposal.

use crate::gl;
use crate::gl::{GlCall, Handle};
use crate::program::Program;
use crate::protocol::{
    append, lemma_release_script_concat, no_calls, plain, plain_script, push_command, push_plain,
    release_script, Command, CommandView,
};
use crate::shader::Shader;
use crate::texture::Texture;
use crate::vertex_array_objects::VertexArrayObjects;
use crate::vertex_buffer_objects::{
    push_word, word_bytes, ByteOrder, UniformBlock, VertexBufferObjects, VertexBufferView,
};
use vstd::prelude::*;

verus! {

/// The bit pattern of the single-precision number 1.0.
pub const ONE: u32 = 0x3F80_0000;

/// The bit pattern of the single-precision number -1.0.
pub const MINUS_ONE: u32 = 0xBF80_0000;

/// The bit pattern of the single-precision number nearest to 0.1.
pub const ONE_TENTH: u32 = 0x3DCC_CCCD;

/// The bit pattern of the single-precision number nearest to 0.9.
pub const NINE_TENTHS: u32 = 0x3F66_6666;

/// The bit pattern of the single-precision number 45.0.
pub const FORTY_FIVE: u32 = 0x4234_0000;

/// The bit pattern of the single-precision number 1000.0.
pub const ONE_THOUSAND: u32 = 0x447A_0000;

/// The number of vertices of the primitive that every frame draws.
pub const VERTEX_COUNT: i32 = 36;

/// The width and the height that a renderer starts with.
pub const INITIAL_DIMENSIONS: (i32, i32) = (300, 300);

/// The aspect ratio of the drawable as a fraction, width over height.
#[derive(Clone, Copy, Debug, PartialEq, Eq)]
pub struct AspectRatio {
    pub numerator: i32,
    pub denominator: i32,
}

/// What the projection of a frame depends on. The three numbers of the
/// frustum are kept as single-precision bit patterns.
#[derive(Clone, Copy, Debug, PartialEq, Eq)]
pub struct DrawConfig {
    pub field_of_view: u32,
    pub near_clipping_plane: u32,
    pub far_clipping_plane: u32,
    pub display_dimensions: (i32, i32),
    pub display_aspect: AspectRatio,
    /// Whether every frame is drawn a second time as a wireframe over the
    /// filled primitive.
    pub wireframe_overlay: bool,
}

impl DrawConfig {
    /// The configuration that a renderer starts with.
    pub open spec fn initial(wireframe_overlay: bool) -> DrawConfig {
        DrawConfig {
            field_of_view: FORTY_FIVE,
            near_clipping_plane: ONE_TENTH,
            far_clipping_plane: ONE_THOUSAND,
            display_dimensions: INITIAL_DIMENSIONS,
            display_aspect: AspectRatio { numerator: 300, denominator: 300 },
            wireframe_overlay,
        }
    }

    /// A size is degenerate if the drawable would be empty.
    pub open spec fn degenerate(width: i32, height: i32) -> bool {
        width <= 0 || height <= 0
    }

    /// The configuration after the drawable has got a new size. A
    /// degenerate size changes nothing.
    pub open spec fn resized(self, width: i32, height: i32) -> DrawConfig {
        if Self::degenerate(width, height) {
            self
        } else {
            DrawConfig {
                display_dimensions: (width, height),
                display_aspect: AspectRatio { numerator: width, denominator: height },
                ..self
            }
        }
    }

    /// The aspect ratio is that of the dimensions, and its denominator is
    /// positive.
    pub open spec fn wf(self) -> bool {
        &&& self.display_aspect.numerator == self.display_dimensions.0
        &&& self.display_aspect.denominator == self.display_dimensions.1
        &&& self.display_aspect.numerator > 0
        &&& self.display_aspect.denominator > 0
    }

    /// The configuration for a drawable of the given size, without the
    /// wireframe pass. A degenerate size leaves the initial one in place.
    pub fn new(dimensions: (i32, i32)) -> (config: DrawConfig)
        ensures
            config == Self::initial(false).resized(dimensions.0, dimensions.1),
            config.wf(),
    {
        let mut config = DrawConfig {
            field_of_view: FORTY_FIVE,
            near_clipping_plane: ONE_TENTH,
            far_clipping_plane: ONE_THOUSAND,
            display_dimensions: INITIAL_DIMENSIONS,
            display_aspect: AspectRatio { numerator: 300, denominator: 300 },
            wireframe_overlay: false,
        };
        config.resize(dimensions.0, dimensions.1);
        config
    }

    /// Takes over a new size of the drawable, unless it is degenerate.
    /// Returns whether the size was taken over.
    pub fn resize(&mut self, width: i32, height: i32) -> (changed: bool)
        ensures
            *final(self) == old(self).resized(width, height),
            changed == !Self::degenerate(width, height),
            old(self).wf() ==> final(self).wf(),
    {
        if width <= 0 || height <= 0 {
            false
        } else {
            self.display_dimensions = (width, height);
            self.display_aspect = AspectRatio { numerator: width, denominator: height };
            true
        }
    }
}

/// The block of shader parameters that is uploaded before a draw call: the
/// 4×4 transform as sixteen single-precision bit patterns, column by column,
/// and the wireframe flag.
#[derive(Clone, Copy, Debug, PartialEq, Eq)]
pub struct PerFrameData {
    pub perspective_transform: [u32; 16],
    pub wire_frame_enabled: u32,
}

impl PerFrameData {
    /// The `k`-th word of the record: the sixteen of the transform, then the
    /// flag.
    pub open spec fn word(self, k: int) -> u32 {
        if 0 <= k < 16 {
            self.perspective_transform@[k]
        } else {
            self.wire_frame_enabled
        }
    }
}

impl UniformBlock for PerFrameData {
    open spec fn spec_size() -> nat {
        68
    }

    open spec fn image(&self, order: ByteOrder) -> Seq<u8> {
        Seq::new(68, |i: int| word_bytes(self.word(i / 4), order)[i % 4])
    }

    fn size() -> (size: isize) {
        68
    }

    fn encode(&self, order: ByteOrder) -> (bytes: Vec<u8>) {
        let mut bytes: Vec<u8> = Vec::new();
        let mut k: usize = 0;
        while k < 16
            invariant
                k <= 16,
                bytes@ == Seq::new(
                    (4 * k) as nat,
                    |i: int| word_bytes(self.word(i / 4), order)[i % 4],
                ),
            decreases 16 - k,
        {
            let ghost before = bytes@;
            push_word(&mut bytes, self.perspective_transform[k], order);
            assert(bytes@ =~= Seq::new(
                (4 * (k + 1)) as nat,
                |i: int| word_bytes(self.word(i / 4), order)[i % 4],
            ));
            k += 1;
        }
        push_word(&mut bytes, self.wire_frame_enabled, order);
        assert(bytes@ =~= self.image(order));
        bytes
    }
}

/// The renderer, initialised. It owns its six native objects until
/// [`Renderer::dispose`] gives them back.
#[derive(Debug)]
pub struct Renderer {
    pub vertex_shader: Shader,
    pub fragment_shader: Shader,
    pub program: Program,
    pub vertex_array_object: VertexArrayObjects,
    pub per_frame_buffer_object: VertexBufferObjects<PerFrameData>,
    pub texture: Texture,
    pub draw_config: DrawConfig,
    pub byte_order: ByteOrder,
}

/// The mathematical content of a [`Renderer`].
pub struct RendererView {
    pub vertex_shader: Shader,
    pub fragment_shader: Shader,
    pub program: Program,
    pub vertex_array_object: VertexArrayObjects,
    pub per_frame_buffer_object: VertexBufferView,
    pub texture: Texture,
    pub draw_config: DrawConfig,
    pub byte_order: ByteOrder,
}

impl DeepView for Renderer {
    type V = RendererView;

    open spec fn deep_view(&self) -> RendererView {
        RendererView {
            vertex_shader: self.vertex_shader,
            fragment_shader: self.fragment_shader,
            program: self.program,
            vertex_array_object: self.vertex_array_object,
            per_frame_buffer_object: self.per_frame_buffer_object.deep_view(),
            texture: self.texture,
            draw_config: self.draw_config,
            byte_order: self.byte_order,
        }
    }
}

impl RendererView {
    /// The objects that the renderer owns, in the order in which they were
    /// created.
    pub open spec fn owned(self) -> Seq<Handle> {
        self.vertex_shader.owned() + self.fragment_shader.owned() + self.program.owned()
            + self.texture.owned() + self.vertex_array_object.owned()
            + self.per_frame_buffer_object.owned()
    }

    /// The renderer is ready while it owns all of its objects and its
    /// buffer has the size of the per-frame record.
    pub open spec fn ready(self) -> bool {
        &&& !self.vertex_shader.released
        &&& !self.fragment_shader.released
        &&& !self.program.released
        &&& !self.texture.released
        &&& !self.vertex_array_object.released
        &&& !self.per_frame_buffer_object.released
        &&& self.per_frame_buffer_object.memory_size == 68
        &&& self.draw_config.wf()
    }

    /// The renderer is disposed when it owns nothing any more.
    pub open spec fn disposed(self) -> bool {
        &&& self.vertex_shader.released
        &&& self.fragment_shader.released
        &&& self.program.released
        &&& self.texture.released
        &&& self.vertex_array_object.released
        &&& self.per_frame_buffer_object.released
    }

    /// The renderer with everything given back.
    pub open spec fn released(self) -> RendererView {
        RendererView {
            vertex_shader: Shader { released: true, ..self.vertex_shader },
            fragment_shader: Shader { released: true, ..self.fragment_shader },
            program: Program { released: true, ..self.program },
            vertex_array_object: VertexArrayObjects { released: true, ..self.vertex_array_object },
            per_frame_buffer_object: VertexBufferView {
                released: true,
                ..self.per_frame_buffer_object
            },
            texture: Texture { released: true, ..self.texture },
            ..self
        }
    }

    /// The calls that give back what the renderer owns, those first on
    /// which nothing else depends: texture, buffer, vertex array, program,
    /// fragment shader, vertex shader.
    pub open spec fn dispose_script(self) -> Seq<CommandView> {
        release_script(self.texture.owned()) + release_script(self.per_frame_buffer_object.owned())
            + release_script(self.vertex_array_object.owned()) + release_script(
            self.program.owned(),
        ) + release_script(self.fragment_shader.owned()) + release_script(
            self.vertex_shader.owned(),
        )
    }

    /// The upload of the per-frame record with the given flag.
    pub open spec fn upload(self, transform: Seq<u32>, flag: u32) -> CommandView {
        CommandView {
            call: GlCall::NamedBufferSubData {
                buffer: self.per_frame_buffer_object.handle,
                offset: 0,
                size: self.per_frame_buffer_object.memory_size,
            },
            data: Seq::new(
                68,
                |i: int|
                    word_bytes(
                        if 0 <= i / 4 < 16 {
                            transform[i / 4]
                        } else {
                            flag
                        },
                        self.byte_order,
                    )[i % 4],
            ),
        }
    }

    /// The calls of one frame: the record goes up with the flag 0, colour
    /// and depth are cleared, and the primitive is drawn filled. With the
    /// wireframe overlay the record goes up again with the flag 1 and the
    /// primitive is drawn once more as lines.
    pub open spec fn draw_script(self, transform: Seq<u32>) -> Seq<CommandView> {
        let filled = seq![
            self.upload(transform, 0),
            plain(
                GlCall::ClearColor {
                    red: ONE_TENTH,
                    green: ONE_TENTH,
                    blue: ONE_TENTH,
                    alpha: NINE_TENTHS,
                },
            ),
            plain(GlCall::Clear { mask: gl::COLOR_BUFFER_BIT }),
            plain(GlCall::Clear { mask: gl::DEPTH_BUFFER_BIT }),
            plain(GlCall::PolygonMode { face: gl::FRONT_AND_BACK, mode: gl::FILL }),
            plain(GlCall::DrawArrays { mode: gl::TRIANGLES, first: 0, count: VERTEX_COUNT }),
        ];
        if self.draw_config.wireframe_overlay {
            filled + seq![
                self.upload(transform, 1),
                plain(GlCall::PolygonMode { face: gl::FRONT_AND_BACK, mode: gl::LINE }),
                plain(GlCall::DrawArrays { mode: gl::TRIANGLES, first: 0, count: VERTEX_COUNT }),
            ]
        } else {
            filled
        }
    }

    /// The calls that follow a new size of the drawable: the viewport is
    /// set to it, unless the size is degenerate.
    pub open spec fn resize_script(width: i32, height: i32) -> Seq<CommandView> {
        if DrawConfig::degenerate(width, height) {
            Seq::empty()
        } else {
            seq![plain(GlCall::Viewport { x: 0, y: 0, width, height })]
        }
    }

    /// The calls that make the renderer's objects the active state and set
    /// the fixed state of the pipeline: white clear colour, depth test with
    /// "less", and a depth offset for lines.
    pub open spec fn activation_script(self) -> Seq<CommandView> {
        plain_script(
            seq![
                GlCall::UseProgram { program: self.program.handle },
                GlCall::BindVertexArray { array: self.vertex_array_object.handle },
                GlCall::BindTextures { unit: 0, texture: self.texture.handle },
                GlCall::BindBufferRange {
                    target: gl::UNIFORM_BUFFER,
                    index: 0,
                    buffer: self.per_frame_buffer_object.handle,
                    offset: 0,
                    size: self.per_frame_buffer_object.memory_size,
                },
                GlCall::ClearColor { red: ONE, green: ONE, blue: ONE, alpha: ONE },
                GlCall::Enable { cap: gl::DEPTH_TEST },
                GlCall::DepthFunc { func: gl::LESS },
                GlCall::Enable { cap: gl::POLYGON_OFFSET_LINE },
                GlCall::PolygonOffset { factor: MINUS_ONE, units: MINUS_ONE },
            ],
        )
    }
}

impl Renderer {
    /// Whether the renderer has given back everything it owned.
    pub fn is_disposed(&self) -> (disposed: bool)
        ensures
            disposed == self.deep_view().disposed(),
    {
        self.vertex_shader.released && self.fragment_shader.released && self.program.released
            && self.texture.released && self.vertex_array_object.released
            && self.per_frame_buffer_object.released
    }

    /// Whether the renderer is ready to draw.
    pub fn is_ready(&self) -> (ready: bool)
        ensures
            ready == self.deep_view().ready(),
    {
        !self.vertex_shader.released && !self.fragment_shader.released && !self.program.released
            && !self.texture.released && !self.vertex_array_object.released
            && !self.per_frame_buffer_object.released && self.per_frame_buffer_object.memory_size
            == 68 && self.draw_config.display_aspect.numerator == self.draw_config.display_dimensions.0
            && self.draw_config.display_aspect.denominator
            == self.draw_config.display_dimensions.1 && self.draw_config.display_aspect.numerator
            > 0 && self.draw_config.display_aspect.denominator > 0
    }

    /// The calls that draw one frame with the given transform. The renderer
    /// stays as it is.
    pub fn draw(&self, transform: [u32; 16]) -> (calls: Vec<Command>)
        requires
            self.deep_view().ready(),
        ensures
            calls.deep_view() == self.deep_view().draw_script(transform@),
    {
        let ghost view = self.deep_view();
        let filled = PerFrameData { perspective_transform: transform, wire_frame_enabled: 0 };
        let mut calls = no_calls();
        let upload = self.per_frame_buffer_object.sub_buffer(filled, self.byte_order);
        assert(upload.deep_view().data =~= view.upload(transform@, 0).data);
        push_command(&mut calls, upload);
        push_plain(
            &mut calls,
            GlCall::ClearColor {
                red: ONE_TENTH,
                green: ONE_TENTH,
                blue: ONE_TENTH,
                alpha: NINE_TENTHS,
            },
        );
        push_plain(&mut calls, GlCall::Clear { mask: gl::COLOR_BUFFER_BIT });
        push_plain(&mut calls, GlCall::Clear { mask: gl::DEPTH_BUFFER_BIT });
        push_plain(&mut calls, GlCall::PolygonMode { face: gl::FRONT_AND_BACK, mode: gl::FILL });
        push_plain(
            &mut calls,
            GlCall::DrawArrays { mode: gl::TRIANGLES, first: 0, count: VERTEX_COUNT },
        );
        if self.draw_config.wireframe_overlay {
            let lines = PerFrameData { perspective_transform: transform, wire_frame_enabled: 1 };
            let upload = self.per_frame_buffer_object.sub_buffer(lines, self.byte_order);
            assert(upload.deep_view().data =~= view.upload(transform@, 1).data);
            push_command(&mut calls, upload);
            push_plain(&mut calls, GlCall::PolygonMode { face: gl::FRONT_AND_BACK, mode: gl::LINE });
            push_plain(
                &mut calls,
                GlCall::DrawArrays { mode: gl::TRIANGLES, first: 0, count: VERTEX_COUNT },
            );
        }
        assert(calls.deep_view() =~= view.draw_script(transform@));
        calls
    }

    /// Takes over a new size of the drawable and returns the calls that
    /// follow from it. A degenerate size changes nothing and calls nothing.
    pub fn resize(&mut self, width: i32, height: i32) -> (calls: Vec<Command>)
        requires
            old(self).deep_view().ready(),
        ensures
            final(self).deep_view() == (RendererView {
                draw_config: old(self).draw_config.resized(width, height),
                ..old(self).deep_view()
            }),
            final(self).deep_view().ready(),
            calls.deep_view() == RendererView::resize_script(width, height),
    {
        let mut calls = no_calls();
        if self.draw_config.resize(width, height) {
            push_plain(&mut calls, GlCall::Viewport { x: 0, y: 0, width, height });
        }
        assert(calls.deep_view() =~= RendererView::resize_script(width, height));
        calls
    }

    /// Gives back every object that the renderer still owns, each by one
    /// delete call. A renderer that has been disposed owns nothing, so a
    /// second call returns no call at all.
    pub fn dispose(&mut self) -> (calls: Vec<Command>)
        ensures
            calls.deep_view() == old(self).deep_view().dispose_script(),
            final(self).deep_view() == old(self).deep_view().released(),
            old(self).deep_view().disposed() ==> calls@.len() == 0,
    {
        let calls = self.texture.dispose();
        let calls = append(calls, self.per_frame_buffer_object.dispose());
        let calls = append(calls, self.vertex_array_object.dispose());
        let calls = append(calls, self.program.dispose());
        let calls = append(calls, self.fragment_shader.dispose());
        let calls = append(calls, self.vertex_shader.dispose());
        calls
    }
}

/// Moving one batch behind two others changes the order of the calls, not
/// the calls.
proof fn lemma_moved_batch<A>(moved: Seq<A>, first: Seq<A>, second: Seq<A>, rest: Seq<A>)
    ensures
        (moved + (first + (second + rest))).to_multiset() == (first + (second + (moved
            + rest))).to_multiset(),
{
    vstd::seq_lib::lemma_multiset_commutative(moved, rest);
    vstd::seq_lib::lemma_multiset_commutative(second, moved + rest);
    vstd::seq_lib::lemma_multiset_commutative(first, second + (moved + rest));
    vstd::seq_lib::lemma_multiset_commutative(second, rest);
    vstd::seq_lib::lemma_multiset_commutative(first, second + rest);
    vstd::seq_lib::lemma_multiset_commutative(moved, first + (second + rest));
    assert((moved + (first + (second + rest))).to_multiset() =~= (first + (second + (moved
        + rest))).to_multiset());
}

/// The calls that release what a renderer owns, last made first: buffer,
/// vertex array, texture, program, fragment shader, vertex shader.
proof fn lemma_release_of_owned(renderer: RendererView)
    ensures
        release_script(renderer.owned()) == release_script(renderer.per_frame_buffer_object.owned())
            + (release_script(renderer.vertex_array_object.owned()) + (release_script(
            renderer.texture.owned(),
        ) + (release_script(renderer.program.owned()) + (release_script(
            renderer.fragment_shader.owned(),
        ) + release_script(renderer.vertex_shader.owned()))))),
{
    let vertex = renderer.vertex_shader.owned();
    let fragment = renderer.fragment_shader.owned();
    let program = renderer.program.owned();
    let texture = renderer.texture.owned();
    let array = renderer.vertex_array_object.owned();
    let buffer = renderer.per_frame_buffer_object.owned();
    lemma_release_script_concat(vertex, fragment);
    lemma_release_script_concat(vertex + fragment, program);
    lemma_release_script_concat(vertex + fragment + program, texture);
    lemma_release_script_concat(vertex + fragment + program + texture, array);
    lemma_release_script_concat(vertex + fragment + program + texture + array, buffer);
}

/// Disposal gives back everything. The calls of a disposal are, but for
/// their order, the calls that release the objects that the renderer owns:
/// each object is deleted once, by the call that matches its kind, and
/// nothing else is deleted.
pub proof fn lemma_dispose_releases_everything(renderer: RendererView)
    ensures
        renderer.dispose_script().to_multiset() == release_script(renderer.owned()).to_multiset(),
{
    let t = release_script(renderer.texture.owned());
    let b = release_script(renderer.per_frame_buffer_object.owned());
    let a = release_script(renderer.vertex_array_object.owned());
    let p = release_script(renderer.program.owned());
    let f = release_script(renderer.fragment_shader.owned());
    let v = release_script(renderer.vertex_shader.owned());
    lemma_release_of_owned(renderer);
    assert(renderer.dispose_script() == t + b + a + p + f + v);
    assert(t + b + a + p + f + v =~= t + (b + (a + (p + (f + v)))));
    lemma_moved_batch(t, b, a, p + (f + v));
}

/// A second disposal does nothing: after a disposal the renderer owns
/// nothing, and the calls of another disposal are none.
pub proof fn lemma_dispose_twice(renderer: RendererView)
    ensures
        renderer.released().disposed(),
        renderer.released().owned() == Seq::<Handle>::empty(),
        renderer.released().dispose_script() == Seq::<CommandView>::empty(),
        renderer.released().released() == renderer.released(),
{
    assert(renderer.released().owned() =~= Seq::<Handle>::empty());
    assert(renderer.released().dispose_script() =~= Seq::<CommandView>::empty());
}

/// What a ready renderer's disposal calls: six deletes, texture first,
/// then the buffer, the vertex array, the program, the fragment shader and
/// the vertex shader.
pub proof fn lemma_dispose_order(renderer: RendererView)
    requires
        renderer.ready(),
    ensures
        renderer.dispose_script() == plain_script(
            seq![
                GlCall::DeleteTextures { texture: renderer.texture.handle },
                GlCall::DeleteBuffers { buffer: renderer.per_frame_buffer_object.handle },
                GlCall::DeleteVertexArrays { array: renderer.vertex_array_object.handle },
                GlCall::DeleteProgram { program: renderer.program.handle },
                GlCall::DeleteShader { shader: renderer.fragment_shader.handle },
                GlCall::DeleteShader { shader: renderer.vertex_shader.handle },
            ],
        ),
{
    assert(renderer.dispose_script() =~= plain_script(
        seq![
            GlCall::DeleteTextures { texture: renderer.texture.handle },
            GlCall::DeleteBuffers { buffer: renderer.per_frame_buffer_object.handle },
            GlCall::DeleteVertexArrays { array: renderer.vertex_array_object.handle },
            GlCall::DeleteProgram { program: renderer.program.handle },
            GlCall::DeleteShader { shader: renderer.fragment_shader.handle },
            GlCall::DeleteShader { shader: renderer.vertex_shader.handle },
        ],
    ));
}

/// A degenerate size is ignored altogether: the configuration, and with it
/// the aspect ratio, stays as it is, and no call is made.
pub proof fn lemma_degenerate_resize_ignored(config: DrawConfig, width: i32, height: i32)
    requires
        width == 0 || height == 0,
    ensures
        config.resized(width, height) == config,
        config.resized(width, height).display_aspect == config.display_aspect,
        RendererView::resize_script(width, height) == Seq::<CommandView>::empty(),
{
}

/// Drawing does not touch what the projection depends on: whatever the
/// transform, the same renderer gives the same calls but for the uploaded
/// record, and a different transform gives a different record.
pub proof fn lemma_draw_uploads_transform(
    renderer: RendererView,
    first: Seq<u32>,
    second: Seq<u32>,
    k: int,
)
    requires
        0 <= k < 16,
        first[k] != second[k],
    ensures
        renderer.draw_script(first).len() == renderer.draw_script(second).len(),
        forall|i: int|
            0 <= i < renderer.draw_script(first).len() ==> (#[trigger] renderer.draw_script(
                first,
            )[i]).call == renderer.draw_script(second)[i].call,
        renderer.draw_script(first)[0].data != renderer.draw_script(second)[0].data,
{
    let a = renderer.draw_script(first)[0].data;
    let b = renderer.draw_script(second)[0].data;
    crate::vertex_buffer_objects::lemma_word_bytes_round_trip(first[k], renderer.byte_order);
    crate::vertex_buffer_objects::lemma_word_bytes_round_trip(second[k], renderer.byte_order);
    if a == b {
        let wa = word_bytes(first[k], renderer.byte_order);
        let wb = word_bytes(second[k], renderer.byte_order);
        assert(a[4 * k] == wa[0] && a[4 * k + 1] == wa[1] && a[4 * k + 2] == wa[2] && a[4 * k + 3]
            == wa[3]);
        assert(b[4 * k] == wb[0] && b[4 * k + 1] == wb[1] && b[4 * k + 2] == wb[2] && b[4 * k + 3]
            == wb[3]);
        assert(false);
    }
}

} // verus!
