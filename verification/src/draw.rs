//! The drawing context of one frame, and the device operations that drawing
//! it comes to.

use crate::atlas::{resolve_spec, CacheEntry, PageKey, Resolution, TextureSlot};
use crate::geometry::Triangle;
use crate::scissor::{ClipBounds, ScissorRect};
use vstd::prelude::*;

verus! {

/// The bit pattern of a 32-bit float. Such a number is carried through to the
/// device as it came from the toolkit; nothing here computes with it.
#[derive(Clone, Copy, Debug, PartialEq, Eq, Structural)]
pub struct FloatBits(pub u32);

/// A colour of four channels, each a fraction of 255.
#[derive(Clone, Copy, Debug, PartialEq, Eq, Structural)]
pub struct Color {
    pub r: u8,
    pub g: u8,
    pub b: u8,
    pub a: u8,
}

/// How a command's geometry is filled.
#[derive(Clone, Copy, Debug, PartialEq, Eq, Structural)]
pub enum Brush {
    /// One colour throughout.
    Solid(Color),
    /// A gradient along a line. Drawn as opaque white.
    LinearGradient,
    /// A gradient around a centre. Drawn as opaque white.
    RadialGradient,
}

/// The texture a command asks for.
#[derive(Clone, Copy, Debug, PartialEq, Eq, Structural)]
pub enum TextureRef {
    /// No texture.
    Untextured,
    /// A texture of the application, by its handle.
    Texture(u64),
    /// A page of a glyph atlas. `available` says whether the font source can
    /// provide the page's pixels for this frame.
    Font { key: PageKey, available: bool },
}

/// The corners of a command's geometry in screen space.
#[derive(Clone, Copy, Debug, PartialEq, Eq, Structural)]
pub struct Bounds {
    pub min_x: FloatBits,
    pub min_y: FloatBits,
    pub max_x: FloatBits,
    pub max_y: FloatBits,
}

/// The triangles `start .. end` of the frame's triangle array.
#[derive(Clone, Copy, Debug, PartialEq, Eq, Structural)]
pub struct TriangleRange {
    pub start: usize,
    pub end: usize,
}

/// One batch of triangles that share clip bounds, brush, texture and opacity.
#[derive(Clone, Copy, Debug, PartialEq, Eq, Structural)]
pub struct DrawCommand {
    pub clip_bounds: ClipBounds,
    pub bounds: Bounds,
    pub brush: Brush,
    pub texture: TextureRef,
    pub opacity: FloatBits,
    pub triangles: TriangleRange,
}

/// The block of values the fragment shader gets for one draw call.
#[derive(Clone, Copy, Debug, PartialEq, Eq, Structural)]
pub struct WidgetUniform {
    /// The fill colour.
    pub solid: Color,
    /// Width of the render target in pixels.
    pub target_width: u32,
    /// Height of the render target in pixels.
    pub target_height: u32,
    pub bounds: Bounds,
    /// Whether the command's texture is a glyph atlas page, which holds
    /// coverage and no colour.
    pub is_font: bool,
    pub opacity: FloatBits,
}

/// A fraction `num / den`.
#[derive(Clone, Copy, Debug, PartialEq, Eq, Structural)]
pub struct Ratio {
    pub num: i64,
    pub den: i64,
}

/// The orthographic projection from pixels to clip space, with the origin in
/// the top-left corner of the target: a pixel `(x, y)` goes to
/// `(x * scale_x + offset_x, y * scale_y + offset_y)`, and depth is negated.
#[derive(Clone, Copy, Debug, PartialEq, Eq, Structural)]
pub struct Projection {
    pub scale_x: Ratio,
    pub scale_y: Ratio,
    pub offset_x: i64,
    pub offset_y: i64,
}

/// How a texture is read.
#[derive(Clone, Copy, Debug, PartialEq, Eq, Structural)]
pub enum Sampler {
    /// Linear filtering, clamped to the texture's edges.
    Linear,
}

/// One operation on the device. A frame is drawn by carrying these out in
/// order.
#[derive(Clone, Copy, Debug, PartialEq, Eq, Structural)]
pub enum DeviceOp {
    /// Create the frame's vertex and index buffers and fill them through one
    /// transfer buffer, in a copy pass of its own.
    StageGeometry { vertex_bytes: u32, index_bytes: u32, transfer_bytes: u32 },
    /// Begin the render pass against the caller's colour targets.
    BeginRenderPass,
    /// Bind the graphics pipeline.
    BindPipeline,
    /// Set the viewport to the whole target.
    SetViewport { width: u32, height: u32 },
    /// Push the projection as the vertex stage's uniform.
    PushProjection(Projection),
    /// Bind the frame's vertex buffer and its index buffer of 32-bit indices.
    BindGeometry,
    /// Set the scissor rectangle.
    SetScissor(ScissorRect),
    /// Push the block as the fragment stage's uniform.
    PushUniform(WidgetUniform),
    /// Upload the pixels of an atlas page into the texture of a slot.
    UploadPage { slot: usize, key: PageKey },
    /// Bind a texture and the sampler it is read with to the fragment stage.
    BindTexture { texture: TextureSlot, sampler: Sampler },
    /// Draw `instance_count` instances of `index_count` indices from
    /// `first_index` on.
    DrawIndexed { index_count: u32, instance_count: u32, first_index: u32 },
    /// End the render pass.
    EndRenderPass,
}

/// Opaque white, the colour of every brush that is not solid.
pub open spec fn white() -> Color {
    Color { r: 255, g: 255, b: 255, a: 255 }
}

impl Brush {
    /// The colour the brush is drawn with.
    pub open spec fn solid_color_spec(self) -> Color {
        match self {
            Brush::Solid(color) => color,
            _ => white(),
        }
    }

    /// The colour the brush is drawn with: its own where it is solid, opaque
    /// white otherwise.
    pub fn solid_color(&self) -> (color: Color)
        ensures
            color == self.solid_color_spec(),
    {
        match self {
            Brush::Solid(color) => *color,
            _ => Color { r: 255, g: 255, b: 255, a: 255 },
        }
    }
}

impl TextureRef {
    /// Whether this names a page of a glyph atlas.
    pub open spec fn is_font_spec(self) -> bool {
        self is Font
    }

    /// Whether this names a page of a glyph atlas.
    pub fn is_font(&self) -> (b: bool)
        ensures
            b == self.is_font_spec(),
    {
        match self {
            TextureRef::Font { .. } => true,
            _ => false,
        }
    }
}

impl TriangleRange {
    /// The number of triangles in the range.
    pub open spec fn count(self) -> int {
        self.end - self.start
    }

    /// The number of indices the range takes.
    pub open spec fn index_count(self) -> int {
        3 * (self.end - self.start)
    }

    /// The place of the range's first index in the index buffer.
    pub open spec fn first_index(self) -> int {
        3 * self.start
    }
}

impl Projection {
    /// The projection for a target of the given size.
    pub open spec fn for_target(width: u32, height: u32) -> Projection {
        Projection {
            scale_x: Ratio { num: 2, den: width as i64 },
            scale_y: Ratio { num: 2, den: (-(height as int)) as i64 },
            offset_x: (-1int) as i64,
            offset_y: 1,
        }
    }

    /// The projection for a target of the given size: `2 / width` across,
    /// `2 / -height` down, so that the top-left pixel corner goes to
    /// `(-1, 1)`.
    pub fn new(width: u32, height: u32) -> (p: Projection)
        ensures
            p == Projection::for_target(width, height),
    {
        Projection {
            scale_x: Ratio { num: 2, den: width as i64 },
            scale_y: Ratio { num: 2, den: -(height as i64) },
            offset_x: -1,
            offset_y: 1,
        }
    }

    /// The clip-space abscissa of the pixel column `x`, times the horizontal
    /// denominator.
    pub open spec fn clip_x_scaled(self, x: int) -> int {
        x * self.scale_x.num + self.offset_x * self.scale_x.den
    }

    /// The clip-space ordinate of the pixel row `y`, times the vertical
    /// denominator.
    pub open spec fn clip_y_scaled(self, y: int) -> int {
        y * self.scale_y.num + self.offset_y * self.scale_y.den
    }
}

/// The projection takes the target's left edge to -1 and its right edge to 1,
/// its top edge to 1 and its bottom edge to -1.
pub proof fn lemma_projection_maps_target_to_clip_space(width: u32, height: u32)
    ensures
        ({
            let p = Projection::for_target(width, height);
            &&& p.clip_x_scaled(0) == -1 * p.scale_x.den
            &&& p.clip_x_scaled(width as int) == 1 * p.scale_x.den
            &&& p.clip_y_scaled(0) == 1 * p.scale_y.den
            &&& p.clip_y_scaled(height as int) == -1 * p.scale_y.den
        }),
{
}

/// The uniform block of a command drawn to a target of the given size.
pub open spec fn uniform_spec(command: DrawCommand, width: u32, height: u32) -> WidgetUniform {
    WidgetUniform {
        solid: command.brush.solid_color_spec(),
        target_width: width,
        target_height: height,
        bounds: command.bounds,
        is_font: command.texture.is_font_spec(),
        opacity: command.opacity,
    }
}

/// The cache and the answer after looking for a command's texture. Only a
/// page of a glyph atlas is looked up in the cache; a command without
/// texture, or with a texture of the application, gets the fallback.
pub open spec fn texture_spec(cache: Seq<CacheEntry>, texture: TextureRef) -> (
    Seq<CacheEntry>,
    Resolution,
) {
    match texture {
        TextureRef::Font { key, available } => resolve_spec(cache, key, available),
        _ => (cache, Resolution::Fallback),
    }
}

/// The upload that a command's texture calls for, if any.
pub open spec fn upload_ops(texture: TextureRef, resolution: Resolution) -> Seq<DeviceOp> {
    match (texture, resolution) {
        (TextureRef::Font { key, .. }, Resolution::Upload(slot)) => seq![
            DeviceOp::UploadPage { slot, key },
        ],
        _ => Seq::empty(),
    }
}

/// The draw call of a command: one instance of the indices of its triangles.
pub open spec fn draw_call(command: DrawCommand) -> DeviceOp {
    DeviceOp::DrawIndexed {
        index_count: command.triangles.index_count() as u32,
        instance_count: 1,
        first_index: command.triangles.first_index() as u32,
    }
}

/// The cache after a command, and the operations that draw it: scissor,
/// uniform block, the upload of its atlas page where it needs one, texture
/// with the linear sampler, draw call.
pub open spec fn command_ops(
    cache: Seq<CacheEntry>,
    width: u32,
    height: u32,
    command: DrawCommand,
) -> (Seq<CacheEntry>, Seq<DeviceOp>) {
    let (next, resolution) = texture_spec(cache, command.texture);
    (
        next,
        seq![
            DeviceOp::SetScissor(command.clip_bounds.scissor_spec()),
            DeviceOp::PushUniform(uniform_spec(command, width, height)),
        ] + upload_ops(command.texture, resolution) + seq![
            DeviceOp::BindTexture {
                texture: resolution.texture_spec(),
                sampler: Sampler::Linear,
            },
            draw_call(command),
        ],
    )
}

/// The cache after a list of commands, and their operations one command
/// after the other.
pub open spec fn commands_ops(
    cache: Seq<CacheEntry>,
    width: u32,
    height: u32,
    commands: Seq<DrawCommand>,
) -> (Seq<CacheEntry>, Seq<DeviceOp>)
    decreases commands.len(),
{
    if commands.len() == 0 {
        (cache, Seq::empty())
    } else {
        let (before, ops) = commands_ops(cache, width, height, commands.drop_last());
        let (after, last_ops) = command_ops(before, width, height, commands.last());
        (after, ops + last_ops)
    }
}

/// Whether the command `i` takes up the triangle array where the command
/// before it left off, and ends within the array.
pub open spec fn range_follows(commands: Seq<DrawCommand>, triangle_count: nat, i: int) -> bool {
    &&& commands[i].triangles.start == if i == 0 {
        0
    } else {
        commands[i - 1].triangles.end as int
    }
    &&& commands[i].triangles.start <= commands[i].triangles.end
    &&& commands[i].triangles.end <= triangle_count
}

/// The ranges of the commands, in order, cover a prefix of the triangle
/// array without gap or overlap.
pub open spec fn ranges_cover_prefix(commands: Seq<DrawCommand>, triangle_count: nat) -> bool {
    forall|i: int| 0 <= i < commands.len() ==> #[trigger] range_follows(commands, triangle_count, i)
}

/// What a frame holds, as plain data.
pub struct FrameView {
    pub vertex_count: nat,
    pub triangles: Seq<Triangle>,
    pub commands: Seq<DrawCommand>,
}

impl FrameView {
    /// The frame's command ranges fit its triangle array.
    pub open spec fn wf(self) -> bool {
        ranges_cover_prefix(self.commands, self.triangles.len())
    }
}

/// Why a list of commands is no frame.
#[derive(Clone, Copy, Debug, PartialEq, Eq, Structural)]
pub enum FrameError {
    /// The range of the command does not start where the one before it ends,
    /// runs backwards, or runs past the end of the triangle array.
    RangeOutOfOrder { command: usize },
}

/// The drawing context of one frame: its vertices, by their number, its
/// triangles, and its commands in drawing order.
///
/// The ranges of the commands cover a prefix of the triangle array.
#[derive(Debug)]
pub struct Frame {
    vertex_count: usize,
    triangles: Vec<Triangle>,
    commands: Vec<DrawCommand>,
}

impl View for Frame {
    type V = FrameView;

    closed spec fn view(&self) -> FrameView {
        FrameView {
            vertex_count: self.vertex_count as nat,
            triangles: self.triangles@,
            commands: self.commands@,
        }
    }
}

impl Frame {
    #[verifier::type_invariant]
    spec fn inv(self) -> bool {
        ranges_cover_prefix(self.commands@, self.triangles@.len())
    }

    /// Makes a frame of a list of commands, if their ranges fit the triangle
    /// array. Otherwise names the first command whose range does not.
    pub fn new(vertex_count: usize, triangles: Vec<Triangle>, commands: Vec<DrawCommand>) -> (r:
        Result<Frame, FrameError>)
        ensures
            match r {
                Ok(frame) => {
                    &&& ranges_cover_prefix(commands@, triangles@.len())
                    &&& frame@ == (FrameView {
                        vertex_count: vertex_count as nat,
                        triangles: triangles@,
                        commands: commands@,
                    })
                },
                Err(FrameError::RangeOutOfOrder { command }) => {
                    &&& command < commands@.len()
                    &&& !range_follows(commands@, triangles@.len(), command as int)
                    &&& forall|j: int|
                        0 <= j < command ==> #[trigger] range_follows(commands@, triangles@.len(), j)
                },
            },
    {
        let mut expected: usize = 0;
        let mut i: usize = 0;
        while i < commands.len()
            invariant
                i <= commands@.len(),
                forall|j: int| 0 <= j < i ==> #[trigger] range_follows(commands@, triangles@.len(), j),
                expected == if i == 0 {
                    0
                } else {
                    commands@[i - 1].triangles.end as int
                },
            decreases commands.len() - i,
        {
            let range = commands[i].triangles;
            if range.start != expected || range.end < range.start || range.end > triangles.len() {
                return Err(FrameError::RangeOutOfOrder { command: i });
            }
            expected = range.end;
            i = i + 1;
        }
        Ok(Frame { vertex_count, triangles, commands })
    }

    /// The number of vertices.
    pub fn vertex_count(&self) -> (n: usize)
        ensures
            n == self@.vertex_count,
    {
        self.vertex_count
    }

    /// The triangles.
    pub fn triangles(&self) -> (t: &Vec<Triangle>)
        ensures
            t@ == self@.triangles,
    {
        &self.triangles
    }

    /// The commands, in drawing order.
    pub fn commands(&self) -> (c: &Vec<DrawCommand>)
        ensures
            c@ == self@.commands,
            self@.wf(),
    {
        proof {
            use_type_invariant(self);
        }
        &self.commands
    }
}

} // verus!
