//! The frame orchestrator: from a frame's drawing context to the device
//! operations that draw it.

use crate::atlas::{AtlasCache, CacheEntry, PageKey, Resolution, TextureSlot};
use crate::atlas::{bind_target_spec, is_fresh, mark_stale_spec, upload_failed_spec};
use crate::draw::{command_ops, commands_ops, draw_call, range_follows, upload_ops};
use crate::draw::{
    DeviceOp, DrawCommand, Frame, FrameView, Projection, Sampler, TextureRef, WidgetUniform,
};
use crate::geometry::{flat_indices, index_bytes, larger, stage, vertex_bytes, StageError};
use vstd::prelude::*;

verus! {

/// What a renderer holds, as plain data.
pub struct RendererView {
    /// The glyph atlas cache.
    pub cache: Seq<CacheEntry>,
    /// Width of the render target in pixels.
    pub width: u32,
    /// Height of the render target in pixels.
    pub height: u32,
}

/// What to do on the device for one frame.
#[derive(Debug, PartialEq, Eq)]
pub struct FramePlan {
    /// The operations, in the order they are to be carried out. Empty where
    /// there is nothing to draw.
    pub ops: Vec<DeviceOp>,
    /// The contents of the frame's index buffer.
    pub indices: Vec<u32>,
}

/// The renderer's state between frames: the size of the render target and
/// the glyph atlas cache.
pub struct UiRenderer {
    cache: AtlasCache,
    width: u32,
    height: u32,
}

impl View for UiRenderer {
    type V = RendererView;

    closed spec fn view(&self) -> RendererView {
        RendererView { cache: self.cache@, width: self.width, height: self.height }
    }
}

/// A frame without vertices, or a target without area, leaves nothing to
/// draw.
pub open spec fn nothing_to_draw(frame: FrameView, width: u32, height: u32) -> bool {
    width == 0 || height == 0 || frame.vertex_count == 0
}

/// The operations that come before the first command: staging, then the
/// setup of the render pass.
pub open spec fn pass_setup(frame: FrameView, width: u32, height: u32) -> Seq<DeviceOp> {
    seq![
        DeviceOp::StageGeometry {
            vertex_bytes: vertex_bytes(frame.vertex_count) as u32,
            index_bytes: index_bytes(frame.triangles.len()) as u32,
            transfer_bytes: larger(
                vertex_bytes(frame.vertex_count),
                index_bytes(frame.triangles.len()),
            ) as u32,
        },
        DeviceOp::BeginRenderPass,
        DeviceOp::BindPipeline,
        DeviceOp::SetViewport { width, height },
        DeviceOp::PushProjection(Projection::for_target(width, height)),
        DeviceOp::BindGeometry,
    ]
}

/// The cache after a frame, and the operations that draw it.
pub open spec fn frame_ops(cache: Seq<CacheEntry>, width: u32, height: u32, frame: FrameView) -> (
    Seq<CacheEntry>,
    Seq<DeviceOp>,
) {
    if nothing_to_draw(frame, width, height) {
        (cache, Seq::empty())
    } else {
        let (after, ops) = commands_ops(cache, width, height, frame.commands);
        (after, pass_setup(frame, width, height) + ops + seq![DeviceOp::EndRenderPass])
    }
}

/// What rendering `frame` comes to: the renderer after it and the result,
/// for the renderer as it was before.
///
/// With nothing to draw the plan is empty and the renderer unchanged.
/// Geometry too large for the device's buffers is an error, the vertices
/// looked at first, and again the renderer is unchanged. Otherwise the plan
/// holds the frame's operations and its index buffer, and the cache is the
/// one that the frame's requests for atlas pages leave.
pub open spec fn render_outcome(
    before: RendererView,
    frame: FrameView,
    after: RendererView,
    r: Result<FramePlan, StageError>,
) -> bool {
    if nothing_to_draw(frame, before.width, before.height) {
        &&& r is Ok
        &&& r->Ok_0.ops@ == Seq::<DeviceOp>::empty()
        &&& r->Ok_0.indices@ == Seq::<u32>::empty()
        &&& after == before
    } else if vertex_bytes(frame.vertex_count) > u32::MAX {
        &&& r == Err::<FramePlan, StageError>(StageError::TooManyVertices)
        &&& after == before
    } else if index_bytes(frame.triangles.len()) > u32::MAX {
        &&& r == Err::<FramePlan, StageError>(StageError::TooManyTriangles)
        &&& after == before
    } else {
        &&& r is Ok
        &&& (after.cache, r->Ok_0.ops@) == frame_ops(
            before.cache,
            before.width,
            before.height,
            frame,
        )
        &&& r->Ok_0.indices@ == flat_indices(frame.triangles)
        &&& after.width == before.width
        &&& after.height == before.height
    }
}

impl UiRenderer {
    /// A renderer for a target of the given size, with an empty cache.
    pub fn new(width: u32, height: u32) -> (renderer: Self)
        ensures
            renderer@ == (RendererView { cache: Seq::empty(), width, height }),
    {
        UiRenderer { cache: AtlasCache::new(), width, height }
    }

    /// Takes note of a new size of the render target. Frames rendered from
    /// now on are projected to it.
    pub fn resize(&mut self, width: u32, height: u32)
        ensures
            final(self)@ == (RendererView { cache: old(self)@.cache, width, height }),
    {
        self.width = width;
        self.height = height;
    }

    /// The size of the render target.
    pub fn target_size(&self) -> (size: (u32, u32))
        ensures
            size == (self@.width, self@.height),
    {
        (self.width, self.height)
    }

    /// The number of atlas pages that have a slot.
    pub fn cached_pages(&self) -> (n: usize)
        ensures
            n == self@.cache.len(),
    {
        self.cache.len()
    }

    /// Records that the font system has changed an atlas page. Says whether
    /// the page has a slot.
    pub fn mark_stale(&mut self, key: &PageKey) -> (known: bool)
        ensures
            final(self)@ == (RendererView {
                cache: mark_stale_spec(old(self)@.cache, *key),
                ..old(self)@
            }),
            known == crate::atlas::has_key(old(self)@.cache, *key),
    {
        self.cache.mark_stale(key)
    }

    /// Records that the upload into `slot` has failed and gives the texture
    /// to draw with in its place.
    pub fn upload_failed(&mut self, slot: usize) -> (t: TextureSlot)
        ensures
            final(self)@ == (RendererView {
                cache: upload_failed_spec(old(self)@.cache, slot as int),
                ..old(self)@
            }),
            t == TextureSlot::Fallback,
    {
        self.cache.upload_failed(slot)
    }

    /// The texture to bind for `texture` as things stand on the device.
    pub fn bind_target(&self, texture: TextureSlot) -> (t: TextureSlot)
        ensures
            t == bind_target_spec(self@.cache, texture),
    {
        self.cache.bind_target(texture)
    }

    /// Appends the operations that draw one command.
    fn draw_command(&mut self, command: &DrawCommand, ops: &mut Vec<DeviceOp>)
        requires
            command.triangles.start <= command.triangles.end,
            3 * command.triangles.end <= u32::MAX,
        ensures
            final(self)@.width == old(self)@.width,
            final(self)@.height == old(self)@.height,
            final(self)@.cache == command_ops(
                old(self)@.cache,
                old(self)@.width,
                old(self)@.height,
                *command,
            ).0,
            final(ops)@ == old(ops)@ + command_ops(
                old(self)@.cache,
                old(self)@.width,
                old(self)@.height,
                *command,
            ).1,
    {
        let ghost before = ops@;
        ops.push(DeviceOp::SetScissor(command.clip_bounds.scissor()));
        ops.push(
            DeviceOp::PushUniform(
                WidgetUniform {
                    solid: command.brush.solid_color(),
                    target_width: self.width,
                    target_height: self.height,
                    bounds: command.bounds,
                    is_font: command.texture.is_font(),
                    opacity: command.opacity,
                },
            ),
        );
        let resolution = match command.texture {
            TextureRef::Font { key, available } => {
                let resolution = self.cache.resolve(key, available);
                match resolution {
                    Resolution::Upload(slot) => {
                        ops.push(DeviceOp::UploadPage { slot, key });
                    },
                    _ => {},
                }
                resolution
            },
            _ => Resolution::Fallback,
        };
        ops.push(DeviceOp::BindTexture { texture: resolution.texture(), sampler: Sampler::Linear });
        let count: usize = command.triangles.end - command.triangles.start;
        ops.push(
            DeviceOp::DrawIndexed {
                index_count: 3 * (count as u32),
                instance_count: 1,
                first_index: 3 * (command.triangles.start as u32),
            },
        );
        assert(ops@ =~= before + command_ops(
            old(self)@.cache,
            old(self)@.width,
            old(self)@.height,
            *command,
        ).1);
    }

    /// Plans the drawing of a frame.
    ///
    /// A frame without vertices, or a target without area, is skipped: the
    /// plan is empty and nothing changes. Otherwise the plan stages the
    /// geometry, sets up the render pass, draws the commands in their order
    /// and ends the pass, and the cache counts the uploads among them as
    /// done. Where the geometry is too large to stage, the frame is refused
    /// and nothing changes.
    pub fn render(&mut self, frame: &Frame) -> (r: Result<FramePlan, StageError>)
        ensures
            frame@.wf(),
            render_outcome(old(self)@, frame@, final(self)@, r),
    {
        let commands = frame.commands();
        if self.width == 0 || self.height == 0 || frame.vertex_count() == 0 {
            return Ok(FramePlan { ops: Vec::new(), indices: Vec::new() });
        }
        let staged = match stage(frame.vertex_count(), frame.triangles()) {
            Ok(staged) => staged,
            Err(e) => {
                return Err(e);
            },
        };
        let mut ops: Vec<DeviceOp> = Vec::new();
        ops.push(
            DeviceOp::StageGeometry {
                vertex_bytes: staged.vertex_bytes,
                index_bytes: staged.index_bytes,
                transfer_bytes: staged.transfer_bytes,
            },
        );
        ops.push(DeviceOp::BeginRenderPass);
        ops.push(DeviceOp::BindPipeline);
        ops.push(DeviceOp::SetViewport { width: self.width, height: self.height });
        ops.push(DeviceOp::PushProjection(Projection::new(self.width, self.height)));
        ops.push(DeviceOp::BindGeometry);
        assert(ops@ =~= pass_setup(frame@, self.width, self.height));
        let ghost setup = ops@;
        let ghost cache = self.cache@;
        let mut i: usize = 0;
        while i < commands.len()
            invariant
                i <= commands@.len(),
                commands@ == frame@.commands,
                frame@.wf(),
                index_bytes(frame@.triangles.len()) <= u32::MAX,
                self@.width == old(self)@.width,
                self@.height == old(self)@.height,
                cache == old(self)@.cache,
                self@.cache == commands_ops(
                    cache,
                    self@.width,
                    self@.height,
                    commands@.take(i as int),
                ).0,
                ops@ == setup + commands_ops(
                    cache,
                    self@.width,
                    self@.height,
                    commands@.take(i as int),
                ).1,
            decreases commands.len() - i,
        {
            assert(crate::draw::range_follows(commands@, frame@.triangles.len(), i as int));
            assert(commands@.take(i + 1).drop_last() =~= commands@.take(i as int));
            assert(commands@.take(i + 1).last() == commands@[i as int]);
            self.draw_command(&commands[i], &mut ops);
            i = i + 1;
        }
        assert(commands@.take(i as int) =~= commands@);
        ops.push(DeviceOp::EndRenderPass);
        assert(ops@ =~= frame_ops(cache, self.width, self.height, frame@).1);
        Ok(FramePlan { ops, indices: staged.indices })
    }
}

/// The draw calls among a list of operations, in their order.
pub open spec fn draw_calls(ops: Seq<DeviceOp>) -> Seq<DeviceOp> {
    ops.filter(|op: DeviceOp| op is DrawIndexed)
}

/// Where the renderer stands in a frame.
pub enum Phase {
    /// Between frames.
    Idle,
    /// The frame's geometry is on the device.
    Staged,
    /// The render pass is open.
    InRenderPass,
}

/// The phase after an operation, `None` where the operation has no place in
/// the phase: geometry is staged between frames, the pass begins on staged
/// geometry, and everything else up to the end of the pass happens inside it.
pub open spec fn step(phase: Phase, op: DeviceOp) -> Option<Phase> {
    match (phase, op) {
        (Phase::Idle, DeviceOp::StageGeometry { .. }) => Some(Phase::Staged),
        (Phase::Staged, DeviceOp::BeginRenderPass) => Some(Phase::InRenderPass),
        (Phase::InRenderPass, DeviceOp::EndRenderPass) => Some(Phase::Idle),
        (Phase::InRenderPass, DeviceOp::StageGeometry { .. }) => None,
        (Phase::InRenderPass, DeviceOp::BeginRenderPass) => None,
        (Phase::InRenderPass, _) => Some(Phase::InRenderPass),
        _ => None,
    }
}

/// The phase after a list of operations, `None` where one of them has no
/// place.
pub open spec fn run(phase: Phase, ops: Seq<DeviceOp>) -> Option<Phase>
    decreases ops.len(),
{
    if ops.len() == 0 {
        Some(phase)
    } else {
        match run(phase, ops.drop_last()) {
            Some(before) => step(before, ops.last()),
            None => None,
        }
    }
}

proof fn lemma_run_concat(phase: Phase, a: Seq<DeviceOp>, b: Seq<DeviceOp>)
    ensures
        run(phase, a + b) == match run(phase, a) {
            Some(mid) => run(mid, b),
            None => None,
        },
    decreases b.len(),
{
    if b.len() == 0 {
        assert(a + b =~= a);
    } else {
        assert((a + b).drop_last() =~= a + b.drop_last());
        assert((a + b).last() == b.last());
        lemma_run_concat(phase, a, b.drop_last());
    }
}

proof fn lemma_run_one(phase: Phase, op: DeviceOp)
    ensures
        run(phase, seq![op]) == step(phase, op),
{
    assert(seq![op].drop_last() =~= Seq::<DeviceOp>::empty());
    assert(run(phase, seq![op].drop_last()) == Some(phase));
}

proof fn lemma_command_stays_in_pass(
    cache: Seq<CacheEntry>,
    width: u32,
    height: u32,
    command: DrawCommand,
)
    ensures
        run(Phase::InRenderPass, command_ops(cache, width, height, command).1) == Some(
            Phase::InRenderPass,
        ),
        draw_calls(command_ops(cache, width, height, command).1) == seq![draw_call(command)],
{
    let ops = command_ops(cache, width, height, command).1;
    let resolution = crate::draw::texture_spec(cache, command.texture).1;
    let head = seq![
        DeviceOp::SetScissor(command.clip_bounds.scissor_spec()),
        DeviceOp::PushUniform(crate::draw::uniform_spec(command, width, height)),
    ];
    let upload = upload_ops(command.texture, resolution);
    let bind = DeviceOp::BindTexture {
        texture: resolution.texture_spec(),
        sampler: Sampler::Linear,
    };
    let draw = draw_call(command);
    let is_draw = |op: DeviceOp| op is DrawIndexed;
    assert(ops =~= ((seq![head[0]] + seq![head[1]]) + upload) + (seq![bind] + seq![draw]));
    lemma_run_one(Phase::InRenderPass, head[0]);
    lemma_run_one(Phase::InRenderPass, head[1]);
    lemma_run_one(Phase::InRenderPass, bind);
    lemma_run_one(Phase::InRenderPass, draw);
    lemma_run_concat(Phase::InRenderPass, seq![head[0]], seq![head[1]]);
    lemma_run_concat(Phase::InRenderPass, seq![bind], seq![draw]);
    if upload.len() == 0 {
        assert(run(Phase::InRenderPass, upload) == Some(Phase::InRenderPass));
    } else {
        assert(upload =~= seq![upload[0]]);
        lemma_run_one(Phase::InRenderPass, upload[0]);
    }
    lemma_run_concat(Phase::InRenderPass, seq![head[0]] + seq![head[1]], upload);
    lemma_run_concat(
        Phase::InRenderPass,
        (seq![head[0]] + seq![head[1]]) + upload,
        seq![bind] + seq![draw],
    );
    reveal_with_fuel(Seq::filter, 3);
    Seq::filter_distributes_over_add(seq![head[0]], seq![head[1]], is_draw);
    Seq::filter_distributes_over_add(seq![bind], seq![draw], is_draw);
    Seq::filter_distributes_over_add(seq![head[0]] + seq![head[1]], upload, is_draw);
    Seq::filter_distributes_over_add(
        (seq![head[0]] + seq![head[1]]) + upload,
        seq![bind] + seq![draw],
        is_draw,
    );
    assert(seq![head[0]].filter(is_draw) =~= Seq::<DeviceOp>::empty());
    assert(seq![head[1]].filter(is_draw) =~= Seq::<DeviceOp>::empty());
    assert(seq![bind].filter(is_draw) =~= Seq::<DeviceOp>::empty());
    assert(seq![draw].filter(is_draw) =~= seq![draw]);
    assert(upload.filter(is_draw) =~= Seq::<DeviceOp>::empty());
    assert(draw_calls(ops) =~= seq![draw]);
}

proof fn lemma_commands_stay_in_pass(
    cache: Seq<CacheEntry>,
    width: u32,
    height: u32,
    commands: Seq<DrawCommand>,
)
    ensures
        run(Phase::InRenderPass, commands_ops(cache, width, height, commands).1) == Some(
            Phase::InRenderPass,
        ),
        draw_calls(commands_ops(cache, width, height, commands).1) == commands.map_values(
            |command: DrawCommand| draw_call(command),
        ),
    decreases commands.len(),
{
    let is_draw = |op: DeviceOp| op is DrawIndexed;
    let calls = commands.map_values(|command: DrawCommand| draw_call(command));
    if commands.len() == 0 {
        reveal_with_fuel(Seq::filter, 1);
        assert(draw_calls(Seq::<DeviceOp>::empty()) =~= calls);
    } else {
        let (before, ops) = commands_ops(cache, width, height, commands.drop_last());
        let last_ops = command_ops(before, width, height, commands.last()).1;
        lemma_commands_stay_in_pass(cache, width, height, commands.drop_last());
        lemma_command_stays_in_pass(before, width, height, commands.last());
        lemma_run_concat(Phase::InRenderPass, ops, last_ops);
        Seq::filter_distributes_over_add(ops, last_ops, is_draw);
        assert(commands.drop_last().map_values(|command: DrawCommand| draw_call(command)) + seq![
            draw_call(commands.last()),
        ] =~= calls);
    }
}

proof fn lemma_commands_keep_slots(
    cache: Seq<CacheEntry>,
    width: u32,
    height: u32,
    commands: Seq<DrawCommand>,
)
    ensures
        commands_ops(cache, width, height, commands).0.len() >= cache.len(),
        forall|i: int|
            0 <= i < cache.len() ==> (#[trigger] commands_ops(
                cache,
                width,
                height,
                commands,
            ).0[i]).key == cache[i].key,
    decreases commands.len(),
{
    if commands.len() > 0 {
        let before = commands_ops(cache, width, height, commands.drop_last()).0;
        let after = commands_ops(cache, width, height, commands).0;
        lemma_commands_keep_slots(cache, width, height, commands.drop_last());
        match commands.last().texture {
            TextureRef::Font { key, available } => {
                crate::atlas::lemma_resolve_keeps_slots(before, key, available);
            },
            _ => {},
        }
        assert forall|i: int| 0 <= i < cache.len() implies (#[trigger] after[i]).key
            == cache[i].key by {
            assert(before[i].key == cache[i].key);
        }
    }
}

/// Drawing a frame evicts nothing: the cache is no shorter after it, and
/// every page that had a slot has it still.
pub proof fn lemma_frame_keeps_slots(
    cache: Seq<CacheEntry>,
    width: u32,
    height: u32,
    frame: FrameView,
)
    ensures
        frame_ops(cache, width, height, frame).0.len() >= cache.len(),
        forall|i: int|
            0 <= i < cache.len() ==> (#[trigger] frame_ops(cache, width, height, frame).0[i]).key
                == cache[i].key,
{
    lemma_commands_keep_slots(cache, width, height, frame.commands);
}

/// The uploads among a list of operations, in their order.
pub open spec fn upload_calls(ops: Seq<DeviceOp>) -> Seq<DeviceOp> {
    ops.filter(|op: DeviceOp| op is UploadPage)
}

/// Every atlas page that the commands name and the font source can provide
/// has a fresh texture.
pub open spec fn pages_fresh(cache: Seq<CacheEntry>, commands: Seq<DrawCommand>) -> bool {
    forall|k: int|
        0 <= k < commands.len() ==> ((#[trigger] commands[k]).texture matches TextureRef::Font {
            key,
            available,
        } ==> available ==> is_fresh(cache, key))
}

proof fn lemma_commands_leave_pages_fresh(
    cache: Seq<CacheEntry>,
    width: u32,
    height: u32,
    commands: Seq<DrawCommand>,
)
    ensures
        pages_fresh(commands_ops(cache, width, height, commands).0, commands),
    decreases commands.len(),
{
    if commands.len() > 0 {
        let before = commands_ops(cache, width, height, commands.drop_last()).0;
        let after = commands_ops(cache, width, height, commands).0;
        let last = commands.last();
        lemma_commands_leave_pages_fresh(cache, width, height, commands.drop_last());
        assert forall|k: int| 0 <= k < commands.len() implies ((
        #[trigger] commands[k]).texture matches TextureRef::Font { key, available } ==> available
            ==> is_fresh(after, key)) by {
            match commands[k].texture {
                TextureRef::Font { key, available } => {
                    if available {
                        if k < commands.len() - 1 {
                            assert(commands.drop_last()[k] == commands[k]);
                            assert(is_fresh(before, key));
                            match last.texture {
                                TextureRef::Font { key: last_key, available: last_available } => {
                                    crate::atlas::lemma_request_keeps_pages_fresh(
                                        before,
                                        last_key,
                                        last_available,
                                        key,
                                    );
                                },
                                _ => {},
                            }
                        } else {
                            crate::atlas::lemma_request_leaves_page_fresh(before, key);
                        }
                    }
                },
                _ => {},
            }
        }
    }
}

proof fn lemma_fresh_pages_need_no_upload(
    cache: Seq<CacheEntry>,
    width: u32,
    height: u32,
    commands: Seq<DrawCommand>,
)
    requires
        pages_fresh(cache, commands),
    ensures
        commands_ops(cache, width, height, commands).0 == cache,
        upload_calls(commands_ops(cache, width, height, commands).1) == Seq::<DeviceOp>::empty(),
    decreases commands.len(),
{
    let is_upload = |op: DeviceOp| op is UploadPage;
    if commands.len() == 0 {
        reveal_with_fuel(Seq::filter, 1);
        assert(upload_calls(Seq::<DeviceOp>::empty()) =~= Seq::<DeviceOp>::empty());
    } else {
        let last = commands.last();
        assert forall|k: int| 0 <= k < commands.drop_last().len() implies ((
        #[trigger] commands.drop_last()[k]).texture matches TextureRef::Font { key, available }
            ==> available ==> is_fresh(cache, key)) by {
            assert(commands.drop_last()[k] == commands[k]);
        }
        lemma_fresh_pages_need_no_upload(cache, width, height, commands.drop_last());
        let ops = commands_ops(cache, width, height, commands.drop_last()).1;
        let last_ops = command_ops(cache, width, height, last).1;
        assert(commands[commands.len() - 1] == last);
        match last.texture {
            TextureRef::Font { key, available } => {
                if available {
                    crate::atlas::lemma_fresh_page_is_cached(cache, key);
                }
            },
            _ => {},
        }
        assert(command_ops(cache, width, height, last).0 == cache);
        assert forall|i: int| 0 <= i < last_ops.len() implies !is_upload(
            #[trigger] last_ops[i],
        ) by {}
        last_ops.lemma_all_neg_filter_empty(is_upload);
        Seq::filter_distributes_over_add(ops, last_ops, is_upload);
        assert(upload_calls(ops + last_ops) =~= Seq::<DeviceOp>::empty());
    }
}

/// Once a frame has been drawn, drawing it again uploads nothing and leaves
/// the cache as it is, so long as the font source provides the same pages
/// and none of them is marked stale in between.
pub proof fn lemma_repeated_frame_uploads_nothing(
    cache: Seq<CacheEntry>,
    width: u32,
    height: u32,
    frame: FrameView,
)
    ensures
        ({
            let warm = frame_ops(cache, width, height, frame).0;
            &&& frame_ops(warm, width, height, frame).0 == warm
            &&& upload_calls(frame_ops(warm, width, height, frame).1) == Seq::<DeviceOp>::empty()
        }),
{
    let is_upload = |op: DeviceOp| op is UploadPage;
    let warm = frame_ops(cache, width, height, frame).0;
    if nothing_to_draw(frame, width, height) {
        reveal_with_fuel(Seq::filter, 1);
        assert(upload_calls(Seq::<DeviceOp>::empty()) =~= Seq::<DeviceOp>::empty());
    } else {
        lemma_commands_leave_pages_fresh(cache, width, height, frame.commands);
        lemma_fresh_pages_need_no_upload(warm, width, height, frame.commands);
        let setup = pass_setup(frame, width, height);
        let ops = commands_ops(warm, width, height, frame.commands).1;
        let end = seq![DeviceOp::EndRenderPass];
        assert forall|i: int| 0 <= i < setup.len() implies !is_upload(#[trigger] setup[i]) by {}
        setup.lemma_all_neg_filter_empty(is_upload);
        assert forall|i: int| 0 <= i < end.len() implies !is_upload(#[trigger] end[i]) by {}
        end.lemma_all_neg_filter_empty(is_upload);
        Seq::filter_distributes_over_add(setup + ops, end, is_upload);
        Seq::filter_distributes_over_add(setup, ops, is_upload);
        assert(upload_calls(setup + ops + end) =~= Seq::<DeviceOp>::empty());
    }
}

/// A frame with nothing to draw is a no-op: no operation is planned, so no
/// render pass is opened and no draw call issued, and the cache stays as it
/// is.
pub proof fn lemma_empty_frame_is_noop(
    cache: Seq<CacheEntry>,
    width: u32,
    height: u32,
    frame: FrameView,
)
    requires
        frame.vertex_count == 0,
    ensures
        frame_ops(cache, width, height, frame) == (cache, Seq::<DeviceOp>::empty()),
        draw_calls(frame_ops(cache, width, height, frame).1) == Seq::<DeviceOp>::empty(),
{
    reveal_with_fuel(Seq::filter, 1);
}

/// The draw calls of a frame are those of its commands, one for each, in the
/// order of the commands.
pub proof fn lemma_draw_calls_follow_commands(
    cache: Seq<CacheEntry>,
    width: u32,
    height: u32,
    frame: FrameView,
)
    requires
        !nothing_to_draw(frame, width, height),
    ensures
        draw_calls(frame_ops(cache, width, height, frame).1) == frame.commands.map_values(
            |command: DrawCommand| draw_call(command),
        ),
{
    let is_draw = |op: DeviceOp| op is DrawIndexed;
    let setup = pass_setup(frame, width, height);
    let ops = commands_ops(cache, width, height, frame.commands).1;
    let end = seq![DeviceOp::EndRenderPass];
    lemma_commands_stay_in_pass(cache, width, height, frame.commands);
    lemma_no_draw_call_outside_commands(frame, width, height);
    Seq::filter_distributes_over_add(setup + ops, end, is_draw);
    Seq::filter_distributes_over_add(setup, ops, is_draw);
    assert(draw_calls(frame_ops(cache, width, height, frame).1) =~= draw_calls(ops));
}

proof fn lemma_no_draw_call_outside_commands(frame: FrameView, width: u32, height: u32)
    ensures
        draw_calls(pass_setup(frame, width, height)) == Seq::<DeviceOp>::empty(),
        draw_calls(seq![DeviceOp::EndRenderPass]) == Seq::<DeviceOp>::empty(),
{
    let is_draw = |op: DeviceOp| op is DrawIndexed;
    let setup = pass_setup(frame, width, height);
    let end = seq![DeviceOp::EndRenderPass];
    assert forall|i: int| 0 <= i < setup.len() implies !is_draw(#[trigger] setup[i]) by {}
    setup.lemma_all_neg_filter_empty(is_draw);
    assert forall|i: int| 0 <= i < end.len() implies !is_draw(#[trigger] end[i]) by {}
    end.lemma_all_neg_filter_empty(is_draw);
}

/// In a frame whose geometry can be staged, each draw call reads the indices
/// of its command's triangles, the draw calls of two commands read indices
/// that do not overlap, the earlier command the earlier ones, and none reads
/// past the end of the staged index buffer.
pub proof fn lemma_draw_ranges_are_disjoint(frame: FrameView, i: int, j: int)
    requires
        frame.wf(),
        index_bytes(frame.triangles.len()) <= u32::MAX,
        0 <= i <= j < frame.commands.len(),
    ensures
        draw_call(frame.commands[i]) == (DeviceOp::DrawIndexed {
            index_count: (3 * frame.commands[i].triangles.count()) as u32,
            instance_count: 1,
            first_index: (3 * frame.commands[i].triangles.start) as u32,
        }),
        0 <= 3 * frame.commands[i].triangles.count() <= u32::MAX,
        3 * frame.commands[i].triangles.start + 3 * frame.commands[i].triangles.count()
            <= flat_indices(frame.triangles).len(),
        i < j ==> 3 * frame.commands[i].triangles.start + 3 * frame.commands[i].triangles.count()
            <= 3 * frame.commands[j].triangles.start,
    decreases j - i,
{
    assert(range_follows(frame.commands, frame.triangles.len(), i));
    assert(range_follows(frame.commands, frame.triangles.len(), j));
    if i < j {
        assert(range_follows(frame.commands, frame.triangles.len(), j - 1));
        lemma_draw_ranges_are_disjoint(frame, i, j - 1);
    }
}

/// The operations of a frame keep to the phases: from idle the geometry is
/// staged, then the pass is opened, everything else happens inside the pass,
/// and the frame ends idle with the pass closed.
pub proof fn lemma_frame_returns_to_idle(
    cache: Seq<CacheEntry>,
    width: u32,
    height: u32,
    frame: FrameView,
)
    ensures
        run(Phase::Idle, frame_ops(cache, width, height, frame).1) == Some(Phase::Idle),
{
    if !nothing_to_draw(frame, width, height) {
        let setup = pass_setup(frame, width, height);
        let ops = commands_ops(cache, width, height, frame.commands).1;
        let end = seq![DeviceOp::EndRenderPass];
        lemma_commands_stay_in_pass(cache, width, height, frame.commands);
        assert(setup =~= seq![setup[0]] + seq![setup[1]] + seq![setup[2]] + seq![setup[3]] + seq![
            setup[4],
        ] + seq![setup[5]]);
        lemma_run_one(Phase::Idle, setup[0]);
        lemma_run_one(Phase::Staged, setup[1]);
        lemma_run_one(Phase::InRenderPass, setup[2]);
        lemma_run_one(Phase::InRenderPass, setup[3]);
        lemma_run_one(Phase::InRenderPass, setup[4]);
        lemma_run_one(Phase::InRenderPass, setup[5]);
        lemma_run_concat(Phase::Idle, seq![setup[0]], seq![setup[1]]);
        lemma_run_concat(Phase::Idle, seq![setup[0]] + seq![setup[1]], seq![setup[2]]);
        lemma_run_concat(
            Phase::Idle,
            seq![setup[0]] + seq![setup[1]] + seq![setup[2]],
            seq![setup[3]],
        );
        lemma_run_concat(
            Phase::Idle,
            seq![setup[0]] + seq![setup[1]] + seq![setup[2]] + seq![setup[3]],
            seq![setup[4]],
        );
        lemma_run_concat(
            Phase::Idle,
            seq![setup[0]] + seq![setup[1]] + seq![setup[2]] + seq![setup[3]] + seq![setup[4]],
            seq![setup[5]],
        );
        assert(run(Phase::Idle, setup) == Some(Phase::InRenderPass));
        lemma_run_one(Phase::InRenderPass, DeviceOp::EndRenderPass);
        lemma_run_concat(Phase::Idle, setup, ops);
        lemma_run_concat(Phase::Idle, setup + ops, end);
    }
}

} // verus!
