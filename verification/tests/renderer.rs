use fyrox_ui_sdl3::atlas::{PageKey, TextureSlot};
use fyrox_ui_sdl3::draw::{
    Bounds, Brush, Color, DeviceOp, DrawCommand, FloatBits, Frame, FrameError, Projection, Ratio,
    Sampler, TextureRef, TriangleRange, WidgetUniform,
};
use fyrox_ui_sdl3::geometry::{StageError, Triangle};
use fyrox_ui_sdl3::renderer::{FramePlan, UiRenderer};
use fyrox_ui_sdl3::scissor::{ClipBounds, ScissorRect};

fn bits(v: f32) -> FloatBits {
    FloatBits(v.to_bits())
}

fn bounds(x: f32, y: f32, w: f32, h: f32) -> Bounds {
    Bounds { min_x: bits(x), min_y: bits(y), max_x: bits(x + w), max_y: bits(y + h) }
}

fn clip(x: f32, y: f32, w: f32, h: f32) -> ClipBounds {
    ClipBounds {
        x: x.floor() as i64,
        y: y.floor() as i64,
        width: w.ceil() as i64,
        height: h.ceil() as i64,
    }
}

fn command(start: usize, end: usize) -> DrawCommand {
    DrawCommand {
        clip_bounds: clip(0.0, 0.0, 100.0, 50.0),
        bounds: bounds(0.0, 0.0, 10.0, 10.0),
        brush: Brush::Solid(Color { r: 255, g: 0, b: 0, a: 255 }),
        texture: TextureRef::Untextured,
        opacity: bits(1.0),
        triangles: TriangleRange { start, end },
    }
}

fn triangles(n: usize) -> Vec<Triangle> {
    (0..n as u32).map(|i| Triangle { indices: [3 * i, 3 * i + 1, 3 * i + 2] }).collect()
}

fn draws(plan: &FramePlan) -> Vec<(u32, u32)> {
    plan.ops
        .iter()
        .filter_map(|op| match op {
            DeviceOp::DrawIndexed { index_count, instance_count, first_index } => {
                assert_eq!(*instance_count, 1);
                Some((*index_count, *first_index))
            }
            _ => None,
        })
        .collect()
}

fn normalized(c: Color) -> [f32; 4] {
    [c.r as f32 / 255.0, c.g as f32 / 255.0, c.b as f32 / 255.0, c.a as f32 / 255.0]
}

#[test]
fn frame_without_vertices_is_a_noop() {
    let mut renderer = UiRenderer::new(1280, 720);
    let frame = Frame::new(0, triangles(2), vec![command(0, 2)]).unwrap();
    let plan = renderer.render(&frame).unwrap();
    assert!(plan.ops.is_empty());
    assert!(plan.indices.is_empty());
    assert_eq!(renderer.cached_pages(), 0);
    assert_eq!(renderer.target_size(), (1280, 720));
}

#[test]
fn target_without_area_is_skipped() {
    for (w, h) in [(0, 720), (1280, 0), (0, 0)] {
        let mut renderer = UiRenderer::new(w, h);
        let frame = Frame::new(6, triangles(2), vec![command(0, 2)]).unwrap();
        let plan = renderer.render(&frame).unwrap();
        assert!(plan.ops.is_empty());
        assert!(plan.indices.is_empty());
    }
}

#[test]
fn single_solid_command() {
    let mut renderer = UiRenderer::new(1280, 720);
    let frame = Frame::new(6, triangles(2), vec![command(0, 2)]).unwrap();
    let plan = renderer.render(&frame).unwrap();
    let uniform = WidgetUniform {
        solid: Color { r: 255, g: 0, b: 0, a: 255 },
        target_width: 1280,
        target_height: 720,
        bounds: bounds(0.0, 0.0, 10.0, 10.0),
        is_font: false,
        opacity: bits(1.0),
    };
    assert_eq!(
        plan.ops,
        vec![
            DeviceOp::StageGeometry { vertex_bytes: 120, index_bytes: 24, transfer_bytes: 120 },
            DeviceOp::BeginRenderPass,
            DeviceOp::BindPipeline,
            DeviceOp::SetViewport { width: 1280, height: 720 },
            DeviceOp::PushProjection(Projection {
                scale_x: Ratio { num: 2, den: 1280 },
                scale_y: Ratio { num: 2, den: -720 },
                offset_x: -1,
                offset_y: 1,
            }),
            DeviceOp::BindGeometry,
            DeviceOp::SetScissor(ScissorRect { x: 0, y: 0, width: 100, height: 50 }),
            DeviceOp::PushUniform(uniform),
            DeviceOp::BindTexture { texture: TextureSlot::Fallback, sampler: Sampler::Linear },
            DeviceOp::DrawIndexed { index_count: 6, instance_count: 1, first_index: 0 },
            DeviceOp::EndRenderPass,
        ]
    );
    assert_eq!(plan.indices, vec![0, 1, 2, 3, 4, 5]);
    assert_eq!(normalized(uniform.solid), [1.0, 0.0, 0.0, 1.0]);
    assert_eq!(uniform.is_font as i32 as f32, 0.0);
    assert_eq!(f32::from_bits(uniform.opacity.0), 1.0);
    let scissors = plan.ops.iter().filter(|op| matches!(op, DeviceOp::SetScissor(_))).count();
    assert_eq!(scissors, 1);
    assert_eq!(draws(&plan), vec![(6, 0)]);
}

#[test]
fn resize_changes_the_projection() {
    let mut renderer = UiRenderer::new(1280, 720);
    let frame = Frame::new(6, triangles(2), vec![command(0, 2)]).unwrap();
    let before = renderer.render(&frame).unwrap();
    renderer.resize(640, 480);
    assert_eq!(renderer.target_size(), (640, 480));
    let after = renderer.render(&frame).unwrap();
    let projection = |plan: &FramePlan| {
        plan.ops
            .iter()
            .find_map(|op| match op {
                DeviceOp::PushProjection(p) => Some(*p),
                _ => None,
            })
            .unwrap()
    };
    let p = projection(&before);
    assert_eq!((p.scale_x, p.scale_y), (Ratio { num: 2, den: 1280 }, Ratio { num: 2, den: -720 }));
    let p = projection(&after);
    assert_eq!((p.scale_x, p.scale_y), (Ratio { num: 2, den: 640 }, Ratio { num: 2, den: -480 }));
    assert_eq!(p.scale_x.num as f32 / p.scale_x.den as f32, 2.0 / 640.0);
    assert_eq!(p.scale_y.num as f32 / p.scale_y.den as f32, 2.0 / -480.0);
    assert_eq!((p.offset_x, p.offset_y), (-1, 1));
    assert_eq!(after.ops[3], DeviceOp::SetViewport { width: 640, height: 480 });
    match after.ops[7] {
        DeviceOp::PushUniform(u) => assert_eq!((u.target_width, u.target_height), (640, 480)),
        other => panic!("{:?}", other),
    }
    assert_eq!(draws(&after), draws(&before));
}

#[test]
fn projection_for_a_target() {
    assert_eq!(
        Projection::new(800, 600),
        Projection {
            scale_x: Ratio { num: 2, den: 800 },
            scale_y: Ratio { num: 2, den: -600 },
            offset_x: -1,
            offset_y: 1,
        }
    );
    let p = Projection::new(u32::MAX, u32::MAX);
    assert_eq!((p.scale_x.den, p.scale_y.den), (4294967295, -4294967295));
}

#[test]
fn draw_calls_come_in_command_order() {
    let mut renderer = UiRenderer::new(800, 600);
    let commands = vec![command(0, 2), command(2, 3), command(3, 3), command(3, 7)];
    let frame = Frame::new(21, triangles(7), commands).unwrap();
    let plan = renderer.render(&frame).unwrap();
    assert_eq!(draws(&plan), vec![(6, 0), (3, 6), (0, 9), (12, 9)]);
    assert_eq!(plan.ops.len(), 6 + 4 * 4 + 1);
    assert_eq!(plan.ops[0], DeviceOp::StageGeometry { vertex_bytes: 420, index_bytes: 84, transfer_bytes: 420 });
    assert_eq!(plan.ops[plan.ops.len() - 1], DeviceOp::EndRenderPass);
}

#[test]
fn draw_ranges_are_disjoint_and_within_the_index_buffer() {
    let mut renderer = UiRenderer::new(800, 600);
    let commands = vec![command(0, 1), command(1, 4), command(4, 5)];
    let frame = Frame::new(18, triangles(6), commands).unwrap();
    let plan = renderer.render(&frame).unwrap();
    let calls = draws(&plan);
    let mut end = 0;
    for (count, first) in calls {
        assert!(first >= end);
        end = first + count;
    }
    assert!(end as usize <= plan.indices.len());
    assert_eq!(plan.indices.len(), 18);
}

#[test]
fn gradient_brushes_draw_white() {
    let white = Color { r: 255, g: 255, b: 255, a: 255 };
    assert_eq!(Brush::LinearGradient.solid_color(), white);
    assert_eq!(Brush::RadialGradient.solid_color(), white);
    let c = Color { r: 1, g: 2, b: 3, a: 4 };
    assert_eq!(Brush::Solid(c).solid_color(), c);
    assert_eq!(normalized(white), [1.0, 1.0, 1.0, 1.0]);
}

#[test]
fn application_textures_fall_back_to_white() {
    let mut renderer = UiRenderer::new(800, 600);
    let mut c = command(0, 1);
    c.texture = TextureRef::Texture(42);
    c.brush = Brush::LinearGradient;
    let frame = Frame::new(3, triangles(1), vec![c]).unwrap();
    let plan = renderer.render(&frame).unwrap();
    assert_eq!(plan.ops[8], DeviceOp::BindTexture { texture: TextureSlot::Fallback, sampler: Sampler::Linear });
    match plan.ops[7] {
        DeviceOp::PushUniform(u) => {
            assert!(!u.is_font);
            assert_eq!(u.solid, Color { r: 255, g: 255, b: 255, a: 255 });
        }
        other => panic!("{:?}", other),
    }
    assert!(!TextureRef::Texture(42).is_font());
    assert!(!TextureRef::Untextured.is_font());
    assert_eq!(renderer.cached_pages(), 0);
}

#[test]
fn font_page_is_uploaded_once_across_commands_and_frames() {
    let mut renderer = UiRenderer::new(800, 600);
    let key = PageKey { font: 7, height: 14.0f32.to_bits(), page: 0 };
    let mut first = command(0, 1);
    first.texture = TextureRef::Font { key, available: true };
    let mut second = command(1, 2);
    second.texture = TextureRef::Font { key, available: true };
    let frame = Frame::new(6, triangles(2), vec![first, second]).unwrap();
    let plan = renderer.render(&frame).unwrap();
    let tail: Vec<DeviceOp> = plan.ops[6..].to_vec();
    let uniform = |c: &DrawCommand| WidgetUniform {
        solid: Color { r: 255, g: 0, b: 0, a: 255 },
        target_width: 800,
        target_height: 600,
        bounds: c.bounds,
        is_font: true,
        opacity: c.opacity,
    };
    assert_eq!(
        tail,
        vec![
            DeviceOp::SetScissor(ScissorRect { x: 0, y: 0, width: 100, height: 50 }),
            DeviceOp::PushUniform(uniform(&first)),
            DeviceOp::UploadPage { slot: 0, key },
            DeviceOp::BindTexture { texture: TextureSlot::Page(0), sampler: Sampler::Linear },
            DeviceOp::DrawIndexed { index_count: 3, instance_count: 1, first_index: 0 },
            DeviceOp::SetScissor(ScissorRect { x: 0, y: 0, width: 100, height: 50 }),
            DeviceOp::PushUniform(uniform(&second)),
            DeviceOp::BindTexture { texture: TextureSlot::Page(0), sampler: Sampler::Linear },
            DeviceOp::DrawIndexed { index_count: 3, instance_count: 1, first_index: 3 },
            DeviceOp::EndRenderPass,
        ]
    );
    assert_eq!(renderer.cached_pages(), 1);
    let uploads = |plan: &FramePlan| {
        plan.ops.iter().filter(|op| matches!(op, DeviceOp::UploadPage { .. })).count()
    };
    assert_eq!(uploads(&plan), 1);
    let again = renderer.render(&frame).unwrap();
    assert_eq!(uploads(&again), 0);
    assert!(renderer.mark_stale(&key));
    let stale = renderer.render(&frame).unwrap();
    assert_eq!(uploads(&stale), 1);
    assert_eq!(uploads(&renderer.render(&frame).unwrap()), 0);
}

#[test]
fn missing_font_page_draws_with_the_fallback() {
    let mut renderer = UiRenderer::new(800, 600);
    let key = PageKey { font: 7, height: 14.0f32.to_bits(), page: 3 };
    let mut c = command(0, 1);
    c.texture = TextureRef::Font { key, available: false };
    let frame = Frame::new(3, triangles(1), vec![c]).unwrap();
    let plan = renderer.render(&frame).unwrap();
    assert_eq!(plan.ops.len(), 11);
    assert_eq!(plan.ops[8], DeviceOp::BindTexture { texture: TextureSlot::Fallback, sampler: Sampler::Linear });
    match plan.ops[7] {
        DeviceOp::PushUniform(u) => assert!(u.is_font),
        other => panic!("{:?}", other),
    }
    assert_eq!(renderer.cached_pages(), 0);
    assert!(!renderer.mark_stale(&key));
}

#[test]
fn failed_upload_binds_the_fallback_until_the_next_request() {
    let mut renderer = UiRenderer::new(800, 600);
    let key = PageKey { font: 7, height: 14.0f32.to_bits(), page: 0 };
    let mut c = command(0, 1);
    c.texture = TextureRef::Font { key, available: true };
    let frame = Frame::new(3, triangles(1), vec![c]).unwrap();
    let plan = renderer.render(&frame).unwrap();
    assert_eq!(plan.ops[8], DeviceOp::UploadPage { slot: 0, key });
    assert_eq!(renderer.bind_target(TextureSlot::Page(0)), TextureSlot::Page(0));
    assert_eq!(renderer.upload_failed(0), TextureSlot::Fallback);
    assert_eq!(renderer.bind_target(TextureSlot::Page(0)), TextureSlot::Fallback);
    let plan = renderer.render(&frame).unwrap();
    assert_eq!(plan.ops[8], DeviceOp::UploadPage { slot: 0, key });
    assert_eq!(renderer.bind_target(TextureSlot::Page(0)), TextureSlot::Page(0));
}

#[test]
fn negative_clip_size_gives_an_empty_scissor() {
    let mut renderer = UiRenderer::new(800, 600);
    let mut c = command(0, 1);
    c.clip_bounds = clip(-30.5, 900.25, -4.0, f32::NAN);
    let frame = Frame::new(3, triangles(1), vec![c]).unwrap();
    let plan = renderer.render(&frame).unwrap();
    assert_eq!(
        plan.ops[6],
        DeviceOp::SetScissor(ScissorRect { x: -31, y: 900, width: 0, height: 0 })
    );
}

#[test]
fn frame_without_commands_only_opens_and_closes_the_pass() {
    let mut renderer = UiRenderer::new(800, 600);
    let frame = Frame::new(3, triangles(1), Vec::new()).unwrap();
    let plan = renderer.render(&frame).unwrap();
    assert_eq!(plan.ops.len(), 7);
    assert_eq!(plan.ops[6], DeviceOp::EndRenderPass);
    assert!(draws(&plan).is_empty());
    assert_eq!(plan.indices, vec![0, 1, 2]);
}

#[test]
fn geometry_too_large_to_stage_is_refused() {
    let mut renderer = UiRenderer::new(800, 600);
    let frame = Frame::new(usize::MAX, triangles(1), vec![command(0, 1)]).unwrap();
    assert_eq!(renderer.render(&frame), Err(StageError::TooManyVertices));
    assert_eq!(renderer.cached_pages(), 0);
}

#[test]
fn frame_accepts_ranges_that_cover_a_prefix() {
    let frame = Frame::new(9, triangles(4), vec![command(0, 1), command(1, 1), command(1, 3)]);
    let frame = frame.unwrap();
    assert_eq!(frame.vertex_count(), 9);
    assert_eq!(frame.triangles().len(), 4);
    assert_eq!(frame.commands().len(), 3);
    assert!(Frame::new(0, Vec::new(), Vec::new()).is_ok());
}

#[test]
fn frame_refuses_ranges_out_of_order() {
    let err = |commands: Vec<DrawCommand>| Frame::new(9, triangles(4), commands).err();
    assert_eq!(err(vec![command(1, 2)]), Some(FrameError::RangeOutOfOrder { command: 0 }));
    assert_eq!(
        err(vec![command(0, 2), command(1, 3)]),
        Some(FrameError::RangeOutOfOrder { command: 1 })
    );
    assert_eq!(
        err(vec![command(0, 2), command(3, 4)]),
        Some(FrameError::RangeOutOfOrder { command: 1 })
    );
    assert_eq!(
        err(vec![command(0, 2), command(2, 5)]),
        Some(FrameError::RangeOutOfOrder { command: 1 })
    );
    assert_eq!(
        err(vec![command(0, 2), command(2, 1), command(7, 9)]),
        Some(FrameError::RangeOutOfOrder { command: 1 })
    );
    assert_eq!(err(vec![command(0, 5)]), Some(FrameError::RangeOutOfOrder { command: 0 }));
}
