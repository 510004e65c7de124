//! Rendering backend that turns the per-frame drawing output of a retained-mode
//! user interface into GPU work for SDL3, and translates SDL3 input into the
//! toolkit's input model.
//!
//! Everything here works on plain values: the caller reads them from the
//! toolkit and from SDL, and carries out the device operations this crate
//! decides on.

pub mod atlas;
pub mod draw;
pub mod geometry;
pub mod platform;
pub mod renderer;
pub mod scissor;
pub mod texture;

use crate::draw::Frame;
use crate::geometry::StageError;
use crate::platform::{translate, Event, OsEvent, Platform};
use crate::renderer::{render_outcome, FramePlan, RendererView, UiRenderer};
use vstd::prelude::*;

verus! {

/// The backend as a whole: the renderer, the input adapter, and the size of
/// the window the interface fills.
pub struct FyroxUiSdl {
    pub renderer: UiRenderer,
    pub platform: Platform,
    pub width: u32,
    pub height: u32,
}

impl FyroxUiSdl {
    /// A backend for a window of the given size.
    pub fn new(width: u32, height: u32) -> (backend: Self)
        ensures
            backend.renderer@ == (RendererView { cache: Seq::empty(), width, height }),
            backend.platform == Platform,
            backend.width == width,
            backend.height == height,
    {
        FyroxUiSdl { renderer: UiRenderer::new(width, height), platform: Platform::new(), width, height }
    }

    /// Translates one SDL3 event into the events to feed to the toolkit; see
    /// [`Platform::handle_event`].
    pub fn handle_event(&mut self, event: &Event) -> (r: Option<Vec<OsEvent>>)
        ensures
            final(self).renderer == old(self).renderer,
            final(self).platform == old(self).platform,
            final(self).width == old(self).width,
            final(self).height == old(self).height,
            match r {
                Some(events) => translate(*event) == Some(events@),
                None => translate(*event) is None,
            },
    {
        self.platform.handle_event(event)
    }

    /// Takes note of a new window size: frames rendered from now on are
    /// projected to it. The glyph atlas cache is kept.
    pub fn resize(&mut self, width: u32, height: u32)
        ensures
            final(self).renderer@ == (RendererView {
                cache: old(self).renderer@.cache,
                width,
                height,
            }),
            final(self).platform == old(self).platform,
            final(self).width == width,
            final(self).height == height,
    {
        self.width = width;
        self.height = height;
        self.renderer.resize(width, height);
    }

    /// Plans the drawing of a frame; see [`UiRenderer::render`].
    pub fn render(&mut self, frame: &Frame) -> (r: Result<FramePlan, StageError>)
        ensures
            frame@.wf(),
            render_outcome(old(self).renderer@, frame@, final(self).renderer@, r),
            final(self).platform == old(self).platform,
            final(self).width == old(self).width,
            final(self).height == old(self).height,
    {
        self.renderer.render(frame)
    }
}

} // verus!
