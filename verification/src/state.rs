//! The render state: the one value that owns every configuration the renderer
//! works from, answers window events, and drives the per-frame protocol.
//!
//! The state decides and the host acts: each call of `render` takes what the
//! host reports and returns what the host has to do next.

use crate::chain::PresentationChain;
use crate::frame::ClearColor;
use crate::frame::FrameAction;
use crate::frame::FrameEvent;
use crate::frame::FrameStage;
use crate::frame::GeometryPass;
use crate::frame::LoadOp;
use crate::frame::StoreOp;
use crate::frame::BITS_TENTH;
use crate::frame::BITS_THREE_TENTHS;
use crate::frame::BITS_TWO_TENTHS;
use crate::geometry::indices;
use crate::geometry::triangle_indices;
use crate::geometry::Vertex;
use crate::input::Action;
use crate::input::InputEffects;
use crate::input::Key;
use crate::input::WindowEvent;
use crate::overlay::ImguiState;
use crate::pipeline::PipelineState;
use vstd::prelude::*;

verus! {

/// The render state.
#[derive(Debug, PartialEq, Eq)]
pub struct WgpuState {
    /// Configuration of the presentation chain.
    pub chain: PresentationChain,
    /// Description of the render pipeline.
    pub render_pipeline: PipelineState,
    /// Number of indices that the geometry pass draws.
    pub num_indices: u32,
    /// Colour that the geometry pass clears the image to.
    pub clear_color: ClearColor,
    /// Drawable size of the window: width, then height.
    pub size: (i32, i32),
    /// State of the overlay.
    pub imgui: ImguiState,
    /// Where the current frame stands.
    pub frame: FrameStage,
}

impl WgpuState {
    /// Everything that holds of the state at all times: the chain is the one
    /// for the window's current size, the pipeline is the fixed pipeline for
    /// the chain's format and the vertex record's layout, the draw covers the
    /// triangle's indices, and the clear colour is the fixed one.
    pub open spec fn wf(self) -> bool {
        &&& self.chain == PresentationChain::sized(self.size, self.chain.format)
        &&& self.render_pipeline.vertex_buffers@.len() == 1
        &&& self.render_pipeline.vertex_buffers@[0].is_vertex_desc()
        &&& self.render_pipeline.is_fixed_for(
            self.chain.format,
            self.render_pipeline.vertex_buffers@[0],
        )
        &&& self.num_indices == triangle_indices().len()
        &&& self.clear_color == ClearColor::fixed()
    }

    /// This state with the frame at another stage.
    pub open spec fn at(self, stage: FrameStage) -> WgpuState {
        WgpuState { frame: stage, ..self }
    }

    /// This state after the window's size changed.
    pub open spec fn resized(self, new_size: (i32, i32)) -> WgpuState {
        WgpuState { size: new_size, chain: self.chain.resized(new_size), ..self }
    }

    /// This state after a window event.
    pub open spec fn after_input(self, event: WindowEvent) -> WgpuState {
        if event.is_press_of(Key::F3) {
            WgpuState { imgui: self.imgui.toggled(), ..self }
        } else if let Some(new_size) = event.new_size() {
            self.resized(new_size)
        } else {
            self
        }
    }

    /// What the host has to do after a window event.
    pub open spec fn input_effects(self, event: WindowEvent) -> InputEffects {
        InputEffects {
            handled: false,
            forward_to_overlay: self.imgui.should_render,
            close_window: event.is_press_of(Key::Escape),
            rebuild_chain: event.new_size() is Some,
        }
    }

    /// The geometry pass of every frame of this state.
    pub open spec fn geometry_pass(self) -> GeometryPass {
        GeometryPass::drawing(self.clear_color, self.num_indices)
    }

    /// One step of the overlay part of a frame.
    pub open spec fn overlay_step(self, event: FrameEvent) -> (WgpuState, FrameAction) {
        match (self.frame, event) {
            (FrameStage::Preparing, FrameEvent::Completed) => (
                self.at(FrameStage::Building),
                FrameAction::BuildOverlay,
            ),
            (FrameStage::Preparing, FrameEvent::Failed) => (
                self.at(FrameStage::Submitting),
                FrameAction::Submit,
            ),
            (FrameStage::Building, FrameEvent::CursorReported(cursor)) => {
                let seen = WgpuState { imgui: self.imgui.with_cursor(cursor), ..self };
                if self.imgui.last_cursor != cursor {
                    (seen.at(FrameStage::Notifying), FrameAction::NotifyCursor)
                } else {
                    (seen.at(FrameStage::Overlaying), FrameAction::DrawOverlay)
                }
            },
            (FrameStage::Notifying, FrameEvent::Completed) => (
                self.at(FrameStage::Overlaying),
                FrameAction::DrawOverlay,
            ),
            (FrameStage::Overlaying, FrameEvent::Completed) => (
                self.at(FrameStage::Submitting),
                FrameAction::Submit,
            ),
            (FrameStage::Overlaying, FrameEvent::Failed) => (
                self.at(FrameStage::Submitting),
                FrameAction::Submit,
            ),
            _ => (self, FrameAction::Ignore),
        }
    }

    /// One step of a frame: the state after the host's report, and what the
    /// host is asked to do next.
    pub open spec fn step(self, event: FrameEvent) -> (WgpuState, FrameAction) {
        match (self.frame, event) {
            (FrameStage::Idle, FrameEvent::Begin) => (
                self.at(FrameStage::Acquiring),
                FrameAction::AcquireImage,
            ),
            (FrameStage::Acquiring, FrameEvent::Acquired) => (
                self.at(FrameStage::Opening),
                FrameAction::OpenRecorder,
            ),
            (FrameStage::Acquiring, FrameEvent::TimedOut) => (
                self.at(FrameStage::Idle),
                FrameAction::SkipFrame,
            ),
            (FrameStage::Opening, FrameEvent::Completed) => (
                self.at(FrameStage::Drawing),
                FrameAction::DrawGeometry(self.geometry_pass()),
            ),
            (FrameStage::Drawing, FrameEvent::Completed) => {
                if self.imgui.should_render {
                    (self.at(FrameStage::Preparing), FrameAction::PrepareOverlay)
                } else {
                    (self.at(FrameStage::Submitting), FrameAction::Submit)
                }
            },
            (FrameStage::Submitting, FrameEvent::Completed) => (
                self.at(FrameStage::Idle),
                FrameAction::FinishFrame,
            ),
            _ => {
                if self.frame.in_overlay() {
                    self.overlay_step(event)
                } else {
                    (self, FrameAction::Ignore)
                }
            },
        }
    }

    /// The render state for a window of the given drawable size: the chain in
    /// its preferred format, the fixed pipeline for that format, the overlay
    /// hidden, and no frame in flight.
    pub fn new(size: (i32, i32)) -> (state: WgpuState)
        ensures
            state.wf(),
            state.size == size,
            state.chain == PresentationChain::sized(size, PresentationChain::preferred_format()),
            state.imgui == ImguiState::initial(),
            state.frame == FrameStage::Idle,
    {
        let clear_color = ClearColor {
            r: BITS_TENTH,
            g: BITS_TWO_TENTHS,
            b: BITS_THREE_TENTHS,
            a: BITS_TWO_TENTHS,
        };
        let chain = PresentationChain::create(size);
        let imgui = ImguiState::new();
        let render_pipeline = PipelineState::build(chain.format, Vertex::desc());
        let index_list = indices();
        let num_indices: u32 = index_list.len() as u32;
        WgpuState {
            chain,
            render_pipeline,
            num_indices,
            clear_color,
            size,
            imgui,
            frame: FrameStage::Idle,
        }
    }

    /// Takes the window's new drawable size and reconfigures the chain for it.
    /// The pipeline is not touched.
    pub fn resize(&mut self, new_size: (i32, i32))
        ensures
            *final(self) == old(self).resized(new_size),
            final(self).chain.fits(new_size),
            old(self).wf() ==> final(self).wf(),
    {
        self.size = new_size;
        self.chain.resize(new_size);
    }

    /// Takes a window event. A press of F3 shows or hides the overlay, a change
    /// of size reconfigures the chain, and a press of Escape asks for the
    /// window to close. The event goes on to the overlay if that was shown
    /// when the event arrived.
    pub fn input(&mut self, event: &WindowEvent) -> (effects: InputEffects)
        ensures
            *final(self) == old(self).after_input(*event),
            effects == old(self).input_effects(*event),
            old(self).wf() ==> final(self).wf(),
    {
        let forward_to_overlay = self.imgui.handle_event();
        let mut close_window = false;
        let mut rebuild_chain = false;
        match *event {
            WindowEvent::Key(Key::Escape, Action::Press) => {
                close_window = true;
            },
            WindowEvent::Key(Key::F3, Action::Press) => {
                self.imgui.toggle();
            },
            WindowEvent::Size(w, h) => {
                self.resize((w, h));
                rebuild_chain = true;
            },
            _ => {},
        }
        InputEffects { handled: false, forward_to_overlay, close_window, rebuild_chain }
    }

    /// The simulation step of an iteration. There is nothing to simulate.
    pub fn update(&mut self)
        ensures
            *final(self) == *old(self),
    {
    }

    /// The geometry pass: clear the frame's image to the clear colour, bind
    /// the pipeline with the whole vertex and index buffers, and draw every
    /// index once.
    pub fn render_triangle(&self) -> (pass: GeometryPass)
        ensures
            pass == self.geometry_pass(),
            self.wf() ==> pass.index_count() == 3 && pass.instance_count() == 1,
    {
        GeometryPass {
            load_op: LoadOp::Clear,
            store_op: StoreOp::Store,
            clear_color: self.clear_color,
            has_resolve_target: false,
            has_depth_stencil: false,
            vertex_slot: 0,
            vertex_offset: 0,
            vertex_size: 0,
            index_offset: 0,
            index_size: 0,
            index_start: 0,
            index_end: self.num_indices,
            base_vertex: 0,
            instance_start: 0,
            instance_end: 1,
        }
    }

    /// One step of the overlay part of a frame. The platform adapter prepares
    /// the UI frame, the UI is built and reports its cursor shape, the adapter
    /// is told if that shape changed, and the draw list is translated into the
    /// overlay pass. A failure of the preparation or of the translation ends
    /// the overlay part only: the frame goes on to submission.
    pub fn render_imgui(&mut self, event: FrameEvent) -> (action: FrameAction)
        ensures
            (*final(self), action) == old(self).overlay_step(event),
            old(self).wf() ==> final(self).wf(),
    {
        match (self.frame, event) {
            (FrameStage::Preparing, FrameEvent::Completed) => {
                self.frame = FrameStage::Building;
                FrameAction::BuildOverlay
            },
            (FrameStage::Preparing, FrameEvent::Failed) => {
                self.frame = FrameStage::Submitting;
                FrameAction::Submit
            },
            (FrameStage::Building, FrameEvent::CursorReported(cursor)) => {
                if self.imgui.observe_cursor(cursor) {
                    self.frame = FrameStage::Notifying;
                    FrameAction::NotifyCursor
                } else {
                    self.frame = FrameStage::Overlaying;
                    FrameAction::DrawOverlay
                }
            },
            (FrameStage::Notifying, FrameEvent::Completed) => {
                self.frame = FrameStage::Overlaying;
                FrameAction::DrawOverlay
            },
            (FrameStage::Overlaying, FrameEvent::Completed) => {
                self.frame = FrameStage::Submitting;
                FrameAction::Submit
            },
            (FrameStage::Overlaying, FrameEvent::Failed) => {
                self.frame = FrameStage::Submitting;
                FrameAction::Submit
            },
            _ => FrameAction::Ignore,
        }
    }

    /// One step of a frame. A frame begins with the acquisition of a drawable
    /// image; if that times out the frame is dropped. Otherwise the recorder
    /// is opened, the geometry pass is recorded, the overlay pass follows if
    /// the overlay is shown, and everything recorded is submitted as one unit.
    /// An event that answers no pending request changes nothing.
    pub fn render(&mut self, event: FrameEvent) -> (action: FrameAction)
        ensures
            (*final(self), action) == old(self).step(event),
            old(self).wf() ==> final(self).wf(),
    {
        match (self.frame, event) {
            (FrameStage::Idle, FrameEvent::Begin) => {
                self.frame = FrameStage::Acquiring;
                FrameAction::AcquireImage
            },
            (FrameStage::Acquiring, FrameEvent::Acquired) => {
                self.frame = FrameStage::Opening;
                FrameAction::OpenRecorder
            },
            (FrameStage::Acquiring, FrameEvent::TimedOut) => {
                self.frame = FrameStage::Idle;
                FrameAction::SkipFrame
            },
            (FrameStage::Opening, FrameEvent::Completed) => {
                self.frame = FrameStage::Drawing;
                FrameAction::DrawGeometry(self.render_triangle())
            },
            (FrameStage::Drawing, FrameEvent::Completed) => {
                if self.imgui.should_render {
                    self.frame = FrameStage::Preparing;
                    FrameAction::PrepareOverlay
                } else {
                    self.frame = FrameStage::Submitting;
                    FrameAction::Submit
                }
            },
            (FrameStage::Submitting, FrameEvent::Completed) => {
                self.frame = FrameStage::Idle;
                FrameAction::FinishFrame
            },
            _ => {
                if self.frame.is_overlay() {
                    self.render_imgui(event)
                } else {
                    FrameAction::Ignore
                }
            },
        }
    }
}

} // verus!
