//! The vocabulary of the per-frame protocol: the stages a frame goes through,
//! what the host is asked to do, and what it answers.

use crate::overlay::CursorShape;
use vstd::prelude::*;

verus! {

/// Bit pattern of the double-precision number `0.1`.
pub const BITS_TENTH: u64 = 0x3FB9_9999_9999_999A;

/// Bit pattern of the double-precision number `0.2`.
pub const BITS_TWO_TENTHS: u64 = 0x3FC9_9999_9999_999A;

/// Bit pattern of the double-precision number `0.3`.
pub const BITS_THREE_TENTHS: u64 = 0x3FD3_3333_3333_3333;

/// A colour of four double-precision channels, each held as its IEEE-754 bit
/// pattern.
#[derive(Clone, Copy, Debug, PartialEq, Eq, Structural)]
pub struct ClearColor {
    pub r: u64,
    pub g: u64,
    pub b: u64,
    pub a: u64,
}

/// What happens to a render target when a pass begins.
#[derive(Clone, Copy, Debug, PartialEq, Eq, Structural)]
pub enum LoadOp {
    Clear,
    Load,
}

/// What happens to a render target when a pass ends.
#[derive(Clone, Copy, Debug, PartialEq, Eq, Structural)]
pub enum StoreOp {
    Clear,
    Store,
}

/// The geometry pass of a frame: one colour target, the frame's image, and one
/// indexed draw.
#[derive(Clone, Copy, Debug, PartialEq, Eq, Structural)]
pub struct GeometryPass {
    pub load_op: LoadOp,
    pub store_op: StoreOp,
    pub clear_color: ClearColor,
    pub has_resolve_target: bool,
    pub has_depth_stencil: bool,
    /// Slot that the vertex buffer is bound to.
    pub vertex_slot: u32,
    /// Start of the bound part of the vertex buffer, in bytes.
    pub vertex_offset: u64,
    /// Size of the bound part of the vertex buffer; 0 for all of it.
    pub vertex_size: u64,
    /// Start of the bound part of the index buffer, in bytes.
    pub index_offset: u64,
    /// Size of the bound part of the index buffer; 0 for all of it.
    pub index_size: u64,
    /// First index drawn.
    pub index_start: u32,
    /// One past the last index drawn.
    pub index_end: u32,
    pub base_vertex: i32,
    /// First instance drawn.
    pub instance_start: u32,
    /// One past the last instance drawn.
    pub instance_end: u32,
}

/// A render pass of a frame.
#[derive(Clone, Copy, Debug, PartialEq, Eq, Structural)]
pub enum PassKind {
    Geometry,
    Overlay,
}

/// Where a frame stands. But for `Idle`, each stage waits for the host's
/// answer to one request.
#[derive(Clone, Copy, Debug, PartialEq, Eq, Structural)]
pub enum FrameStage {
    /// No frame is in flight.
    Idle,
    /// The next drawable image was asked for.
    Acquiring,
    /// The command recorder is being opened.
    Opening,
    /// The geometry pass is being recorded.
    Drawing,
    /// The overlay's platform adapter prepares the UI frame.
    Preparing,
    /// The UI builds its draw list and reports the cursor shape.
    Building,
    /// The platform adapter is told of the changed cursor shape.
    Notifying,
    /// The UI's draw list is being translated into the overlay pass.
    Overlaying,
    /// The recorded commands are being submitted.
    Submitting,
}

/// What the host reports to the render state.
#[derive(Clone, Copy, Debug, PartialEq, Eq)]
pub enum FrameEvent {
    /// The host wants a frame rendered.
    Begin,
    /// A drawable image was acquired.
    Acquired,
    /// No drawable image became ready in time.
    TimedOut,
    /// The request was carried out.
    Completed,
    /// The request failed.
    Failed,
    /// The UI was built and asks for this cursor shape.
    CursorReported(Option<CursorShape>),
}

/// What the render state asks of the host.
#[derive(Clone, Copy, Debug, PartialEq, Eq)]
pub enum FrameAction {
    /// Acquire the next drawable image from the presentation chain.
    AcquireImage,
    /// Open the frame's command recorder.
    OpenRecorder,
    /// Record this geometry pass, targeting the frame's image.
    DrawGeometry(GeometryPass),
    /// Let the platform adapter prepare the UI frame.
    PrepareOverlay,
    /// Build the UI's draw list and report the cursor shape.
    BuildOverlay,
    /// Tell the platform adapter that the cursor shape changed.
    NotifyCursor,
    /// Translate the UI's draw list into a pass on the same recorder,
    /// targeting the same image.
    DrawOverlay,
    /// Finish the recorder and submit its commands as one unit.
    Submit,
    /// Drop the frame: nothing was recorded and nothing is submitted.
    SkipFrame,
    /// Release the frame's image for presentation.
    FinishFrame,
    /// The event answers no pending request: do nothing.
    Ignore,
}

impl ClearColor {
    /// The colour that every frame is cleared to: (0.1, 0.2, 0.3, 0.2).
    pub open spec fn fixed() -> ClearColor {
        ClearColor { r: BITS_TENTH, g: BITS_TWO_TENTHS, b: BITS_THREE_TENTHS, a: BITS_TWO_TENTHS }
    }
}

impl GeometryPass {
    /// The pass that clears the image to `clear_color`, keeps what it draws,
    /// binds the whole vertex buffer to slot 0 and the whole index buffer, and
    /// draws the first `num_indices` indices once.
    pub open spec fn drawing(clear_color: ClearColor, num_indices: u32) -> GeometryPass {
        GeometryPass {
            load_op: LoadOp::Clear,
            store_op: StoreOp::Store,
            clear_color,
            has_resolve_target: false,
            has_depth_stencil: false,
            vertex_slot: 0,
            vertex_offset: 0,
            vertex_size: 0,
            index_offset: 0,
            index_size: 0,
            index_start: 0,
            index_end: num_indices,
            base_vertex: 0,
            instance_start: 0,
            instance_end: 1,
        }
    }

    /// Number of indices that the draw call issues.
    pub open spec fn index_count(self) -> int {
        self.index_end - self.index_start
    }

    /// Number of instances that the draw call issues.
    pub open spec fn instance_count(self) -> int {
        self.instance_end - self.instance_start
    }
}

impl FrameStage {
    /// The stage belongs to the overlay part of a frame.
    pub open spec fn in_overlay(self) -> bool {
        self is Preparing || self is Building || self is Notifying || self is Overlaying
    }

    /// Whether the stage belongs to the overlay part of a frame.
    pub fn is_overlay(self) -> (overlay: bool)
        ensures
            overlay == self.in_overlay(),
    {
        match self {
            FrameStage::Preparing
            | FrameStage::Building
            | FrameStage::Notifying
            | FrameStage::Overlaying => true,
            _ => false,
        }
    }
}

impl FrameAction {
    /// The pass that the action records, if it records one.
    pub open spec fn pass(self) -> Option<PassKind> {
        match self {
            FrameAction::DrawGeometry(_) => Some(PassKind::Geometry),
            FrameAction::DrawOverlay => Some(PassKind::Overlay),
            _ => None,
        }
    }

    /// The action ends the frame.
    pub open spec fn ends_frame(self) -> bool {
        self is SkipFrame || self is FinishFrame
    }
}

} // verus!
