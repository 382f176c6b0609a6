//! What holds of whole frames. A host that answers every request of the render
//! state is modelled by the answers it gives within one frame; the frame's
//! record is what the state then asks for, from the first request to the one
//! that ends the frame.

use crate::frame::FrameAction;
use crate::frame::FrameEvent;
use crate::frame::FrameStage;
use crate::frame::PassKind;
use crate::geometry::triangle_indices;
use crate::geometry::triangle_vertices;
use crate::input::Action;
use crate::input::Key;
use crate::input::WindowEvent;
use crate::overlay::CursorShape;
use crate::state::WgpuState;
use vstd::prelude::*;

verus! {

/// How the host's side of one frame turns out.
pub struct Host {
    /// A drawable image becomes ready in time.
    pub acquires: bool,
    /// The platform adapter prepares the UI frame without error.
    pub prepares: bool,
    /// The cursor shape that the UI reports once it is built.
    pub cursor: Option<CursorShape>,
    /// The UI's draw list is translated without error.
    pub translates: bool,
}

/// What a frame came to.
#[verifier::ext_equal]
pub struct FrameRecord {
    /// Every request of the frame, in order.
    pub actions: Seq<FrameAction>,
    /// The render passes recorded, in order.
    pub passes: Seq<PassKind>,
    /// Number of submissions to the device queue.
    pub submissions: nat,
    /// The render state when the frame is over.
    pub end: WgpuState,
}

/// A frame never makes more requests than this.
pub open spec fn max_requests() -> nat {
    9
}

impl Host {
    /// The host's answer to a request; `None` where the request ends the frame
    /// or asks for nothing.
    pub open spec fn answer(self, action: FrameAction) -> Option<FrameEvent> {
        match action {
            FrameAction::AcquireImage => Some(
                if self.acquires {
                    FrameEvent::Acquired
                } else {
                    FrameEvent::TimedOut
                },
            ),
            FrameAction::OpenRecorder => Some(FrameEvent::Completed),
            FrameAction::DrawGeometry(_) => Some(FrameEvent::Completed),
            FrameAction::PrepareOverlay => Some(
                if self.prepares {
                    FrameEvent::Completed
                } else {
                    FrameEvent::Failed
                },
            ),
            FrameAction::BuildOverlay => Some(FrameEvent::CursorReported(self.cursor)),
            FrameAction::NotifyCursor => Some(FrameEvent::Completed),
            FrameAction::DrawOverlay => Some(
                if self.translates {
                    FrameEvent::Completed
                } else {
                    FrameEvent::Failed
                },
            ),
            FrameAction::Submit => Some(FrameEvent::Completed),
            FrameAction::SkipFrame => None,
            FrameAction::FinishFrame => None,
            FrameAction::Ignore => None,
        }
    }

    /// Nothing fails on the host's side.
    pub open spec fn succeeds(self) -> bool {
        self.acquires && self.prepares && self.translates
    }
}

/// The passes of one request, as a list.
pub open spec fn passes_of(action: FrameAction) -> Seq<PassKind> {
    match action.pass() {
        Some(kind) => seq![kind],
        None => seq![],
    }
}

/// The submissions of one request.
pub open spec fn submissions_of(action: FrameAction) -> nat {
    if action is Submit {
        1
    } else {
        0
    }
}

/// The record of a frame that is over, in the given state.
pub open spec fn over(end: WgpuState) -> FrameRecord {
    FrameRecord { actions: seq![], passes: seq![], submissions: 0, end }
}

/// The record of a request followed by what `rest` records.
pub open spec fn then(action: FrameAction, rest: FrameRecord) -> FrameRecord {
    FrameRecord {
        actions: seq![action] + rest.actions,
        passes: passes_of(action) + rest.passes,
        submissions: submissions_of(action) + rest.submissions,
        end: rest.end,
    }
}

/// The record of the requests that follow `event`, as long as the host has an
/// answer and at most `limit` of them.
pub open spec fn run(state: WgpuState, event: FrameEvent, host: Host, limit: nat) -> FrameRecord
    decreases limit,
{
    if limit == 0 {
        over(state)
    } else {
        let (next, action) = state.step(event);
        match host.answer(action) {
            Some(reply) => then(action, run(next, reply, host, (limit - 1) as nat)),
            None => then(action, over(next)),
        }
    }
}

/// The record of one frame of `state` with the given host.
pub open spec fn frame(state: WgpuState, host: Host) -> FrameRecord {
    run(state, FrameEvent::Begin, host, max_requests())
}

/// How every frame ends once its passes are recorded: one submission, then
/// the release of the image.
pub open spec fn submission(state: WgpuState) -> FrameRecord {
    then(FrameAction::Submit, then(FrameAction::FinishFrame, over(state.at(FrameStage::Idle))))
}

/// The overlay part of a frame, from the preparation of the UI frame to the
/// submission. If the preparation fails, nothing of the overlay is recorded.
/// Otherwise the UI is built, the platform adapter is told of the cursor shape
/// if it changed, and the overlay pass is recorded.
pub open spec fn overlay_part(state: WgpuState, host: Host) -> FrameRecord {
    if !host.prepares {
        then(FrameAction::PrepareOverlay, submission(state))
    } else {
        let seen = WgpuState { imgui: state.imgui.with_cursor(host.cursor), ..state };
        let drawn = then(FrameAction::DrawOverlay, submission(seen));
        then(
            FrameAction::PrepareOverlay,
            then(
                FrameAction::BuildOverlay,
                if state.imgui.last_cursor != host.cursor {
                    then(FrameAction::NotifyCursor, drawn)
                } else {
                    drawn
                },
            ),
        )
    }
}

/// The whole frame in closed form.
pub open spec fn whole_frame(state: WgpuState, host: Host) -> FrameRecord {
    if !host.acquires {
        then(
            FrameAction::AcquireImage,
            then(FrameAction::SkipFrame, over(state.at(FrameStage::Idle))),
        )
    } else {
        then(
            FrameAction::AcquireImage,
            then(
                FrameAction::OpenRecorder,
                then(
                    FrameAction::DrawGeometry(state.geometry_pass()),
                    if state.imgui.should_render {
                        overlay_part(state, host)
                    } else {
                        submission(state)
                    },
                ),
            ),
        )
    }
}

proof fn lemma_run_submission(state: WgpuState, host: Host, limit: nat)
    requires
        limit >= 2,
    ensures
        state.frame == FrameStage::Drawing && !state.imgui.should_render ==> run(
            state,
            FrameEvent::Completed,
            host,
            limit,
        ) == submission(state),
        state.frame == FrameStage::Preparing ==> run(state, FrameEvent::Failed, host, limit)
            == submission(state),
        state.frame == FrameStage::Overlaying ==> run(state, FrameEvent::Completed, host, limit)
            == submission(state),
        state.frame == FrameStage::Overlaying ==> run(state, FrameEvent::Failed, host, limit)
            == submission(state),
{
    reveal_with_fuel(run, 2);
    let submitting = state.at(FrameStage::Submitting);
    assert(submitting.at(FrameStage::Idle) == state.at(FrameStage::Idle));
    assert(run(submitting, FrameEvent::Completed, host, (limit - 1) as nat) == then(
        FrameAction::FinishFrame,
        over(state.at(FrameStage::Idle)),
    ));
}

proof fn lemma_run_drawn(state: WgpuState, event: FrameEvent, host: Host, limit: nat)
    requires
        limit >= 3,
        state.frame == FrameStage::Notifying && event == FrameEvent::Completed || state.frame
            == FrameStage::Building && event == FrameEvent::CursorReported(state.imgui.last_cursor),
    ensures
        run(state, event, host, limit) == then(
            FrameAction::DrawOverlay,
            submission(state),
        ),
{
    let overlaying = state.at(FrameStage::Overlaying);
    lemma_run_submission(overlaying, host, (limit - 1) as nat);
    assert(overlaying.at(FrameStage::Idle) == state.at(FrameStage::Idle));
    assert(submission(overlaying) == submission(state));
    if state.frame == FrameStage::Building {
        assert(state.imgui.with_cursor(state.imgui.last_cursor) == state.imgui);
        assert((WgpuState { imgui: state.imgui, ..state }) == state);
    }
}

proof fn lemma_run_overlay(state: WgpuState, host: Host, limit: nat)
    requires
        limit >= 6,
        state.frame == FrameStage::Drawing,
        state.imgui.should_render,
    ensures
        run(state, FrameEvent::Completed, host, limit) == overlay_part(state, host),
{
    let preparing = state.at(FrameStage::Preparing);
    assert(run(state, FrameEvent::Completed, host, limit) == then(
        FrameAction::PrepareOverlay,
        run(
            preparing,
            if host.prepares {
                FrameEvent::Completed
            } else {
                FrameEvent::Failed
            },
            host,
            (limit - 1) as nat,
        ),
    ));
    assert(preparing.at(FrameStage::Idle) == state.at(FrameStage::Idle));
    assert(submission(preparing) == submission(state));
    if !host.prepares {
        lemma_run_submission(preparing, host, (limit - 1) as nat);
    } else {
        let building = state.at(FrameStage::Building);
        assert(preparing.at(FrameStage::Building) == building);
        assert(run(preparing, FrameEvent::Completed, host, (limit - 1) as nat) == then(
            FrameAction::BuildOverlay,
            run(building, FrameEvent::CursorReported(host.cursor), host, (limit - 2) as nat),
        ));
        let seen = WgpuState { imgui: state.imgui.with_cursor(host.cursor), ..state };
        assert(seen.at(FrameStage::Idle) == (WgpuState {
            imgui: building.imgui.with_cursor(host.cursor),
            ..building
        }).at(FrameStage::Idle));
        if state.imgui.last_cursor != host.cursor {
            let notifying = seen.at(FrameStage::Notifying);
            assert(run(
                building,
                FrameEvent::CursorReported(host.cursor),
                host,
                (limit - 2) as nat,
            ) == then(
                FrameAction::NotifyCursor,
                run(notifying, FrameEvent::Completed, host, (limit - 3) as nat),
            ));
            lemma_run_drawn(notifying, FrameEvent::Completed, host, (limit - 3) as nat);
            assert(notifying.at(FrameStage::Idle) == seen.at(FrameStage::Idle));
            assert(submission(notifying) == submission(seen));
        } else {
            lemma_run_drawn(
                building,
                FrameEvent::CursorReported(host.cursor),
                host,
                (limit - 2) as nat,
            );
            assert(building.at(FrameStage::Idle) == seen.at(FrameStage::Idle));
            assert(submission(building) == submission(seen));
        }
    }
}

/// A frame is what its closed form says: the record of the requests that the
/// render state makes, step by step, of a host that answers each of them.
pub proof fn lemma_frame_in_closed_form(state: WgpuState, host: Host)
    requires
        state.frame == FrameStage::Idle,
    ensures
        frame(state, host) == whole_frame(state, host),
{
    let acquiring = state.at(FrameStage::Acquiring);
    assert(state.at(FrameStage::Idle) == state);
    assert(acquiring.at(FrameStage::Idle) == state);
    if !host.acquires {
        reveal_with_fuel(run, 2);
    } else {
        let opening = state.at(FrameStage::Opening);
        let drawing = state.at(FrameStage::Drawing);
        assert(acquiring.at(FrameStage::Opening) == opening);
        assert(opening.at(FrameStage::Drawing) == drawing);
        assert(opening.geometry_pass() == state.geometry_pass());
        assert(frame(state, host) == then(
            FrameAction::AcquireImage,
            run(acquiring, FrameEvent::Acquired, host, 8),
        ));
        assert(run(acquiring, FrameEvent::Acquired, host, 8) == then(
            FrameAction::OpenRecorder,
            run(opening, FrameEvent::Completed, host, 7),
        ));
        assert(run(opening, FrameEvent::Completed, host, 7) == then(
            FrameAction::DrawGeometry(state.geometry_pass()),
            run(drawing, FrameEvent::Completed, host, 6),
        ));
        assert(drawing.at(FrameStage::Idle) == state);
        assert(submission(drawing) == submission(state));
        if state.imgui.should_render {
            lemma_run_overlay(drawing, host, 6);
            assert(overlay_part(drawing, host) == overlay_part(state, host)) by {
                let seen = WgpuState { imgui: state.imgui.with_cursor(host.cursor), ..state };
                let seen_drawing = WgpuState {
                    imgui: drawing.imgui.with_cursor(host.cursor),
                    ..drawing
                };
                assert(seen_drawing.at(FrameStage::Idle) == seen.at(FrameStage::Idle));
                assert(submission(seen_drawing) == submission(seen));
            }
        } else {
            lemma_run_submission(drawing, host, 6);
        }
    }
}

/// Overlay gating. A frame in which nothing fails records exactly one pass,
/// the geometry pass, while the overlay is hidden, and exactly two while it is
/// shown: the geometry pass, then the overlay pass. Either way it submits
/// exactly once.
pub proof fn lemma_overlay_gating(state: WgpuState, host: Host)
    requires
        state.frame == FrameStage::Idle,
        host.succeeds(),
    ensures
        !state.imgui.should_render ==> frame(state, host).passes == seq![PassKind::Geometry],
        state.imgui.should_render ==> frame(state, host).passes == seq![
            PassKind::Geometry,
            PassKind::Overlay,
        ],
        frame(state, host).submissions == 1,
{
    lemma_frame_in_closed_form(state, host);
    let record = whole_frame(state, host);
    if state.imgui.should_render {
        assert(record.passes =~= seq![PassKind::Geometry, PassKind::Overlay]);
    } else {
        assert(record.passes =~= seq![PassKind::Geometry]);
    }
}

/// Acquisition timeout. A frame whose image does not become ready makes two
/// requests, the acquisition and the dropping of the frame: it records no pass,
/// submits nothing, and leaves the render state as it was.
pub proof fn lemma_timeout_submits_nothing(state: WgpuState, host: Host)
    requires
        state.frame == FrameStage::Idle,
        !host.acquires,
    ensures
        frame(state, host).actions == seq![FrameAction::AcquireImage, FrameAction::SkipFrame],
        frame(state, host).passes == Seq::<PassKind>::empty(),
        frame(state, host).submissions == 0,
        frame(state, host).end == state,
{
    lemma_frame_in_closed_form(state, host);
    let record = whole_frame(state, host);
    assert(record.actions =~= seq![FrameAction::AcquireImage, FrameAction::SkipFrame]);
    assert(record.passes =~= Seq::<PassKind>::empty());
}

/// The geometry pass does not depend on the overlay. Every frame that acquires
/// its image records the geometry pass first and submits exactly once, whether
/// the overlay is hidden, shown, or fails on the way. The overlay pass is
/// requested exactly when the overlay is shown and the UI frame could be
/// prepared, once, and behind the geometry pass.
pub proof fn lemma_geometry_always_submitted(state: WgpuState, host: Host)
    requires
        state.frame == FrameStage::Idle,
        host.acquires,
    ensures
        frame(state, host).actions[2] == FrameAction::DrawGeometry(state.geometry_pass()),
        state.imgui.should_render && host.prepares ==> frame(state, host).passes == seq![
            PassKind::Geometry,
            PassKind::Overlay,
        ],
        !(state.imgui.should_render && host.prepares) ==> frame(state, host).passes
            == seq![PassKind::Geometry],
        frame(state, host).submissions == 1,
{
    lemma_frame_in_closed_form(state, host);
    let record = whole_frame(state, host);
    if state.imgui.should_render && host.prepares {
        assert(record.passes =~= seq![PassKind::Geometry, PassKind::Overlay]);
    } else {
        assert(record.passes =~= seq![PassKind::Geometry]);
    }
}

/// Every frame comes to its end within the bound on requests: afterwards no
/// frame is in flight, the last request is the one that ends the frame, and
/// nothing but the recorded cursor shape has changed.
pub proof fn lemma_frame_completes(state: WgpuState, host: Host)
    requires
        state.frame == FrameStage::Idle,
    ensures
        frame(state, host).end.frame == FrameStage::Idle,
        2 <= frame(state, host).actions.len() <= max_requests(),
        frame(state, host).actions.last().ends_frame(),
        frame(state, host).end == (WgpuState { imgui: frame(state, host).end.imgui, ..state }),
        frame(state, host).end.imgui.should_render == state.imgui.should_render,
        state.wf() ==> frame(state, host).end.wf(),
{
    lemma_frame_in_closed_form(state, host);
}

/// One image at a time. An image is asked for only while no frame is in
/// flight, and a frame in flight ends only by being dropped on a timeout or by
/// its one submission: no second image is acquired before the first is
/// submitted. A submission is asked for only once the geometry pass is
/// recorded.
pub proof fn lemma_one_image_at_a_time(state: WgpuState, event: FrameEvent)
    ensures
        state.step(event).1 is AcquireImage ==> state.frame == FrameStage::Idle,
        state.frame != FrameStage::Idle && state.step(event).0.frame == FrameStage::Idle ==> {
            ||| state.frame == FrameStage::Acquiring && event == FrameEvent::TimedOut
                && state.step(event).1 is SkipFrame
            ||| state.frame == FrameStage::Submitting && event == FrameEvent::Completed
                && state.step(event).1 is FinishFrame
        },
        state.step(event).1 is Submit ==> {
            ||| state.frame == FrameStage::Drawing
            ||| state.frame == FrameStage::Preparing
            ||| state.frame == FrameStage::Overlaying
        },
        state.step(event).1 is Ignore ==> state.step(event).0 == state,
        state.step(event).0 == (WgpuState {
            frame: state.step(event).0.frame,
            imgui: state.step(event).0.imgui,
            ..state
        }),
        state.step(event).0.imgui.should_render == state.imgui.should_render,
{
}

/// The draw call of the geometry pass issues exactly three indices, one
/// triangle, in one instance, whatever the overlay's state; the three indices
/// name the three vertices, each once.
pub proof fn lemma_one_triangle(state: WgpuState)
    requires
        state.wf(),
    ensures
        state.geometry_pass().index_count() == 3,
        state.geometry_pass().instance_count() == 1,
        state.geometry_pass() == (WgpuState { imgui: state.imgui.toggled(), ..state }).geometry_pass(),
        triangle_indices().len() == 3,
        triangle_vertices().len() == 3,
        forall|i: int| 0 <= i < 3 ==> triangle_indices()[i] == i,
{
}

/// Toggling the overlay twice restores the state, and no toggle changes the
/// geometry pass.
pub proof fn lemma_toggle_keeps_geometry(state: WgpuState)
    ensures
        state.after_input(WindowEvent::Key(Key::F3, Action::Press)).after_input(
            WindowEvent::Key(Key::F3, Action::Press),
        ) == state,
        state.after_input(WindowEvent::Key(Key::F3, Action::Press)).imgui.should_render
            != state.imgui.should_render,
        state.after_input(WindowEvent::Key(Key::F3, Action::Press)).geometry_pass()
            == state.geometry_pass(),
{
}

/// After a change of the window's size to a positive width and height the
/// chain reports exactly that size, and the pipeline need not be rebuilt.
pub proof fn lemma_resize_keeps_pipeline(state: WgpuState, w: i32, h: i32)
    requires
        state.wf(),
        w > 0,
        h > 0,
    ensures
        state.resized((w, h)).chain.width == w,
        state.resized((w, h)).chain.height == h,
        state.resized((w, h)).render_pipeline == state.render_pipeline,
        state.resized((w, h)).render_pipeline.target_format() == Some(
            state.resized((w, h)).chain.format,
        ),
        state.resized((w, h)).geometry_pass() == state.geometry_pass(),
        state.resized((w, h)).wf(),
        state.resized((w, h)).resized((w, h)) == state.resized((w, h)),
{
}

} // verus!
