//! The protocol of a frame, as a state machine.
//!
//! The engine tells the program what to do next on the device; the program
//! does it and reports how it went. What the engine answers to each report
//! is laid down here, apart from the handles and commands that go with it,
//! and so is what holds of every run of the protocol.

use vstd::prelude::*;
use crate::error::{classify, spec_classify, EngineError};
use crate::frame::SlotState;

verus! {

/// Where the engine takes up its work once the presentation chain is
/// rebuilt.
#[derive(Clone, Copy, Debug, PartialEq, Eq, Structural)]
pub enum Resume {
    /// Between two frames: the surface changed while nothing was drawn.
    Rest,
    /// At the acquiring of the frame's image: the frame's fence is reset
    /// and none of its commands are submitted.
    Acquire,
    /// At the wait for the frame's fence: the frame's commands are
    /// submitted, and the frame is drawn anew.
    Redraw,
}

/// Where the engine stands.
#[derive(Clone, Copy, Debug, PartialEq, Eq, Structural)]
pub enum Phase {
    /// Between two frames.
    Ready,
    /// Waiting for the fence of the frame's slot.
    WaitingFence,
    /// Resetting that fence.
    ResettingFence,
    /// Acquiring the image to draw to.
    Acquiring,
    /// Recording the frame's commands.
    Recording,
    /// Submitting them.
    Submitting,
    /// Presenting the image.
    Presenting,
    /// The surface no longer matches the chain.
    Stale { resume: Resume },
    /// The old chain and render targets are being destroyed and new ones
    /// built.
    Rebuilding { resume: Resume },
    /// The engine has failed for good.
    Failed(EngineError),
    /// The engine has been torn down.
    TornDown,
}

/// How the step that the engine asked for went.
#[derive(Clone, Copy, Debug, PartialEq, Eq, Structural)]
pub enum Reply {
    /// It was carried out.
    Done,
    /// An image was acquired: this is its index in the chain.
    Image(u32),
    /// The surface no longer matches the chain.
    OutOfDate,
    /// The device reported any other failure.
    Failed,
}

/// How a step went that gives nothing back, by the result code of the
/// device call.
pub open spec fn reply_for(code: i32) -> Reply {
    match spec_classify(code) {
        None => Reply::Done,
        Some(EngineError::OutOfDateSurface) => Reply::OutOfDate,
        Some(_) => Reply::Failed,
    }
}

/// How the acquiring of an image went, by the result code of the device
/// call and the index it gave.
pub open spec fn reply_for_acquire(code: i32, image: u32) -> Reply {
    match spec_classify(code) {
        None => Reply::Image(image),
        Some(EngineError::OutOfDateSurface) => Reply::OutOfDate,
        Some(_) => Reply::Failed,
    }
}

impl Reply {
    /// The reply for a step that gives nothing back.
    pub fn from_code(code: i32) -> (reply: Reply)
        ensures
            reply == reply_for(code),
    {
        match classify(code) {
            Ok(()) => Reply::Done,
            Err(EngineError::OutOfDateSurface) => Reply::OutOfDate,
            Err(_) => Reply::Failed,
        }
    }

    /// The reply for the acquiring of an image.
    pub fn from_acquire(code: i32, image: u32) -> (reply: Reply)
        ensures
            reply == reply_for_acquire(code, image),
    {
        match classify(code) {
            Ok(()) => Reply::Image(image),
            Err(EngineError::OutOfDateSurface) => Reply::OutOfDate,
            Err(_) => Reply::Failed,
        }
    }
}

/// The kind of step that the engine asks for.
#[derive(Clone, Copy, Debug, PartialEq, Eq, Structural)]
pub enum StepKind {
    WaitFence,
    ResetFence,
    AcquireImage,
    Record,
    Submit,
    Present,
    Recreate,
    Finished,
    Abort(EngineError),
}

/// The state of the protocol: the phase, the slot and the image of the
/// frame being drawn, where each slot stands, and how many framebuffers
/// there are to draw to.
pub struct Protocol {
    pub phase: Phase,
    pub slot: int,
    pub image: u32,
    pub slots: Seq<SlotState>,
    pub framebuffers: nat,
}

/// How many slots hold commands that the device may still be working on.
pub open spec fn in_flight(slots: Seq<SlotState>) -> nat
    decreases slots.len(),
{
    if slots.len() == 0 {
        0
    } else {
        in_flight(slots.drop_last()) + if slots.last() == SlotState::Submitted {
            1nat
        } else {
            0nat
        }
    }
}

impl Protocol {
    /// No slot but the frame's own is being recorded.
    pub open spec fn others_at_rest(self) -> bool {
        forall|s: int|
            0 <= s < self.slots.len() && s != self.slot ==> #[trigger] self.slots[s]
                != SlotState::Recording
    }

    /// The phase and the slots agree: the slot of the frame being drawn
    /// stands where the phase says, and no other slot is being recorded.
    pub open spec fn well_formed(self) -> bool {
        match self.phase {
            Phase::Failed(_) | Phase::TornDown => true,
            Phase::Ready | Phase::Stale { resume: Resume::Rest } | Phase::Rebuilding {
                resume: Resume::Rest,
            } => self.slots.len() >= 2 && forall|s: int|
                0 <= s < self.slots.len() ==> #[trigger] self.slots[s] != SlotState::Recording,
            _ => {
                &&& self.slots.len() >= 2
                &&& 0 <= self.slot < self.slots.len()
                &&& self.others_at_rest()
                &&& match self.phase {
                    Phase::WaitingFence => self.slots[self.slot] != SlotState::Recording,
                    Phase::ResettingFence | Phase::Acquiring => self.slots[self.slot]
                        == SlotState::Idle,
                    Phase::Recording | Phase::Submitting => self.slots[self.slot]
                        == SlotState::Recording,
                    Phase::Presenting => self.slots[self.slot] == SlotState::Submitted,
                    Phase::Stale { resume } | Phase::Rebuilding { resume } => self.slots[self.slot]
                        == (if resume == Resume::Redraw {
                        SlotState::Submitted
                    } else {
                        SlotState::Idle
                    }),
                    _ => true,
                }
            },
        }
    }

    /// The engine has failed for good.
    pub open spec fn fail(self, error: EngineError) -> (Protocol, StepKind) {
        (Protocol { phase: Phase::Failed(error), ..self }, StepKind::Abort(error))
    }

    /// What the engine does when it is asked to draw a frame. Between two
    /// frames it takes the frame's slot and waits for the slot's fence. An
    /// engine that has failed or is torn down stays so; anywhere else the
    /// request is a fault of the program.
    pub open spec fn begin(self, framenumber: i64) -> (Protocol, StepKind) {
        match self.phase {
            Phase::Ready => (
                Protocol {
                    phase: Phase::WaitingFence,
                    slot: framenumber as int % self.slots.len() as int,
                    ..self
                },
                StepKind::WaitFence,
            ),
            Phase::Failed(error) => (self, StepKind::Abort(error)),
            Phase::TornDown => (self, StepKind::Abort(EngineError::DeviceLost)),
            _ => self.fail(EngineError::DeviceLost),
        }
    }

    /// What the engine does when it hears how the last step went.
    pub open spec fn next(self, reply: Reply) -> (Protocol, StepKind) {
        match self.phase {
            Phase::WaitingFence => match reply {
                Reply::Done => (
                    Protocol {
                        phase: Phase::ResettingFence,
                        slots: self.slots.update(self.slot, SlotState::Idle),
                        ..self
                    },
                    StepKind::ResetFence,
                ),
                _ => self.fail(EngineError::DeviceLost),
            },
            Phase::ResettingFence => match reply {
                Reply::Done => (Protocol { phase: Phase::Acquiring, ..self }, StepKind::AcquireImage),
                _ => self.fail(EngineError::DeviceLost),
            },
            Phase::Acquiring => match reply {
                Reply::Image(image) => if image < self.framebuffers {
                    (
                        Protocol {
                            phase: Phase::Recording,
                            image,
                            slots: self.slots.update(self.slot, SlotState::Recording),
                            ..self
                        },
                        StepKind::Record,
                    )
                } else {
                    self.fail(EngineError::DeviceLost)
                },
                Reply::OutOfDate => (
                    Protocol { phase: Phase::Stale { resume: Resume::Acquire }, ..self },
                    StepKind::Recreate,
                ),
                _ => self.fail(EngineError::DeviceLost),
            },
            Phase::Recording => match reply {
                Reply::Done => (Protocol { phase: Phase::Submitting, ..self }, StepKind::Submit),
                _ => self.fail(EngineError::DeviceLost),
            },
            Phase::Submitting => match reply {
                Reply::Done => (
                    Protocol {
                        phase: Phase::Presenting,
                        slots: self.slots.update(self.slot, SlotState::Submitted),
                        ..self
                    },
                    StepKind::Present,
                ),
                _ => self.fail(EngineError::DeviceLost),
            },
            Phase::Presenting => match reply {
                Reply::Done => (Protocol { phase: Phase::Ready, ..self }, StepKind::Finished),
                Reply::OutOfDate => (
                    Protocol { phase: Phase::Stale { resume: Resume::Redraw }, ..self },
                    StepKind::Recreate,
                ),
                _ => self.fail(EngineError::DeviceLost),
            },
            Phase::Failed(error) => (self, StepKind::Abort(error)),
            Phase::TornDown => (self, StepKind::Abort(EngineError::DeviceLost)),
            _ => self.fail(EngineError::DeviceLost),
        }
    }

    /// What the engine does when the window has been resized: between two
    /// frames it asks for the chain to be rebuilt. An engine that has failed
    /// or is torn down stays so; in the middle of a frame the call is a
    /// fault of the program.
    pub open spec fn resize(self) -> (Protocol, StepKind) {
        match self.phase {
            Phase::Ready => (
                Protocol { phase: Phase::Stale { resume: Resume::Rest }, ..self },
                StepKind::Recreate,
            ),
            Phase::Failed(error) => (self, StepKind::Abort(error)),
            Phase::TornDown => (self, StepKind::Abort(EngineError::DeviceLost)),
            _ => self.fail(EngineError::DeviceLost),
        }
    }

    /// What the engine does when the program starts to rebuild the chain:
    /// where the surface is out of date the rebuild begins. An engine that
    /// has failed or is torn down stays so; anywhere else the call is a
    /// fault of the program.
    pub open spec fn rebuild(self) -> Protocol {
        match self.phase {
            Phase::Stale { resume } => Protocol { phase: Phase::Rebuilding { resume }, ..self },
            Phase::Failed(_) | Phase::TornDown => self,
            _ => self.fail(EngineError::DeviceLost).0,
        }
    }

    /// What the engine does when the chain and the render targets that
    /// were rebuilt do not fit each other or the surface: it has failed.
    pub open spec fn misfit(self, framebuffers: nat) -> (Protocol, StepKind) {
        Protocol { framebuffers, ..self }.fail(EngineError::Initialization)
    }

    /// The engine is torn down, wherever it stands.
    pub open spec fn stop(self) -> Protocol {
        Protocol { phase: Phase::TornDown, ..self }
    }

    /// What the engine does once the chain and the render targets have
    /// been rebuilt and fit each other. Between two frames there is
    /// nothing more to do. A frame acquires its image again: one whose
    /// commands had not been submitted does so at once, for its fence is
    /// reset and a second wait for it would never end; one whose commands
    /// had been submitted is drawn anew from its first step, the wait for
    /// its fence.
    pub open spec fn resume(self, framebuffers: nat) -> (Protocol, StepKind) {
        match self.phase {
            Phase::Rebuilding { resume } => match resume {
                Resume::Rest => (
                    Protocol { phase: Phase::Ready, framebuffers, ..self },
                    StepKind::Finished,
                ),
                Resume::Acquire => (
                    Protocol { phase: Phase::Acquiring, framebuffers, ..self },
                    StepKind::AcquireImage,
                ),
                Resume::Redraw => (
                    Protocol { phase: Phase::WaitingFence, framebuffers, ..self },
                    StepKind::WaitFence,
                ),
            },
            Phase::Failed(error) => (self, StepKind::Abort(error)),
            Phase::TornDown => (self, StepKind::Abort(EngineError::DeviceLost)),
            _ => self.fail(EngineError::DeviceLost),
        }
    }
}

/// A request to draw leaves the protocol well-formed.
pub proof fn begin_keeps_well_formed(p: Protocol, framenumber: i64)
    requires
        p.well_formed(),
    ensures
        p.begin(framenumber).0.well_formed(),
{
    if p.phase == Phase::Ready {
        let q = p.begin(framenumber).0;
        assert(0 <= q.slot < q.slots.len());
    }
}

/// A reply leaves the protocol well-formed.
pub proof fn next_keeps_well_formed(p: Protocol, reply: Reply)
    requires
        p.well_formed(),
    ensures
        p.next(reply).0.well_formed(),
{
    let q = p.next(reply).0;
    match q.phase {
        Phase::Failed(_) | Phase::TornDown => {},
        Phase::Ready => {
            assert forall|s: int| 0 <= s < q.slots.len() implies #[trigger] q.slots[s]
                != SlotState::Recording by {
                if s != p.slot {
                    assert(p.slots[s] != SlotState::Recording);
                }
            }
        },
        _ => {
            assert forall|s: int| 0 <= s < q.slots.len() && s != q.slot implies #[trigger] q.slots[s]
                != SlotState::Recording by {
                assert(p.slots[s] != SlotState::Recording);
            }
        },
    }
}

/// Rebuilding the chain leaves the protocol well-formed.
pub proof fn resume_keeps_well_formed(p: Protocol, framebuffers: nat)
    requires
        p.well_formed(),
    ensures
        p.resume(framebuffers).0.well_formed(),
{
    let q = p.resume(framebuffers).0;
    match q.phase {
        Phase::Failed(_) | Phase::TornDown => {},
        Phase::Ready => {
            assert forall|s: int| 0 <= s < q.slots.len() implies #[trigger] q.slots[s]
                != SlotState::Recording by {
                if s != p.slot {
                    assert(p.slots[s] != SlotState::Recording);
                }
            }
        },
        _ => {
            assert forall|s: int| 0 <= s < q.slots.len() && s != q.slot implies #[trigger] q.slots[s]
                != SlotState::Recording by {
                assert(p.slots[s] != SlotState::Recording);
            }
        },
    }
}

/// A slot is never reused before its fence has been waited for: when the
/// engine asks to record or to submit the commands of a slot, the slot is
/// not one whose commands were submitted and whose fence has not been
/// waited for since.
pub proof fn no_reuse_before_fence(p: Protocol, reply: Reply)
    requires
        p.well_formed(),
    ensures
        p.next(reply).1 == StepKind::Record ==> p.slots[p.slot] == SlotState::Idle,
        p.next(reply).1 == StepKind::Submit ==> p.slots[p.slot] == SlotState::Recording,
{
}

/// After a rebuild the engine neither records nor submits at once, and it
/// acquires an image at once only for a slot whose fence has been waited
/// for.
pub proof fn no_reuse_after_rebuild(p: Protocol, framebuffers: nat)
    requires
        p.well_formed(),
    ensures
        p.resume(framebuffers).1 != StepKind::Record,
        p.resume(framebuffers).1 != StepKind::Submit,
        p.resume(framebuffers).1 == StepKind::AcquireImage ==> 0 <= p.slot < p.slots.len()
            && p.slots[p.slot] == SlotState::Idle,
{
}

/// Only a wait for its fence that was carried out takes a slot out of
/// flight, and only a submission that was carried out puts one in.
pub proof fn only_the_fence_frees_a_slot(p: Protocol, reply: Reply, s: int)
    requires
        p.well_formed(),
        0 <= s < p.slots.len(),
    ensures
        p.next(reply).0.slots.len() == p.slots.len(),
        p.slots[s] == SlotState::Submitted && p.next(reply).0.slots[s] != SlotState::Submitted
            ==> p.phase == Phase::WaitingFence && s == p.slot && reply == Reply::Done,
        p.slots[s] != SlotState::Submitted && p.next(reply).0.slots[s] == SlotState::Submitted
            ==> p.phase == Phase::Submitting && s == p.slot && reply == Reply::Done,
{
}

/// A request to draw, a resize and a rebuild leave every slot where it
/// stands.
pub proof fn slots_rest_between_replies(p: Protocol, framenumber: i64, framebuffers: nat)
    ensures
        p.begin(framenumber).0.slots == p.slots,
        p.resize().0.slots == p.slots,
        p.rebuild().slots == p.slots,
        p.resume(framebuffers).0.slots == p.slots,
        p.misfit(framebuffers).0.slots == p.slots,
        p.stop().slots == p.slots,
{
}

/// No more slots are in flight than there are slots.
pub proof fn in_flight_is_bounded(slots: Seq<SlotState>)
    ensures
        in_flight(slots) <= slots.len(),
    decreases slots.len(),
{
    if slots.len() > 0 {
        in_flight_is_bounded(slots.drop_last());
    }
}

/// A slot that is not in flight leaves room for one fewer in flight.
pub proof fn in_flight_spares_a_slot(slots: Seq<SlotState>, s: int)
    requires
        0 <= s < slots.len(),
        slots[s] != SlotState::Submitted,
    ensures
        in_flight(slots) + 1 <= slots.len(),
    decreases slots.len(),
{
    if s == slots.len() - 1 {
        in_flight_is_bounded(slots.drop_last());
    } else {
        assert(slots.drop_last()[s] == slots[s]);
        in_flight_spares_a_slot(slots.drop_last(), s);
    }
}

/// The host and the device overlap by less than all slots: while a frame
/// is being recorded or submitted, at least one slot, the frame's own, is
/// not in flight.
pub proof fn recording_overlaps_the_rest(p: Protocol)
    requires
        p.well_formed(),
        p.phase == Phase::Recording || p.phase == Phase::Submitting,
    ensures
        in_flight(p.slots) + 1 <= p.slots.len(),
{
    in_flight_spares_a_slot(p.slots, p.slot);
}

/// What happens to the engine, one thing after another.
pub enum Happening {
    /// The program asks for a frame to be drawn.
    Draw(i64),
    /// The program reports how the last step went.
    Reply(Reply),
    /// The program reports that the window has been resized.
    Resize,
    /// The program starts to rebuild the chain.
    Rebuild,
    /// The program hands over the rebuilt chain, with so many
    /// framebuffers.
    Rebuilt(nat),
    /// The program hands over a rebuilt chain that does not fit, with so
    /// many framebuffers.
    Misfit(nat),
    /// The program tears the engine down.
    Teardown,
}

impl Protocol {
    /// The engine after one happening, and what it asks for in answer.
    /// Starting a rebuild and a teardown ask for no step of a frame.
    pub open spec fn step(self, happening: Happening) -> (Protocol, Option<StepKind>) {
        match happening {
            Happening::Draw(framenumber) => (
                self.begin(framenumber).0,
                Some(self.begin(framenumber).1),
            ),
            Happening::Reply(reply) => (self.next(reply).0, Some(self.next(reply).1)),
            Happening::Resize => (self.resize().0, Some(self.resize().1)),
            Happening::Rebuild => (self.rebuild(), None),
            Happening::Rebuilt(framebuffers) => (
                self.resume(framebuffers).0,
                Some(self.resume(framebuffers).1),
            ),
            Happening::Misfit(framebuffers) => (
                self.misfit(framebuffers).0,
                Some(self.misfit(framebuffers).1),
            ),
            Happening::Teardown => (self.stop(), None),
        }
    }

    /// The engine after the first `count` of a list of happenings.
    pub open spec fn at(self, history: Seq<Happening>, count: int) -> Protocol
        decreases count,
    {
        if count <= 0 {
            self
        } else {
            self.at(history, count - 1).step(history[count - 1]).0
        }
    }

    /// What the engine asks for in answer to happening `i`.
    pub open spec fn asks(self, history: Seq<Happening>, i: int) -> Option<StepKind> {
        self.at(history, i).step(history[i]).1
    }

    /// The engine has come to its end: it has failed or is torn down.
    pub open spec fn ended(self) -> bool {
        self.phase is Failed || self.phase is TornDown
    }
}

/// Whatever happens leaves the protocol well-formed and the number of
/// slots as it is.
pub proof fn step_keeps_well_formed(p: Protocol, happening: Happening)
    requires
        p.well_formed(),
    ensures
        p.step(happening).0.well_formed(),
        p.step(happening).0.slots.len() == p.slots.len(),
{
    match happening {
        Happening::Draw(framenumber) => begin_keeps_well_formed(p, framenumber),
        Happening::Reply(reply) => next_keeps_well_formed(p, reply),
        Happening::Resize => {},
        Happening::Rebuild => {
            let q = p.rebuild();
            if !q.ended() && q.phase != (Phase::Rebuilding { resume: Resume::Rest }) {
                assert forall|s: int| 0 <= s < q.slots.len() && s != q.slot implies #[trigger] q.slots[s]
                    != SlotState::Recording by {
                    assert(p.slots[s] != SlotState::Recording);
                }
            }
        },
        Happening::Rebuilt(framebuffers) => resume_keeps_well_formed(p, framebuffers),
        Happening::Misfit(_) => {},
        Happening::Teardown => {},
    }
}

/// Every state of a run is well-formed, with as many slots as at the
/// start.
pub proof fn run_keeps_well_formed(p: Protocol, history: Seq<Happening>, count: int)
    requires
        p.well_formed(),
    ensures
        p.at(history, count).well_formed(),
        p.at(history, count).slots.len() == p.slots.len(),
    decreases count,
{
    if count > 0 {
        run_keeps_well_formed(p, history, count - 1);
        step_keeps_well_formed(p.at(history, count - 1), history[count - 1]);
    }
}

/// An engine that has come to its end stays there.
pub proof fn the_end_is_final(p: Protocol, history: Seq<Happening>, from: int, to: int)
    requires
        from <= to,
        p.at(history, from).ended(),
    ensures
        p.at(history, to).ended(),
    decreases to - from,
{
    if from < to {
        the_end_is_final(p, history, from, to - 1);
    }
}

/// A slot that is in flight at one time and not at a later time has had
/// its fence waited for in between: at some time in between the engine was
/// waiting for the slot's fence, and the program reported that the wait
/// was carried out.
pub proof fn leaving_flight_takes_a_wait(
    p: Protocol,
    history: Seq<Happening>,
    from: int,
    to: int,
    s: int,
) -> (k: int)
    requires
        p.well_formed(),
        0 <= from <= to,
        0 <= s < p.slots.len(),
        p.at(history, from).slots[s] == SlotState::Submitted,
        p.at(history, to).slots[s] != SlotState::Submitted,
    ensures
        from <= k < to,
        p.at(history, k).phase == Phase::WaitingFence,
        p.at(history, k).slot == s,
        history[k] == Happening::Reply(Reply::Done),
    decreases to - from,
{
    let before = p.at(history, to - 1);
    run_keeps_well_formed(p, history, to - 1);
    if before.slots[s] == SlotState::Submitted {
        match history[to - 1] {
            Happening::Reply(reply) => {
                only_the_fence_frees_a_slot(before, reply, s);
            },
            _ => {},
        }
        to - 1
    } else {
        leaving_flight_takes_a_wait(p, history, from, to - 1, s)
    }
}

/// No slot is reused before its fence has been waited for. Whatever
/// happens to the engine and in whatever order: if it asks twice for the
/// commands of one slot to be submitted, then in between it has waited for
/// that slot's fence, and the wait was carried out.
pub proof fn submissions_of_a_slot_are_fenced(
    p: Protocol,
    history: Seq<Happening>,
    i: int,
    j: int,
) -> (k: int)
    requires
        p.well_formed(),
        0 <= i < j < history.len(),
        p.asks(history, i) == Some(StepKind::Submit),
        p.asks(history, j) == Some(StepKind::Submit),
        p.at(history, i).slot == p.at(history, j).slot,
    ensures
        i < k < j,
        p.at(history, k).phase == Phase::WaitingFence,
        p.at(history, k).slot == p.at(history, i).slot,
        history[k] == Happening::Reply(Reply::Done),
{
    let first = p.at(history, i);
    let second = p.at(history, j);
    let s = first.slot;
    run_keeps_well_formed(p, history, i);
    run_keeps_well_formed(p, history, i + 1);
    run_keeps_well_formed(p, history, i + 2);
    run_keeps_well_formed(p, history, j);
    // The engine asks to submit only when the recording is done.
    assert(first.phase == Phase::Recording);
    assert(second.phase == Phase::Recording);
    let submitting = p.at(history, i + 1);
    assert(submitting == first.step(history[i]).0);
    assert(submitting.phase == Phase::Submitting && submitting.slot == s);
    assert(j != i + 1);
    // The first submission was carried out, or the engine would have
    // come to its end.
    let submitted = p.at(history, i + 2);
    assert(submitted == submitting.step(history[i + 1]).0);
    if history[i + 1] != Happening::Reply(Reply::Done) {
        assert(submitted.ended());
        the_end_is_final(p, history, i + 2, j);
    }
    assert(submitted.slots[s] == SlotState::Submitted);
    assert(second.slots[s] == SlotState::Recording);
    leaving_flight_takes_a_wait(p, history, i + 2, j, s)
}

} // verus!
