use vstd::prelude::*;
use crate::capture_loop::{transition, LoopEvent, LoopPhase};
use crate::error::{CaptureError, TerminalStatus};
use crate::frame::RawFrame;

verus! {

/// One report to the loop: the enable flag as read, and the event.
pub type Report = (bool, LoopEvent);

/// The phase the loop is in after it has taken `reports` in order,
/// starting from `phase`.
pub open spec fn phase_after(phase: LoopPhase, reports: Seq<Report>) -> LoopPhase
    decreases reports.len(),
{
    if reports.len() == 0 {
        phase
    } else {
        phase_after(transition(phase, reports[0].0, reports[0].1).0, reports.drop_first())
    }
}

/// The number of frames the loop asks to emit while it takes `reports`
/// in order, starting from `phase`.
pub open spec fn emitted_during(phase: LoopPhase, reports: Seq<Report>) -> nat
    decreases reports.len(),
{
    if reports.len() == 0 {
        0
    } else {
        let (next, action) = transition(phase, reports[0].0, reports[0].1);
        let here: nat = if action is Emit {
            1
        } else {
            0
        };
        here + emitted_during(next, reports.drop_first())
    }
}

/// Whether every report in `reports` was made with the enable flag
/// cleared.
pub open spec fn all_disabled(reports: Seq<Report>) -> bool {
    forall|i: int| 0 <= i < reports.len() ==> !(#[trigger] reports[i]).0
}

/// A loop that has ended stays ended and emits nothing, whatever it is
/// told afterwards and however often.
pub proof fn lemma_silent_after_finish(status: TerminalStatus, reports: Seq<Report>)
    ensures
        emitted_during(LoopPhase::Finished(status), reports) == 0,
        phase_after(LoopPhase::Finished(status), reports) == LoopPhase::Finished(status),
    decreases reports.len(),
{
    if reports.len() > 0 {
        lemma_silent_after_finish(status, reports.drop_first());
    }
}

/// With the enable flag cleared, a loop that has no pull in flight
/// emits nothing more.
pub proof fn lemma_silent_once_disabled(phase: LoopPhase, reports: Seq<Report>)
    requires
        all_disabled(reports),
        phase != LoopPhase::Pulling,
    ensures
        emitted_during(phase, reports) == 0,
    decreases reports.len(),
{
    if reports.len() > 0 {
        let tail = reports.drop_first();
        assert(!reports[0].0);
        assert forall|i: int| 0 <= i < tail.len() implies !(#[trigger] tail[i]).0 by {
            assert(tail[i] == reports[i + 1]);
        }
        lemma_silent_once_disabled(transition(phase, false, reports[0].1).0, tail);
    }
}

/// Clearing the enable flag lets at most the frame of the pull in
/// flight through: whatever is reported afterwards, no more than one
/// frame is emitted.
pub proof fn lemma_at_most_one_after_disable(phase: LoopPhase, reports: Seq<Report>)
    requires
        all_disabled(reports),
    ensures
        emitted_during(phase, reports) <= 1,
    decreases reports.len(),
{
    if phase != LoopPhase::Pulling {
        lemma_silent_once_disabled(phase, reports);
    } else if reports.len() > 0 {
        let tail = reports.drop_first();
        let next = transition(phase, false, reports[0].1).0;
        assert(!reports[0].0);
        assert forall|i: int| 0 <= i < tail.len() implies !(#[trigger] tail[i]).0 by {
            assert(tail[i] == reports[i + 1]);
        }
        if next == LoopPhase::Pulling {
            lemma_at_most_one_after_disable(next, tail);
        } else {
            lemma_silent_once_disabled(next, tail);
        }
    }
}

/// What a worker reports when every pull delivers the next of `frames`
/// and the pull after the last of them fails: each frame and the end of
/// its emission, then the failure and the end of the closing.
pub open spec fn reports_until_failure(frames: Seq<RawFrame>) -> Seq<Report>
    decreases frames.len(),
{
    if frames.len() == 0 {
        seq![(true, LoopEvent::PullFailed), (true, LoopEvent::Done)]
    } else {
        seq![(true, LoopEvent::Frame(frames[0])), (true, LoopEvent::Done)] + reports_until_failure(
            frames.drop_first(),
        )
    }
}

/// A pull that fails after `n` frames were delivered leaves exactly `n`
/// frames emitted and the loop ended with `FrameAcquisitionFailed`.
pub proof fn lemma_failure_after_frames(frames: Seq<RawFrame>)
    requires
        forall|i: int| 0 <= i < frames.len() ==> (#[trigger] frames[i]).well_formed(),
    ensures
        emitted_during(LoopPhase::Pulling, reports_until_failure(frames)) == frames.len(),
        phase_after(LoopPhase::Pulling, reports_until_failure(frames)) == LoopPhase::Finished(
            TerminalStatus::Failed(CaptureError::FrameAcquisitionFailed),
        ),
    decreases frames.len(),
{
    let reports = reports_until_failure(frames);
    let tail = reports.drop_first();
    let closing = LoopPhase::Closing(TerminalStatus::Failed(CaptureError::FrameAcquisitionFailed));
    if frames.len() == 0 {
        assert(reports[0] == (true, LoopEvent::PullFailed));
        assert(tail[0] == (true, LoopEvent::Done));
        assert(tail.drop_first().len() == 0);
        assert(phase_after(closing, tail) == phase_after(
            transition(closing, true, LoopEvent::Done).0,
            tail.drop_first(),
        ));
        assert(emitted_during(closing, tail) == emitted_during(
            transition(closing, true, LoopEvent::Done).0,
            tail.drop_first(),
        ));
    } else {
        let rest = frames.drop_first();
        assert(frames[0].well_formed());
        assert forall|i: int| 0 <= i < rest.len() implies (#[trigger] rest[i]).well_formed() by {
            assert(rest[i] == frames[i + 1]);
        }
        lemma_failure_after_frames(rest);
        assert(reports[0] == (true, LoopEvent::Frame(frames[0])));
        assert(tail[0] == (true, LoopEvent::Done));
        assert(tail.drop_first() =~= reports_until_failure(rest));
        assert(phase_after(LoopPhase::Emitting, tail) == phase_after(
            transition(LoopPhase::Emitting, true, LoopEvent::Done).0,
            tail.drop_first(),
        ));
        assert(emitted_during(LoopPhase::Emitting, tail) == emitted_during(
            transition(LoopPhase::Emitting, true, LoopEvent::Done).0,
            tail.drop_first(),
        ));
    }
}

} // verus!
