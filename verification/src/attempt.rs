//! How a session and the worker of an attempt work together through the
//! control flags.
//!
//! The two run on different threads and share nothing but the control. Here
//! one attempt is followed step by step: each step is one party's atomic read
//! or write of the flags together with what that party decides on it. What is
//! shown holds of every order in which the steps can come.

use crate::session::SessionModel;
use crate::session::SessionStatus;
use crate::symphonia_control::ControlOp;
use crate::symphonia_control::ControlState;
use crate::symphonia_play::AttemptOutcome;
use crate::symphonia_play::DecodeEvent;
use crate::symphonia_play::PlayerAction;
use crate::symphonia_play::PlayerModel;
use crate::symphonia_play::PlayerPhase;
use vstd::prelude::*;

verus! {

/// One attempt: the flags of its control and the player of its worker.
pub struct AttemptModel {
    pub control: ControlState,
    pub player: PlayerModel,
}

/// One step of an attempt.
pub enum AttemptStep {
    /// The session carries out an operation on the control.
    Session(ControlOp),
    /// The worker reads the flags and takes the player's decision on them.
    Look,
    /// The worker takes the decoder's answer to the player and does to the
    /// control what the player's decision calls for.
    Decode(DecodeEvent),
}

impl AttemptModel {
    /// An attempt that was just started.
    pub open spec fn fresh() -> Self {
        AttemptModel { control: ControlState::initial(), player: PlayerModel::fresh() }
    }

    /// What the worker does at a look at the control.
    pub open spec fn action_on_look(self) -> PlayerAction {
        self.player.action_on_control(self.control.stopped, self.control.paused)
    }

    /// The attempt after one step.
    pub open spec fn after(self, step: AttemptStep) -> Self {
        match step {
            AttemptStep::Session(op) => AttemptModel { control: self.control.after(op), ..self },
            AttemptStep::Look => AttemptModel {
                player: self.player.after_control(self.control.stopped, self.control.paused),
                ..self
            },
            AttemptStep::Decode(event) => {
                let player = self.player.after_decode(event);
                let action = self.player.action_on_decode(event);
                AttemptModel {
                    player,
                    control: match player.signal_after(action) {
                        Some(op) => self.control.after(op),
                        None => self.control,
                    },
                }
            },
        }
    }

    /// The attempt after some steps, oldest first.
    pub open spec fn after_all(self, steps: Seq<AttemptStep>) -> Self
        decreases steps.len(),
    {
        if steps.len() == 0 {
            self
        } else {
            self.after_all(steps.drop_last()).after(steps.last())
        }
    }
}

/// The worker leaves the pause flag alone and never clears the stop flag:
/// whatever it is told, the control is paused after its step exactly if it
/// was before, and stopped if it was before.
pub proof fn lemma_worker_writes(attempt: AttemptModel, event: DecodeEvent)
    ensures
        attempt.after(AttemptStep::Look).control == attempt.control,
        attempt.after(AttemptStep::Decode(event)).control.paused == attempt.control.paused,
        attempt.control.stopped ==> attempt.after(AttemptStep::Decode(event)).control.stopped,
{
}

/// A worker that plays its stream to the end signals stop on the control, so
/// that the session's next look finds the control stopped; and the worker
/// signals stop in no other step.
pub proof fn lemma_completion_is_signalled(attempt: AttemptModel, event: DecodeEvent)
    requires
        !attempt.control.stopped,
    ensures
        attempt.after(AttemptStep::Decode(event)).control.stopped <==> (attempt.player.phase
            is Feeding && event is EndOfStream),
        attempt.after(AttemptStep::Decode(event)).control.stopped ==> attempt.after(
            AttemptStep::Decode(event),
        ).player.phase == PlayerPhase::Done(AttemptOutcome::Completed),
{
}

/// The track after the one that has played to its end starts at the
/// session's next look at the control, if there is such a track, and else the
/// session falls idle.
pub proof fn lemma_finished_track_is_followed(
    session: SessionModel,
    attempt: AttemptModel,
    index: usize,
)
    requires
        session.playing_index == Some(index),
        attempt.player.phase is Feeding,
    ensures
        ({
            let finished = attempt.after(AttemptStep::Decode(DecodeEvent::EndOfStream));
            let next = session.polled(finished.control.stopped);
            if index + 1 < session.playlist.current.len() {
                next.status is Playing && next.playing_index == Some((index + 1) as usize)
            } else {
                next.status is Idle && next.playing_index is None
            }
        }),
{
}

/// Once the session has signalled stop, the worker ends the attempt at its
/// next look at the control without decoding any more, whatever else was
/// done to the control in between; and the session, which is idle from the
/// moment of the stop, starts no track however often it looks.
pub proof fn lemma_stop_ends_the_attempt(
    session: SessionModel,
    attempt: AttemptModel,
    later: Seq<ControlOp>,
)
    requires
        !attempt.player.is_done(),
    ensures
        ({
            let signalled = AttemptModel {
                control: attempt.control.after(ControlOp::Stop).after_all(later),
                ..attempt
            };
            &&& signalled.action_on_look() == PlayerAction::Halt
            &&& signalled.after(AttemptStep::Look).player.phase == PlayerPhase::Done(
                AttemptOutcome::Stopped,
            )
            &&& session.idle().polled(signalled.control.stopped) == session.idle()
            &&& session.idle().status == SessionStatus::Idle
        }),
{
    crate::symphonia_control::lemma_stop_permanent(attempt.control.after(ControlOp::Stop), later);
}

/// While the control is paused and not stopped the worker decodes nothing
/// and hands nothing to the sink: each look leaves it held with the count of
/// frames as it was.
pub proof fn lemma_pause_holds_the_worker(attempt: AttemptModel)
    requires
        !attempt.player.is_done(),
        attempt.control.paused,
        !attempt.control.stopped,
    ensures
        attempt.action_on_look() == PlayerAction::ClearAndWait || attempt.action_on_look()
            == PlayerAction::Wait,
        attempt.after(AttemptStep::Look).player.phase is Held,
        attempt.after(AttemptStep::Look).player.frames == attempt.player.frames,
        attempt.after(AttemptStep::Look).action_on_look() == PlayerAction::Wait,
{
}

/// An attempt that is over stays as it ended, and its control stays as it
/// is until the session writes to it.
pub proof fn lemma_ended_attempt_is_still(attempt: AttemptModel, event: DecodeEvent)
    requires
        attempt.player.is_done(),
    ensures
        attempt.after(AttemptStep::Look) == attempt,
        attempt.after(AttemptStep::Decode(event)) == attempt,
{
}

/// Through every run of steps of the session and the worker, a control that
/// is stopped stays stopped and an attempt that is over stays over.
pub proof fn lemma_stop_and_end_are_final(attempt: AttemptModel, steps: Seq<AttemptStep>)
    ensures
        attempt.control.stopped ==> attempt.after_all(steps).control.stopped,
        attempt.player.is_done() ==> attempt.after_all(steps).player == attempt.player,
    decreases steps.len(),
{
    if steps.len() > 0 {
        lemma_stop_and_end_are_final(attempt, steps.drop_last());
    }
}

} // verus!
