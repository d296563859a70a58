//! The decisions of the decode-and-feed loop of one playback attempt.
//!
//! The worker that owns the decoder and the output sink runs the loop. Between
//! two pieces of outside work it reads the control flags and asks the player
//! here what to do next. The player never blocks and touches no device.

use crate::error::PlayerError;
use crate::symphonia_control::ControlOp;
use vstd::prelude::*;

verus! {

/// How long the worker sleeps before it looks at a paused control again.
pub const PAUSE_POLL_MS: u64 = 100;

/// How long the worker sleeps after it has handed one decoded unit to the sink.
pub const UNIT_THROTTLE_MS: u64 = 25;

/// How long the worker sleeps after it has handed one slice of a decoded
/// buffer to the sink.
pub const SLICE_THROTTLE_MS: u64 = 40;

/// A decoded buffer is fed in slices of one twentieth of a second.
pub const SLICES_PER_SECOND: u32 = 20;

/// How a playback attempt ended.
#[derive(Clone, Copy, Debug, PartialEq, Eq, Structural)]
pub enum AttemptOutcome {
    /// The stream was played to its end.
    Completed,
    /// A stop signal ended it.
    Stopped,
    /// It was given up.
    Failed(PlayerError),
}

/// Sample rate and channel count of decoded audio.
#[derive(Clone, Copy, Debug, PartialEq, Eq, Structural)]
pub struct AudioFormat {
    pub sample_rate: u32,
    pub channels: u16,
}

impl AudioFormat {
    /// The format that is taken for a stream of which no unit was decoded:
    /// two channels at 44100 samples a second.
    pub open spec fn assumed() -> Self {
        AudioFormat { sample_rate: 44100, channels: 2 }
    }

    pub fn fallback() -> (format: Self)
        ensures
            format == Self::assumed(),
            format.is_playable(),
    {
        AudioFormat { sample_rate: 44100, channels: 2 }
    }

    /// Whether a sink can play audio in this format: it has at least one
    /// channel and a sample rate above zero.
    pub open spec fn is_playable(self) -> bool {
        self.sample_rate > 0 && self.channels > 0
    }

    pub fn playable(self) -> (playable: bool)
        ensures
            playable == self.is_playable(),
    {
        self.sample_rate > 0 && self.channels > 0
    }
}

/// Where the loop stands.
#[derive(Clone, Copy, Debug, PartialEq, Eq, Structural)]
pub enum PlayerPhase {
    /// Units are decoded and handed to the sink.
    Feeding,
    /// The control is paused: the sink was emptied and nothing is decoded.
    Held,
    /// The attempt is over.
    Done(AttemptOutcome),
}

/// What the decoder gave when it was asked for the next unit.
#[derive(Clone, Copy, Debug, PartialEq, Eq, Structural)]
pub enum DecodeEvent {
    /// A unit of `samples` interleaved samples in `format`.
    Unit { format: AudioFormat, samples: usize },
    /// The unit could not be had.
    Failed(PlayerError),
    /// The stream has no more units.
    EndOfStream,
}

/// What the worker does next.
#[derive(Clone, Copy, Debug, PartialEq, Eq, Structural)]
pub enum PlayerAction {
    /// Empty the sink, unplayed audio included, and leave the loop.
    Halt,
    /// Empty the sink, unplayed audio included, then sleep `PAUSE_POLL_MS`.
    ClearAndWait,
    /// Sleep `PAUSE_POLL_MS`.
    Wait,
    /// Ask the decoder for the next unit and report what it gave.
    Decode,
    /// Hand the unit just decoded to the sink in this format, note the
    /// position on the control, then sleep `UNIT_THROTTLE_MS`.
    Append(AudioFormat),
    /// Drop the unit and go on.
    Skip,
    /// Let the sink play what it holds, signal stop on the control and leave
    /// the loop.
    Drain,
    /// Leave the loop and report the failure.
    Abort(PlayerError),
    /// The attempt is over: there is nothing to do.
    Exit,
}

/// The state of a player as contracts see it.
pub struct PlayerModel {
    pub phase: PlayerPhase,
    /// The format of the first unit that was decoded, once there is one.
    pub format: Option<AudioFormat>,
    /// The sample frames handed to the sink so far.
    pub frames: nat,
}

/// The frames in a unit of `samples` interleaved samples.
pub open spec fn frames_in(samples: nat, channels: nat) -> nat {
    if channels == 0 {
        0
    } else {
        samples / channels
    }
}

/// The play time of `frames` sample frames at `sample_rate`, in milliseconds,
/// rounded down.
pub open spec fn millis_of(frames: nat, sample_rate: nat) -> nat {
    if sample_rate == 0 {
        0
    } else {
        frames * 1000 / sample_rate
    }
}

/// A count as the player keeps it: it stops growing at the largest `u64`.
pub open spec fn capped(n: nat) -> nat {
    if n > u64::MAX {
        u64::MAX as nat
    } else {
        n
    }
}

impl PlayerModel {
    pub open spec fn fresh() -> Self {
        PlayerModel { phase: PlayerPhase::Feeding, format: None, frames: 0 }
    }

    pub open spec fn is_done(self) -> bool {
        self.phase is Done
    }

    /// The state after the control flags were read.
    pub open spec fn after_control(self, stopped: bool, paused: bool) -> Self {
        if self.is_done() {
            self
        } else if stopped {
            PlayerModel { phase: PlayerPhase::Done(AttemptOutcome::Stopped), ..self }
        } else if paused {
            PlayerModel { phase: PlayerPhase::Held, ..self }
        } else {
            PlayerModel { phase: PlayerPhase::Feeding, ..self }
        }
    }

    /// What the worker does once the control flags were read. A stop signal
    /// goes before a pause; the sink is emptied once when a pause begins.
    pub open spec fn action_on_control(self, stopped: bool, paused: bool) -> PlayerAction {
        if self.is_done() {
            PlayerAction::Exit
        } else if stopped {
            PlayerAction::Halt
        } else if paused {
            if self.phase is Held {
                PlayerAction::Wait
            } else {
                PlayerAction::ClearAndWait
            }
        } else {
            PlayerAction::Decode
        }
    }

    /// The format in which a unit decoded in `format` goes to the sink: that
    /// of the first unit of the stream.
    pub open spec fn adopted(self, format: AudioFormat) -> AudioFormat {
        match self.format {
            Some(first) => first,
            None => format,
        }
    }

    /// The state after the decoder was asked for a unit. Only a player that is
    /// feeding takes the answer. A unit counts in the format that the stream
    /// goes to the sink in; where no sink can play that format, the attempt
    /// is given up.
    pub open spec fn after_decode(self, event: DecodeEvent) -> Self {
        if !(self.phase is Feeding) {
            self
        } else {
            match event {
                DecodeEvent::Unit { format, samples } => if self.adopted(format).is_playable() {
                    PlayerModel {
                        phase: self.phase,
                        format: Some(self.adopted(format)),
                        frames: capped(
                            self.frames + frames_in(
                                samples as nat,
                                self.adopted(format).channels as nat,
                            ),
                        ),
                    }
                } else {
                    PlayerModel {
                        phase: PlayerPhase::Done(AttemptOutcome::Failed(PlayerError::Format)),
                        ..self
                    }
                },
                DecodeEvent::Failed(error) => if error.is_fatal() {
                    PlayerModel { phase: PlayerPhase::Done(AttemptOutcome::Failed(error)), ..self }
                } else {
                    self
                },
                DecodeEvent::EndOfStream => PlayerModel {
                    phase: PlayerPhase::Done(AttemptOutcome::Completed),
                    ..self
                },
            }
        }
    }

    /// What the worker does with the decoder's answer.
    pub open spec fn action_on_decode(self, event: DecodeEvent) -> PlayerAction {
        if self.is_done() {
            PlayerAction::Exit
        } else if self.phase is Held {
            PlayerAction::Skip
        } else {
            match event {
                DecodeEvent::Unit { format, samples } => if self.adopted(format).is_playable() {
                    PlayerAction::Append(self.adopted(format))
                } else {
                    PlayerAction::Abort(PlayerError::Format)
                },
                DecodeEvent::Failed(error) => if error.is_fatal() {
                    PlayerAction::Abort(error)
                } else {
                    PlayerAction::Skip
                },
                DecodeEvent::EndOfStream => PlayerAction::Drain,
            }
        }
    }

    /// The state after the decoder was asked for one unit after the other and
    /// gave `events`, with the control neither stopped nor paused.
    pub open spec fn fed(self, events: Seq<DecodeEvent>) -> Self
        decreases events.len(),
    {
        if events.len() == 0 {
            self
        } else {
            self.fed(events.drop_last()).after_control(false, false).after_decode(events.last())
        }
    }

    /// The progress hint for the control, in milliseconds.
    pub open spec fn position_ms(self) -> nat {
        match self.format {
            Some(format) => capped(millis_of(self.frames, format.sample_rate as nat)),
            None => 0,
        }
    }

    /// What the worker does to the control once it has carried out `action`:
    /// it notes the position after a unit went to the sink, and signals stop
    /// after the sink has played out the stream. It writes nothing else.
    pub open spec fn signal_after(self, action: PlayerAction) -> Option<ControlOp> {
        match action {
            PlayerAction::Append(_) => Some(ControlOp::SetPosition(self.position_ms() as u64)),
            PlayerAction::Drain => Some(ControlOp::Stop),
            _ => None,
        }
    }
}

/// Adds two counts, stopping at the largest `u64`.
pub fn add_capped(a: u64, b: u64) -> (sum: u64)
    ensures
        sum == capped((a + b) as nat),
{
    if u64::MAX - a < b {
        u64::MAX
    } else {
        a + b
    }
}

/// The play time of `frames` sample frames at `sample_rate`, in milliseconds,
/// rounded down and capped.
pub fn millis_played(frames: u64, sample_rate: u32) -> (ms: u64)
    ensures
        ms == capped(millis_of(frames as nat, sample_rate as nat)),
{
    if sample_rate == 0 {
        0
    } else {
        let scaled: u128 = (frames as u128) * 1000;
        let ms: u128 = scaled / (sample_rate as u128);
        if ms > u64::MAX as u128 {
            u64::MAX
        } else {
            ms as u64
        }
    }
}

/// One playback attempt's decode-and-feed loop, as a state machine.
pub struct StreamingPlayer {
    phase: PlayerPhase,
    format: Option<AudioFormat>,
    frames: u64,
}

impl View for StreamingPlayer {
    type V = PlayerModel;

    closed spec fn view(&self) -> PlayerModel {
        PlayerModel { phase: self.phase, format: self.format, frames: self.frames as nat }
    }
}

impl StreamingPlayer {
    pub fn new() -> (player: Self)
        ensures
            player@ == PlayerModel::fresh(),
    {
        StreamingPlayer { phase: PlayerPhase::Feeding, format: None, frames: 0 }
    }

    pub fn phase(&self) -> (phase: PlayerPhase)
        ensures
            phase == self@.phase,
    {
        self.phase
    }

    pub fn format(&self) -> (format: Option<AudioFormat>)
        ensures
            format == self@.format,
    {
        self.format
    }

    /// The outcome, once the attempt is over.
    pub fn outcome(&self) -> (outcome: Option<AttemptOutcome>)
        ensures
            outcome == match self@.phase {
                PlayerPhase::Done(o) => Some(o),
                _ => None,
            },
    {
        match self.phase {
            PlayerPhase::Done(o) => Some(o),
            _ => None,
        }
    }

    /// The progress hint to write to the control: the play time of what went
    /// to the sink so far.
    pub fn position_ms(&self) -> (ms: u64)
        ensures
            ms == self@.position_ms(),
    {
        match self.format {
            Some(format) => millis_played(self.frames, format.sample_rate),
            None => 0,
        }
    }

    /// What to do to the control once `action` is carried out.
    pub fn signal_after(&self, action: PlayerAction) -> (op: Option<ControlOp>)
        ensures
            op == self@.signal_after(action),
    {
        match action {
            PlayerAction::Append(_) => Some(ControlOp::SetPosition(self.position_ms())),
            PlayerAction::Drain => Some(ControlOp::Stop),
            _ => None,
        }
    }

    /// Takes the control flags as they were just read and says what to do.
    pub fn on_control(&mut self, stopped: bool, paused: bool) -> (action: PlayerAction)
        ensures
            final(self)@ == old(self)@.after_control(stopped, paused),
            action == old(self)@.action_on_control(stopped, paused),
    {
        match self.phase {
            PlayerPhase::Done(_) => PlayerAction::Exit,
            PlayerPhase::Held => {
                if stopped {
                    self.phase = PlayerPhase::Done(AttemptOutcome::Stopped);
                    PlayerAction::Halt
                } else if paused {
                    PlayerAction::Wait
                } else {
                    self.phase = PlayerPhase::Feeding;
                    PlayerAction::Decode
                }
            },
            PlayerPhase::Feeding => {
                if stopped {
                    self.phase = PlayerPhase::Done(AttemptOutcome::Stopped);
                    PlayerAction::Halt
                } else if paused {
                    self.phase = PlayerPhase::Held;
                    PlayerAction::ClearAndWait
                } else {
                    PlayerAction::Decode
                }
            },
        }
    }

    /// Takes what the decoder gave and says what to do with it.
    pub fn on_decode(&mut self, event: DecodeEvent) -> (action: PlayerAction)
        ensures
            final(self)@ == old(self)@.after_decode(event),
            action == old(self)@.action_on_decode(event),
    {
        match self.phase {
            PlayerPhase::Done(_) => PlayerAction::Exit,
            PlayerPhase::Held => PlayerAction::Skip,
            PlayerPhase::Feeding => {
                match event {
                    DecodeEvent::Unit { format, samples } => {
                        let adopted = match self.format {
                            Some(first) => first,
                            None => format,
                        };
                        if adopted.playable() {
                            let frames: usize = samples / (adopted.channels as usize);
                            self.format = Some(adopted);
                            self.frames = add_capped(self.frames, frames as u64);
                            PlayerAction::Append(adopted)
                        } else {
                            self.phase = PlayerPhase::Done(
                                AttemptOutcome::Failed(PlayerError::Format),
                            );
                            PlayerAction::Abort(PlayerError::Format)
                        }
                    },
                    DecodeEvent::Failed(error) => {
                        if error.aborts_attempt() {
                            self.phase = PlayerPhase::Done(AttemptOutcome::Failed(error));
                            PlayerAction::Abort(error)
                        } else {
                            PlayerAction::Skip
                        }
                    },
                    DecodeEvent::EndOfStream => {
                        self.phase = PlayerPhase::Done(AttemptOutcome::Completed);
                        PlayerAction::Drain
                    },
                }
            },
        }
    }
}

/// The samples in one slice of a decoded buffer: those of a twentieth of a
/// second, over all channels.
pub open spec fn slice_len(format: AudioFormat) -> nat {
    ((format.sample_rate as nat) / (SLICES_PER_SECOND as nat)) * (format.channels as nat)
}

pub fn slice_samples(format: AudioFormat) -> (n: u64)
    ensures
        n == slice_len(format),
{
    let per_channel: u64 = (format.sample_rate / SLICES_PER_SECOND) as u64;
    assert(per_channel * (format.channels as u64) <= 0xffff_ffff * 0xffff) by (nonlinear_arith)
        requires
            per_channel <= 0xffff_ffff,
            (format.channels as u64) <= 0xffff,
    ;
    per_channel * (format.channels as u64)
}

/// What the worker that feeds a decoded buffer does next.
#[derive(Clone, Copy, Debug, PartialEq, Eq, Structural)]
pub enum FeedAction {
    /// Empty the sink, unplayed audio included, and leave the loop.
    Halt,
    /// Empty the sink, unplayed audio included, then sleep `PAUSE_POLL_MS`.
    ClearAndWait,
    /// Sleep `PAUSE_POLL_MS`.
    Wait,
    /// Hand the samples from `start` up to `end` to the sink, note the
    /// position on the control, then sleep `SLICE_THROTTLE_MS`.
    Append { start: usize, end: usize },
    /// Let the sink play what it holds, signal stop on the control and leave
    /// the loop.
    Drain,
    /// The attempt is over: there is nothing to do.
    Exit,
}

/// The state of a feeder as contracts see it.
pub struct FeederModel {
    /// The format of the samples.
    pub format: AudioFormat,
    /// The samples in the buffer.
    pub total: nat,
    /// The samples in one slice.
    pub slice: nat,
    /// The samples handed to the sink so far.
    pub position: nat,
    /// Whether the last look at the control found it paused.
    pub held: bool,
    /// How the attempt ended, once it has.
    pub outcome: Option<AttemptOutcome>,
}

impl FeederModel {
    pub open spec fn fresh(total: nat, format: AudioFormat) -> Self {
        FeederModel {
            format,
            total,
            slice: slice_len(format),
            position: 0,
            held: false,
            outcome: None,
        }
    }

    /// What was handed over lies inside the buffer, and a slice is that of
    /// the format and holds at least one sample.
    pub open spec fn wf(self) -> bool {
        self.position <= self.total && self.slice == slice_len(self.format) && self.slice > 0
    }

    /// The progress hint for the control, in milliseconds: the play time of
    /// the samples handed over.
    pub open spec fn position_ms(self) -> nat {
        capped(
            millis_of(
                frames_in(self.position, self.format.channels as nat),
                self.format.sample_rate as nat,
            ),
        )
    }

    /// What the worker does to the control once it has carried out `action`:
    /// it notes the position after a slice went to the sink, and signals stop
    /// after the sink has played out the buffer. It writes nothing else.
    pub open spec fn signal_after(self, action: FeedAction) -> Option<ControlOp> {
        match action {
            FeedAction::Append { start, end } => Some(
                ControlOp::SetPosition(self.position_ms() as u64),
            ),
            FeedAction::Drain => Some(ControlOp::Stop),
            _ => None,
        }
    }

    /// Where the next slice ends.
    pub open spec fn slice_end(self) -> nat {
        if self.position + self.slice >= self.total {
            self.total
        } else {
            self.position + self.slice
        }
    }

    /// The state after the control flags were read. A buffer that is used up
    /// ends the attempt whatever the flags say; a stop signal goes before a
    /// pause; a running feeder moves on by one slice.
    pub open spec fn after_control(self, stopped: bool, paused: bool) -> Self {
        if self.outcome is Some {
            self
        } else if self.position >= self.total {
            FeederModel { outcome: Some(AttemptOutcome::Completed), ..self }
        } else if stopped {
            FeederModel { outcome: Some(AttemptOutcome::Stopped), ..self }
        } else if paused {
            FeederModel { held: true, ..self }
        } else {
            FeederModel { held: false, position: self.slice_end(), ..self }
        }
    }

    /// What the worker does once the control flags were read.
    pub open spec fn action_on_control(self, stopped: bool, paused: bool) -> FeedAction {
        if self.outcome is Some {
            FeedAction::Exit
        } else if self.position >= self.total {
            FeedAction::Drain
        } else if stopped {
            FeedAction::Halt
        } else if paused {
            if self.held {
                FeedAction::Wait
            } else {
                FeedAction::ClearAndWait
            }
        } else {
            FeedAction::Append { start: self.position as usize, end: self.slice_end() as usize }
        }
    }

    /// The state after `steps` looks at a control that is neither stopped nor
    /// paused.
    pub open spec fn run(self, steps: nat) -> Self
        decreases steps,
    {
        if steps == 0 {
            self
        } else {
            self.after_control(false, false).run((steps - 1) as nat)
        }
    }
}

/// Feeds a buffer of decoded samples to the sink slice by slice.
pub struct SliceFeeder {
    format: AudioFormat,
    total: usize,
    slice: u64,
    position: usize,
    held: bool,
    outcome: Option<AttemptOutcome>,
}

impl View for SliceFeeder {
    type V = FeederModel;

    closed spec fn view(&self) -> FeederModel {
        FeederModel {
            format: self.format,
            total: self.total as nat,
            slice: self.slice as nat,
            position: self.position as nat,
            held: self.held,
            outcome: self.outcome,
        }
    }
}

impl SliceFeeder {
    #[verifier::type_invariant]
    spec fn in_range(self) -> bool {
        self@.wf()
    }

    /// A feeder for `total` interleaved samples in `format`. A format whose
    /// slices would be empty, for want of a channel or with fewer than
    /// `SLICES_PER_SECOND` samples a second, is not supported.
    pub fn new(total: usize, format: AudioFormat) -> (made: Result<Self, PlayerError>)
        ensures
            match made {
                Ok(feeder) => slice_len(format) > 0 && feeder@ == FeederModel::fresh(
                    total as nat,
                    format,
                ),
                Err(error) => slice_len(format) == 0 && error == PlayerError::Format,
            },
    {
        let slice = slice_samples(format);
        if slice == 0 {
            Err(PlayerError::Format)
        } else {
            Ok(SliceFeeder { format, total, slice, position: 0, held: false, outcome: None })
        }
    }

    /// The samples handed to the sink so far.
    pub fn position(&self) -> (position: usize)
        ensures
            position == self@.position,
            self@.wf(),
    {
        proof {
            use_type_invariant(self);
        }
        self.position
    }

    /// The outcome, once the attempt is over.
    pub fn outcome(&self) -> (outcome: Option<AttemptOutcome>)
        ensures
            outcome == self@.outcome,
    {
        self.outcome
    }

    /// The progress hint to write to the control.
    pub fn position_ms(&self) -> (ms: u64)
        ensures
            ms == self@.position_ms(),
    {
        proof {
            use_type_invariant(self);
        }
        if self.format.channels == 0 {
            0
        } else {
            let frames = self.position / (self.format.channels as usize);
            millis_played(frames as u64, self.format.sample_rate)
        }
    }

    /// What to do to the control once `action` is carried out.
    pub fn signal_after(&self, action: FeedAction) -> (op: Option<ControlOp>)
        ensures
            op == self@.signal_after(action),
    {
        match action {
            FeedAction::Append { start, end } => Some(ControlOp::SetPosition(self.position_ms())),
            FeedAction::Drain => Some(ControlOp::Stop),
            _ => None,
        }
    }

    /// Takes the control flags as they were just read and says what to do.
    pub fn on_control(&mut self, stopped: bool, paused: bool) -> (action: FeedAction)
        ensures
            old(self)@.wf(),
            final(self)@ == old(self)@.after_control(stopped, paused),
            action == old(self)@.action_on_control(stopped, paused),
    {
        proof {
            use_type_invariant(&*self);
        }
        if self.outcome.is_some() {
            FeedAction::Exit
        } else if self.position >= self.total {
            self.outcome = Some(AttemptOutcome::Completed);
            FeedAction::Drain
        } else if stopped {
            self.outcome = Some(AttemptOutcome::Stopped);
            FeedAction::Halt
        } else if paused {
            if self.held {
                FeedAction::Wait
            } else {
                self.held = true;
                FeedAction::ClearAndWait
            }
        } else {
            let start = self.position;
            let left = self.total - self.position;
            let end = if (left as u64) <= self.slice {
                self.total
            } else {
                self.position + (self.slice as usize)
            };
            self.held = false;
            self.position = end;
            FeedAction::Append { start, end }
        }
    }
}

/// Every slice starts where the one before it ended, holds at least one
/// sample and at most one slice's samples, and stays inside the buffer.
pub proof fn lemma_slices_adjoin(feeder: FeederModel, stopped: bool, paused: bool)
    requires
        feeder.wf(),
        feeder.total <= usize::MAX,
    ensures
        feeder.after_control(stopped, paused).wf(),
        feeder.after_control(stopped, paused).position >= feeder.position,
        feeder.action_on_control(stopped, paused) matches FeedAction::Append { start, end } ==> {
            &&& start == feeder.position
            &&& end == feeder.after_control(stopped, paused).position
            &&& start < end <= feeder.total
            &&& end - start <= feeder.slice
        },
        !(feeder.action_on_control(stopped, paused) is Append) ==> feeder.after_control(
            stopped,
            paused,
        ).position == feeder.position,
{
}

/// A feeder that is left to run has handed over `steps` slices after `steps`
/// looks at the control, or the whole buffer if that is less; it ends at the
/// first look after the buffer is used up, as completed.
pub proof fn lemma_run_position(feeder: FeederModel, steps: nat)
    requires
        feeder.outcome is None,
        feeder.position <= feeder.total,
    ensures
        feeder.run(steps).total == feeder.total,
        feeder.run(steps).slice == feeder.slice,
        feeder.run(steps).format == feeder.format,
        feeder.run(steps).position == if feeder.position + steps * feeder.slice >= feeder.total {
            feeder.total
        } else {
            feeder.position + steps * feeder.slice
        },
        feeder.run(steps).outcome is Some ==> feeder.run(steps).outcome == Some(
            AttemptOutcome::Completed,
        ) && feeder.run(steps).position == feeder.total,
    decreases steps,
{
    if steps > 0 {
        let next = feeder.after_control(false, false);
        assert(steps * feeder.slice == feeder.slice + (steps - 1) * feeder.slice)
            by (nonlinear_arith);
        assert((steps - 1) * feeder.slice >= 0) by (nonlinear_arith)
            requires
                steps >= 1,
                feeder.slice >= 0,
        ;
        if next.outcome is None {
            lemma_run_position(next, (steps - 1) as nat);
        } else {
            lemma_run_done(next, (steps - 1) as nat);
        }
    }
}

/// A feeder whose attempt is over does not change any more.
pub proof fn lemma_run_done(feeder: FeederModel, steps: nat)
    requires
        feeder.outcome is Some,
    ensures
        feeder.run(steps) == feeder,
    decreases steps,
{
    if steps > 0 {
        lemma_run_done(feeder, (steps - 1) as nat);
    }
}

/// Once the attempt is over the player only says so, whatever it is told.
pub proof fn lemma_done_is_final(
    player: PlayerModel,
    stopped: bool,
    paused: bool,
    event: DecodeEvent,
)
    requires
        player.is_done(),
    ensures
        player.after_control(stopped, paused) == player,
        player.action_on_control(stopped, paused) == PlayerAction::Exit,
        player.after_decode(event) == player,
        player.action_on_decode(event) == PlayerAction::Exit,
{
}

/// A stop signal ends a running attempt at the next look at the control,
/// paused or not, and nothing is decoded while the control is paused.
pub proof fn lemma_stop_and_pause(player: PlayerModel, paused: bool)
    requires
        !player.is_done(),
    ensures
        player.after_control(true, paused).phase == PlayerPhase::Done(AttemptOutcome::Stopped),
        player.action_on_control(true, paused) == PlayerAction::Halt,
        player.after_control(false, true).phase == PlayerPhase::Held,
        player.action_on_control(false, true) != PlayerAction::Decode,
        player.after_control(false, true).frames == player.frames,
{
}

/// The count of frames that went to the sink never falls, and only a unit
/// that is handed to the sink raises it.
pub proof fn lemma_frames_only_grow(
    player: PlayerModel,
    stopped: bool,
    paused: bool,
    event: DecodeEvent,
)
    requires
        player.frames <= u64::MAX,
    ensures
        player.after_control(stopped, paused).frames == player.frames,
        player.after_decode(event).frames >= player.frames,
        player.after_decode(event).frames <= u64::MAX,
        !(player.action_on_decode(event) is Append) ==> player.after_decode(event).frames
            == player.frames,
{
}

/// Whether the event leaves a running attempt running: a unit in a playable
/// format, or a unit that failed to decode.
pub open spec fn is_passing(event: DecodeEvent) -> bool {
    match event {
        DecodeEvent::Unit { format, samples } => format.is_playable(),
        DecodeEvent::Failed(error) => !error.is_fatal(),
        DecodeEvent::EndOfStream => false,
    }
}

/// The frames of the units among `events`, each counted in `channels`
/// channels.
pub open spec fn frames_among(events: Seq<DecodeEvent>, channels: nat) -> nat
    decreases events.len(),
{
    if events.len() == 0 {
        0
    } else {
        frames_among(events.drop_last(), channels) + match events.last() {
            DecodeEvent::Unit { format, samples } => frames_in(samples as nat, channels),
            _ => 0,
        }
    }
}

/// Units that fail to decode are left out and playback goes on: after any
/// run of units and failed units the player is still feeding, in the format
/// it had, and has counted the frames of the units and of nothing else.
pub proof fn lemma_failed_units_are_left_out(
    player: PlayerModel,
    first: AudioFormat,
    events: Seq<DecodeEvent>,
)
    requires
        !player.is_done(),
        player.format == Some(first),
        first.is_playable(),
        player.frames <= u64::MAX,
        forall|i: int| 0 <= i < events.len() ==> is_passing(#[trigger] events[i]),
    ensures
        events.len() > 0 ==> player.fed(events).phase is Feeding,
        player.fed(events).format == Some(first),
        player.fed(events).frames == capped(
            player.frames + frames_among(events, first.channels as nat),
        ),
    decreases events.len(),
{
    if events.len() > 0 {
        let earlier = events.drop_last();
        assert forall|i: int| 0 <= i < earlier.len() implies is_passing(#[trigger] earlier[i]) by {
            assert(earlier[i] == events[i]);
        }
        lemma_failed_units_are_left_out(player, first, earlier);
        assert(is_passing(events[events.len() - 1]));
    }
}

/// What goes to the sink is in a format that a sink can play, and in the
/// same format from the first unit on.
pub proof fn lemma_append_is_playable(player: PlayerModel, event: DecodeEvent)
    ensures
        player.action_on_decode(event) matches PlayerAction::Append(format) ==> {
            &&& format.is_playable()
            &&& player.after_decode(event).format == Some(format)
            &&& (player.format matches Some(first) ==> format == first)
        },
{
}

/// An attempt ends as completed only at the end of the stream.
pub proof fn lemma_completed_at_end_of_stream(
    player: PlayerModel,
    stopped: bool,
    paused: bool,
    event: DecodeEvent,
)
    requires
        !player.is_done(),
    ensures
        player.after_control(stopped, paused).phase != PlayerPhase::Done(
            AttemptOutcome::Completed,
        ),
        player.after_decode(event).phase == PlayerPhase::Done(AttemptOutcome::Completed) <==> (
        player.phase is Feeding && event is EndOfStream),
{
}

} // verus!
