//! Pause, stop and position signalling between a session and its worker.

use std::sync::atomic::AtomicBool;
use std::sync::atomic::AtomicU64;
use std::sync::atomic::Ordering;
use std::sync::Arc;
use vstd::prelude::*;

verus! {

/// The flags of one playback attempt at one instant.
#[derive(Clone, Copy, Debug, PartialEq, Eq, Structural)]
pub struct ControlState {
    pub paused: bool,
    pub stopped: bool,
    pub position_ms: u64,
}

/// One atomic operation on the flags, by whichever party issues it.
#[derive(Clone, Copy, Debug, PartialEq, Eq, Structural)]
pub enum ControlOp {
    Pause,
    Resume,
    Stop,
    SetPosition(u64),
}

/// What one operation stores: for each flag the value it puts there, if it
/// puts one.
#[derive(Clone, Copy, Debug, PartialEq, Eq, Structural)]
pub struct FlagWrites {
    pub paused: Option<bool>,
    pub stopped: Option<bool>,
    pub position_ms: Option<u64>,
}

impl FlagWrites {
    /// The flags once these values are stored over `state`.
    pub open spec fn onto(self, state: ControlState) -> ControlState {
        ControlState {
            paused: match self.paused {
                Some(value) => value,
                None => state.paused,
            },
            stopped: match self.stopped {
                Some(value) => value,
                None => state.stopped,
            },
            position_ms: match self.position_ms {
                Some(value) => value,
                None => state.position_ms,
            },
        }
    }

    /// How many flags are stored to.
    pub open spec fn count(self) -> nat {
        (if self.paused is Some {
            1nat
        } else {
            0nat
        }) + (if self.stopped is Some {
            1nat
        } else {
            0nat
        }) + (if self.position_ms is Some {
            1nat
        } else {
            0nat
        })
    }
}

impl ControlOp {
    /// What the operation stores. It is a single value, so that the operation
    /// is one atomic step; storing it leads from any flags to the flags after
    /// the operation; and it is never a cleared stop flag.
    pub fn writes(self) -> (writes: FlagWrites)
        ensures
            forall|state: ControlState| #[trigger] writes.onto(state) == state.after(self),
            writes.count() == 1,
            writes.stopped != Some(false),
    {
        let nothing = FlagWrites { paused: None, stopped: None, position_ms: None };
        match self {
            ControlOp::Pause => FlagWrites { paused: Some(true), ..nothing },
            ControlOp::Resume => FlagWrites { paused: Some(false), ..nothing },
            ControlOp::Stop => FlagWrites { stopped: Some(true), ..nothing },
            ControlOp::SetPosition(ms) => FlagWrites { position_ms: Some(ms), ..nothing },
        }
    }
}

impl ControlState {
    /// The flags of a control that was just made.
    pub open spec fn initial() -> Self {
        ControlState { paused: false, stopped: false, position_ms: 0 }
    }

    /// The flags after one operation. Nothing clears `stopped`.
    pub open spec fn after(self, op: ControlOp) -> Self {
        match op {
            ControlOp::Pause => ControlState { paused: true, ..self },
            ControlOp::Resume => ControlState { paused: false, ..self },
            ControlOp::Stop => ControlState { stopped: true, ..self },
            ControlOp::SetPosition(ms) => ControlState { position_ms: ms, ..self },
        }
    }

    /// The flags after a history of operations, oldest first.
    pub open spec fn after_all(self, ops: Seq<ControlOp>) -> Self
        decreases ops.len(),
    {
        if ops.len() == 0 {
            self
        } else {
            self.after(ops[0]).after_all(ops.skip(1))
        }
    }

    pub fn new() -> (s: Self)
        ensures
            s == Self::initial(),
            !s.paused,
            !s.stopped,
            s.position_ms == 0,
    {
        ControlState { paused: false, stopped: false, position_ms: 0 }
    }

    /// The flags after `op`.
    pub fn apply(self, op: ControlOp) -> (r: Self)
        ensures
            r == self.after(op),
    {
        match op {
            ControlOp::Pause => ControlState { paused: true, ..self },
            ControlOp::Resume => ControlState { paused: false, ..self },
            ControlOp::Stop => ControlState { stopped: true, ..self },
            ControlOp::SetPosition(ms) => ControlState { position_ms: ms, ..self },
        }
    }
}

/// A pause that is followed by a resume leaves the control unpaused, and a
/// second pause changes nothing.
pub proof fn lemma_pause_and_resume(state: ControlState)
    ensures
        state.after(ControlOp::Pause).paused,
        !state.after(ControlOp::Pause).after(ControlOp::Resume).paused,
        state.after(ControlOp::Pause).after(ControlOp::Pause) == state.after(ControlOp::Pause),
{
}

/// A second stop changes nothing.
pub proof fn lemma_stop_idempotent(state: ControlState)
    ensures
        state.after(ControlOp::Stop).stopped,
        state.after(ControlOp::Stop).after(ControlOp::Stop) == state.after(ControlOp::Stop),
{
}

/// A control that is stopped stays stopped, whatever is done to it and by
/// whom.
pub proof fn lemma_stop_permanent(state: ControlState, ops: Seq<ControlOp>)
    requires
        state.stopped,
    ensures
        state.after_all(ops).stopped,
    decreases ops.len(),
{
    if ops.len() > 0 {
        lemma_stop_permanent(state.after(ops[0]), ops.skip(1));
    }
}

/// Pausing and resuming never touch the stop flag or the position.
pub proof fn lemma_pause_keeps_rest(state: ControlState)
    ensures
        state.after(ControlOp::Pause).stopped == state.stopped,
        state.after(ControlOp::Resume).stopped == state.stopped,
        state.after(ControlOp::Pause).position_ms == state.position_ms,
        state.after(ControlOp::Resume).position_ms == state.position_ms,
{
}

/// A handle on the flags of one playback attempt. Clones share the flags:
/// the session keeps one and the worker another.
///
/// Each method is one atomic read or write, so that several parties may call
/// at once. What a read returns is what the last write of any party left, and
/// no contract can say what that is. What is written is decided here: a new
/// control starts from `ControlState::new()`, and an operation stores
/// `ControlOp::writes` and nothing else.
#[derive(Clone)]
pub struct PlaybackControl {
    paused: Arc<AtomicBool>,
    stopped: Arc<AtomicBool>,
    position_ms: Arc<AtomicU64>,
}

impl PlaybackControl {
    /// A control of its own, neither paused nor stopped, at position 0.
    pub fn new() -> (control: Self) {
        let initial = ControlState::new();
        PlaybackControl {
            paused: Arc::new(AtomicBool::new(initial.paused)),
            stopped: Arc::new(AtomicBool::new(initial.stopped)),
            position_ms: Arc::new(AtomicU64::new(initial.position_ms)),
        }
    }

    /// Carries out `op` by storing what it writes.
    pub fn apply(&self, op: ControlOp) {
        let writes = op.writes();
        match writes.paused {
            Some(value) => self.paused.store(value, Ordering::SeqCst),
            None => {},
        }
        match writes.stopped {
            Some(value) => {
                // The stop flag is only ever set, here and everywhere.
                assert(value);
                self.stopped.store(value, Ordering::SeqCst)
            },
            None => {},
        }
        match writes.position_ms {
            Some(value) => self.position_ms.store(value, Ordering::SeqCst),
            None => {},
        }
    }

    pub fn pause(&self) {
        self.apply(ControlOp::Pause)
    }

    pub fn resume(&self) {
        self.apply(ControlOp::Resume)
    }

    pub fn is_paused(&self) -> (paused: bool) {
        self.paused.load(Ordering::SeqCst)
    }

    /// Signals stop. No method takes the signal back.
    pub fn stop(&self) {
        self.apply(ControlOp::Stop)
    }

    pub fn is_stopped(&self) -> (stopped: bool) {
        self.stopped.load(Ordering::SeqCst)
    }

    /// Notes how far playback has come, in milliseconds.
    pub fn set_position(&self, ms: u64) {
        self.apply(ControlOp::SetPosition(ms))
    }

    pub fn get_position(&self) -> (ms: u64) {
        self.position_ms.load(Ordering::SeqCst)
    }

    /// The three flags, read one after the other.
    pub fn snapshot(&self) -> (state: ControlState) {
        ControlState {
            paused: self.is_paused(),
            stopped: self.is_stopped(),
            position_ms: self.get_position(),
        }
    }
}

impl Default for PlaybackControl {
    fn default() -> (control: Self) {
        PlaybackControl::new()
    }
}

} // verus!
