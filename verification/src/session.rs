//! The session: one playlist and at most one playback attempt.
//!
//! The session decides; it starts no worker itself. Where an attempt is to
//! start, it hands out a `Launch`, and the caller runs the worker with it.

use crate::error::PlayerError;
use crate::names::names_of;
use crate::playlist::entries_of;
use crate::playlist::is_listing_of;
use crate::playlist::place_after;
use crate::playlist::place_before;
use crate::playlist::DirEntry;
use crate::playlist::PlaylistManager;
use crate::playlist::PlaylistModel;
use crate::symphonia_control::PlaybackControl;
use crate::symphonia_play::AttemptOutcome;
use crate::track::path_of;
use crate::track::track_path;
use vstd::prelude::*;

verus! {

/// What the session is doing.
#[derive(Clone, Copy, Debug, PartialEq, Eq, Structural)]
pub enum SessionStatus {
    /// No attempt is under way.
    Idle,
    /// A track is being played.
    Playing,
    /// A track is being played and is held.
    Paused,
}

/// The session as contracts see it.
pub struct SessionModel {
    pub playlist: PlaylistModel,
    pub status: SessionStatus,
    /// The place of the track of the attempt under way.
    pub playing_index: Option<usize>,
}

impl SessionModel {
    pub open spec fn fresh() -> Self {
        SessionModel {
            playlist: PlaylistModel::empty(),
            status: SessionStatus::Idle,
            playing_index: None,
        }
    }

    /// An attempt is under way exactly when the session is not idle.
    pub open spec fn wf(self) -> bool {
        (self.status is Idle) == (self.playing_index is None)
    }

    /// The session with no attempt under way.
    pub open spec fn idle(self) -> Self {
        SessionModel { status: SessionStatus::Idle, playing_index: None, ..self }
    }

    /// The session after it was asked to play the track at `index`: a new
    /// attempt on that track, if there is such a track, and else no change.
    pub open spec fn started(self, index: usize) -> Self {
        if index < self.playlist.current.len() {
            SessionModel { status: SessionStatus::Playing, playing_index: Some(index), ..self }
        } else {
            self
        }
    }

    pub open spec fn paused(self) -> Self {
        if self.status is Playing {
            SessionModel { status: SessionStatus::Paused, ..self }
        } else {
            self
        }
    }

    pub open spec fn resumed(self) -> Self {
        if self.status is Paused {
            SessionModel { status: SessionStatus::Playing, ..self }
        } else {
            self
        }
    }

    /// The track that a skip leads to: the one after or before the track
    /// that is playing, going round. A session that is not playing skips
    /// nowhere.
    pub open spec fn skip_target(self, forward: bool) -> Option<usize> {
        match self.playing_index {
            Some(index) if self.status is Playing => if forward {
                place_after(self.playlist.current.len(), index as int)
            } else {
                place_before(self.playlist.current.len(), index as int)
            },
            _ => None,
        }
    }

    pub open spec fn skipped(self, forward: bool) -> Self {
        match self.skip_target(forward) {
            Some(index) => self.started(index),
            None => self,
        }
    }

    /// The track that comes next by itself once the attempt under way is
    /// found stopped: the one after it, if there is one.
    pub open spec fn advance_target(self, stopped: bool) -> Option<usize> {
        match self.playing_index {
            Some(index) if stopped && index + 1 < self.playlist.current.len() => Some(
                (index + 1) as usize,
            ),
            _ => None,
        }
    }

    /// The session after it has looked at the control of the attempt under
    /// way. If the control is stopped, the next track starts, or the session
    /// falls idle after the last one.
    pub open spec fn polled(self, stopped: bool) -> Self {
        if self.playing_index is None || !stopped {
            self
        } else {
            match self.advance_target(stopped) {
                Some(index) => self.started(index),
                None => self.idle(),
            }
        }
    }
}

impl SessionModel {
    /// The session after the worker of the attempt under way has said how
    /// the attempt ended. After a track that was played to its end the next
    /// one starts, or the session falls idle after the last one; after an
    /// attempt that was stopped or given up the session is idle.
    pub open spec fn ended(self, outcome: AttemptOutcome) -> Self {
        match outcome {
            AttemptOutcome::Completed => self.polled(true),
            _ => self.idle(),
        }
    }

    /// The track that starts once the attempt under way has ended.
    pub open spec fn follow_on(self, outcome: AttemptOutcome) -> Option<usize> {
        match outcome {
            AttemptOutcome::Completed => self.advance_target(true),
            _ => None,
        }
    }
}

/// When the attempt under way is found stopped and a track comes after its
/// track, that track is playing next; after the last track the session is
/// idle.
pub proof fn lemma_completion_advances(session: SessionModel, index: usize)
    requires
        session.playing_index == Some(index),
    ensures
        index + 1 < session.playlist.current.len() ==> session.polled(true) == (SessionModel {
            status: SessionStatus::Playing,
            playing_index: Some((index + 1) as usize),
            ..session
        }),
        index + 1 >= session.playlist.current.len() ==> session.polled(true) == session.idle(),
        session.polled(false) == session,
{
}

/// After a stop the session is idle and stays idle however often the control
/// is looked at: a stop that was asked for starts no track.
pub proof fn lemma_stop_starts_nothing(session: SessionModel, stopped: bool)
    ensures
        session.idle().status is Idle,
        session.idle().playing_index is None,
        session.idle().advance_target(stopped) is None,
        session.idle().polled(stopped) == session.idle(),
        session.idle().skip_target(true) is None,
        session.idle().skip_target(false) is None,
{
}

/// Every step leaves the session either idle or with an attempt under way,
/// and leaves the playlist alone.
pub proof fn lemma_steps_keep_wf(session: SessionModel, index: usize, forward: bool, stopped: bool)
    requires
        session.wf(),
    ensures
        session.started(index).wf(),
        session.paused().wf(),
        session.resumed().wf(),
        session.idle().wf(),
        session.skipped(forward).wf(),
        session.polled(stopped).wf(),
        forall|outcome: AttemptOutcome| (#[trigger] session.ended(outcome)).wf(),
        session.started(index).playlist == session.playlist,
        session.paused().playlist == session.playlist,
        session.resumed().playlist == session.playlist,
        session.idle().playlist == session.playlist,
        session.skipped(forward).playlist == session.playlist,
        session.polled(stopped).playlist == session.playlist,
{
}

/// What a worker needs to run one playback attempt.
pub struct Launch {
    /// The control of the attempt. The session keeps a clone of it.
    pub control: PlaybackControl,
    /// The place of the track in the playlist.
    pub index: usize,
    /// The file name of the track.
    pub track: String,
    /// The directory the file is in.
    pub directory: String,
}

impl Launch {
    /// The path under which the worker opens the track.
    pub fn path(&self) -> (path: String)
        ensures
            path@ == path_of(self.directory@, self.track@),
    {
        track_path(self.directory.as_str(), self.track.as_str())
    }

    /// Whether the launch is for the track at `index` of `playlist`.
    pub open spec fn is_for(self, playlist: PlaylistModel, index: usize) -> bool {
        &&& index < playlist.current.len()
        &&& self.index == index
        &&& self.track@ == playlist.current[index as int]
        &&& self.directory@ == playlist.directory
    }
}

/// Whether `launch` is what starting the track at `target` hands out, where
/// no target means that nothing is started.
pub open spec fn launches(launch: Option<Launch>, playlist: PlaylistModel, target: Option<usize>) -> bool {
    match launch {
        Some(launch) => target matches Some(index) && launch.is_for(playlist, index),
        None => match target {
            Some(index) => index >= playlist.current.len(),
            None => true,
        },
    }
}

struct Attempt {
    control: PlaybackControl,
    index: usize,
    paused: bool,
}

/// Binds one playlist to at most one playback attempt.
pub struct SessionCoordinator {
    playlist: PlaylistManager,
    active: Option<Attempt>,
}

impl View for SessionCoordinator {
    type V = SessionModel;

    closed spec fn view(&self) -> SessionModel {
        SessionModel {
            playlist: self.playlist@,
            status: match self.active {
                None => SessionStatus::Idle,
                Some(attempt) => if attempt.paused {
                    SessionStatus::Paused
                } else {
                    SessionStatus::Playing
                },
            },
            playing_index: match self.active {
                None => None,
                Some(attempt) => Some(attempt.index),
            },
        }
    }
}

impl SessionCoordinator {
    /// An idle session with an empty playlist.
    pub fn new() -> (session: Self)
        ensures
            session@ == SessionModel::fresh(),
    {
        SessionCoordinator { playlist: PlaylistManager::new(), active: None }
    }

    /// An idle session on `playlist`.
    pub fn with_playlist(playlist: PlaylistManager) -> (session: Self)
        ensures
            session@ == (SessionModel { playlist: playlist@, ..SessionModel::fresh() }),
    {
        SessionCoordinator { playlist, active: None }
    }

    /// Every session is either idle or has an attempt under way, not both.
    pub proof fn lemma_wf(&self)
        ensures
            self@.wf(),
    {
    }

    pub fn status(&self) -> (status: SessionStatus)
        ensures
            status == self@.status,
            self@.wf(),
    {
        match &self.active {
            None => SessionStatus::Idle,
            Some(attempt) => if attempt.paused {
                SessionStatus::Paused
            } else {
                SessionStatus::Playing
            },
        }
    }

    pub fn playing_index(&self) -> (index: Option<usize>)
        ensures
            index == self@.playing_index,
            self@.wf(),
    {
        match &self.active {
            None => None,
            Some(attempt) => Some(attempt.index),
        }
    }

    pub fn playlist(&self) -> (playlist: &PlaylistManager)
        ensures
            playlist@ == self@.playlist,
    {
        &self.playlist
    }

    /// The control of the attempt under way.
    pub fn control(&self) -> (control: Option<&PlaybackControl>)
        ensures
            control is Some == self@.playing_index is Some,
    {
        match &self.active {
            None => None,
            Some(attempt) => Some(&attempt.control),
        }
    }

    /// Loads the listing of `directory` into the playlist, as
    /// `PlaylistManager::load` does. The attempt under way goes on.
    pub fn load(&mut self, directory: &str, listing: Option<&Vec<DirEntry>>) -> (loaded: Result<
        Vec<String>,
        PlayerError,
    >)
        ensures
            final(self)@.status == old(self)@.status,
            final(self)@.playing_index == old(self)@.playing_index,
            final(self)@.playlist.wf(),
            match loaded {
                Ok(names) => {
                    &&& listing matches Some(entries)
                    &&& is_listing_of(names_of(names@), entries_of(entries@))
                    &&& final(self)@.playlist == PlaylistModel::loaded(directory@, names_of(names@))
                },
                Err(error) => {
                    &&& listing is None
                    &&& error == PlayerError::Io
                    &&& final(self)@.playlist == old(self)@.playlist
                },
            },
    {
        self.playlist.load(directory, listing)
    }

    /// Shuffles the playlist. The attempt under way goes on.
    pub fn shuffle(&mut self)
        ensures
            final(self)@.status == old(self)@.status,
            final(self)@.playing_index == old(self)@.playing_index,
            final(self)@.playlist.wf(),
            final(self)@.playlist.is_shuffle_of(old(self)@.playlist),
    {
        self.playlist.shuffle()
    }

    /// Puts the playlist back into the order of the last load. The attempt
    /// under way goes on.
    pub fn restore_original(&mut self)
        ensures
            final(self)@ == (SessionModel {
                playlist: old(self)@.playlist.restored(),
                ..old(self)@
            }),
    {
        self.playlist.restore_original()
    }

    /// Empties the playlist. The attempt under way goes on.
    pub fn clear(&mut self)
        ensures
            final(self)@ == (SessionModel { playlist: old(self)@.playlist.cleared(), ..old(self)@ }),
    {
        self.playlist.clear()
    }

    /// Selects the track at `index` of the playlist, if there is one.
    pub fn select(&mut self, index: usize) -> (selected: bool)
        ensures
            selected == (index < old(self)@.playlist.current.len()),
            final(self)@ == (SessionModel {
                playlist: old(self)@.playlist.with_selected(index),
                ..old(self)@
            }),
    {
        self.playlist.select(index)
    }

    /// Starts an attempt on the track at `index`: signals stop to the attempt
    /// under way, if there is one, and hands out the launch of the new one,
    /// with a control of its own. Where the playlist has no such track,
    /// nothing changes and nothing is handed out.
    pub fn play(&mut self, index: usize) -> (launch: Option<Launch>)
        ensures
            final(self)@ == old(self)@.started(index),
            launches(launch, old(self)@.playlist, Some(index)),
    {
        let track = match self.playlist.track(index) {
            None => {
                return None;
            },
            Some(name) => name.clone(),
        };
        match &self.active {
            Some(attempt) => attempt.control.stop(),
            None => {},
        }
        let control = PlaybackControl::new();
        self.active = Some(Attempt { control: control.clone(), index, paused: false });
        Some(Launch { control, index, track, directory: self.playlist.directory().clone() })
    }

    /// Holds the track that is playing.
    pub fn pause(&mut self)
        ensures
            final(self)@ == old(self)@.paused(),
    {
        match &mut self.active {
            Some(attempt) => {
                if !attempt.paused {
                    attempt.control.pause();
                    attempt.paused = true;
                }
            },
            None => {},
        }
    }

    /// Lets the track that is held play on.
    pub fn resume(&mut self)
        ensures
            final(self)@ == old(self)@.resumed(),
    {
        match &mut self.active {
            Some(attempt) => {
                if attempt.paused {
                    attempt.control.resume();
                    attempt.paused = false;
                }
            },
            None => {},
        }
    }

    /// Holds the track if it is playing, lets it play on if it is held.
    pub fn toggle_pause(&mut self)
        ensures
            final(self)@ == if old(self)@.status is Paused {
                old(self)@.resumed()
            } else {
                old(self)@.paused()
            },
    {
        match self.status() {
            SessionStatus::Paused => self.resume(),
            _ => self.pause(),
        }
    }

    /// Signals stop to the attempt under way and falls idle.
    pub fn stop(&mut self)
        ensures
            final(self)@ == old(self)@.idle(),
    {
        match &self.active {
            Some(attempt) => attempt.control.stop(),
            None => {},
        }
        self.active = None;
    }

    /// Falls idle after the attempt under way has failed. No other track is
    /// started.
    pub fn attempt_failed(&mut self)
        ensures
            final(self)@ == old(self)@.idle(),
    {
        self.stop()
    }

    /// Goes on to the track after the one that is playing, going round.
    pub fn skip_next(&mut self) -> (launch: Option<Launch>)
        ensures
            final(self)@ == old(self)@.skipped(true),
            launches(launch, old(self)@.playlist, old(self)@.skip_target(true)),
    {
        self.skip(true)
    }

    /// Goes back to the track before the one that is playing, going round.
    pub fn skip_previous(&mut self) -> (launch: Option<Launch>)
        ensures
            final(self)@ == old(self)@.skipped(false),
            launches(launch, old(self)@.playlist, old(self)@.skip_target(false)),
    {
        self.skip(false)
    }

    fn skip(&mut self, forward: bool) -> (launch: Option<Launch>)
        ensures
            final(self)@ == old(self)@.skipped(forward),
            launches(launch, old(self)@.playlist, old(self)@.skip_target(forward)),
    {
        let target = match &self.active {
            Some(attempt) => {
                if attempt.paused {
                    None
                } else if forward {
                    self.playlist.next(attempt.index)
                } else {
                    self.playlist.previous(attempt.index)
                }
            },
            None => None,
        };
        match target {
            Some(index) => self.play(index),
            None => None,
        }
    }

    /// Takes what a look at the control of the attempt under way gave. If the
    /// control is stopped, the attempt is over by itself, since a stop that
    /// the session signals leaves no attempt under way: the next track is
    /// started, or the session falls idle after the last one.
    pub fn on_poll(&mut self, stopped: bool) -> (launch: Option<Launch>)
        ensures
            final(self)@ == old(self)@.polled(stopped),
            launches(launch, old(self)@.playlist, old(self)@.advance_target(stopped)),
    {
        let index = match &self.active {
            Some(attempt) => attempt.index,
            None => {
                return None;
            },
        };
        if !stopped {
            return None;
        }
        let len = self.playlist.len();
        if index < usize::MAX && index + 1 < len {
            self.play(index + 1)
        } else {
            self.active = None;
            None
        }
    }

    /// Takes the word of the worker of the attempt under way on how the
    /// attempt ended: goes on to the next track after one that was played to
    /// its end, and falls idle otherwise.
    pub fn on_outcome(&mut self, outcome: AttemptOutcome) -> (launch: Option<Launch>)
        ensures
            final(self)@ == old(self)@.ended(outcome),
            launches(launch, old(self)@.playlist, old(self)@.follow_on(outcome)),
    {
        match outcome {
            AttemptOutcome::Completed => self.on_poll(true),
            _ => {
                self.stop();
                None
            },
        }
    }

    /// Moves the playlist's selection on or back by one track.
    pub fn move_selection(&mut self, forward: bool)
        ensures
            final(self)@ == (SessionModel {
                playlist: old(self)@.playlist.with_selection_moved(forward),
                ..old(self)@
            }),
    {
        if forward {
            self.playlist.select_next()
        } else {
            self.playlist.select_previous()
        }
    }

    /// Looks at the control of the attempt under way and goes on as
    /// `on_poll` says for what it found.
    pub fn tick(&mut self) -> (launch: Option<Launch>)
        ensures
            exists|stopped: bool|
                {
                    &&& final(self)@ == old(self)@.polled(stopped)
                    &&& launches(
                        launch,
                        old(self)@.playlist,
                        #[trigger] old(self)@.advance_target(stopped),
                    )
                },
    {
        let stopped = match &self.active {
            Some(attempt) => attempt.control.is_stopped(),
            None => false,
        };
        self.on_poll(stopped)
    }
}

} // verus!
