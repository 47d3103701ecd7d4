//! One interactive playback session: the state the command loop owns and
//! the decisions the player makes.
//!
//! The session holds everything the player decides with — whether a `play`
//! has been issued yet, the playlist and the cursor of the track-advancement
//! logic, and the mirror of the live queue's volume and pause flag. The
//! loop parses a line, observes whether the shared queue is empty, and calls
//! [`Session::dispatch`]; the returned [`Action`] tells it what to carry
//! out (prompt for a path, print a notice, pause the queue, ...). Commands
//! that need a second input finish through [`Session::start_play`],
//! [`Session::add_song`] or [`Session::delete_song`] once the loop has read
//! it. Between commands the loop reports the queue's emptiness to
//! [`Session::advance`], which moves the cursor along the playlist.
//!
//! The queue itself — decoded audio drained by a background task — stays
//! outside: the session only ever sees it as the `sink_empty` observation,
//! and admission of a new `play` hinges on that one bit.

use crate::commands::Command;
use crate::playlist::{add_to_playlist, remove_from_playlist};
use crate::volume::{vol_down_spec, vol_up_spec, Volume, VOLUME_MAX};
use vstd::prelude::*;

verus! {

/// What the command loop must carry out after one dispatched command.
#[derive(Clone, Copy, Debug, PartialEq, Eq, Structural)]
pub enum Action {
    /// Prompt for a song path, then hand it to [`Session::start_play`].
    PromptForPlayPath,
    /// Print the busy notice: a player is already active, nothing changes.
    RejectBusyPlayer,
    /// Prompt for a song path, then hand it to [`Session::add_song`].
    PromptForAddPath,
    /// Print the guidance notice: `add` comes only after a first `play`.
    RejectAddBeforePlay,
    /// List the playlist, prompt for an index, then hand it to
    /// [`Session::delete_song`].
    PromptForDeleteIndex,
    /// Pause the live queue.
    PauseQueue,
    /// Resume the live queue.
    ResumeQueue,
    /// Apply the raised volume to the live queue and print the new
    /// percentage.
    VolumeIncreased,
    /// Apply the lowered volume to the live queue and print the new
    /// percentage.
    VolumeDecreased,
    /// The volume was already at its bound: change nothing, print nothing.
    VolumeUnchanged,
    /// Clear the terminal.
    ClearTerminal,
    /// Print the help message.
    PrintHelp,
    /// Print the playlist.
    ListPlaylist,
    /// Leave the command loop.
    ExitLoop,
    /// Print the invalid-command notice.
    InvalidCommand,
}

/// The mathematical state of a session: what every contract here speaks of.
pub struct SessionView {
    /// Whether a `play` has been issued in this session.
    pub hit_play: bool,
    /// The song paths queued for future playback, in insertion order.
    pub playlist: Seq<Seq<char>>,
    /// The track-advancement cursor into the playlist.
    pub position: int,
    /// The queue's volume, in thousandths of full scale.
    pub volume: int,
    /// The queue's pause flag.
    pub paused: bool,
}

/// The state one interactive session owns.
pub struct Session {
    /// Whether a `play` has been issued in this session. `add` is rejected
    /// until one has been.
    pub hit_play: bool,
    /// The playlist: song paths queued for future playback.
    pub playlist: Vec<String>,
    /// The track-advancement cursor. It starts at the head and only ever
    /// moves toward the tail, so the first song is never replayed.
    pub position: usize,
    /// The player's mirror of the live queue's volume: the queue's level is
    /// only ever what the player last set.
    pub volume: Volume,
    /// The player's mirror of the live queue's pause flag.
    pub paused: bool,
}

impl View for Session {
    type V = SessionView;

    open spec fn view(&self) -> SessionView {
        SessionView {
            hit_play: self.hit_play,
            playlist: self.playlist.deep_view(),
            position: self.position as int,
            volume: self.volume@,
            paused: self.paused,
        }
    }
}

/// The state and action one command leads to.
///
/// `play` is admitted only while the queue is empty — at most one player is
/// active at a time — and `add` only once a `play` has been issued; a
/// rejected command changes nothing. Pause, resume and the volume commands
/// update the session's mirror of the queue; the rest only ask the loop to
/// print or prompt.
pub open spec fn dispatch_spec(s: SessionView, cmd: Command, sink_empty: bool) -> (SessionView,
    Action,
) {
    match cmd {
        Command::Play => if sink_empty {
            (s, Action::PromptForPlayPath)
        } else {
            (s, Action::RejectBusyPlayer)
        },
        Command::Add => if s.hit_play {
            (s, Action::PromptForAddPath)
        } else {
            (s, Action::RejectAddBeforePlay)
        },
        Command::Delete => (s, Action::PromptForDeleteIndex),
        Command::Pause => ((SessionView { paused: true, ..s }), Action::PauseQueue),
        Command::Resume => ((SessionView { paused: false, ..s }), Action::ResumeQueue),
        Command::VolumeUp => (
            (SessionView { volume: vol_up_spec(s.volume), ..s }),
            if s.volume < VOLUME_MAX {
                Action::VolumeIncreased
            } else {
                Action::VolumeUnchanged
            },
        ),
        Command::VolumeDown => (
            (SessionView { volume: vol_down_spec(s.volume), ..s }),
            if s.volume > 0 {
                Action::VolumeDecreased
            } else {
                Action::VolumeUnchanged
            },
        ),
        Command::Clear => (s, Action::ClearTerminal),
        Command::Help => (s, Action::PrintHelp),
        Command::List => (s, Action::ListPlaylist),
        Command::Exit => (s, Action::ExitLoop),
        Command::Invalid => (s, Action::InvalidCommand),
    }
}

/// The state and song one round of track advancement leads to.
///
/// The cursor moves only when the queue has run empty, more than one song
/// is listed, and the cursor has not yet passed the tail; the song at its
/// new place — if one exists — is what the loop feeds to the queue next.
/// The cursor starts at the head, so this never replays the first song, and
/// once it reaches the playlist's length it stays there for good.
pub open spec fn advance_spec(s: SessionView, sink_empty: bool) -> (SessionView, Option<
    Seq<char>,
>) {
    if sink_empty && s.playlist.len() > 1 && s.position < s.playlist.len() {
        let stepped = SessionView { position: s.position + 1, ..s };
        if s.position + 1 < s.playlist.len() {
            (stepped, Some(s.playlist[s.position + 1]))
        } else {
            (stepped, None)
        }
    } else {
        (s, None)
    }
}

impl Session {
    /// A fresh session: nothing played yet, an empty playlist, the cursor
    /// at the head, full volume, not paused.
    pub fn new() -> (s: Session)
        ensures
            s@ == (SessionView {
                hit_play: false,
                playlist: Seq::<Seq<char>>::empty(),
                position: 0int,
                volume: VOLUME_MAX as int,
                paused: false,
            }),
    {
        let s = Session {
            hit_play: false,
            playlist: Vec::new(),
            position: 0,
            volume: Volume::full(),
            paused: false,
        };
        proof {
            assert(s.playlist.deep_view() =~= Seq::<Seq<char>>::empty());
        }
        s
    }

    /// Carries out one parsed command on the session, given whether the
    /// live queue reported empty, and says what the loop must do next.
    ///
    /// A `play` while the queue is non-empty leaves the session untouched
    /// and asks only for the busy notice: at most one player is active at a
    /// time. An `add` before the session's first `play` leaves the session
    /// untouched and asks only for the guidance notice. A volume command at
    /// its bound changes nothing and prints nothing.
    pub fn dispatch(&mut self, cmd: Command, sink_empty: bool) -> (action: Action)
        ensures
            final(self)@ == dispatch_spec(old(self)@, cmd, sink_empty).0,
            action == dispatch_spec(old(self)@, cmd, sink_empty).1,
            cmd == Command::Play && !sink_empty ==> final(self)@ == old(self)@ && action
                == Action::RejectBusyPlayer,
            cmd == Command::Add && !old(self)@.hit_play ==> final(self)@ == old(self)@ && action
                == Action::RejectAddBeforePlay,
            cmd == Command::VolumeUp && old(self)@.volume == VOLUME_MAX ==> final(self)@ == old(
                self,
            )@ && action == Action::VolumeUnchanged,
            cmd == Command::VolumeDown && old(self)@.volume == 0 ==> final(self)@ == old(self)@
                && action == Action::VolumeUnchanged,
    {
        match cmd {
            Command::Play => if sink_empty {
                Action::PromptForPlayPath
            } else {
                Action::RejectBusyPlayer
            },
            Command::Add => if self.hit_play {
                Action::PromptForAddPath
            } else {
                Action::RejectAddBeforePlay
            },
            Command::Delete => Action::PromptForDeleteIndex,
            Command::Pause => {
                self.paused = true;
                Action::PauseQueue
            },
            Command::Resume => {
                self.paused = false;
                Action::ResumeQueue
            },
            Command::VolumeUp => {
                let changed = self.volume.up();
                if changed {
                    Action::VolumeIncreased
                } else {
                    Action::VolumeUnchanged
                }
            },
            Command::VolumeDown => {
                let changed = self.volume.down();
                if changed {
                    Action::VolumeDecreased
                } else {
                    Action::VolumeUnchanged
                }
            },
            Command::Clear => Action::ClearTerminal,
            Command::Help => Action::PrintHelp,
            Command::List => Action::ListPlaylist,
            Command::Exit => Action::ExitLoop,
            Command::Invalid => Action::InvalidCommand,
        }
    }

    /// Finishes an admitted `play`: the song joins the playlist's tail, the
    /// session remembers that `play` has been issued, and the queue is
    /// (re)started at full volume, unpaused — playback of a fresh song
    /// always begins there.
    pub fn start_play(&mut self, song: String)
        ensures
            final(self)@ == (SessionView {
                hit_play: true,
                playlist: old(self)@.playlist.push(song@),
                volume: VOLUME_MAX as int,
                paused: false,
                ..old(self)@
            }),
    {
        add_to_playlist(song, &mut self.playlist);
        self.hit_play = true;
        self.volume = Volume::full();
        self.paused = false;
        proof {
            assert(self.playlist.deep_view() =~= old(self).playlist.deep_view().push(song@));
        }
    }

    /// Finishes an admitted `add`: the song joins the playlist's tail and
    /// nothing else moves.
    pub fn add_song(&mut self, song: String)
        ensures
            final(self)@ == (SessionView {
                playlist: old(self)@.playlist.push(song@),
                ..old(self)@
            }),
    {
        add_to_playlist(song, &mut self.playlist);
        proof {
            assert(self.playlist.deep_view() =~= old(self).playlist.deep_view().push(song@));
        }
    }

    /// Finishes a `delete`: removes the song at the given displayed index
    /// and hands it back; an index past the end removes nothing. The
    /// cursor stays where it was — songs the cursor has passed are done
    /// with, and advancement only ever looks ahead of it.
    pub fn delete_song(&mut self, index: usize) -> (removed: Option<String>)
        ensures
            index < old(self)@.playlist.len() ==> removed.deep_view() == Some(
                old(self)@.playlist[index as int],
            ) && final(self)@ == (SessionView {
                playlist: old(self)@.playlist.remove(index as int),
                ..old(self)@
            }),
            index >= old(self)@.playlist.len() ==> removed is None && final(self)@ == old(self)@,
    {
        let removed = remove_from_playlist(&mut self.playlist, index);
        proof {
            if index < old(self)@.playlist.len() {
                assert(self.playlist.deep_view() =~= old(self).playlist.deep_view().remove(
                    index as int,
                ));
            }
        }
        removed
    }

    /// One round of track advancement, given whether the live queue
    /// reported empty: moves the cursor when a next track is due and hands
    /// back the song the loop must now feed to the queue, if any.
    pub fn advance(&mut self, sink_empty: bool) -> (next: Option<String>)
        ensures
            final(self)@ == advance_spec(old(self)@, sink_empty).0,
            next.deep_view() == advance_spec(old(self)@, sink_empty).1,
    {
        if sink_empty && self.playlist.len() > 1 && self.position < self.playlist.len() {
            self.position = self.position + 1;
            if self.position < self.playlist.len() {
                let song: String = self.playlist[self.position].clone();
                Some(song)
            } else {
                None
            }
        } else {
            None
        }
    }
}

/// Law: once the cursor has reached the playlist's length, track
/// advancement changes nothing and yields nothing, whatever the queue
/// reports — advancement has halted for good.
pub proof fn lemma_advance_halts_at_end(s: SessionView, sink_empty: bool)
    requires
        s.position == s.playlist.len(),
    ensures
        advance_spec(s, sink_empty).0 == s,
        advance_spec(s, sink_empty).1 is None,
{
}

/// Law: the cursor never moves backward, and a song that advancement hands
/// out always sits at a position of one or more — the playlist's first
/// song, played by the `play` command itself, is never replayed.
pub proof fn lemma_advance_never_replays_first(s: SessionView, sink_empty: bool)
    requires
        0 <= s.position,
    ensures
        advance_spec(s, sink_empty).0.position >= s.position,
        advance_spec(s, sink_empty).1 is Some ==> advance_spec(s, sink_empty).0.position >= 1
            && advance_spec(s, sink_empty).1 == Some(
            s.playlist[advance_spec(s, sink_empty).0.position],
        ),
{
}

} // verus!
