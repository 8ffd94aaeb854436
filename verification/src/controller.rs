//! The application controller: the single owner of the library listing,
//! the selection cursor, the playback model, the volume and the status
//! line.  The unverified shell feeds it raw directory entries and the
//! outcome of each attempt to load a file, and carries out the transport
//! action each mutator returns; everything decided here is verified.

use crate::audio::AudioPlayer;
use crate::scan::{recognized_views, scan_music_files, sorted_by_name, views_of};
use crate::status::{
    error_status, looped_status, make_error_status, make_looped_status, make_playing_status,
    make_refreshed_status, make_volume_status, no_files_found_status, no_files_to_play_status,
    paused_status, playing_status, ready_status, refresh_empty_status, refreshed_status,
    stopped_status, volume_status,
};
use crate::track::MusicFile;
use vstd::prelude::*;

verus! {

/// The transport action the shell must carry out on the real audio device
/// after a controller mutation.
pub enum AudioCommand {
    /// Nothing to do.
    DoNothing,
    /// Tear down the live sink.
    StopSink,
    /// Pause the live sink.
    PauseSink,
    /// Resume the live sink.
    ResumeSink,
    /// Apply this percentage to the live sink.
    SetSinkVolume(u8),
}

/// Volume one step up, clamped to 100.
pub open spec fn vol_up(v: int) -> int {
    if v + 10 <= 100 {
        v + 10
    } else {
        100
    }
}

/// Volume one step down, clamped to 0.
pub open spec fn vol_down(v: int) -> int {
    if v >= 10 {
        v - 10
    } else {
        0
    }
}

/// The volume after a run of adjustments, `true` for up and `false` for
/// down.
pub open spec fn apply_volume_steps(v: int, steps: Seq<bool>) -> int
    decreases steps.len(),
{
    if steps.len() == 0 {
        v
    } else {
        let w = apply_volume_steps(v, steps.drop_last());
        if steps.last() {
            vol_up(w)
        } else {
            vol_down(w)
        }
    }
}

/// However many volume adjustments run, in whatever order, the volume
/// never leaves [0, 100].
pub proof fn lemma_volume_stays_clamped(v: int, steps: Seq<bool>)
    requires
        0 <= v <= 100,
    ensures
        0 <= apply_volume_steps(v, steps) <= 100,
    decreases steps.len(),
{
    if steps.len() > 0 {
        lemma_volume_stays_clamped(v, steps.drop_last());
    }
}

/// The application state the renderer consumes and the mutators below
/// maintain.  `current_playing` is a name-based back-reference into the
/// listing: after a refresh it may name a track no longer listed, which is
/// accepted, and a refresh never stops playback on that account.
pub struct App {
    pub music_files: Vec<MusicFile>,
    pub selected_index: usize,
    pub audio_player: AudioPlayer,
    pub current_playing: Option<String>,
    pub status_message: String,
    pub music_directory: String,
    pub is_paused: bool,
    pub volume: u8,
}

impl App {
    /// Well-formedness: the cursor stays inside a non-empty listing, the
    /// volume stays in range, and the playing mark and paused flag mirror
    /// the backend's session.
    pub open spec fn wf(&self) -> bool {
        &&& self.music_files@.len() > 0 ==> self.selected_index < self.music_files@.len()
        &&& self.volume <= 100
        &&& self.audio_player.wf()
        &&& (self.current_playing is Some <==> self.audio_player.is_active())
        &&& self.is_paused == self.audio_player.spec_is_paused()
    }

    /// The name under the playing mark, if any.
    pub open spec fn playing_name(&self) -> Option<Seq<char>> {
        match self.current_playing {
            Some(n) => Some(n@),
            None => None,
        }
    }

    /// Builds the initial state from the library root and the raw entries
    /// of its first walk: library scanned and sorted, cursor at the top,
    /// nothing playing, volume at 70 percent.
    pub fn new(music_directory: String, entries: Vec<MusicFile>) -> (app: App)
        ensures
            app.wf(),
            sorted_by_name(views_of(app.music_files@)),
            views_of(app.music_files@).to_multiset() == recognized_views(
                views_of(entries@),
            ).to_multiset(),
            app.selected_index == 0,
            app.current_playing is None,
            app.is_paused == false,
            app.volume == 70,
            app.audio_player.session is None,
            app.audio_player.streams == 0,
            app.music_directory == music_directory,
            app.music_files@.len() == 0 ==> app.status_message@ == no_files_found_status(),
            app.music_files@.len() > 0 ==> app.status_message@ == ready_status(),
    {
        let music_files = scan_music_files(entries);
        let status_message = if music_files.len() == 0 {
            "No music files found - Press 'r' to refresh or 'q' to quit".to_owned()
        } else {
            "Ready - Use ↑/↓ to navigate, Enter to play (auto-advances to next song), 'q' to quit".to_owned()
        };
        App {
            music_files,
            selected_index: 0,
            audio_player: AudioPlayer::new(),
            current_playing: None,
            status_message,
            music_directory,
            is_paused: false,
            volume: 70,
        }
    }

    /// Moves the cursor one step down, wrapping from the last entry to the
    /// first; a no-op on an empty listing.
    pub fn next(&mut self)
        requires
            old(self).wf(),
        ensures
            final(self).wf(),
            old(self).music_files@.len() == 0 ==> final(self).selected_index == old(
                self,
            ).selected_index,
            old(self).music_files@.len() > 0 ==> final(self).selected_index == (old(
                self,
            ).selected_index + 1) % (old(self).music_files@.len() as int),
            final(self).music_files == old(self).music_files,
            final(self).audio_player == old(self).audio_player,
            final(self).current_playing == old(self).current_playing,
            final(self).status_message == old(self).status_message,
            final(self).music_directory == old(self).music_directory,
            final(self).is_paused == old(self).is_paused,
            final(self).volume == old(self).volume,
    {
        if self.music_files.len() > 0 {
            self.selected_index = (self.selected_index + 1) % self.music_files.len();
        }
    }

    /// Moves the cursor one step up, wrapping from the first entry to the
    /// last; a no-op on an empty listing.
    pub fn previous(&mut self)
        requires
            old(self).wf(),
        ensures
            final(self).wf(),
            old(self).music_files@.len() == 0 ==> final(self).selected_index == old(
                self,
            ).selected_index,
            old(self).music_files@.len() > 0 ==> final(self).selected_index == (if old(
                self,
            ).selected_index == 0 {
                old(self).music_files@.len() - 1
            } else {
                old(self).selected_index - 1
            }),
            final(self).music_files == old(self).music_files,
            final(self).audio_player == old(self).audio_player,
            final(self).current_playing == old(self).current_playing,
            final(self).status_message == old(self).status_message,
            final(self).music_directory == old(self).music_directory,
            final(self).is_paused == old(self).is_paused,
            final(self).volume == old(self).volume,
    {
        if self.music_files.len() > 0 {
            if self.selected_index == 0 {
                self.selected_index = self.music_files.len() - 1;
            } else {
                self.selected_index = self.selected_index - 1;
            }
        }
    }

    /// The track under the cursor, which `play_selected` expects the shell
    /// to have attempted: `None` exactly when the listing is empty.
    pub fn selected_file(&self) -> (r: Option<MusicFile>)
        requires
            self.wf(),
        ensures
            self.music_files@.len() == 0 <==> r is None,
            match r {
                Some(f) => self.music_files@.len() > 0 && f@ == self.music_files@[self.selected_index as int]@,
                None => true,
            },
    {
        if self.music_files.len() == 0 {
            None
        } else {
            Some(self.music_files[self.selected_index].clone())
        }
    }

    /// The track `play_next` would start: the one after the cursor, with
    /// wrap-around.
    pub fn peek_next(&self) -> (r: Option<MusicFile>)
        requires
            self.wf(),
        ensures
            self.music_files@.len() == 0 <==> r is None,
            match r {
                Some(f) => self.music_files@.len() > 0 && f@ == self.music_files@[(
                self.selected_index + 1) % (self.music_files@.len() as int)]@,
                None => true,
            },
    {
        if self.music_files.len() == 0 {
            None
        } else {
            Some(self.music_files[(self.selected_index + 1) % self.music_files.len()].clone())
        }
    }

    /// The track `play_previous` would start: the one before the cursor,
    /// with wrap-around.
    pub fn peek_previous(&self) -> (r: Option<MusicFile>)
        requires
            self.wf(),
        ensures
            self.music_files@.len() == 0 <==> r is None,
            match r {
                Some(f) => self.music_files@.len() > 0 && f@ == self.music_files@[(if self.selected_index == 0 {
                    self.music_files@.len() - 1
                } else {
                    self.selected_index - 1
                })]@,
                None => true,
            },
    {
        if self.music_files.len() == 0 {
            None
        } else if self.selected_index == 0 {
            Some(self.music_files[self.music_files.len() - 1].clone())
        } else {
            Some(self.music_files[self.selected_index - 1].clone())
        }
    }

    /// Applies the outcome of the shell's attempt to load and start the
    /// track under the cursor.  On an empty listing the outcome is ignored
    /// and only the status changes; on success the track is marked playing
    /// and the shell must re-apply the stored volume; on failure nothing
    /// stays marked as playing and the backend is back to Idle.
    pub fn play_selected(&mut self, outcome: Result<(), String>) -> (cmd: AudioCommand)
        requires
            old(self).wf(),
        ensures
            final(self).wf(),
            final(self).music_files == old(self).music_files,
            final(self).selected_index == old(self).selected_index,
            final(self).music_directory == old(self).music_directory,
            final(self).volume == old(self).volume,
            old(self).music_files@.len() == 0 ==> {
                &&& final(self).status_message@ == no_files_to_play_status()
                &&& final(self).audio_player == old(self).audio_player
                &&& final(self).current_playing == old(self).current_playing
                &&& final(self).is_paused == old(self).is_paused
                &&& cmd is DoNothing
            },
            old(self).music_files@.len() > 0 && outcome is Ok ==> {
                &&& final(self).playing_name() == Some(
                    old(self).music_files@[old(self).selected_index as int].name@,
                )
                &&& final(self).is_paused == false
                &&& final(self).audio_player == AudioPlayer::play_transition(
                    old(self).audio_player,
                    true,
                )
                &&& final(self).status_message@ == playing_status(
                    old(self).music_files@[old(self).selected_index as int].name@,
                )
                &&& cmd == AudioCommand::SetSinkVolume(old(self).volume)
            },
            old(self).music_files@.len() > 0 && outcome is Err ==> {
                &&& final(self).current_playing is None
                &&& final(self).is_paused == false
                &&& final(self).audio_player == AudioPlayer::play_transition(
                    old(self).audio_player,
                    false,
                )
                &&& (match outcome {
                    Err(e) => final(self).status_message@ == error_status(e@),
                    Ok(_) => true,
                })
                &&& cmd is DoNothing
            },
    {
        if self.music_files.len() == 0 {
            self.status_message = "No music files available to play".to_owned();
            return AudioCommand::DoNothing;
        }
        match outcome {
            Ok(_) => {
                self.audio_player.play(true);
                let name = self.music_files[self.selected_index].name.clone();
                self.status_message = make_playing_status(name.as_str());
                self.current_playing = Some(name);
                self.is_paused = false;
                AudioCommand::SetSinkVolume(self.volume)
            },
            Err(e) => {
                self.audio_player.play(false);
                self.current_playing = None;
                self.is_paused = false;
                self.status_message = make_error_status(e.as_str());
                AudioCommand::DoNothing
            },
        }
    }

    /// Stops playback: clears the playing mark and the paused flag and
    /// reports it, whatever state the backend was in.
    pub fn stop(&mut self) -> (cmd: AudioCommand)
        requires
            old(self).wf(),
        ensures
            final(self).wf(),
            final(self).music_files == old(self).music_files,
            final(self).selected_index == old(self).selected_index,
            final(self).music_directory == old(self).music_directory,
            final(self).volume == old(self).volume,
            final(self).current_playing is None,
            final(self).is_paused == false,
            final(self).audio_player.session is None,
            final(self).audio_player.streams == 0,
            final(self).audio_player.volume == old(self).audio_player.volume,
            final(self).status_message@ == stopped_status(),
            cmd is StopSink,
    {
        self.audio_player.stop();
        self.current_playing = None;
        self.is_paused = false;
        self.status_message = "Stopped".to_owned();
        AudioCommand::StopSink
    }

    /// Pauses a running track; a no-op when nothing is marked playing or
    /// it is already paused.
    pub fn pause(&mut self) -> (cmd: AudioCommand)
        requires
            old(self).wf(),
        ensures
            final(self).wf(),
            old(self).current_playing is Some && !old(self).is_paused ==> {
                &&& final(self).is_paused == true
                &&& final(self).current_playing == old(self).current_playing
                &&& final(self).music_files == old(self).music_files
                &&& final(self).selected_index == old(self).selected_index
                &&& final(self).music_directory == old(self).music_directory
                &&& final(self).volume == old(self).volume
                &&& final(self).audio_player.volume == old(self).audio_player.volume
                &&& final(self).status_message@ == paused_status()
                &&& cmd is PauseSink
            },
            !(old(self).current_playing is Some && !old(self).is_paused) ==> {
                &&& *final(self) == *old(self)
                &&& cmd is DoNothing
            },
    {
        if self.current_playing.is_some() && !self.is_paused {
            self.audio_player.pause();
            self.is_paused = true;
            self.status_message = "Paused".to_owned();
            AudioCommand::PauseSink
        } else {
            AudioCommand::DoNothing
        }
    }

    /// Resumes a paused track; a no-op when nothing is marked playing or
    /// it is not paused.
    pub fn resume(&mut self) -> (cmd: AudioCommand)
        requires
            old(self).wf(),
        ensures
            final(self).wf(),
            old(self).current_playing is Some && old(self).is_paused ==> {
                &&& final(self).is_paused == false
                &&& final(self).current_playing == old(self).current_playing
                &&& final(self).music_files == old(self).music_files
                &&& final(self).selected_index == old(self).selected_index
                &&& final(self).music_directory == old(self).music_directory
                &&& final(self).volume == old(self).volume
                &&& final(self).audio_player.volume == old(self).audio_player.volume
                &&& (match old(self).current_playing {
                    Some(n) => final(self).status_message@ == playing_status(n@),
                    None => true,
                })
                &&& cmd is ResumeSink
            },
            !(old(self).current_playing is Some && old(self).is_paused) ==> {
                &&& *final(self) == *old(self)
                &&& cmd is DoNothing
            },
    {
        if self.current_playing.is_some() && self.is_paused {
            self.audio_player.resume();
            self.is_paused = false;
            let s = match &self.current_playing {
                Some(n) => make_playing_status(n.as_str()),
                None => "Stopped".to_owned(),
            };
            self.status_message = s;
            AudioCommand::ResumeSink
        } else {
            AudioCommand::DoNothing
        }
    }

    /// Pauses when playing, resumes when paused, and does nothing when no
    /// track is marked playing.
    pub fn toggle_pause(&mut self) -> (cmd: AudioCommand)
        requires
            old(self).wf(),
        ensures
            final(self).wf(),
            old(self).current_playing is None ==> {
                &&& *final(self) == *old(self)
                &&& cmd is DoNothing
            },
            old(self).current_playing is Some && !old(self).is_paused ==> {
                &&& final(self).is_paused == true
                &&& final(self).current_playing == old(self).current_playing
                &&& final(self).status_message@ == paused_status()
                &&& cmd is PauseSink
            },
            old(self).current_playing is Some && old(self).is_paused ==> {
                &&& final(self).is_paused == false
                &&& final(self).current_playing == old(self).current_playing
                &&& (match old(self).current_playing {
                    Some(n) => final(self).status_message@ == playing_status(n@),
                    None => true,
                })
                &&& cmd is ResumeSink
            },
            final(self).music_files == old(self).music_files,
            final(self).selected_index == old(self).selected_index,
            final(self).music_directory == old(self).music_directory,
            final(self).volume == old(self).volume,
    {
        if self.current_playing.is_some() {
            if self.is_paused {
                self.resume()
            } else {
                self.pause()
            }
        } else {
            AudioCommand::DoNothing
        }
    }

    /// Applies the outcome of the shell's attempt to load the track after
    /// the cursor.  The cursor advances with wrap-around first; when it
    /// wrapped from the last track, the status announces the loop back to
    /// the first track instead of the normal message, whatever the outcome.
    pub fn play_next(&mut self, outcome: Result<(), String>) -> (cmd: AudioCommand)
        requires
            old(self).wf(),
        ensures
            final(self).wf(),
            final(self).music_files == old(self).music_files,
            final(self).music_directory == old(self).music_directory,
            final(self).volume == old(self).volume,
            old(self).music_files@.len() == 0 ==> {
                &&& *final(self) == *old(self)
                &&& cmd is DoNothing
            },
            old(self).music_files@.len() > 0 ==> {
                &&& final(self).selected_index == (old(self).selected_index + 1) % (old(
                    self,
                ).music_files@.len() as int)
                &&& (outcome is Ok ==> {
                    &&& final(self).playing_name() == Some(
                        old(self).music_files@[(old(self).selected_index + 1) % (old(
                            self,
                        ).music_files@.len() as int)].name@,
                    )
                    &&& final(self).is_paused == false
                    &&& final(self).audio_player == AudioPlayer::play_transition(
                        old(self).audio_player,
                        true,
                    )
                    &&& cmd == AudioCommand::SetSinkVolume(old(self).volume)
                })
                &&& (outcome is Err ==> {
                    &&& final(self).current_playing is None
                    &&& final(self).is_paused == false
                    &&& final(self).audio_player == AudioPlayer::play_transition(
                        old(self).audio_player,
                        false,
                    )
                    &&& cmd is DoNothing
                })
                &&& (old(self).selected_index == old(self).music_files@.len() - 1 ==> final(self).status_message@ == looped_status(old(self).music_files@[0].name@))
                &&& (old(self).selected_index != old(self).music_files@.len() - 1 && outcome
                    is Ok ==> final(self).status_message@ == playing_status(
                    old(self).music_files@[old(self).selected_index + 1].name@,
                ))
                &&& (old(self).selected_index != old(self).music_files@.len() - 1 ==> (
                match outcome {
                    Err(e) => final(self).status_message@ == error_status(e@),
                    Ok(_) => true,
                }))
            },
    {
        if self.music_files.len() == 0 {
            return AudioCommand::DoNothing;
        }
        let was_at_end = self.selected_index == self.music_files.len() - 1;
        self.next();
        proof {
            let len = old(self).music_files@.len() as int;
            let s = old(self).selected_index as int;
            if s + 1 < len {
                vstd::arithmetic::div_mod::lemma_small_mod((s + 1) as nat, len as nat);
            } else {
                vstd::arithmetic::div_mod::lemma_mod_self_0(len);
            }
        }
        let cmd = self.play_selected(outcome);
        if was_at_end {
            self.status_message = make_looped_status(self.music_files[0].name.as_str());
        }
        cmd
    }

    /// Applies the outcome of the shell's attempt to load the track before
    /// the cursor.  The cursor retreats with wrap-around first.
    pub fn play_previous(&mut self, outcome: Result<(), String>) -> (cmd: AudioCommand)
        requires
            old(self).wf(),
        ensures
            final(self).wf(),
            final(self).music_files == old(self).music_files,
            final(self).music_directory == old(self).music_directory,
            final(self).volume == old(self).volume,
            old(self).music_files@.len() == 0 ==> {
                &&& *final(self) == *old(self)
                &&& cmd is DoNothing
            },
            old(self).music_files@.len() > 0 ==> {
                &&& final(self).selected_index == (if old(self).selected_index == 0 {
                    old(self).music_files@.len() - 1
                } else {
                    old(self).selected_index - 1
                })
                &&& (outcome is Ok ==> {
                    &&& final(self).playing_name() == Some(
                        old(self).music_files@[final(self).selected_index as int].name@,
                    )
                    &&& final(self).is_paused == false
                    &&& final(self).status_message@ == playing_status(
                        old(self).music_files@[final(self).selected_index as int].name@,
                    )
                    &&& cmd == AudioCommand::SetSinkVolume(old(self).volume)
                })
                &&& (outcome is Err ==> {
                    &&& final(self).current_playing is None
                    &&& final(self).is_paused == false
                    &&& (match outcome {
                        Err(e) => final(self).status_message@ == error_status(e@),
                        Ok(_) => true,
                    })
                    &&& cmd is DoNothing
                })
            },
    {
        if self.music_files.len() == 0 {
            return AudioCommand::DoNothing;
        }
        self.previous();
        self.play_selected(outcome)
    }

    /// One volume step up, clamped at 100 percent; the new value is applied
    /// to the backend and reported in the status line.
    pub fn volume_up(&mut self) -> (cmd: AudioCommand)
        requires
            old(self).wf(),
        ensures
            final(self).wf(),
            final(self).volume == vol_up(old(self).volume as int),
            final(self).volume <= 100,
            final(self).audio_player.volume == final(self).volume,
            final(self).audio_player.session == old(self).audio_player.session,
            final(self).status_message@ == volume_status(final(self).volume as int),
            final(self).music_files == old(self).music_files,
            final(self).selected_index == old(self).selected_index,
            final(self).music_directory == old(self).music_directory,
            final(self).current_playing == old(self).current_playing,
            final(self).is_paused == old(self).is_paused,
            cmd == AudioCommand::SetSinkVolume(final(self).volume),
    {
        let nv = if self.volume <= 90 {
            self.volume + 10
        } else {
            100
        };
        self.volume = nv;
        self.audio_player.set_volume(nv);
        self.status_message = make_volume_status(nv);
        AudioCommand::SetSinkVolume(nv)
    }

    /// One volume step down, clamped at 0 percent; the new value is applied
    /// to the backend and reported in the status line.
    pub fn volume_down(&mut self) -> (cmd: AudioCommand)
        requires
            old(self).wf(),
        ensures
            final(self).wf(),
            final(self).volume == vol_down(old(self).volume as int),
            final(self).volume <= 100,
            final(self).audio_player.volume == final(self).volume,
            final(self).audio_player.session == old(self).audio_player.session,
            final(self).status_message@ == volume_status(final(self).volume as int),
            final(self).music_files == old(self).music_files,
            final(self).selected_index == old(self).selected_index,
            final(self).music_directory == old(self).music_directory,
            final(self).current_playing == old(self).current_playing,
            final(self).is_paused == old(self).is_paused,
            cmd == AudioCommand::SetSinkVolume(final(self).volume),
    {
        let nv = if self.volume >= 10 {
            self.volume - 10
        } else {
            0
        };
        self.volume = nv;
        self.audio_player.set_volume(nv);
        self.status_message = make_volume_status(nv);
        AudioCommand::SetSinkVolume(nv)
    }

    /// Replaces the listing with a fresh scan of the stored root.  The
    /// cursor is clamped to the last valid index when the listing shrank
    /// under it; playback is deliberately left untouched, even when the
    /// playing track vanished from the listing.
    pub fn refresh_files(&mut self, entries: Vec<MusicFile>)
        requires
            old(self).wf(),
        ensures
            final(self).wf(),
            sorted_by_name(views_of(final(self).music_files@)),
            views_of(final(self).music_files@).to_multiset() == recognized_views(
                views_of(entries@),
            ).to_multiset(),
            final(self).selected_index == (if final(self).music_files@.len() > 0 && old(
                self,
            ).selected_index >= final(self).music_files@.len() {
                final(self).music_files@.len() - 1
            } else {
                old(self).selected_index as int
            }),
            final(self).audio_player == old(self).audio_player,
            final(self).current_playing == old(self).current_playing,
            final(self).is_paused == old(self).is_paused,
            final(self).volume == old(self).volume,
            final(self).music_directory == old(self).music_directory,
            final(self).music_files@.len() == 0 ==> final(self).status_message@
                == refresh_empty_status(),
            final(self).music_files@.len() > 0 ==> final(self).status_message@
                == refreshed_status(final(self).music_files@.len() as int),
    {
        self.music_files = scan_music_files(entries);
        if self.selected_index >= self.music_files.len() && self.music_files.len() > 0 {
            self.selected_index = self.music_files.len() - 1;
        }
        if self.music_files.len() == 0 {
            self.status_message = "No music files found in directory".to_owned();
        } else {
            self.status_message = make_refreshed_status(self.music_files.len());
        }
    }

    /// The per-tick poll: auto-advance exactly when a track is marked
    /// playing, it is not paused, and the backend reports its queue
    /// drained, as the shell's `sink_drained` says.  A true answer asks the
    /// shell for the same transition as `play_next`.
    pub fn should_auto_advance(&self, sink_drained: bool) -> (r: bool)
        ensures
            r == (self.current_playing is Some && !self.is_paused && (
            self.audio_player.session is None || sink_drained)),
    {
        self.current_playing.is_some() && !self.is_paused && self.audio_player.is_empty(
            sink_drained,
        )
    }
}

} // verus!
