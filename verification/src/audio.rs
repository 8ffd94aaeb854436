//! Model of the playback backend: one audio output device carrying at most
//! one live session.  The shell owns the real sink and drives it with the
//! transitions recorded here, reporting back the one fact the model cannot
//! know on its own: whether opening and decoding the chosen file succeeded,
//! and whether the sink has drained its queued audio.

use vstd::prelude::*;

verus! {

/// One live playback session: a decoded stream attached to the output
/// device, either running or paused.
pub struct Session {
    pub paused: bool,
}

/// The playback backend.  `streams` counts the sinks currently attached to
/// the output device; the backend guarantees it never exceeds one, because
/// `play` tears the previous session down before building the next.
/// `volume` is a percentage in [0, 100], applied to the live session and
/// remembered for the next one.
pub struct AudioPlayer {
    pub session: Option<Session>,
    pub streams: usize,
    pub volume: u8,
}

impl AudioPlayer {
    /// Well-formedness: at most one stream, attached exactly when a session
    /// is live, volume within range.
    pub open spec fn wf(&self) -> bool {
        &&& self.streams <= 1
        &&& (self.streams == 1 <==> self.session is Some)
        &&& self.volume <= 100
    }

    /// A session is live (playing or paused).
    pub open spec fn is_active(&self) -> bool {
        self.session is Some
    }

    /// A session is live and paused.
    pub open spec fn spec_is_paused(&self) -> bool {
        match self.session {
            Some(s) => s.paused,
            None => false,
        }
    }

    /// The state `play` leaves behind when loading the file went as
    /// `loaded` says: the old session is gone either way, and a fresh
    /// running one is attached only on success.
    pub open spec fn play_transition(pre: AudioPlayer, loaded: bool) -> AudioPlayer {
        AudioPlayer {
            session: if loaded {
                Some(Session { paused: false })
            } else {
                None
            },
            streams: if loaded {
                1
            } else {
                0
            },
            volume: pre.volume,
        }
    }

    /// The state after a whole run of `play` calls, one outcome per call.
    pub open spec fn play_many(pre: AudioPlayer, loads: Seq<bool>) -> AudioPlayer
        decreases loads.len(),
    {
        if loads.len() == 0 {
            pre
        } else {
            Self::play_transition(Self::play_many(pre, loads.drop_last()), loads.last())
        }
    }

    /// A fresh backend: no session, nothing attached to the device, the
    /// device's initial full volume.
    pub fn new() -> (p: AudioPlayer)
        ensures
            p.session is None,
            p.streams == 0,
            p.volume == 100,
            p.wf(),
    {
        AudioPlayer { session: None, streams: 0, volume: 100 }
    }

    /// From any state to Playing on success, to Idle on failure.  The
    /// previous session is torn down first, so the device never holds two
    /// streams at once.
    pub fn play(&mut self, loaded: bool)
        ensures
            *final(self) == Self::play_transition(*old(self), loaded),
            final(self).streams <= 1,
            old(self).volume <= 100 ==> final(self).wf(),
    {
        self.stop();
        if loaded {
            self.session = Some(Session { paused: false });
            self.streams = 1;
        }
    }

    /// Tears down any session; a no-op when already Idle.
    pub fn stop(&mut self)
        ensures
            final(self).session is None,
            final(self).streams == 0,
            final(self).volume == old(self).volume,
    {
        self.session = None;
        self.streams = 0;
    }

    /// Playing to Paused; a no-op when Idle or already Paused.
    pub fn pause(&mut self)
        ensures
            final(self).session == (match old(self).session {
                Some(_) => Some(Session { paused: true }),
                None => None,
            }),
            final(self).streams == old(self).streams,
            final(self).volume == old(self).volume,
    {
        if self.session.is_some() {
            self.session = Some(Session { paused: true });
        }
    }

    /// Paused to Playing; a no-op when Idle or already Playing.
    pub fn resume(&mut self)
        ensures
            final(self).session == (match old(self).session {
                Some(_) => Some(Session { paused: false }),
                None => None,
            }),
            final(self).streams == old(self).streams,
            final(self).volume == old(self).volume,
    {
        if self.session.is_some() {
            self.session = Some(Session { paused: false });
        }
    }

    /// Whether a live session is paused; false when Idle.
    pub fn is_paused(&self) -> (r: bool)
        ensures
            r == self.spec_is_paused(),
    {
        match &self.session {
            Some(s) => s.paused,
            None => false,
        }
    }

    /// Whether playback is over: true when Idle, and otherwise exactly when
    /// the sink has consumed all queued audio, which the shell reports in
    /// `sink_drained`.
    pub fn is_empty(&self, sink_drained: bool) -> (r: bool)
        ensures
            r == (self.session is None || sink_drained),
    {
        match &self.session {
            Some(_) => sink_drained,
            None => true,
        }
    }

    /// Clamps the requested percentage into [0, 100] and remembers it for
    /// the live session and any future one.
    pub fn set_volume(&mut self, volume: u8)
        ensures
            final(self).volume == (if volume <= 100 {
                volume as int
            } else {
                100
            }),
            final(self).volume <= 100,
            final(self).session == old(self).session,
            final(self).streams == old(self).streams,
    {
        self.volume = if volume <= 100 {
            volume
        } else {
            100
        };
    }
}

/// However many times `play` ran and whatever each attempt reported, the
/// device ends up holding at most one stream, and exactly one stream after
/// a successful attempt: the teardown in `play` leaks nothing.
pub proof fn lemma_at_most_one_session(pre: AudioPlayer, loads: Seq<bool>)
    requires
        pre.wf(),
    ensures
        AudioPlayer::play_many(pre, loads).wf(),
        AudioPlayer::play_many(pre, loads).streams <= 1,
        loads.len() > 0 ==> AudioPlayer::play_many(pre, loads).streams == (if loads.last() {
            1int
        } else {
            0int
        }),
    decreases loads.len(),
{
    if loads.len() > 0 {
        lemma_at_most_one_session(pre, loads.drop_last());
    }
}

} // verus!
