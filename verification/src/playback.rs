use vstd::prelude::*;

verus! {

/// What a playback request led to.
#[derive(Clone, Copy, Debug, PartialEq, Eq, Structural)]
pub enum PlaybackEvent {
    /// A new track started.
    TrackChanged,
    /// Playback stopped.
    Stopped,
    /// Nothing changed.
    Unchanged,
}

/// What a play/pause request does, given the player's state.
#[derive(Clone, Copy, Debug, PartialEq, Eq, Structural)]
pub enum ToggleDecision {
    /// The player is playing: pause it.
    Pause,
    /// A track is loaded but not playing: resume it.
    Resume,
    /// Nothing is loaded: play the selected track.
    PlaySelected,
}

/// Playing pauses, a loaded track resumes, otherwise the selection plays.
pub fn toggle_decision(is_playing: bool, has_track: bool) -> (d: ToggleDecision)
    ensures
        d == if is_playing {
            ToggleDecision::Pause
        } else if has_track {
            ToggleDecision::Resume
        } else {
            ToggleDecision::PlaySelected
        },
{
    if is_playing {
        ToggleDecision::Pause
    } else if has_track {
        ToggleDecision::Resume
    } else {
        ToggleDecision::PlaySelected
    }
}

/// The track after `i` in a playlist of `len` tracks, wrapping to the first.
pub open spec fn next_track(i: nat, len: nat) -> nat {
    ((i + 1) % len) as nat
}

/// The track before `i`, wrapping to the last.
pub open spec fn previous_track(i: nat, len: nat) -> nat {
    if i == 0 { (len - 1) as nat } else { (i - 1) as nat }
}

/// A track that has played for more than this many seconds is restarted by
/// "previous" instead of going back (the decoded position runs ahead of what
/// is heard by the buffered audio).
pub const REPLAY_THRESHOLD_SECS: u64 = 5;

/// The most tracks that one auto-advance tries before it gives up.
pub const MAX_AUTO_ADVANCE_ATTEMPTS: usize = 5;

/// Which track of the playlist plays, and whether the next one follows by
/// itself when a track ends.
pub struct PlaybackController {
    pub playing_track_index: usize,
    pub automatically_play_next: bool,
}

impl PlaybackController {
    pub fn new() -> (c: Self)
        ensures
            c.playing_track_index == 0,
            c.automatically_play_next,
    {
        PlaybackController { playing_track_index: 0, automatically_play_next: true }
    }

    /// Moves to the next track of a playlist of `len` tracks, wrapping at the
    /// end. Returns whether there is a track to play (the playlist is not
    /// empty); an empty playlist changes nothing.
    pub fn next(&mut self, len: usize) -> (play: bool)
        requires
            old(self).playing_track_index < usize::MAX,
        ensures
            play == (len > 0),
            play ==> final(self).playing_track_index == next_track(old(self).playing_track_index as nat, len as nat),
            !play ==> final(self).playing_track_index == old(self).playing_track_index,
            final(self).automatically_play_next == old(self).automatically_play_next,
    {
        if len == 0 {
            return false;
        }
        self.playing_track_index = (self.playing_track_index + 1) % len;
        true
    }

    /// Goes back one track, wrapping to the last; a track that has played
    /// for more than five seconds (`elapsed_secs`, when one is loaded) is
    /// restarted instead. Returns whether there is a track to play.
    pub fn previous(&mut self, len: usize, elapsed_secs: Option<u64>) -> (play: bool)
        ensures
            play == (len > 0),
            play ==> final(self).playing_track_index == match elapsed_secs {
                Some(s) if s > REPLAY_THRESHOLD_SECS => old(self).playing_track_index as nat,
                _ => previous_track(old(self).playing_track_index as nat, len as nat),
            },
            !play ==> final(self).playing_track_index == old(self).playing_track_index,
            final(self).automatically_play_next == old(self).automatically_play_next,
    {
        if len == 0 {
            return false;
        }
        match elapsed_secs {
            Some(s) => {
                if s > REPLAY_THRESHOLD_SECS {
                    return true;
                }
            },
            None => {},
        }
        self.playing_track_index = if self.playing_track_index == 0 {
            len - 1
        } else {
            self.playing_track_index - 1
        };
        true
    }

    /// Makes the selected track the current one. Returns whether there is a
    /// selection to play.
    pub fn play_selected(&mut self, selected: Option<usize>) -> (play: bool)
        ensures
            play == selected is Some,
            match selected {
                Some(i) => final(self).playing_track_index == i,
                None => final(self).playing_track_index == old(self).playing_track_index,
            },
            final(self).automatically_play_next == old(self).automatically_play_next,
    {
        match selected {
            Some(i) => {
                self.playing_track_index = i;
                true
            },
            None => false,
        }
    }

    /// The track to start, if the current index lies in a playlist of `len`
    /// tracks.
    pub fn track_to_play(&self, len: usize) -> (r: Option<usize>)
        ensures
            r == if self.playing_track_index < len { Some(self.playing_track_index) } else { None::<usize> },
    {
        if self.playing_track_index < len {
            Some(self.playing_track_index)
        } else {
            None
        }
    }

    /// How many tracks an auto-advance tries when the current track has
    /// ended: none unless a track is loaded, it is not still streaming and
    /// automatic advance is on; otherwise up to five, and never more than
    /// the playlist holds.
    pub fn auto_advance_attempts(&self, has_track: bool, is_streaming: bool, len: usize) -> (n: usize)
        ensures
            n == if has_track && !is_streaming && self.automatically_play_next {
                if len < MAX_AUTO_ADVANCE_ATTEMPTS { len } else { MAX_AUTO_ADVANCE_ATTEMPTS }
            } else {
                0
            },
    {
        if has_track && !is_streaming && self.automatically_play_next {
            if len < MAX_AUTO_ADVANCE_ATTEMPTS { len } else { MAX_AUTO_ADVANCE_ATTEMPTS }
        } else {
            0
        }
    }
}

/// How one attempt of an auto-advance ended.
#[derive(Clone, Copy, Debug, PartialEq, Eq, Structural)]
pub enum AttemptOutcome {
    /// The next track started.
    Changed,
    /// The attempt returned without starting a track.
    Unchanged,
    /// The track could not be played; it is skipped.
    Failed,
}

/// A running auto-advance: the attempts it may still make.
pub struct AutoAdvance {
    pub remaining: usize,
}

impl AutoAdvance {
    pub fn new(attempts: usize) -> (a: Self)
        ensures
            a.remaining == attempts,
    {
        AutoAdvance { remaining: attempts }
    }

    /// Records how an attempt ended. Returns the auto-advance's result once
    /// it is over: a started track ends it with `TrackChanged`; an attempt
    /// that started nothing ends it with `Unchanged`; a failure is skipped
    /// while attempts remain, and the last failure ends it with `Unchanged`.
    pub fn record(&mut self, outcome: AttemptOutcome) -> (r: Option<PlaybackEvent>)
        requires
            old(self).remaining > 0,
        ensures
            final(self).remaining == old(self).remaining - 1,
            r == match outcome {
                AttemptOutcome::Changed => Some(PlaybackEvent::TrackChanged),
                AttemptOutcome::Unchanged => Some(PlaybackEvent::Unchanged),
                AttemptOutcome::Failed => if old(self).remaining == 1 { Some(PlaybackEvent::Unchanged) } else { None },
            },
    {
        self.remaining = self.remaining - 1;
        match outcome {
            AttemptOutcome::Changed => Some(PlaybackEvent::TrackChanged),
            AttemptOutcome::Unchanged => Some(PlaybackEvent::Unchanged),
            AttemptOutcome::Failed => if self.remaining == 0 { Some(PlaybackEvent::Unchanged) } else { None },
        }
    }
}

/// Going to the next track and then back (on a track that has not played
/// long) returns to the track where one started.
pub proof fn lemma_next_then_previous_track(i: nat, len: nat)
    requires
        i < len,
    ensures
        previous_track(next_track(i, len), len) == i,
{
    if i + 1 < len {
        assert((i + 1) % len == i + 1) by (nonlinear_arith)
            requires i + 1 < len;
    } else {
        assert((i + 1) % len == 0) by (nonlinear_arith)
            requires i + 1 == len;
    }
}

/// Going back and then forward returns to the track where one started.
pub proof fn lemma_previous_then_next_track(i: nat, len: nat)
    requires
        i < len,
    ensures
        next_track(previous_track(i, len), len) == i,
{
    let p = previous_track(i, len);
    if i == 0 {
        assert((p + 1) % len == 0) by (nonlinear_arith)
            requires p + 1 == len;
    } else {
        assert((p + 1) % len == i) by (nonlinear_arith)
            requires p + 1 == i, i < len;
    }
}

/// Both moves stay inside the playlist.
pub proof fn lemma_track_moves_in_range(i: nat, len: nat)
    requires
        len > 0,
    ensures
        next_track(i, len) < len,
        i < len ==> previous_track(i, len) < len,
{
    assert((i + 1) % len < len) by (nonlinear_arith)
        requires len > 0;
}


/// Next goes one track toward the end and previous one toward the start,
/// each wrapping at its end.
pub proof fn lemma_track_directions(i: nat, len: nat)
    requires
        i < len,
    ensures
        next_track(i, len) == if i + 1 < len { i + 1 } else { 0 },
        previous_track(i, len) == if i > 0 { (i - 1) as nat } else { (len - 1) as nat },
{
    if i + 1 < len {
        assert((i + 1) % len == i + 1) by (nonlinear_arith)
            requires i + 1 < len;
    } else {
        assert((i + 1) % len == 0) by (nonlinear_arith)
            requires i + 1 == len;
    }
}

} // verus!
