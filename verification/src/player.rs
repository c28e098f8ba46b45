//! The playback state machine: the playlist, the track cursor, the nominal
//! playback state, and the decision logic that runs on every keyboard input
//! and on every tick of the run loop.
//!
//! The controller never touches the audio output itself: each transition
//! returns an [`AudioCommand`] telling the caller what to do to it.

use vstd::prelude::*;
use crate::format::{
    spec_duration, spec_duration_text, spec_indeterminate_bar, spec_progress, format_duration,
    format_progress, lemma_spec_duration_len, UNKNOWN_DURATION_SECS, BAR_LENGTH,
};
use crate::scan::{audio_name, audio_names, lemma_audio_names_len, AudioFileList, DirEntryInfo,
    ScanError};

verus! {

/// The nominal playback states.
#[derive(Clone, Copy, PartialEq, Eq, Structural, Debug)]
pub enum PlayState {
    /// No track is selected; the cursor is zero.
    Idle,
    /// Playing. The flag is a one-shot sub-intent marker: `Playing(true)`
    /// still reacts to a toggle by resuming rather than pausing.
    Playing(bool),
    /// Paused. `Paused(true)` queues a "prime the active track but hold it
    /// paused" load for the next tick on which the output is empty.
    Paused(bool),
    /// Transient: seek back to the start, then hold the track paused.
    Restarting,
}

/// What the caller must do to the audio output after a transition.
#[derive(Clone, Copy, PartialEq, Eq, Structural, Debug)]
pub enum AudioCommand {
    /// Nothing.
    Stay,
    /// Resume playback of the loaded stream.
    Resume,
    /// Pause playback.
    Pause,
    /// Decode the active path, append it to the output, and pause at once.
    PrimeTrack,
    /// Decode the active path and append it to the output; playback goes on.
    StartTrack,
    /// Seek the output back to the start of the stream.
    SeekToStart,
}

/// Why opening or decoding an audio stream failed. In the reference policy
/// such a failure is fatal to the run loop.
#[derive(Clone, Copy, PartialEq, Eq, Structural, Debug)]
pub enum DecodeError {
    /// The file could not be opened.
    Unopenable,
    /// The stream could not be decoded.
    Malformed,
}

/// A seek was requested on an output that rejects seeking.
#[derive(Clone, Copy, PartialEq, Eq, Structural, Debug)]
pub struct SeekError;

/// The recognized keyboard inputs.
#[derive(Clone, Copy, PartialEq, Eq, Structural, Debug)]
pub enum InputAction {
    Quit,
    TogglePlay,
    LoadPlaylist,
    Ignored,
}

/// Maps a typed character to the input it stands for: `q` quits, `p`
/// toggles play and pause, `l` loads the playlist; all other keys are
/// ignored.
pub fn classify_key(c: char) -> (a: InputAction)
    ensures
        a == (if c == 'q' {
            InputAction::Quit
        } else if c == 'p' {
            InputAction::TogglePlay
        } else if c == 'l' {
            InputAction::LoadPlaylist
        } else {
            InputAction::Ignored
        }),
{
    if c == 'q' {
        InputAction::Quit
    } else if c == 'p' {
        InputAction::TogglePlay
    } else if c == 'l' {
        InputAction::LoadPlaylist
    } else {
        InputAction::Ignored
    }
}

/// The playback controller: playlist, track cursor, nominal state, and the
/// display strings derived from them.
pub struct Player {
    /// Path of the active track; empty while nothing was ever selected.
    pub audio_path: String,
    /// The name shown for the active track, or an in-place message.
    pub song_name: String,
    /// The formatted elapsed time of the active track.
    pub song_curr_time: String,
    /// The formatted total duration, or a placeholder when unknown.
    pub song_duration: String,
    /// The rendered progress bar.
    pub song_progress: String,
    /// The nominal playback state.
    pub play_state: PlayState,
    /// Scratch lists filled by the last directory scan.
    pub audio_file_list: AudioFileList,
    /// The current playlist; starts as the lone parent-directory entry.
    pub curr_playlist: Vec<String>,
    /// One-based index of the selected track; zero means none selected.
    pub curr_songid: u16,
    /// Number of tracks in the current playlist.
    pub curr_songnum: u16,
}

/// States from which a toggle-play press resumes playback.
pub open spec fn toggle_resumes(s: PlayState) -> bool {
    s == PlayState::Paused(false) || s == PlayState::Playing(true)
}

/// States from which a toggle-play press pauses playback.
pub open spec fn toggle_pauses(s: PlayState) -> bool {
    s == PlayState::Playing(false) || s == PlayState::Paused(true)
}

/// The controller after one toggle-play input: a press with a track
/// selected flips between playing and paused; everything else is a no-op.
pub open spec fn spec_toggle(p: Player, press: bool) -> Player {
    if !press || p.curr_songid == 0 {
        p
    } else if toggle_resumes(p.play_state) {
        Player { play_state: PlayState::Playing(false), ..p }
    } else if toggle_pauses(p.play_state) {
        Player { play_state: PlayState::Paused(false), ..p }
    } else {
        p
    }
}

/// `k` toggle-play presses in a row.
pub open spec fn spec_toggle_many(p: Player, k: nat) -> Player
    decreases k,
{
    if k == 0 {
        p
    } else {
        spec_toggle(spec_toggle_many(p, (k - 1) as nat), true)
    }
}

/// With no track selected, any number of toggle-play inputs leaves the
/// controller exactly as it was.
pub proof fn lemma_toggle_idle(p: Player, k: nat)
    requires
        p.curr_songid == 0,
    ensures
        spec_toggle_many(p, k) == p,
    decreases k,
{
    if k > 0 {
        lemma_toggle_idle(p, (k - 1) as nat);
    }
}

/// The next cursor after a finished track in play: one further, wrapping
/// back to the first track past the end of the playlist.
pub open spec fn wrap_next(c: int, n: int) -> int {
    if c + 1 > n {
        1
    } else {
        c + 1
    }
}

/// The advance transition applied `k` times from cursor `c`.
pub open spec fn wrap_next_many(c: int, n: int, k: nat) -> int
    decreases k,
{
    if k == 0 {
        c
    } else {
        wrap_next(wrap_next_many(c, n, (k - 1) as nat), n)
    }
}

/// Closed form of repeated advancing: the cursor walks to the end of the
/// playlist and then continues from the first track.
proof fn lemma_wrap_next_many_closed(c: int, n: int, k: nat)
    requires
        1 <= c <= n,
        k <= n,
    ensures
        wrap_next_many(c, n, k) == (if k <= n - c {
            c + k
        } else {
            k - (n - c)
        }),
    decreases k,
{
    if k > 0 {
        lemma_wrap_next_many_closed(c, n, (k - 1) as nat);
    }
}

/// Advancing as many times as the playlist holds tracks returns the cursor
/// to where it started: the implicit loop-all policy cycles the playlist.
pub proof fn lemma_advance_cycles(c: int, n: int)
    requires
        1 <= c <= n,
    ensures
        wrap_next_many(c, n, n as nat) == c,
{
    lemma_wrap_next_many_closed(c, n, n as nat);
}

/// The track-finished transition relation over the controller's core
/// fields: how `post` and the issued command follow from `pre` when the
/// output has run empty with a track selected.
pub open spec fn finish_transition(pre: Player, post: Player, cmd: AudioCommand) -> bool {
    &&& (pre.play_state == PlayState::Paused(true) ==> {
        &&& post.play_state == PlayState::Paused(false)
        &&& post.curr_songid == pre.curr_songid
        &&& post.audio_path == pre.audio_path
        &&& cmd == AudioCommand::PrimeTrack
    })
    &&& (pre.play_state == PlayState::Playing(false) ==> {
        &&& post.play_state == pre.play_state
        &&& post.curr_songid as int == wrap_next(pre.curr_songid as int, pre.curr_songnum as int)
        &&& post.audio_path@ == pre.curr_playlist@[post.curr_songid - 1]@
        &&& cmd == AudioCommand::StartTrack
    })
    &&& (pre.play_state != PlayState::Paused(true) && pre.play_state != PlayState::Playing(false)
        ==> {
        &&& post.play_state == pre.play_state
        &&& post.curr_songid == pre.curr_songid
        &&& post.audio_path == pre.audio_path
        &&& cmd == AudioCommand::Stay
    })
    &&& post.song_name == post.audio_path
    &&& post.curr_songnum == pre.curr_songnum
    &&& post.curr_playlist@ == pre.curr_playlist@
    &&& post.audio_file_list.files@ == pre.audio_file_list.files@
    &&& post.audio_file_list.dirs@ == pre.audio_file_list.dirs@
}

/// What the duration of the active stream works out to on a tick: a fixed
/// harmless value with no active path, else the reported duration, with the
/// unknown-duration sentinel for a backend that cannot tell.
pub open spec fn spec_effective_duration(path_empty: bool, total: Option<u64>) -> u64 {
    if path_empty {
        1
    } else {
        match total {
            Option::Some(d) => d,
            Option::None => UNKNOWN_DURATION_SECS,
        }
    }
}

impl Player {
    /// Well-formedness: the cursor stays within the track count, a non-zero
    /// count matches the playlist length, `Idle` is exactly "no track
    /// selected", and the two time fields fit the fixed layout.
    pub open spec fn wf(self) -> bool {
        &&& self.curr_songid <= self.curr_songnum
        &&& self.curr_songnum > 0 ==> self.curr_playlist@.len() == self.curr_songnum as int
        &&& (self.play_state is Idle <==> self.curr_songid == 0)
        &&& self.song_curr_time@.len() <= 26
        &&& self.song_duration@.len() <= 7
    }

    /// A fresh controller: nothing selected, empty display fields, an empty
    /// progress bar, and the parent-directory playlist entry.
    pub fn new() -> (r: Self)
        ensures
            r.wf(),
            r.audio_path@.len() == 0,
            r.song_name@.len() == 0,
            r.song_curr_time@.len() == 0,
            r.song_duration@.len() == 0,
            r.song_progress@ == "-------------------------"@,
            r.play_state == PlayState::Idle,
            r.audio_file_list.files@.len() == 0,
            r.audio_file_list.dirs@.len() == 0,
            r.curr_playlist@.len() == 1,
            r.curr_playlist@[0]@ == ".."@,
            r.curr_songid == 0,
            r.curr_songnum == 0,
    {
        let mut playlist: Vec<String> = Vec::new();
        playlist.push("..".to_owned());
        Self {
            audio_path: String::new(),
            song_name: String::new(),
            song_curr_time: String::new(),
            song_duration: String::new(),
            song_progress: "-------------------------".to_owned(),
            play_state: PlayState::Idle,
            audio_file_list: AudioFileList::new(),
            curr_playlist: playlist,
            curr_songid: 0,
            curr_songnum: 0,
        }
    }

    /// One toggle-play input with the given press phase. Only a press with
    /// a track selected does anything: from `Paused(false)` or
    /// `Playing(true)` it moves to `Playing(false)` and resumes the output;
    /// from `Playing(false)` or `Paused(true)` it moves to `Paused(false)`
    /// and pauses it. A release phase never triggers a second transition.
    pub fn handle_toggle(&mut self, press: bool) -> (cmd: AudioCommand)
        requires
            old(self).wf(),
        ensures
            final(self).wf(),
            *final(self) == spec_toggle(*old(self), press),
            cmd == (if press && old(self).curr_songid != 0 && toggle_resumes(old(self).play_state) {
                AudioCommand::Resume
            } else if press && old(self).curr_songid != 0 && toggle_pauses(old(self).play_state) {
                AudioCommand::Pause
            } else {
                AudioCommand::Stay
            }),
    {
        if !press || self.curr_songid == 0 {
            return AudioCommand::Stay;
        }
        match self.play_state {
            PlayState::Paused(false) | PlayState::Playing(true) => {
                self.play_state = PlayState::Playing(false);
                AudioCommand::Resume
            },
            PlayState::Playing(false) | PlayState::Paused(true) => {
                self.play_state = PlayState::Paused(false);
                AudioCommand::Pause
            },
            _ => AudioCommand::Stay,
        }
    }

    /// The output ran empty on a tick. With a track selected: a pending
    /// `Paused(true)` primes the active path and holds it paused;
    /// `Playing(false)` advances the cursor, wrapping past the last track,
    /// and starts the new one; any other state issues no command. The shown
    /// name is refreshed from the active path either way.
    pub fn handle_track_finished(&mut self) -> (cmd: AudioCommand)
        requires
            old(self).wf(),
        ensures
            final(self).wf(),
            old(self).curr_songid == 0 ==> *final(self) == *old(self) && cmd == AudioCommand::Stay,
            old(self).curr_songid != 0 ==> {
                &&& finish_transition(*old(self), *final(self), cmd)
                &&& final(self).song_curr_time == old(self).song_curr_time
                &&& final(self).song_duration == old(self).song_duration
                &&& final(self).song_progress == old(self).song_progress
            },
    {
        if self.curr_songid == 0 {
            return AudioCommand::Stay;
        }
        let cmd = match self.play_state {
            PlayState::Paused(true) => {
                self.play_state = PlayState::Paused(false);
                AudioCommand::PrimeTrack
            },
            PlayState::Playing(false) => {
                if self.curr_songid >= self.curr_songnum {
                    self.curr_songid = 1;
                } else {
                    self.curr_songid = self.curr_songid + 1;
                }
                self.audio_path = self.curr_playlist[(self.curr_songid - 1) as usize].clone();
                AudioCommand::StartTrack
            },
            _ => AudioCommand::Stay,
        };
        self.song_name = self.audio_path.clone();
        cmd
    }

    /// One load-playlist input, given the outcome of scanning the
    /// configured folder. A failed scan leaves everything as it was. A
    /// non-empty scan selects the first found track; an empty one deselects
    /// and shows the no-audio message in place of a track name.
    pub fn handle_load(&mut self, scan: Result<Vec<DirEntryInfo>, ScanError>)
        requires
            old(self).wf(),
            scan is Ok ==> scan->Ok_0@.len() <= u16::MAX,
        ensures
            final(self).wf(),
            scan is Err ==> *final(self) == *old(self),
            scan is Ok ==> {
                let names = audio_names(scan->Ok_0@);
                &&& final(self).audio_file_list.files.deep_view() == names
                &&& final(self).audio_file_list.dirs@ == old(self).audio_file_list.dirs@
                &&& final(self).curr_songnum as int == names.len()
                &&& (names.len() > 0 ==> {
                    &&& final(self).curr_songid == 1
                    &&& final(self).curr_playlist.deep_view() == names
                    &&& final(self).audio_path@ == names[0]
                    &&& final(self).play_state == (if old(self).play_state is Idle {
                        PlayState::Paused(true)
                    } else {
                        old(self).play_state
                    })
                    &&& final(self).song_name == old(self).song_name
                })
                &&& (names.len() == 0 ==> {
                    &&& final(self).curr_songid == 0
                    &&& final(self).curr_playlist@ == old(self).curr_playlist@
                    &&& final(self).audio_path == old(self).audio_path
                    &&& final(self).play_state == PlayState::Idle
                    &&& final(self).song_name@ == "there's no audio files."@
                })
                &&& final(self).song_curr_time == old(self).song_curr_time
                &&& final(self).song_duration == old(self).song_duration
                &&& final(self).song_progress == old(self).song_progress
            },
    {
        let entries = match scan {
            Ok(e) => e,
            Err(_) => {
                return ;
            },
        };
        self.audio_file_list.reset();
        let mut i: usize = 0;
        proof {
            assert(self.audio_file_list.files.deep_view() =~= audio_names(
                entries@.subrange(0, 0)));
        }
        while i < entries.len()
            invariant
                i <= entries@.len(),
                self.audio_file_list.files.deep_view() == audio_names(
                    entries@.subrange(0, i as int)),
                self.audio_file_list.files@.len() <= i,
                self.audio_file_list.dirs@ == old(self).audio_file_list.dirs@,
                self.audio_path == old(self).audio_path,
                self.song_name == old(self).song_name,
                self.song_curr_time == old(self).song_curr_time,
                self.song_duration == old(self).song_duration,
                self.song_progress == old(self).song_progress,
                self.play_state == old(self).play_state,
                self.curr_playlist@ == old(self).curr_playlist@,
                self.curr_songid == old(self).curr_songid,
                self.curr_songnum == old(self).curr_songnum,
            decreases entries@.len() - i,
        {
            let keep = entries[i].is_file && audio_name(entries[i].name.as_str());
            if keep {
                let name = entries[i].name.clone();
                self.audio_file_list.insert_file(name);
            }
            i = i + 1;
            proof {
                assert(entries@.subrange(0, i as int).drop_last() =~= entries@.subrange(
                    0,
                    i - 1,
                ));
                assert(entries@.subrange(0, i as int).last() == entries@[i - 1]);
                assert(self.audio_file_list.files.deep_view() =~= audio_names(
                    entries@.subrange(0, i as int)));
            }
        }
        proof {
            assert(entries@.subrange(0, entries@.len() as int) =~= entries@);
            lemma_audio_names_len(entries@);
        }
        let n = self.audio_file_list.files.len();
        self.curr_songnum = n as u16;
        if n != 0 {
            self.curr_songid = 1;
            let mut new_playlist: Vec<String> = Vec::new();
            let mut k: usize = 0;
            while k < self.audio_file_list.files.len()
                invariant
                    k <= self.audio_file_list.files@.len(),
                    new_playlist@.len() == k as int,
                    forall|t: int|
                        0 <= t < k ==> new_playlist@[t] == self.audio_file_list.files@[t],
                decreases self.audio_file_list.files@.len() - k,
            {
                let entry = self.audio_file_list.files[k].clone();
                new_playlist.push(entry);
                k = k + 1;
            }
            proof {
                assert(new_playlist.deep_view() =~= self.audio_file_list.files.deep_view());
            }
            self.curr_playlist = new_playlist;
            self.audio_path = self.curr_playlist[0].clone();
            if matches!(self.play_state, PlayState::Idle) {
                self.play_state = PlayState::Paused(true);
            }
        } else {
            self.curr_songid = 0;
            self.song_name = "there's no audio files.".to_owned();
            self.play_state = PlayState::Idle;
        }
    }

    /// Refreshes the formatted elapsed time from the output's position.
    pub fn show_song_curr_time(&mut self, curr: u64)
        requires
            old(self).wf(),
        ensures
            final(self).wf(),
            final(self).song_curr_time@ == spec_duration(curr as nat),
            *final(self) == (Player { song_curr_time: final(self).song_curr_time, ..*old(self) }),
    {
        proof {
            lemma_spec_duration_len(curr as nat);
        }
        self.song_curr_time = format_duration(curr);
    }

    /// Refreshes the formatted total duration from what the decoder
    /// reported, and returns the duration the rest of the tick works with:
    /// a fixed harmless value with no active path, else the reported
    /// duration with the unknown-duration sentinel standing in for "cannot
    /// tell".
    pub fn show_song_duration(&mut self, total: Option<u64>) -> (dur: u64)
        requires
            old(self).wf(),
        ensures
            final(self).wf(),
            dur == spec_effective_duration(old(self).audio_path@.len() == 0, total),
            old(self).audio_path@.len() == 0 ==> final(self).song_duration@.len() == 0,
            old(self).audio_path@.len() > 0 ==> final(self).song_duration@ == spec_duration_text(
                dur as nat),
            *final(self) == (Player { song_duration: final(self).song_duration, ..*old(self) }),
    {
        if !self.audio_path.as_str().is_empty() {
            let dur = match total {
                Some(d) => d,
                None => UNKNOWN_DURATION_SECS,
            };
            if dur < UNKNOWN_DURATION_SECS {
                proof {
                    lemma_spec_duration_len(dur as nat);
                }
                self.song_duration = format_duration(dur);
            } else {
                self.song_duration = "?[-_-#]".to_owned();
                proof {
                    reveal_strlit("?[-_-#]");
                }
            }
            dur
        } else {
            self.song_duration = String::new();
            1
        }
    }

    /// Refreshes the progress bar. The unknown-duration sentinel always
    /// yields the indeterminate bar; otherwise a bar is computed only while
    /// the output still holds a stream, and kept as it was when the output
    /// is empty.
    pub fn show_song_progress(&mut self, curr: u64, dur: u64, sink_empty: bool)
        requires
            old(self).wf(),
            dur != UNKNOWN_DURATION_SECS && !sink_empty ==> 0 < dur && curr <= dur && curr
                * BAR_LENGTH <= u64::MAX,
        ensures
            final(self).wf(),
            dur == UNKNOWN_DURATION_SECS ==> final(self).song_progress@
                == spec_indeterminate_bar(),
            dur != UNKNOWN_DURATION_SECS && !sink_empty ==> final(self).song_progress@
                == spec_progress(curr as nat, dur as nat, BAR_LENGTH as nat),
            dur != UNKNOWN_DURATION_SECS && sink_empty ==> final(self).song_progress
                == old(self).song_progress,
            *final(self) == (Player { song_progress: final(self).song_progress, ..*old(self) }),
    {
        if dur == UNKNOWN_DURATION_SECS {
            self.song_progress = "============/============".to_owned();
        } else if !sink_empty {
            self.song_progress = format_progress(curr, dur, BAR_LENGTH);
        }
    }

    /// One tick on which the output is not paused: refreshes the three
    /// display strings from the live position and the reported duration,
    /// and, when the output has run empty with a track selected, performs
    /// the track-finished transition and returns its command.
    pub fn on_tick(&mut self, curr: u64, total: Option<u64>, sink_empty: bool) -> (cmd:
        AudioCommand)
        requires
            old(self).wf(),
            ({
                let dur = spec_effective_duration(old(self).audio_path@.len() == 0, total);
                dur != UNKNOWN_DURATION_SECS && !sink_empty ==> 0 < dur && curr <= dur && curr
                    * BAR_LENGTH <= u64::MAX
            }),
        ensures
            final(self).wf(),
            final(self).song_curr_time@ == spec_duration(curr as nat),
            ({
                let dur = spec_effective_duration(old(self).audio_path@.len() == 0, total);
                &&& (old(self).audio_path@.len() == 0 ==> final(self).song_duration@.len() == 0)
                &&& (old(self).audio_path@.len() > 0 ==> final(self).song_duration@
                    == spec_duration_text(dur as nat))
                &&& (dur == UNKNOWN_DURATION_SECS ==> final(self).song_progress@
                    == spec_indeterminate_bar())
                &&& (dur != UNKNOWN_DURATION_SECS && !sink_empty ==> final(self).song_progress@
                    == spec_progress(curr as nat, dur as nat, BAR_LENGTH as nat))
                &&& (dur != UNKNOWN_DURATION_SECS && sink_empty ==> final(self).song_progress
                    == old(self).song_progress)
            }),
            sink_empty && old(self).curr_songid != 0 ==> finish_transition(
                *old(self),
                *final(self),
                cmd,
            ),
            !(sink_empty && old(self).curr_songid != 0) ==> {
                &&& cmd == AudioCommand::Stay
                &&& final(self).play_state == old(self).play_state
                &&& final(self).curr_songid == old(self).curr_songid
                &&& final(self).curr_songnum == old(self).curr_songnum
                &&& final(self).curr_playlist@ == old(self).curr_playlist@
                &&& final(self).audio_path == old(self).audio_path
                &&& final(self).song_name == old(self).song_name
                &&& final(self).audio_file_list.files@ == old(self).audio_file_list.files@
                &&& final(self).audio_file_list.dirs@ == old(self).audio_file_list.dirs@
            },
    {
        self.show_song_curr_time(curr);
        let dur = self.show_song_duration(total);
        self.show_song_progress(curr, dur, sink_empty);
        if sink_empty && self.curr_songid != 0 {
            self.handle_track_finished()
        } else {
            AudioCommand::Stay
        }
    }

    /// Resolves the transient `Restarting` state: seek the output back to
    /// the start and hold the track paused. In any other state this does
    /// nothing.
    pub fn resolve_restart(&mut self) -> (cmd: AudioCommand)
        requires
            old(self).wf(),
        ensures
            final(self).wf(),
            old(self).play_state == PlayState::Restarting ==> {
                &&& *final(self) == (Player { play_state: PlayState::Paused(false), ..*old(self) })
                &&& cmd == AudioCommand::SeekToStart
            },
            old(self).play_state != PlayState::Restarting ==> *final(self) == *old(self) && cmd
                == AudioCommand::Stay,
    {
        if matches!(self.play_state, PlayState::Restarting) {
            self.play_state = PlayState::Paused(false);
            AudioCommand::SeekToStart
        } else {
            AudioCommand::Stay
        }
    }
}

} // verus!
