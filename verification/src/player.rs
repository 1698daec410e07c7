//! The player as the interface sees it: what is loaded, where playback
//! stands, and the window of samples under the playhead.
//!
//! Times are microseconds on a clock that the caller reads; volume is in
//! thousandths.

use vstd::prelude::*;
use crate::text::has_prefix;
use crate::text::joined;
use crate::text::starts_with;
use crate::fixed::clamp_int;
use crate::fixed::SAMPLE_ONE;
use crate::input::Matrix;
use crate::input::deinterleaved;
use crate::input::stream_to_matrix;

verus! {

/// Files above this size play without being loaded for the scope: 20 MiB.
pub const STREAMING_THRESHOLD: u64 = 20 * 1024 * 1024;

/// The bytes in one second of such a file, for a rough duration: 128 kbit/s.
pub const BYTES_PER_SECOND: u64 = 16000;

/// The highest volume, ten, in thousandths.
pub const VOLUME_MAX: u32 = 10_000;

/// One step of the volume, a tenth, in thousandths.
pub const VOLUME_STEP: i32 = 100;

/// How a file is to be played.
#[derive(Clone, Copy, Debug, PartialEq, Eq, Structural)]
pub enum PlaybackPlan {
    /// Decode while playing; the scope shows nothing. The duration is
    /// estimated from the size.
    Streaming { approx_seconds: u64 },
    /// Decode everything first, for the scope.
    FullLoad,
}

/// What the output device is to do after a state change.
#[derive(Clone, Copy, Debug, PartialEq, Eq, Structural)]
pub enum SinkCommand {
    Play,
    Pause,
}

/// What loading a path or an address begins with.
#[derive(Clone, Copy, Debug, PartialEq, Eq, Structural)]
pub enum LoadPlan {
    /// No output device: nothing is loaded.
    Nothing,
    /// An address: download it first, then play the download.
    Download,
    /// A path: play the file.
    PlayLocal,
}

/// The plan for a file of `file_size` bytes.
pub open spec fn planned(file_size: u64) -> PlaybackPlan {
    if file_size > STREAMING_THRESHOLD {
        PlaybackPlan::Streaming { approx_seconds: file_size / BYTES_PER_SECOND }
    } else {
        PlaybackPlan::FullLoad
    }
}

/// Chooses the plan for a file of `file_size` bytes.
pub fn plan_playback(file_size: u64) -> (plan: PlaybackPlan)
    ensures
        plan == planned(file_size),
{
    if file_size > STREAMING_THRESHOLD {
        PlaybackPlan::Streaming { approx_seconds: file_size / BYTES_PER_SECOND }
    } else {
        PlaybackPlan::FullLoad
    }
}

/// `x` limited to what a `u64` holds.
pub open spec fn saturated(x: int) -> int {
    clamp_int(x, 0, u64::MAX as int)
}

/// The state of the player.
pub struct AudioPlayer {
    /// Whether an output device was opened.
    pub has_sink: bool,
    /// The decoded samples, per channel, for the scope.
    pub audio_data: Matrix,
    pub sample_rate: u32,
    pub channels: usize,
    /// Playing without decoded samples.
    pub is_streaming_mode: bool,
    /// When playback last started or resumed; unset while paused or idle.
    pub start_time: Option<u64>,
    /// The time played up to the last pause.
    pub elapsed_when_paused: u64,
    pub total_duration: Option<u64>,
    pub error_message: Option<String>,
    pub is_paused: bool,
    pub volume: u32,
}

/// A matrix of `channels` buffers of `len` zeros.
pub open spec fn silence(channels: int, len: int) -> Seq<Seq<i32>> {
    Seq::new(channels as nat, |c: int| Seq::new(len as nat, |i: int| 0i32))
}

/// A buffer of `len` zeros.
fn zeros(len: usize) -> (buffer: Vec<i32>)
    ensures
        buffer@ == Seq::new(len as nat, |i: int| 0i32),
{
    let mut buffer: Vec<i32> = Vec::new();
    let mut i: usize = 0;
    while i < len
        invariant
            i <= len,
            buffer@.len() == i,
            forall|k: int| 0 <= k < i ==> buffer@[k] == 0,
        decreases len - i,
    {
        buffer.push(0);
        i += 1;
    }
    buffer
}

/// A matrix of `channels` buffers of `len` zeros.
pub fn flat_line(channels: usize, len: usize) -> (matrix: Matrix)
    ensures
        matrix.deep_view() == silence(channels as int, len as int),
{
    let mut matrix: Matrix = Vec::new();
    let mut c: usize = 0;
    while c < channels
        invariant
            c <= channels,
            matrix@.len() == c,
            forall|k: int| 0 <= k < c ==> (#[trigger] matrix@[k])@ == Seq::new(
                len as nat,
                |i: int| 0i32,
            ),
        decreases channels - c,
    {
        matrix.push(zeros(len));
        c += 1;
    }
    assert(matrix.deep_view() =~= silence(channels as int, len as int)) by {
        assert forall|k: int| 0 <= k < channels implies #[trigger] matrix.deep_view()[k]
            =~= silence(channels as int, len as int)[k] by {}
    }
    matrix
}

impl AudioPlayer {
    /// One buffer per channel.
    pub open spec fn well_formed(self) -> bool {
        self.audio_data@.len() == self.channels
    }

    /// The position of playback at time `now`: the time played up to the
    /// last pause, and the time since playback resumed. It stops at the
    /// largest time that can be written.
    pub open spec fn current_time(self, now: u64) -> int {
        if self.is_paused {
            self.elapsed_when_paused as int
        } else {
            match self.start_time {
                Some(start) => saturated(self.elapsed_when_paused + saturated(now - start)),
                None => 0,
            }
        }
    }

    /// The time played once playback pauses at `now`: what was played up
    /// to the last pause, and the time since it resumed, if it did.
    pub open spec fn current_time_or_elapsed(self, now: u64) -> int {
        match self.start_time {
            Some(start) => saturated(self.elapsed_when_paused + saturated(now - start)),
            None => self.elapsed_when_paused as int,
        }
    }

    /// Whether the scope has nothing to show: paused, streaming, or no
    /// samples loaded.
    pub open spec fn shows_flat_line(self) -> bool {
        self.is_paused || self.is_streaming_mode || self.audio_data@.len() == 0
            || self.audio_data@[0]@.len() == 0
    }

    /// The index of the sample under the playhead at time `now`.
    pub open spec fn playhead(self, now: u64) -> int {
        clamp_int(
            self.current_time(now) * self.sample_rate / 1_000_000,
            0,
            usize::MAX as int,
        )
    }

    /// The window of `window_size` samples per channel that begins under
    /// the playhead, zeros where a channel ends before the window does.
    pub open spec fn window(self, window_size: int, now: u64) -> Seq<Seq<i32>> {
        if self.shows_flat_line() {
            silence(self.channels as int, window_size)
        } else {
            Seq::new(
                self.channels as nat,
                |c: int|
                    Seq::new(
                        window_size as nat,
                        |i: int|
                            if self.playhead(now) + i < self.audio_data@[c]@.len() {
                                self.audio_data@[c]@[self.playhead(now) + i]
                            } else {
                                0i32
                            },
                    ),
            )
        }
    }

    /// A player with two silent channels at 44.1 kHz and full volume.
    /// `has_sink` says whether the output device could be opened;
    /// `error_message` is what it said where it could not.
    pub fn new(has_sink: bool, error_message: Option<String>) -> (player: Self)
        ensures
            player.well_formed(),
            player.has_sink == has_sink,
            player.error_message == error_message,
            player.audio_data.deep_view() == silence(2, 1024),
            player.sample_rate == 44100,
            player.channels == 2,
            !player.is_streaming_mode && !player.is_paused,
            player.start_time is None && player.total_duration is None,
            player.elapsed_when_paused == 0,
            player.volume == 1000,
    {
        let audio_data = flat_line(2, 1024);
        assert(audio_data.deep_view().len() == 2);
        AudioPlayer {
            has_sink,
            audio_data,
            sample_rate: 44100,
            channels: 2,
            is_streaming_mode: false,
            start_time: None,
            elapsed_when_paused: 0,
            total_duration: None,
            error_message,
            is_paused: false,
            volume: 1000,
        }
    }

    /// The position of playback at time `now`.
    pub fn get_current_time(&self, now: u64) -> (elapsed: u64)
        ensures
            elapsed == self.current_time(now),
    {
        if self.is_paused {
            self.elapsed_when_paused
        } else {
            match self.start_time {
                Some(start) => self.elapsed_when_paused.saturating_add(now.saturating_sub(start)),
                None => 0,
            }
        }
    }

    /// Whether two states agree on everything but the clock and the pause.
    pub open spec fn same_track(self, other: Self) -> bool {
        &&& self.has_sink == other.has_sink
        &&& self.audio_data == other.audio_data
        &&& self.sample_rate == other.sample_rate
        &&& self.channels == other.channels
        &&& self.is_streaming_mode == other.is_streaming_mode
        &&& self.total_duration == other.total_duration
        &&& self.error_message == other.error_message
        &&& self.volume == other.volume
    }

    /// Whether two states agree on everything but the error message.
    pub open spec fn unchanged_but_error(self, other: Self) -> bool {
        &&& self.same_clock(other)
        &&& self.has_sink == other.has_sink
        &&& self.audio_data == other.audio_data
        &&& self.sample_rate == other.sample_rate
        &&& self.channels == other.channels
        &&& self.is_streaming_mode == other.is_streaming_mode
        &&& self.total_duration == other.total_duration
        &&& self.volume == other.volume
    }

    /// Whether two states agree on everything but the volume.
    pub open spec fn unchanged_but_volume(self, other: Self) -> bool {
        &&& self.same_clock(other)
        &&& self.has_sink == other.has_sink
        &&& self.audio_data == other.audio_data
        &&& self.sample_rate == other.sample_rate
        &&& self.channels == other.channels
        &&& self.is_streaming_mode == other.is_streaming_mode
        &&& self.total_duration == other.total_duration
        &&& self.error_message == other.error_message
    }

    /// Whether two states agree on the clock and the pause.
    pub open spec fn same_clock(self, other: Self) -> bool {
        &&& self.start_time == other.start_time
        &&& self.elapsed_when_paused == other.elapsed_when_paused
        &&& self.is_paused == other.is_paused
    }

    /// Pauses playback, or resumes it, at time `now`, and says what the
    /// output device is to do. Without an output device nothing changes.
    ///
    /// Resuming leaves the position where it was; so does pausing what was
    /// started. The position then stands still until playback resumes.
    pub fn toggle_pause(&mut self, now: u64) -> (command: Option<SinkCommand>)
        ensures
            final(self).same_track(*old(self)),
            !old(self).has_sink ==> command is None && final(self).same_clock(*old(self)),
            old(self).has_sink && old(self).is_paused ==> {
                &&& command == Some(SinkCommand::Play)
                &&& !final(self).is_paused
                &&& final(self).start_time == Some(now)
                &&& final(self).elapsed_when_paused == old(self).elapsed_when_paused
                &&& final(self).current_time(now) == old(self).current_time(now)
            },
            old(self).has_sink && !old(self).is_paused ==> {
                &&& command == Some(SinkCommand::Pause)
                &&& final(self).is_paused
                &&& final(self).start_time is None
                &&& final(self).elapsed_when_paused == old(self).current_time_or_elapsed(now)
                &&& old(self).start_time is Some ==> forall|later: u64|
                    final(self).current_time(later) == old(self).current_time(now)
            },
    {
        if !self.has_sink {
            return None;
        }
        if self.is_paused {
            self.is_paused = false;
            self.start_time = Some(now);
            Some(SinkCommand::Play)
        } else {
            self.is_paused = true;
            match self.start_time {
                Some(start) => {
                    self.elapsed_when_paused = self.elapsed_when_paused.saturating_add(
                        now.saturating_sub(start),
                    );
                },
                None => {},
            }
            self.start_time = None;
            Some(SinkCommand::Pause)
        }
    }

    /// Sets the volume, held to `[0, 10]`, and returns it for the output
    /// device. Without an output device nothing changes.
    pub fn set_volume(&mut self, volume: i64) -> (applied: Option<u32>)
        ensures
            final(self).unchanged_but_volume(*old(self)),
            final(self).volume == if old(self).has_sink {
                clamp_int(volume as int, 0, VOLUME_MAX as int)
            } else {
                old(self).volume as int
            },
            applied == if old(self).has_sink {
                Some(final(self).volume)
            } else {
                None
            },
    {
        if !self.has_sink {
            return None;
        }
        self.volume = if volume < 0 {
            0
        } else if volume > VOLUME_MAX as i64 {
            VOLUME_MAX
        } else {
            volume as u32
        };
        Some(self.volume)
    }

    /// The volume one step up.
    pub fn volume_up(&mut self) -> (applied: Option<u32>)
        ensures
            final(self).unchanged_but_volume(*old(self)),
            final(self).volume == if old(self).has_sink {
                clamp_int(old(self).volume + VOLUME_STEP, 0, VOLUME_MAX as int)
            } else {
                old(self).volume as int
            },
            applied == if old(self).has_sink {
                Some(final(self).volume)
            } else {
                None
            },
    {
        self.set_volume(self.volume as i64 + VOLUME_STEP as i64)
    }

    /// The volume one step down.
    pub fn volume_down(&mut self) -> (applied: Option<u32>)
        ensures
            final(self).unchanged_but_volume(*old(self)),
            final(self).volume == if old(self).has_sink {
                clamp_int(old(self).volume - VOLUME_STEP, 0, VOLUME_MAX as int)
            } else {
                old(self).volume as int
            },
            applied == if old(self).has_sink {
                Some(final(self).volume)
            } else {
                None
            },
    {
        self.set_volume(self.volume as i64 - VOLUME_STEP as i64)
    }

    /// Starts the clock at `now`, from zero and unpaused, where the output
    /// device took the track; leaves it as it was where it did not.
    fn restart_clock(&mut self, sink_ready: bool, now: u64)
        ensures
            final(self).same_track(*old(self)),
            sink_ready ==> final(self).start_time == Some(now) && final(self).elapsed_when_paused == 0 && !final(self).is_paused,
            !sink_ready ==> final(self).same_clock(*old(self)),
    {
        if sink_ready {
            self.start_time = Some(now);
            self.elapsed_when_paused = 0;
            self.is_paused = false;
        }
    }

    /// Takes up a track that plays without being loaded: no samples for the
    /// scope, and the estimated duration.
    pub fn start_streaming(
        &mut self,
        sample_rate: u32,
        channels: usize,
        approx_seconds: u64,
        sink_ready: bool,
        now: u64,
    )
        ensures
            final(self).well_formed(),
            final(self).is_streaming_mode,
            final(self).sample_rate == sample_rate,
            final(self).channels == channels,
            final(self).audio_data.deep_view() == silence(channels as int, 0),
            final(self).total_duration == Some(saturated(approx_seconds * 1_000_000) as u64),
            final(self).has_sink == old(self).has_sink,
            final(self).volume == old(self).volume,
            final(self).error_message == old(self).error_message,
            sink_ready ==> final(self).start_time == Some(now) && final(self).elapsed_when_paused == 0 && !final(self).is_paused,
            !sink_ready ==> final(self).same_clock(*old(self)),
    {
        self.sample_rate = sample_rate;
        self.channels = channels;
        self.is_streaming_mode = true;
        self.audio_data = flat_line(channels, 0);
        assert(self.audio_data.deep_view().len() == channels);
        self.total_duration = Some(
            if approx_seconds > u64::MAX / 1_000_000 {
                u64::MAX
            } else {
                approx_seconds * 1_000_000
            },
        );
        self.restart_clock(sink_ready, now);
    }

    /// The duration of `frames` sample frames at `sample_rate`, in
    /// microseconds, rounded down.
    pub open spec fn duration_of(frames: int, sample_rate: int) -> int {
        saturated(frames * 1_000_000 / sample_rate)
    }

    /// Takes up a track that was decoded in full: `samples` holds the
    /// amplitudes of all channels, interleaved.
    pub fn load_samples(
        &mut self,
        sample_rate: u32,
        channels: usize,
        samples: &[i32],
        sink_ready: bool,
        now: u64,
    )
        requires
            sample_rate > 0,
            channels > 0,
        ensures
            final(self).well_formed(),
            !final(self).is_streaming_mode,
            final(self).sample_rate == sample_rate,
            final(self).channels == channels,
            final(self).audio_data.deep_view() == deinterleaved(
                samples@,
                channels as int,
                SAMPLE_ONE as int,
            ),
            final(self).total_duration == Some(
                Self::duration_of(
                    (samples@.len() as int) / (channels as int),
                    sample_rate as int,
                ) as u64,
            ),
            final(self).has_sink == old(self).has_sink,
            final(self).volume == old(self).volume,
            final(self).error_message == old(self).error_message,
            sink_ready ==> final(self).start_time == Some(now) && final(self).elapsed_when_paused == 0 && !final(self).is_paused,
            !sink_ready ==> final(self).same_clock(*old(self)),
    {
        self.sample_rate = sample_rate;
        self.channels = channels;
        self.is_streaming_mode = false;
        let frames: usize = samples.len() / channels;
        let micros: u128 = (frames as u128) * 1_000_000 / (sample_rate as u128);
        self.total_duration = Some(
            if micros > u64::MAX as u128 {
                u64::MAX
            } else {
                micros as u64
            },
        );
        self.restart_clock(sink_ready, now);
        self.audio_data = stream_to_matrix(samples, channels, SAMPLE_ONE as u32);
        assert(self.audio_data.deep_view().len() == channels);
    }

    /// Begins to load a track: forgets the last error, and says whether
    /// `path_or_url` is an address to download, which begins with `http`, or
    /// a path to play. Without an output device nothing happens.
    pub fn load_source(&mut self, path_or_url: &str) -> (plan: LoadPlan)
        ensures
            final(self).unchanged_but_error(*old(self)),
            final(self).error_message == if old(self).has_sink {
                None
            } else {
                old(self).error_message
            },
            plan == if !old(self).has_sink {
                LoadPlan::Nothing
            } else if has_prefix(path_or_url@, "http"@) {
                LoadPlan::Download
            } else {
                LoadPlan::PlayLocal
            },
    {
        if !self.has_sink {
            return LoadPlan::Nothing;
        }
        self.error_message = None;
        if starts_with(path_or_url, "http") {
            LoadPlan::Download
        } else {
            LoadPlan::PlayLocal
        }
    }

    /// Records that the file at `path` could not be opened.
    pub fn file_not_found(&mut self, path: &str)
        ensures
            final(self).unchanged_but_error(*old(self)),
            final(self).error_message is Some,
            final(self).error_message->Some_0@ == "File not found: "@ + path@,
    {
        self.error_message = Some(joined("File not found: ", path));
    }

    /// Records that the file could not be decoded; `detail` is what the
    /// decoder said.
    pub fn format_error(&mut self, detail: &str)
        ensures
            final(self).unchanged_but_error(*old(self)),
            final(self).error_message is Some,
            final(self).error_message->Some_0@ == "Format error: "@ + detail@,
    {
        self.error_message = Some(joined("Format error: ", detail));
    }

    /// The samples to draw at time `now`.
    pub fn get_window(&self, window_size: usize, now: u64) -> (window: Matrix)
        requires
            self.well_formed(),
        ensures
            window.deep_view() == self.window(window_size as int, now),
    {
        if self.is_paused || self.is_streaming_mode {
            return flat_line(self.channels, window_size);
        }
        if self.audio_data.len() == 0 || self.audio_data[0].len() == 0 {
            return flat_line(self.channels, window_size);
        }
        let elapsed: u64 = self.get_current_time(now);
        assert(0 <= elapsed * self.sample_rate <= 0xffff_ffff_ffff_ffff * 0xffff_ffff)
            by (nonlinear_arith)
            requires
                0 <= elapsed <= 0xffff_ffff_ffff_ffff,
                0 <= self.sample_rate <= 0xffff_ffff,
        ;
        let wide: u128 = (elapsed as u128) * (self.sample_rate as u128) / 1_000_000;
        let start: usize = if wide > usize::MAX as u128 {
            usize::MAX
        } else {
            wide as usize
        };
        let mut window: Matrix = Vec::new();
        let mut c: usize = 0;
        while c < self.channels
            invariant
                c <= self.channels == self.audio_data@.len(),
                start == self.playhead(now),
                window@.len() == c,
                forall|k: int, i: int|
                    0 <= k < c && 0 <= i < window_size ==> (#[trigger] window@[k])@.len()
                        == window_size && #[trigger] window@[k]@[i] == if start + i
                        < self.audio_data@[k]@.len() {
                        self.audio_data@[k]@[start + i]
                    } else {
                        0i32
                    },
                forall|k: int| 0 <= k < c ==> (#[trigger] window@[k])@.len() == window_size,
            decreases self.channels - c,
        {
            let channel: &Vec<i32> = &self.audio_data[c];
            let mut buffer: Vec<i32> = Vec::new();
            let mut i: usize = 0;
            while i < window_size
                invariant
                    i <= window_size,
                    buffer@.len() == i,
                    forall|j: int|
                        0 <= j < i ==> #[trigger] buffer@[j] == if start + j < channel@.len() {
                            channel@[start + j]
                        } else {
                            0i32
                        },
                decreases window_size - i,
            {
                let sample: i32 = if start < channel.len() && i < channel.len() - start {
                    channel[start + i]
                } else {
                    0
                };
                buffer.push(sample);
                i += 1;
            }
            window.push(buffer);
            c += 1;
        }
        assert(window.deep_view() =~= self.window(window_size as int, now)) by {
            assert forall|k: int| 0 <= k < self.channels implies #[trigger] window.deep_view()[k]
                =~= self.window(window_size as int, now)[k] by {}
        }
        window
    }
}

} // verus!
