//! What to listen to, and how to buffer it.

use vstd::prelude::*;
use crate::music::Note;
use crate::music::parse_note;
use crate::music::parsed_note;
use crate::music::tune_buffer_size;
use crate::music::tuned_size;

verus! {

/// Where the samples come from.
#[derive(Debug, Clone)]
pub enum ScopeSource {
    /// The PulseAudio simple API, reading from an audio sink.
    Pulse {
        /// Source device to attach to.
        device: Option<String>,
        /// Server buffer size, in blocks.
        server_buffer: u32,
    },
    /// A file or pipe on the filesystem.
    File {
        /// Path of the file or pipe.
        path: String,
        /// Limit the data flow to the requested sample rate.
        limit_rate: bool,
    },
    /// An input device of the host's audio API.
    Audio {
        /// Source device to attach to.
        device: Option<String>,
        /// Seconds to wait for the audio stream.
        timeout: u64,
        /// Only list the available devices.
        list: bool,
    },
}

/// How the source is opened and buffered.
#[derive(Debug, Clone)]
pub struct SourceOptions {
    /// Number of channels to open.
    pub channels: usize,
    /// Size of the audio buffer, and width of the scope.
    pub buffer: u32,
    /// Sample rate to use.
    pub sample_rate: u32,
    /// Note to tune the buffer size to; overrides `buffer`.
    pub tune: Option<String>,
}

impl SourceOptions {
    /// The buffer size that `tune` leaves: that of the named note where
    /// `tune` names one, else the size as it was.
    pub open spec fn tuned_buffer(self) -> int {
        match self.tune {
            Some(name) => match parsed_note(name@) {
                Some(note) => tuned_size(
                    note.period(self.sample_rate as int),
                    self.channels as int,
                ),
                None => self.buffer as int,
            },
            None => self.buffer as int,
        }
    }

    /// Whether `tune` holds a name that is no note.
    pub open spec fn tune_unrecognized(self) -> bool {
        match self.tune {
            Some(name) => parsed_note(name@) is None,
            None => false,
        }
    }

    /// Tunes the buffer size to the note that `tune` names. A name that is
    /// no note changes nothing; the result then tells the caller to warn.
    pub fn tune(&mut self) -> (unrecognized: bool)
        ensures
            final(self).buffer == old(self).tuned_buffer(),
            unrecognized == old(self).tune_unrecognized(),
            final(self).channels == old(self).channels,
            final(self).sample_rate == old(self).sample_rate,
            final(self).tune == old(self).tune,
    {
        let parsed: Option<Option<Note>> = match &self.tune {
            Some(name) => Some(parse_note(name.as_str())),
            None => None,
        };
        match parsed {
            Some(Some(note)) => {
                self.buffer = tune_buffer_size(&note, self.sample_rate, self.channels);
                false
            },
            Some(None) => true,
            None => false,
        }
    }
}

impl Default for SourceOptions {
    /// Two channels, 2048 samples, 48 kHz, untuned.
    fn default() -> (options: Self)
        ensures
            options.channels == 2,
            options.buffer == 2048,
            options.sample_rate == 48000,
            options.tune is None,
    {
        SourceOptions { channels: 2, buffer: 2048, sample_rate: 48000, tune: None }
    }
}

} // verus!
