//! The command line's options, and what the session derives from them.
use vstd::prelude::*;
use vstd::string::{StrSliceExecFns, StringExecFns};
use crate::audio::{RequestedAudioFormatInfo, SampleFormat};

verus! {

/// How much the program reports while it runs.
#[derive(Clone, Copy, Debug, PartialEq, Eq, Structural)]
pub enum LogLevel {
    Off,
    Error,
    Warn,
    Info,
    Debug,
    Trace,
}

/// The extension of every output file: `.wav`.
pub open spec fn wav_extension() -> Seq<char> {
    seq!['.', 'w', 'a', 'v']
}

/// Whether `name` ends in `.wav`.
pub open spec fn has_wav_extension(name: Seq<char>) -> bool {
    name.len() >= 4 && name.subrange(name.len() - 4, name.len() as int) == wav_extension()
}

/// `name` as it is where it ends in `.wav`, else with `.wav` behind it.
pub open spec fn with_wav_extension(name: Seq<char>) -> Seq<char> {
    if has_wav_extension(name) {
        name
    } else {
        name + wav_extension()
    }
}

/// Whether `name` ends in `.wav`.
pub fn ends_with_wav(name: &str) -> (found: bool)
    ensures
        found == has_wav_extension(name@),
{
    let len = name.unicode_len();
    if len < 4 {
        return false;
    }
    let found = name.get_char(len - 4) == '.' && name.get_char(len - 3) == 'w' && name.get_char(
        len - 2,
    ) == 'a' && name.get_char(len - 1) == 'v';
    proof {
        let tail = name@.subrange(name@.len() - 4, name@.len() as int);
        if found {
            assert(tail =~= wav_extension());
        } else {
            assert(tail[0] == name@[len - 4]);
            assert(tail[1] == name@[len - 3]);
            assert(tail[2] == name@[len - 2]);
            assert(tail[3] == name@[len - 1]);
        }
    }
    found
}

/// The options given on the command line.
pub struct Args {
    /// The file name to write to. Extension `.wav` will be appended if not specified.
    pub file_name: String,
    /// Sample format to write. Supports signed integer and float audio of various bit depths.
    pub format: SampleFormat,
    /// The sample rate requested from the audio device stream.
    pub sample_rate: u32,
    /// Number of audio channels requested from the audio device stream.
    pub channels: u8,
    /// The log level. `Off` to disable, `Trace` is the most granular.
    pub log_level: LogLevel,
}

impl Args {
    /// Get the file name to write to. If file name is missing extension, it will be appended here.
    pub fn file_name(&self) -> (name: String)
        ensures
            name@ == with_wav_extension(self.file_name@),
            has_wav_extension(name@),
    {
        proof {
            lemma_extension_is_added_once(self.file_name@);
        }
        if !ends_with_wav(self.file_name.as_str()) {
            proof {
                reveal_strlit(".wav");
                assert(".wav"@ =~= wav_extension());
            }
            return self.file_name.clone().concat(".wav");
        }
        self.file_name.clone()
    }

    /// The log level to run with.
    pub fn log_level(&self) -> (level: LogLevel)
        ensures
            level == self.log_level,
    {
        self.log_level
    }

    /// What to ask of the audio device: the format, the sample rate and the channel count given.
    pub fn requested_format(&self) -> (requested: RequestedAudioFormatInfo)
        ensures
            requested.sample_rate == Some(self.sample_rate),
            requested.num_channels == Some(self.channels),
            requested.format == Some(self.format),
    {
        RequestedAudioFormatInfo {
            sample_rate: Some(self.sample_rate),
            num_channels: Some(self.channels),
            format: Some(self.format),
        }
    }
}

/// The output name always ends in `.wav`, and a name that already does is left as it is: the
/// extension is added once and never again.
pub proof fn lemma_extension_is_added_once(name: Seq<char>)
    ensures
        has_wav_extension(with_wav_extension(name)),
        with_wav_extension(with_wav_extension(name)) == with_wav_extension(name),
        has_wav_extension(name) ==> with_wav_extension(name) == name,
{
    if !has_wav_extension(name) {
        let out = name + wav_extension();
        assert(out.subrange(out.len() - 4, out.len() as int) =~= wav_extension());
    }
}

} // verus!
