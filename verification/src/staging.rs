//! The staging writer: where captured bytes wait until the header can be sized.
//!
//! The writer decides the scratch file's name, hands every chunk on as it is
//! while counting its bytes, and at commit frames what was read back as a WAV
//! file. The caller owns the files themselves.
use vstd::prelude::*;
use vstd::string::StringExecFns;
use crate::audio::AudioFormatInfo;
use crate::wave::{encode, encode_check, file_bytes, lemma_file_layout, EncodeError};

verus! {

/// Why the staging writer refused to account for a write.
#[derive(Clone, Copy, Debug, PartialEq, Eq, Structural)]
pub enum StagingError {
    /// The running count of staged bytes would no longer fit in `usize`.
    CountOverflow,
}

/// What every scratch file name starts with: `wavdata-`.
pub open spec fn scratch_prefix() -> Seq<char> {
    "wavdata-"@
}

/// Whether `c` is one of `0`-`9` or `a`-`f`.
pub open spec fn is_lower_hex(c: char) -> bool {
    ('0' <= c && c <= '9') || ('a' <= c && c <= 'f')
}

/// The shape of a hyphenated identifier: 36 characters, hyphens after the 8th, 12th, 16th and
/// 20th digit, lower-case hexadecimal digits everywhere else.
pub open spec fn is_hyphenated_token(token: Seq<char>) -> bool {
    &&& token.len() == 36
    &&& forall|i: int|
        0 <= i < 36 ==> if i == 8 || i == 13 || i == 18 || i == 23 {
            #[trigger] token[i] == '-'
        } else {
            is_lower_hex(token[i])
        }
}

/// Draws a random identifier with `uuid::Uuid::new_v4` and formats it with `to_string`.
///
/// The value is random, so only its shape is promised: the crate's `Display` writes the
/// hyphenated lower-case form, 32 hexadecimal digits in groups of 8, 4, 4, 4 and 12.
#[verifier::external_body]
fn fresh_token() -> (token: String)
    ensures
        is_hyphenated_token(token@),
{
    uuid::Uuid::new_v4().to_string()
}

/// The scratch file name for an identifier: the prefix `wavdata-`, then the identifier.
pub fn scratch_file_name(token: &str) -> (name: String)
    ensures
        name@ == scratch_prefix() + token@,
{
    let name = String::from_str("wavdata-");
    name.concat(token)
}

/// Buffered WAV file writer. Opening a WAV file allows writing to a buffer, which can later be
/// written to disk.
///
/// To use, a writer should be opened, written to, committed and closed.
pub struct WaveWriter {
    file_name: String,
    tmp_file_name: String,
    tally: Tally,
    audio_format_info: AudioFormatInfo,
}

/// The running count of staged bytes, together with the bytes it counts.
struct Tally {
    bytes_written: usize,
    staged: Ghost<Seq<u8>>,
}

impl Tally {
    #[verifier::type_invariant]
    spec fn counts_what_was_staged(self) -> bool {
        self.bytes_written == self.staged@.len()
    }
}

impl WaveWriter {
    /// The destination path, as given at opening.
    pub closed spec fn destination(self) -> Seq<char> {
        self.file_name@
    }

    /// The scratch file's name.
    pub closed spec fn scratch_name(self) -> Seq<char> {
        self.tmp_file_name@
    }

    /// Every byte handed out for the scratch file so far, in order.
    pub closed spec fn staged(self) -> Seq<u8> {
        self.tally.staged@
    }

    /// The format that the payload will be framed in.
    pub closed spec fn format(self) -> AudioFormatInfo {
        self.audio_format_info
    }

    /// Prepares a new writer for `file_name` whose scratch file is named after `token`.
    pub fn open_with_token(
        file_name: &str,
        audio_format_info: AudioFormatInfo,
        token: &str,
    ) -> (writer: WaveWriter)
        ensures
            writer.destination() == file_name@,
            writer.scratch_name() == scratch_prefix() + token@,
            writer.staged() == Seq::<u8>::empty(),
            writer.format() == audio_format_info,
    {
        WaveWriter {
            file_name: file_name.to_owned(),
            tmp_file_name: scratch_file_name(token),
            tally: Tally { bytes_written: 0, staged: Ghost(Seq::empty()) },
            audio_format_info,
        }
    }

    /// Prepares a new WaveWriter for writing audio data to disk.
    ///
    /// The scratch file gets a name that no earlier run used: the prefix `wavdata-` and a freshly
    /// drawn random identifier. Nothing is staged yet.
    pub fn open(file_name: &str, audio_format_info: AudioFormatInfo) -> (writer: WaveWriter)
        ensures
            writer.destination() == file_name@,
            writer.staged() == Seq::<u8>::empty(),
            writer.format() == audio_format_info,
            writer.scratch_name().len() == 44,
            writer.scratch_name().subrange(0, 8) == scratch_prefix(),
            is_hyphenated_token(writer.scratch_name().subrange(8, 44)),
    {
        let token = fresh_token();
        let writer = WaveWriter::open_with_token(file_name, audio_format_info, token.as_str());
        proof {
            reveal_strlit("wavdata-");
            assert(writer.scratch_name().subrange(0, 8) =~= scratch_prefix());
            assert(writer.scratch_name().subrange(8, 44) =~= token@);
        }
        writer
    }

    /// The destination path.
    pub fn file_name(&self) -> (name: &String)
        ensures
            name@ == self.destination(),
    {
        &self.file_name
    }

    /// The scratch file's name, to be placed in the scratch directory.
    pub fn tmp_file_name(&self) -> (name: &String)
        ensures
            name@ == self.scratch_name(),
    {
        &self.tmp_file_name
    }

    /// The number of bytes handed out for the scratch file so far.
    pub fn bytes_written(&self) -> (count: usize)
        ensures
            count == self.staged().len(),
    {
        proof {
            use_type_invariant(&self.tally);
        }
        self.tally.bytes_written
    }

    /// The format in effect.
    pub fn audio_format_info(&self) -> (format: AudioFormatInfo)
        ensures
            format == self.format(),
    {
        self.audio_format_info
    }

    /// Write a chunk of data to the buffer. Audio data should be appropriately formatted.
    ///
    /// Hands back the bytes to append to the scratch file, which are the chunk as it is, and
    /// counts them. If the count would leave `usize`, nothing changes and the overflow is
    /// reported.
    pub fn write(&mut self, data: Vec<u8>) -> (outcome: Result<Vec<u8>, StagingError>)
        ensures
            final(self).destination() == old(self).destination(),
            final(self).scratch_name() == old(self).scratch_name(),
            final(self).format() == old(self).format(),
            outcome is Ok <==> old(self).staged().len() + data@.len() <= usize::MAX,
            match outcome {
                Ok(bytes) => bytes@ == data@ && final(self).staged() == old(self).staged() + data@,
                Err(e) => e == StagingError::CountOverflow && final(self).staged() == old(
                    self,
                ).staged(),
            },
    {
        proof {
            use_type_invariant(&self.tally);
        }
        match self.tally.bytes_written.checked_add(data.len()) {
            Some(total) => {
                self.tally = Tally {
                    bytes_written: total,
                    staged: Ghost(self.tally.staged@ + data@),
                };
                Ok(data)
            },
            None => Err(StagingError::CountOverflow),
        }
    }

    /// Frame what was read back from the scratch file as the WAV file to put at the destination.
    ///
    /// The result depends on the bytes read back and the format alone, so committing again
    /// without further writes gives the same file.
    pub fn commit(&self, staged: Vec<u8>) -> (file: Result<Vec<u8>, EncodeError>)
        ensures
            match file {
                Ok(bytes) => encoded(self.format(), staged@) == Ok::<Seq<u8>, EncodeError>(bytes@),
                Err(e) => encoded(self.format(), staged@) == Err::<Seq<u8>, EncodeError>(e),
            },
    {
        encode(staged, self.audio_format_info)
    }

    /// End the writer's life and hand back the name of the scratch file to remove.
    pub fn close(self) -> (scratch: String)
        ensures
            scratch@ == self.scratch_name(),
    {
        self.tmp_file_name
    }
}

/// What a commit gives for a format and the bytes read back from the scratch file: the framed
/// file, or the reason why it cannot be framed.
pub open spec fn encoded(format: AudioFormatInfo, staged: Seq<u8>) -> Result<Seq<u8>, EncodeError> {
    match encode_check(format, staged.len()) {
        Ok(_) => Ok(file_bytes(format, staged)),
        Err(e) => Err(e),
    }
}

/// Committing is repeatable: writers that agree on the format, such as one writer at two moments,
/// give the same outcome for the same scratch file contents. A file that was committed has 44
/// bytes ahead of the staged bytes and holds them unchanged.
pub proof fn lemma_commit_is_repeatable(first: WaveWriter, second: WaveWriter, staged: Seq<u8>)
    requires
        first.format() == second.format(),
    ensures
        encoded(first.format(), staged) == encoded(second.format(), staged),
        encoded(first.format(), staged) matches Ok(bytes) ==> bytes.len() == 44 + staged.len()
            && bytes.subrange(44, bytes.len() as int) == staged,
{
    lemma_file_layout(first.format(), staged);
}

} // verus!
