//! The WAV encoder: header and data records, and their canonical byte layout.
use vstd::prelude::*;
use crate::audio::AudioFormatInfo;
use crate::audio::lemma_frame_bytes_by_bits;

verus! {

/// Size of the format description that follows the `fmt ` tag.
pub const FORMAT_CHUNK_SIZE: u32 = 16;

/// The tag `RIFF`.
pub open spec fn riff_tag() -> Seq<u8> {
    seq![0x52u8, 0x49u8, 0x46u8, 0x46u8]
}

/// The tag `WAVE`.
pub open spec fn wave_tag() -> Seq<u8> {
    seq![0x57u8, 0x41u8, 0x56u8, 0x45u8]
}

/// The tag `fmt `, with its trailing space.
pub open spec fn fmt_tag() -> Seq<u8> {
    seq![0x66u8, 0x6du8, 0x74u8, 0x20u8]
}

/// The tag `data`.
pub open spec fn data_tag() -> Seq<u8> {
    seq![0x64u8, 0x61u8, 0x74u8, 0x61u8]
}

/// The two bytes of `value`, least significant first.
pub open spec fn le16(value: nat) -> Seq<u8> {
    seq![(value % 256) as u8, (value / 256 % 256) as u8]
}

/// The four bytes of `value`, least significant first.
pub open spec fn le32(value: nat) -> Seq<u8> {
    seq![
        (value % 256) as u8,
        (value / 256 % 256) as u8,
        (value / 65536 % 256) as u8,
        (value / 16777216 % 256) as u8,
    ]
}

/// The number that a little-endian byte string stands for.
pub open spec fn le_value(bytes: Seq<u8>) -> nat
    decreases bytes.len(),
{
    if bytes.len() == 0 {
        0
    } else {
        bytes[0] as nat + 256 * le_value(bytes.drop_first())
    }
}

/// Reading back the two bytes of a 16-bit number gives the number.
pub proof fn lemma_le16_round_trip(value: nat)
    requires
        value <= u16::MAX,
    ensures
        le16(value).len() == 2,
        le_value(le16(value)) == value,
{
    let b = le16(value);
    let b1 = b.drop_first();
    let b2 = b1.drop_first();
    assert(b2.len() == 0);
    assert(le_value(b2) == 0);
    assert(le_value(b1) == b[1] as nat + 256 * le_value(b2));
    assert(le_value(b) == b[0] as nat + 256 * le_value(b1));
}

/// Reading back the four bytes of a 32-bit number gives the number.
pub proof fn lemma_le32_round_trip(value: nat)
    requires
        value <= u32::MAX,
    ensures
        le32(value).len() == 4,
        le_value(le32(value)) == value,
{
    let b = le32(value);
    let b1 = b.drop_first();
    let b2 = b1.drop_first();
    let b3 = b2.drop_first();
    let b4 = b3.drop_first();
    assert(b4.len() == 0);
    assert(le_value(b4) == 0);
    assert(le_value(b3) == b[3] as nat + 256 * le_value(b4));
    assert(le_value(b2) == b[2] as nat + 256 * le_value(b3));
    assert(le_value(b1) == b[1] as nat + 256 * le_value(b2));
    assert(le_value(b) == b[0] as nat + 256 * le_value(b1));
}

/// The little-endian bytes of a 16-bit number.
pub fn u16_le_bytes(value: u16) -> (bytes: [u8; 2])
    ensures
        bytes@ == le16(value as nat),
{
    let bytes: [u8; 2] = [(value % 256) as u8, (value / 256) as u8];
    assert(bytes@ =~= le16(value as nat));
    bytes
}

/// The little-endian bytes of a 32-bit number.
pub fn u32_le_bytes(value: u32) -> (bytes: [u8; 4])
    ensures
        bytes@ == le32(value as nat),
{
    let bytes: [u8; 4] = [
        (value % 256) as u8,
        (value / 256 % 256) as u8,
        (value / 65536 % 256) as u8,
        (value / 16777216) as u8,
    ];
    assert(bytes@ =~= le32(value as nat));
    bytes
}

/// Append `bytes` to `out`.
fn append_bytes(out: &mut Vec<u8>, bytes: &[u8])
    ensures
        final(out)@ == old(out)@ + bytes@,
{
    out.extend_from_slice(bytes);
    assert(out@ =~= old(out)@ + bytes@);
}

/// Why a payload cannot be framed as a WAV file.
#[derive(Clone, Copy, Debug, PartialEq, Eq, Structural)]
pub enum EncodeError {
    /// The payload and the header together exceed what the 32-bit size fields can say.
    PayloadTooLarge,
    /// The format's bytes per second exceed what the 32-bit rate field can say.
    ByteRateTooLarge,
}

impl EncodeError {
    /// A short description for the user.
    pub fn message(&self) -> (text: String)
        ensures
            text@ == match self {
                EncodeError::PayloadTooLarge => "Audio data too large for a WAV file"@,
                EncodeError::ByteRateTooLarge => "Byte rate too large for a WAV file"@,
            },
    {
        match self {
            EncodeError::PayloadTooLarge => "Audio data too large for a WAV file".to_owned(),
            EncodeError::ByteRateTooLarge => "Byte rate too large for a WAV file".to_owned(),
        }
    }
}

/// Largest payload, in bytes, whose file size still fits the RIFF size field.
pub open spec fn max_payload() -> nat {
    (u32::MAX - 36) as nat
}

/// Whether a payload of `payload_len` bytes in `format` can be framed, and if not, why.
pub open spec fn encode_check(format: AudioFormatInfo, payload_len: nat) -> Result<
    (),
    EncodeError,
> {
    if payload_len > max_payload() {
        Err(EncodeError::PayloadTooLarge)
    } else if !format.byte_rate_fits() {
        Err(EncodeError::ByteRateTooLarge)
    } else {
        Ok(())
    }
}

/// The 36 bytes that describe the format, for a payload of `payload_len` bytes.
pub open spec fn header_bytes(format: AudioFormatInfo, payload_len: nat) -> Seq<u8> {
    riff_tag() + le32(payload_len + 36) + wave_tag() + fmt_tag() + le32(16) + le16(
        format.format.type_code(),
    ) + le16(format.num_channels as nat) + le32(format.sample_rate as nat) + le32(
        format.byte_rate(),
    ) + le16(format.frame_bytes()) + le16(format.format.bits())
}

/// The data chunk: its tag, the payload's length, and the payload as it is.
pub open spec fn data_bytes(payload: Seq<u8>) -> Seq<u8> {
    data_tag() + le32(payload.len()) + payload
}

/// The whole file: the format description followed by the data chunk.
pub open spec fn file_bytes(format: AudioFormatInfo, payload: Seq<u8>) -> Seq<u8> {
    header_bytes(format, payload.len()) + data_bytes(payload)
}

/// Represents the content of the header section of the WAVE file format.
pub struct WaveHeader {
    /// This will always be the value `RIFF`.
    pub file_description_header: [u8; 4],
    /// File size less the 4 bytes of the RIFF marker, and the 4 bytes of this field.
    pub file_size: [u8; 4],
    /// This will always be the value `WAVE`.
    pub wave_description_header: [u8; 4],
    /// This will always be the value `fmt `. Note the space at the end.
    pub fmt_description: [u8; 4],
    /// This is the size in bytes of the type format, channels, sample rate, bytes per second, block
    /// alignment and bit depth sections.
    pub wave_description_chunk_size: [u8; 4],
    /// For PCM (integer audio), use `1`. For floating point audio, use `3`.
    pub type_format: [u8; 2],
    /// Number of audio channels. Channel audio will be interleaved.
    pub num_channels: [u8; 2],
    /// The sample rate.
    pub sample_rate: [u8; 4],
    /// Number of bytes per second in the audio.
    pub bytes_per_second: [u8; 4],
    /// Number of bytes per audio frame.
    pub block_alignment: [u8; 2],
    /// Audio bit depth.
    pub bit_depth: [u8; 2],
}

impl WaveHeader {
    /// Bytes ahead of the payload: the 36 of this header and the 8 that open the data section.
    pub const BYTES_IN_HEADER: usize = 44;

    /// The fields in file order.
    pub open spec fn bytes(self) -> Seq<u8> {
        self.file_description_header@ + self.file_size@ + self.wave_description_header@
            + self.fmt_description@ + self.wave_description_chunk_size@ + self.type_format@
            + self.num_channels@ + self.sample_rate@ + self.bytes_per_second@
            + self.block_alignment@ + self.bit_depth@
    }

    /// Whether every field holds what `format` and a payload of `payload_len` bytes call for.
    pub open spec fn describes(self, format: AudioFormatInfo, payload_len: nat) -> bool {
        &&& self.file_description_header@ == riff_tag()
        &&& self.file_size@ == le32(payload_len + 36)
        &&& self.wave_description_header@ == wave_tag()
        &&& self.fmt_description@ == fmt_tag()
        &&& self.wave_description_chunk_size@ == le32(16)
        &&& self.type_format@ == le16(format.format.type_code())
        &&& self.num_channels@ == le16(format.num_channels as nat)
        &&& self.sample_rate@ == le32(format.sample_rate as nat)
        &&& self.bytes_per_second@ == le32(format.byte_rate())
        &&& self.block_alignment@ == le16(format.frame_bytes())
        &&& self.bit_depth@ == le16(format.format.bits())
    }

    /// Create a new [`WaveHeader`] based on the given [`AudioFormatInfo`] and data size.
    pub fn create(format: AudioFormatInfo, data_size: usize) -> (header: Result<
        WaveHeader,
        EncodeError,
    >)
        ensures
            match header {
                Ok(h) => encode_check(format, data_size as nat) is Ok && h.describes(
                    format,
                    data_size as nat,
                ) && h.bytes() == header_bytes(format, data_size as nat),
                Err(e) => encode_check(format, data_size as nat) == Err::<(), EncodeError>(e),
            },
    {
        if data_size > 0xffff_ffff - 36 {
            return Err(EncodeError::PayloadTooLarge);
        }
        let rate = match format.checked_bytes_per_second() {
            Some(rate) => rate,
            None => {
                return Err(EncodeError::ByteRateTooLarge);
            },
        };
        let file_description_header: [u8; 4] = [0x52, 0x49, 0x46, 0x46];
        let file_size = u32_le_bytes((data_size + (Self::BYTES_IN_HEADER - 8)) as u32);
        let wave_description_header: [u8; 4] = [0x57, 0x41, 0x56, 0x45];
        let fmt_description: [u8; 4] = [0x66, 0x6d, 0x74, 0x20];
        let wave_description_chunk_size = u32_le_bytes(FORMAT_CHUNK_SIZE);
        let type_format = u16_le_bytes(format.type_format_header());
        let num_channels = u16_le_bytes(format.num_channels as u16);
        let sample_rate = u32_le_bytes(format.sample_rate);
        let bytes_per_second = u32_le_bytes(rate);
        let block_alignment = u16_le_bytes(format.block_alignment());
        let bit_depth = u16_le_bytes(format.bit_depth() as u16);
        assert(file_description_header@ =~= riff_tag());
        assert(wave_description_header@ =~= wave_tag());
        assert(fmt_description@ =~= fmt_tag());
        Ok(
            WaveHeader {
                file_description_header,
                file_size,
                wave_description_header,
                fmt_description,
                wave_description_chunk_size,
                type_format,
                num_channels,
                sample_rate,
                bytes_per_second,
                block_alignment,
                bit_depth,
            },
        )
    }

    /// Build the formatted WAV file header, ready for writing.
    pub fn as_bytes(&self) -> (data: Vec<u8>)
        ensures
            data@ == self.bytes(),
            data@.len() == 36,
    {
        let mut data: Vec<u8> = Vec::with_capacity(Self::BYTES_IN_HEADER);
        append_bytes(&mut data, self.file_description_header.as_slice());
        append_bytes(&mut data, self.file_size.as_slice());
        append_bytes(&mut data, self.wave_description_header.as_slice());
        append_bytes(&mut data, self.fmt_description.as_slice());
        append_bytes(&mut data, self.wave_description_chunk_size.as_slice());
        append_bytes(&mut data, self.type_format.as_slice());
        append_bytes(&mut data, self.num_channels.as_slice());
        append_bytes(&mut data, self.sample_rate.as_slice());
        append_bytes(&mut data, self.bytes_per_second.as_slice());
        append_bytes(&mut data, self.block_alignment.as_slice());
        append_bytes(&mut data, self.bit_depth.as_slice());
        assert(data@ =~= self.bytes());
        data
    }
}

/// Represents the data section of a WAV file, including the 'data' header.
pub struct WaveData {
    pub data_header: [u8; 4],
    pub size_in_bytes: [u8; 4],
    pub data: Vec<u8>,
}

impl WaveData {
    /// The fields in file order.
    pub open spec fn bytes(self) -> Seq<u8> {
        self.data_header@ + self.size_in_bytes@ + self.data@
    }

    /// Whether the tag and the size field agree with the payload held.
    pub open spec fn well_formed(self) -> bool {
        &&& self.data_header@ == data_tag()
        &&& self.size_in_bytes@ == le32(self.data@.len())
        &&& self.data@.len() <= u32::MAX
    }

    /// Create the data section of the WAV file.
    pub fn create(data: Vec<u8>) -> (section: Result<WaveData, EncodeError>)
        ensures
            match section {
                Ok(d) => data@.len() <= u32::MAX && d.data@ == data@ && d.well_formed()
                    && d.bytes() == data_bytes(data@),
                Err(e) => data@.len() > u32::MAX && e == EncodeError::PayloadTooLarge,
            },
    {
        if data.len() > 0xffff_ffff {
            return Err(EncodeError::PayloadTooLarge);
        }
        let data_header: [u8; 4] = [0x64, 0x61, 0x74, 0x61];
        let size_in_bytes = u32_le_bytes(data.len() as u32);
        assert(data_header@ =~= data_tag());
        Ok(WaveData { data_header, size_in_bytes, data })
    }

    /// Return the formatted bytes in the data section, ready for writing.
    pub fn as_bytes(&self) -> (out: Vec<u8>)
        ensures
            out@ == self.bytes(),
            out@.len() == 8 + self.data@.len(),
    {
        let mut out: Vec<u8> = Vec::new();
        append_bytes(&mut out, self.data_header.as_slice());
        append_bytes(&mut out, self.size_in_bytes.as_slice());
        append_bytes(&mut out, self.data.as_slice());
        assert(out@ =~= self.bytes());
        out
    }
}

/// Represents a complete WAV file, separated into header and data sections. The `header` and
/// `data` properties should contain everything necessary to write a valid WAV file.
pub struct WaveFile {
    pub header: WaveHeader,
    pub data: WaveData,
}

impl WaveFile {
    /// The file's bytes: the header, then the data section.
    pub open spec fn bytes(self) -> Seq<u8> {
        self.header.bytes() + self.data.bytes()
    }

    /// Prepare the data for a new WAV file.
    pub fn create(data: Vec<u8>, format: AudioFormatInfo) -> (file: Result<WaveFile, EncodeError>)
        ensures
            match file {
                Ok(f) => encode_check(format, data@.len()) is Ok && f.data.data@ == data@
                    && f.header.describes(format, data@.len()) && f.data.well_formed()
                    && f.bytes() == file_bytes(format, data@),
                Err(e) => encode_check(format, data@.len()) == Err::<(), EncodeError>(e),
            },
    {
        let header = match WaveHeader::create(format, data.len()) {
            Ok(header) => header,
            Err(e) => {
                return Err(e);
            },
        };
        let data = match WaveData::create(data) {
            Ok(data) => data,
            Err(e) => {
                return Err(e);
            },
        };
        Ok(WaveFile { header, data })
    }

    /// The bytes to put on disk: the header's, then the data section's.
    pub fn as_bytes(&self) -> (out: Vec<u8>)
        ensures
            out@ == self.bytes(),
    {
        let mut out = self.header.as_bytes();
        let mut data_bytes = self.data.as_bytes();
        out.append(&mut data_bytes);
        out
    }
}

/// Frame `payload` as a WAV file in `format`, in one pass.
pub fn encode(payload: Vec<u8>, format: AudioFormatInfo) -> (out: Result<Vec<u8>, EncodeError>)
    ensures
        match out {
            Ok(bytes) => encode_check(format, payload@.len()) is Ok && bytes@ == file_bytes(
                format,
                payload@,
            ),
            Err(e) => encode_check(format, payload@.len()) == Err::<(), EncodeError>(e),
        },
{
    match WaveFile::create(payload, format) {
        Ok(file) => Ok(file.as_bytes()),
        Err(e) => Err(e),
    }
}

/// The layout of an encoded file: 44 bytes ahead of the payload, the RIFF size field 36 more than
/// the payload's length, the data size field equal to it, and the payload unchanged at offset 44.
pub proof fn lemma_file_layout(format: AudioFormatInfo, payload: Seq<u8>)
    ensures
        header_bytes(format, payload.len()).len() == 36,
        file_bytes(format, payload).len() == 44 + payload.len(),
        file_bytes(format, payload).subrange(0, 4) == riff_tag(),
        file_bytes(format, payload).subrange(4, 8) == le32(payload.len() + 36),
        file_bytes(format, payload).subrange(8, 12) == wave_tag(),
        file_bytes(format, payload).subrange(12, 16) == fmt_tag(),
        file_bytes(format, payload).subrange(16, 20) == le32(16),
        file_bytes(format, payload).subrange(20, 22) == le16(format.format.type_code()),
        file_bytes(format, payload).subrange(22, 24) == le16(format.num_channels as nat),
        file_bytes(format, payload).subrange(24, 28) == le32(format.sample_rate as nat),
        file_bytes(format, payload).subrange(28, 32) == le32(format.byte_rate()),
        file_bytes(format, payload).subrange(32, 34) == le16(format.frame_bytes()),
        file_bytes(format, payload).subrange(34, 36) == le16(format.format.bits()),
        file_bytes(format, payload).subrange(36, 40) == data_tag(),
        file_bytes(format, payload).subrange(40, 44) == le32(payload.len()),
        file_bytes(format, payload).subrange(44, 44 + payload.len() as int) == payload,
{
    let f = file_bytes(format, payload);
    assert(header_bytes(format, payload.len()).len() == 36);
    assert(f.len() == 44 + payload.len());
    assert(f.subrange(0, 4) =~= riff_tag());
    assert(f.subrange(4, 8) =~= le32(payload.len() + 36));
    assert(f.subrange(8, 12) =~= wave_tag());
    assert(f.subrange(12, 16) =~= fmt_tag());
    assert(f.subrange(16, 20) =~= le32(16));
    assert(f.subrange(20, 22) =~= le16(format.format.type_code()));
    assert(f.subrange(22, 24) =~= le16(format.num_channels as nat));
    assert(f.subrange(24, 28) =~= le32(format.sample_rate as nat));
    assert(f.subrange(28, 32) =~= le32(format.byte_rate()));
    assert(f.subrange(32, 34) =~= le16(format.frame_bytes()));
    assert(f.subrange(34, 36) =~= le16(format.format.bits()));
    assert(f.subrange(36, 40) =~= data_tag());
    assert(f.subrange(40, 44) =~= le32(payload.len()));
    assert(f.subrange(44, 44 + payload.len() as int) =~= payload);
}

/// Decoding an encoded file's fields gives back the format's quantities and the payload's size:
/// what was written can be read again, as long as it could be framed at all.
pub proof fn lemma_fields_read_back(format: AudioFormatInfo, payload: Seq<u8>)
    requires
        encode_check(format, payload.len()) is Ok,
    ensures
        le_value(file_bytes(format, payload).subrange(4, 8)) == payload.len() + 36,
        le_value(file_bytes(format, payload).subrange(16, 20)) == 16,
        le_value(file_bytes(format, payload).subrange(20, 22)) == format.format.type_code(),
        le_value(file_bytes(format, payload).subrange(22, 24)) == format.num_channels,
        le_value(file_bytes(format, payload).subrange(24, 28)) == format.sample_rate,
        le_value(file_bytes(format, payload).subrange(28, 32)) == format.byte_rate(),
        le_value(file_bytes(format, payload).subrange(32, 34)) == format.frame_bytes(),
        le_value(file_bytes(format, payload).subrange(34, 36)) == format.format.bits(),
        le_value(file_bytes(format, payload).subrange(40, 44)) == payload.len(),
{
    lemma_file_layout(format, payload);
    lemma_frame_bytes_by_bits(format);
    lemma_le32_round_trip(payload.len() + 36);
    lemma_le32_round_trip(16);
    lemma_le16_round_trip(format.format.type_code());
    lemma_le16_round_trip(format.num_channels as nat);
    lemma_le32_round_trip(format.sample_rate as nat);
    lemma_le32_round_trip(format.byte_rate());
    lemma_le16_round_trip(format.frame_bytes());
    lemma_le16_round_trip(format.format.bits());
    lemma_le32_round_trip(payload.len());
}

} // verus!
