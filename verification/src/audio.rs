//! The audio format descriptor and the quantities a WAV header derives from it.
use vstd::prelude::*;
use vstd::string::StringExecFns;

verus! {

/// Audio bit depth and sample format.
#[derive(Clone, Copy, Debug, PartialEq, Eq, Structural)]
pub enum SampleFormat {
    Int16,
    Int24,
    Int32,
    Float32,
}

impl SampleFormat {
    /// Number of bits in one sample.
    pub open spec fn bits(self) -> nat {
        match self {
            SampleFormat::Int16 => 16,
            SampleFormat::Int24 => 24,
            SampleFormat::Int32 => 32,
            SampleFormat::Float32 => 32,
        }
    }

    /// Number of whole bytes in one sample.
    pub open spec fn sample_bytes(self) -> nat {
        self.bits() / 8
    }

    /// Whether samples are IEEE floats rather than signed integers.
    pub open spec fn is_float(self) -> bool {
        self == SampleFormat::Float32
    }

    /// The WAV type code: `1` for integer PCM, `3` for IEEE float.
    pub open spec fn type_code(self) -> nat {
        if self.is_float() {
            3
        } else {
            1
        }
    }

    /// Return the appropriate bit depth for the selected sample format.
    pub fn bit_depth(&self) -> (depth: u8)
        ensures
            depth == self.bits(),
    {
        match self {
            SampleFormat::Int16 => 16,
            SampleFormat::Int24 => 24,
            SampleFormat::Int32 => 32,
            SampleFormat::Float32 => 32,
        }
    }

    /// Gives the type format header for the selected audio format. `1` for PCM, `3` for float.
    pub fn type_format_header(&self) -> (code: u16)
        ensures
            code == self.type_code(),
            code == 1 || code == 3,
            code == 3 <==> self.is_float(),
    {
        match self {
            SampleFormat::Int16 | SampleFormat::Int24 | SampleFormat::Int32 => 1u16,
            SampleFormat::Float32 => 3u16,
        }
    }
}

/// Audio format info requested by the user. Every field is a hint that may be left open.
pub struct RequestedAudioFormatInfo {
    pub sample_rate: Option<u32>,
    pub num_channels: Option<u8>,
    pub format: Option<SampleFormat>,
}

impl RequestedAudioFormatInfo {
    /// The bit depth of the requested sample format, if one was requested.
    pub fn bit_depth(&self) -> (depth: Option<u8>)
        ensures
            depth == match self.format {
                Some(f) => Some(f.bits() as u8),
                None => None,
            },
    {
        match self.format {
            Some(f) => Some(f.bit_depth()),
            None => None,
        }
    }
}

/// Basic info about the audio format to capture and write.
#[derive(Copy, Clone, Debug, PartialEq, Eq, Structural)]
pub struct AudioFormatInfo {
    pub sample_rate: u32,
    pub num_channels: u8,
    pub format: SampleFormat,
}

impl AudioFormatInfo {
    /// A format describes real audio when it has a sample rate and at least one channel.
    pub open spec fn valid(self) -> bool {
        self.sample_rate > 0 && self.num_channels > 0
    }

    /// Bytes in one interleaved frame: one sample for each channel.
    pub open spec fn frame_bytes(self) -> nat {
        self.format.sample_bytes() * self.num_channels as nat
    }

    /// Bytes in one second of audio.
    pub open spec fn byte_rate(self) -> nat {
        self.sample_rate as nat * self.format.sample_bytes() * self.num_channels as nat
    }

    /// Whether the byte rate fits the 32-bit field a WAV header gives it.
    pub open spec fn byte_rate_fits(self) -> bool {
        self.byte_rate() <= u32::MAX
    }

    /// Whether the format meets `valid`.
    pub fn is_valid(&self) -> (ok: bool)
        ensures
            ok == self.valid(),
    {
        self.sample_rate > 0 && self.num_channels > 0
    }

    /// Return the number of bits per sample for the chosen [`SampleFormat`].
    pub fn bit_depth(&self) -> (depth: u8)
        ensures
            depth == self.format.bits(),
    {
        self.format.bit_depth()
    }

    /// Return the audio type header to the chosen [`SampleFormat`].
    /// `1` should be used for PCM (integer) audio, `3` for floating point.
    pub fn type_format_header(&self) -> (code: u16)
        ensures
            code == self.format.type_code(),
    {
        self.format.type_format_header()
    }

    /// The byte rate in 64 bits, where it always fits.
    fn wide_bytes_per_second(&self) -> (wide: u64)
        ensures
            wide == self.byte_rate(),
    {
        let sample_bytes: u64 = (self.format.bit_depth() / 8) as u64;
        let channels: u64 = self.num_channels as u64;
        assert(sample_bytes * channels <= 1020 && sample_bytes * channels == self.frame_bytes())
            by (nonlinear_arith)
            requires
                sample_bytes <= 4,
                channels <= 255,
                sample_bytes == self.format.sample_bytes(),
                channels == self.num_channels,
                self.frame_bytes() == self.format.sample_bytes() * self.num_channels as nat,
        ;
        let per_frame: u64 = sample_bytes * channels;
        assert(self.sample_rate as nat * per_frame as nat <= 0xffff_ffff * 1020 && self.sample_rate
            as nat * per_frame as nat == self.byte_rate()) by (nonlinear_arith)
            requires
                self.sample_rate <= 0xffff_ffff,
                per_frame <= 1020,
                per_frame == self.format.sample_bytes() * self.num_channels as nat,
                self.byte_rate() == self.sample_rate as nat * self.format.sample_bytes()
                    * self.num_channels as nat,
        ;
        self.sample_rate as u64 * per_frame
    }

    /// The byte rate, or `None` when it does not fit in 32 bits.
    pub fn checked_bytes_per_second(&self) -> (rate: Option<u32>)
        ensures
            rate == if self.byte_rate_fits() {
                Some(self.byte_rate() as u32)
            } else {
                None
            },
    {
        let wide = self.wide_bytes_per_second();
        if wide <= u32::MAX as u64 {
            Some(wide as u32)
        } else {
            None
        }
    }

    /// Return the number of bytes per second based on the given sample rate, bit depth and number
    /// of channels.
    pub fn bytes_per_second(&self) -> (rate: u32)
        requires
            self.byte_rate_fits(),
        ensures
            rate == self.byte_rate(),
            rate == self.sample_rate as nat * (self.format.bits() / 8) * self.num_channels as nat,
            rate == (self.sample_rate as nat * self.format.bits() * self.num_channels as nat) / 8,
    {
        proof {
            lemma_byte_rate_by_bits(*self);
        }
        self.wide_bytes_per_second() as u32
    }

    /// Return the block alignment for the audio format.
    /// The block alignment is the number of bytes per audio frame of interleaved audio data.
    /// It's calculated by multiplying the bytes per sample by the number of channels.
    pub fn block_alignment(&self) -> (align: u16)
        ensures
            align == self.frame_bytes(),
            align == (self.format.bits() / 8) * self.num_channels as nat,
            align == (self.format.bits() * self.num_channels as nat) / 8,
            self.num_channels > 0 ==> align > 0,
    {
        proof {
            lemma_frame_bytes_by_bits(*self);
        }
        (self.bit_depth() as u16 * self.num_channels as u16) / 8
    }

    /// The format in words, one line for each quantity.
    pub fn describe(&self) -> (text: String)
        ensures
            text@ == description(*self),
    {
        let text = String::from_str("\nSample Rate: ");
        let text = text.concat(decimal_string(self.sample_rate).as_str());
        let text = text.concat("\nBit Depth: ");
        let text = text.concat(decimal_string(self.bit_depth() as u32).as_str());
        let text = text.concat("\nNumber of channels: ");
        let text = text.concat(decimal_string(self.num_channels as u32).as_str());
        let text = text.concat("\nSample format: ");
        match self.format {
            SampleFormat::Int16 => text.concat("Integer"),
            SampleFormat::Int24 => text.concat("Integer"),
            SampleFormat::Int32 => text.concat("Integer"),
            SampleFormat::Float32 => text.concat("Float"),
        }
    }
}

/// The character for a single decimal digit.
pub open spec fn digit_char(digit: nat) -> char {
    if digit == 0 {
        '0'
    } else if digit == 1 {
        '1'
    } else if digit == 2 {
        '2'
    } else if digit == 3 {
        '3'
    } else if digit == 4 {
        '4'
    } else if digit == 5 {
        '5'
    } else if digit == 6 {
        '6'
    } else if digit == 7 {
        '7'
    } else if digit == 8 {
        '8'
    } else {
        '9'
    }
}

/// A number in decimal, without leading zeros.
pub open spec fn decimal(value: nat) -> Seq<char>
    decreases value,
{
    if value < 10 {
        seq![digit_char(value)]
    } else {
        decimal(value / 10).push(digit_char(value % 10))
    }
}

/// A format in words: sample rate, bit depth, channel count, and whether samples are integers or
/// floats, each on a line of its own after a leading line break.
pub open spec fn description(format: AudioFormatInfo) -> Seq<char> {
    "\nSample Rate: "@ + decimal(format.sample_rate as nat) + "\nBit Depth: "@ + decimal(
        format.format.bits(),
    ) + "\nNumber of channels: "@ + decimal(format.num_channels as nat) + "\nSample format: "@
        + if format.format.is_float() {
        "Float"@
    } else {
        "Integer"@
    }
}

/// The one-character string for a decimal digit.
fn digit_str(digit: u32) -> (text: &'static str)
    requires
        digit < 10,
    ensures
        text@ == seq![digit_char(digit as nat)],
{
    proof {
        reveal_strlit("0");
        reveal_strlit("1");
        reveal_strlit("2");
        reveal_strlit("3");
        reveal_strlit("4");
        reveal_strlit("5");
        reveal_strlit("6");
        reveal_strlit("7");
        reveal_strlit("8");
        reveal_strlit("9");
    }
    let text = match digit {
        0 => "0",
        1 => "1",
        2 => "2",
        3 => "3",
        4 => "4",
        5 => "5",
        6 => "6",
        7 => "7",
        8 => "8",
        _ => "9",
    };
    assert(text@ =~= seq![digit_char(digit as nat)]);
    text
}

/// A number in decimal, without leading zeros.
pub fn decimal_string(value: u32) -> (text: String)
    ensures
        text@ == decimal(value as nat),
    decreases value,
{
    if value < 10 {
        String::from_str(digit_str(value))
    } else {
        let head = decimal_string(value / 10);
        let text = head.concat(digit_str(value % 10));
        assert(text@ =~= decimal(value as nat));
        text
    }
}

/// Dividing the bit depth by eight before or after multiplying by the channel count gives the
/// same frame size, because every bit depth is a whole number of bytes.
pub proof fn lemma_frame_bytes_by_bits(format: AudioFormatInfo)
    ensures
        format.frame_bytes() == (format.format.bits() * format.num_channels as nat) / 8,
        format.frame_bytes() <= 1020,
        format.num_channels > 0 ==> format.frame_bytes() >= 2,
{
    let c = format.num_channels as nat;
    match format.format {
        SampleFormat::Int16 => {
            assert((16 * c) / 8 == 2 * c);
        },
        SampleFormat::Int24 => {
            assert((24 * c) / 8 == 3 * c);
        },
        SampleFormat::Int32 => {
            assert((32 * c) / 8 == 4 * c);
        },
        SampleFormat::Float32 => {
            assert((32 * c) / 8 == 4 * c);
        },
    }
}

/// The byte rate is the bit rate divided by eight, and the frame size times the sample rate.
pub proof fn lemma_byte_rate_by_bits(format: AudioFormatInfo)
    ensures
        format.byte_rate() == (format.sample_rate as nat * format.format.bits()
            * format.num_channels as nat) / 8,
        format.byte_rate() == format.sample_rate as nat * format.frame_bytes(),
{
    let r = format.sample_rate as nat;
    let c = format.num_channels as nat;
    let b = format.format.sample_bytes();
    assert(format.format.bits() == 8 * b);
    assert(r * (8 * b) * c == 8 * (r * b * c)) by (nonlinear_arith);
    assert((8 * (r * b * c)) / 8 == r * b * c);
    assert(r * b * c == r * (b * c)) by (nonlinear_arith);
}

} // verus!
