//! The capture side: format negotiation, chunking of raw device bytes, and the
//! decisions of the capture loop.
//!
//! The device itself is driven by the caller. It reports what the device
//! offers and what each read gave; this module says which format is in effect
//! and which messages go to the processing side.
use std::collections::VecDeque;
use std::sync::mpsc::Sender;
use vstd::prelude::*;
use crate::audio::{AudioFormatInfo, RequestedAudioFormatInfo, SampleFormat};
use crate::audio::lemma_frame_bytes_by_bits;

verus! {

/// Number of audio frames sent to the processing side in a single chunk.
pub const CHUNK_FRAMES: usize = 4096;

/// What can go wrong on the capture side.
#[derive(Clone, Copy, Debug, PartialEq, Eq, Structural)]
pub enum CaptureError {
    /// The platform audio subsystem could not be initialized.
    InitMtaFailure,
    /// The negotiated format is none of the supported sample formats.
    InvalidBitDepth,
    /// A read from the device failed mid-stream.
    AudioCaptureFailed,
}

impl CaptureError {
    /// A short description for the user.
    pub fn message(&self) -> (text: String)
        ensures
            text@ == match self {
                CaptureError::InitMtaFailure => "Failed to initialize WASAPI MTA"@,
                CaptureError::InvalidBitDepth => "Invalid bit depth requested"@,
                CaptureError::AudioCaptureFailed => "Audio capture failed"@,
            },
    {
        match self {
            CaptureError::InitMtaFailure => "Failed to initialize WASAPI MTA".to_owned(),
            CaptureError::InvalidBitDepth => "Invalid bit depth requested".to_owned(),
            CaptureError::AudioCaptureFailed => "Audio capture failed".to_owned(),
        }
    }
}

/// What the capture thread hands to the processing thread: a chunk of whole frames, or the one
/// error that ends the capture.
#[derive(Debug)]
pub enum AudioDataMessage {
    AudioData(Vec<u8>),
    Error(CaptureError),
}

/// The sending half of std's channel, `std::sync::mpsc::Sender`. It is only handed through.
#[verifier::external_type_specification]
#[verifier::external_body]
#[verifier::reject_recursive_types(T)]
pub struct ExSender<T>(Sender<T>);

/// The capability of capturing what a device renders.
///
/// An implementation negotiates its format once, at creation, and reports it unchanged from then
/// on. Its capture loop sends chunks of whole frames in the order in which they were captured,
/// sends one `Error` message if a read from the device fails, and stops the device stream before
/// it returns. [`negotiate`] and [`CaptureLoop`] hold these rules for implementations to follow.
pub trait AudioLoopback: Send + Sync {
    /// Create a new instance of the `AudioLoopback` system.
    fn create(format: RequestedAudioFormatInfo) -> Result<Self, CaptureError> where Self: Sized;

    /// Return an [`AudioFormatInfo`] struct with the format info that the loopback recorder has
    /// been configured to use. This will be initialized from the [`RequestedAudioFormatInfo`]
    /// passed to the [`AudioLoopback::create`] method, with missing values being set to the
    /// default for the audio system.
    fn get_audio_format(&self) -> AudioFormatInfo;

    /// Start the audio capture loop. Audio will be written to the `transmitter`.
    fn capture(&self, transmitter: Sender<AudioDataMessage>) -> Result<(), CaptureError>;
}

/// Whether a device delivers integers or floats.
#[derive(Clone, Copy, Debug, PartialEq, Eq, Structural)]
pub enum SampleType {
    Int,
    Float,
}

/// The mix format that a device offers by default.
#[derive(Clone, Copy, Debug, PartialEq, Eq, Structural)]
pub struct DeviceFormat {
    pub bits_per_sample: u16,
    pub samples_per_sec: u32,
    pub channels: u16,
    /// `None` where the device does not say which kind of sample it delivers.
    pub sample_type: Option<SampleType>,
}

/// The sample format for a kind of sample at a bit depth, if there is one.
pub open spec fn encoding_for(kind: SampleType, bits: nat) -> Option<SampleFormat> {
    match kind {
        SampleType::Float => if bits == 32 {
            Some(SampleFormat::Float32)
        } else {
            None
        },
        SampleType::Int => if bits == 16 {
            Some(SampleFormat::Int16)
        } else if bits == 24 {
            Some(SampleFormat::Int24)
        } else if bits == 32 {
            Some(SampleFormat::Int32)
        } else {
            None
        },
    }
}

/// The bit depth in effect: the requested format's, else the device's.
pub open spec fn negotiated_bits(requested: RequestedAudioFormatInfo, device: DeviceFormat) -> nat {
    match requested.format {
        Some(f) => f.bits(),
        None => device.bits_per_sample as nat,
    }
}

/// The sample rate in effect: the requested one, else the device's.
pub open spec fn negotiated_rate(requested: RequestedAudioFormatInfo, device: DeviceFormat) -> nat {
    match requested.sample_rate {
        Some(r) => r as nat,
        None => device.samples_per_sec as nat,
    }
}

/// The channel count in effect: the requested one, else the device's.
pub open spec fn negotiated_channels(
    requested: RequestedAudioFormatInfo,
    device: DeviceFormat,
) -> nat {
    match requested.num_channels {
        Some(c) => c as nat,
        None => device.channels as nat,
    }
}

/// The kind of sample in effect: the requested format's, else the device's.
pub open spec fn negotiated_type(
    requested: RequestedAudioFormatInfo,
    device: DeviceFormat,
) -> Option<SampleType> {
    match requested.format {
        Some(f) => Some(
            if f.is_float() {
                SampleType::Float
            } else {
                SampleType::Int
            },
        ),
        None => device.sample_type,
    }
}

/// The format in effect when the request's hints are filled up from the device's mix format, or
/// `None` where no supported format says it: no sample rate, no channel or more than 255 of them,
/// an unknown kind of sample, or a bit depth that the kind of sample does not come in.
pub open spec fn negotiation(
    requested: RequestedAudioFormatInfo,
    device: DeviceFormat,
) -> Option<AudioFormatInfo> {
    let rate = negotiated_rate(requested, device);
    let channels = negotiated_channels(requested, device);
    match negotiated_type(requested, device) {
        Some(kind) => match encoding_for(kind, negotiated_bits(requested, device)) {
            Some(format) => if rate > 0 && 0 < channels <= 255 {
                Some(
                    AudioFormatInfo {
                        sample_rate: rate as u32,
                        num_channels: channels as u8,
                        format,
                    },
                )
            } else {
                None
            },
            None => None,
        },
        None => None,
    }
}

/// Settle the format to capture in: the request's hints, filled up from the device's mix format.
///
/// Gives the negotiated format exactly where there is one, and `InvalidBitDepth` everywhere else.
pub fn negotiate(requested: &RequestedAudioFormatInfo, device: &DeviceFormat) -> (outcome: Result<
    AudioFormatInfo,
    CaptureError,
>)
    ensures
        match outcome {
            Ok(format) => negotiation(*requested, *device) == Some(format) && format.valid(),
            Err(e) => negotiation(*requested, *device) is None && e
                == CaptureError::InvalidBitDepth,
        },
{
    let bit_depth: u16 = match requested.bit_depth() {
        Some(depth) => depth as u16,
        None => device.bits_per_sample,
    };
    let sample_rate: u32 = match requested.sample_rate {
        Some(rate) => rate,
        None => device.samples_per_sec,
    };
    let num_channels: u16 = match requested.num_channels {
        Some(channels) => channels as u16,
        None => device.channels,
    };
    let sample_type = match requested.format {
        Some(SampleFormat::Int16) | Some(SampleFormat::Int24) | Some(SampleFormat::Int32) => {
            SampleType::Int
        },
        Some(SampleFormat::Float32) => SampleType::Float,
        None => match device.sample_type {
            Some(kind) => kind,
            None => {
                return Err(CaptureError::InvalidBitDepth);
            },
        },
    };
    let format = match sample_type {
        SampleType::Float => match bit_depth {
            32 => SampleFormat::Float32,
            _ => {
                return Err(CaptureError::InvalidBitDepth);
            },
        },
        SampleType::Int => match bit_depth {
            16 => SampleFormat::Int16,
            24 => SampleFormat::Int24,
            32 => SampleFormat::Int32,
            _ => {
                return Err(CaptureError::InvalidBitDepth);
            },
        },
    };
    if sample_rate == 0 || num_channels == 0 || num_channels > 255 {
        return Err(CaptureError::InvalidBitDepth);
    }
    Ok(AudioFormatInfo { sample_rate, num_channels: num_channels as u8, format })
}

/// A negotiated format keeps every hint that the request gave.
pub proof fn lemma_request_is_kept(requested: RequestedAudioFormatInfo, device: DeviceFormat)
    requires
        negotiation(requested, device) is Some,
    ensures
        requested.sample_rate is Some ==> negotiation(requested, device).unwrap().sample_rate
            == requested.sample_rate.unwrap(),
        requested.num_channels is Some ==> negotiation(requested, device).unwrap().num_channels
            == requested.num_channels.unwrap(),
        requested.format is Some ==> negotiation(requested, device).unwrap().format
            == requested.format.unwrap(),
        negotiation(requested, device).unwrap().valid(),
{
}

/// The audio bytes that `messages` carry, in order. An error carries none.
pub open spec fn payload_of(messages: Seq<AudioDataMessage>) -> Seq<u8>
    decreases messages.len(),
{
    if messages.len() == 0 {
        Seq::empty()
    } else {
        payload_of(messages.drop_last()) + match messages.last() {
            AudioDataMessage::AudioData(chunk) => chunk@,
            AudioDataMessage::Error(_) => Seq::empty(),
        }
    }
}

/// Raw device bytes that wait until they make up a chunk.
pub struct SampleQueue {
    pending: VecDeque<u8>,
    chunk_len: usize,
}

impl SampleQueue {
    /// The bytes that wait, oldest first.
    pub closed spec fn pending(self) -> Seq<u8> {
        self.pending@
    }

    /// The length of every chunk taken from this queue.
    pub closed spec fn chunk_len(self) -> nat {
        self.chunk_len as nat
    }

    /// An empty queue whose chunks hold `CHUNK_FRAMES` frames of `format`.
    pub fn new(format: &AudioFormatInfo) -> (queue: SampleQueue)
        ensures
            queue.pending() == Seq::<u8>::empty(),
            queue.chunk_len() == format.frame_bytes() * CHUNK_FRAMES,
    {
        let block_align: usize = format.block_alignment() as usize;
        proof {
            lemma_frame_bytes_by_bits(*format);
        }
        SampleQueue { pending: VecDeque::new(), chunk_len: block_align * CHUNK_FRAMES }
    }

    /// The length of every chunk taken from this queue.
    pub fn chunk_size(&self) -> (len: usize)
        ensures
            len == self.chunk_len(),
    {
        self.chunk_len
    }

    /// The number of bytes that wait.
    pub fn len(&self) -> (len: usize)
        ensures
            len == self.pending().len(),
    {
        self.pending.len()
    }

    /// Put `bytes` behind the bytes that wait.
    pub fn push_samples(&mut self, bytes: &[u8])
        ensures
            final(self).pending() == old(self).pending() + bytes@,
            final(self).chunk_len() == old(self).chunk_len(),
    {
        let mut i: usize = 0;
        while i < bytes.len()
            invariant
                i <= bytes@.len(),
                self.pending@ == old(self).pending@ + bytes@.subrange(0, i as int),
                self.chunk_len == old(self).chunk_len,
            decreases bytes@.len() - i,
        {
            self.pending.push_back(bytes[i]);
            i += 1;
            assert(self.pending@ =~= old(self).pending@ + bytes@.subrange(0, i as int));
        }
        assert(bytes@.subrange(0, i as int) =~= bytes@);
    }

    /// Take the oldest chunk, if more than a chunk's worth of bytes waits.
    ///
    /// The chunk is the first `chunk_len` bytes that waited, and the rest stays in order. With no
    /// more than `chunk_len` bytes waiting nothing is taken.
    pub fn next_chunk(&mut self) -> (chunk: Option<Vec<u8>>)
        ensures
            final(self).chunk_len() == old(self).chunk_len(),
            chunk is Some <==> old(self).pending().len() > old(self).chunk_len(),
            match chunk {
                Some(c) => c@ == old(self).pending().subrange(0, old(self).chunk_len() as int)
                    && final(self).pending() == old(self).pending().subrange(
                    old(self).chunk_len() as int,
                    old(self).pending().len() as int,
                ),
                None => final(self).pending() == old(self).pending(),
            },
    {
        if self.pending.len() <= self.chunk_len {
            return None;
        }
        let mut chunk: Vec<u8> = Vec::with_capacity(self.chunk_len);
        let mut i: usize = 0;
        while i < self.chunk_len
            invariant
                i <= self.chunk_len,
                self.chunk_len == old(self).chunk_len,
                old(self).pending@.len() > self.chunk_len,
                chunk@ == old(self).pending@.subrange(0, i as int),
                self.pending@ == old(self).pending@.subrange(
                    i as int,
                    old(self).pending@.len() as int,
                ),
            decreases self.chunk_len - i,
        {
            match self.pending.pop_front() {
                Some(value) => {
                    chunk.push(value);
                },
                None => {},
            }
            i += 1;
            assert(chunk@ =~= old(self).pending@.subrange(0, i as int));
            assert(self.pending@ =~= old(self).pending@.subrange(
                i as int,
                old(self).pending@.len() as int,
            ));
        }
        Some(chunk)
    }
}

/// What the device did since the last step of the capture loop.
#[derive(Debug)]
pub enum CaptureEvent {
    /// A read gave these bytes, and the device signalled that more will come.
    Samples(Vec<u8>),
    /// A read from the device failed.
    ReadFailed,
    /// The device signalled nothing within the time allowed: the stream has ended.
    TimedOut,
}

impl CaptureEvent {
    /// What a read and the wait that followed it amount to.
    pub open spec fn of_device(read: Option<Vec<u8>>, signalled: bool) -> CaptureEvent {
        match read {
            None => CaptureEvent::ReadFailed,
            Some(bytes) => if signalled {
                CaptureEvent::Samples(bytes)
            } else {
                CaptureEvent::TimedOut
            },
        }
    }

    /// The event for one round with the device: `read` holds the bytes of a read that
    /// succeeded, and `signalled` says whether the device then announced more within the time
    /// allowed. A failed read counts whatever the wait would have said; bytes read just before a
    /// timeout are not forwarded.
    pub fn from_device(read: Option<Vec<u8>>, signalled: bool) -> (event: CaptureEvent)
        ensures
            event == CaptureEvent::of_device(read, signalled),
    {
        match read {
            None => CaptureEvent::ReadFailed,
            Some(bytes) => if signalled {
                CaptureEvent::Samples(bytes)
            } else {
                CaptureEvent::TimedOut
            },
        }
    }
}

/// What the capture loop has to do after an event.
#[derive(Debug)]
pub struct CaptureStep {
    /// The messages to send to the processing side, in this order.
    pub messages: Vec<AudioDataMessage>,
    /// Whether to stop the device stream and leave the loop.
    pub stop_stream: bool,
}

/// The decisions of the capture loop: which chunks to forward, and when to stop.
pub struct CaptureLoop {
    queue: SampleQueue,
    frame_len: usize,
    stopped: bool,
}

impl CaptureLoop {
    /// The bytes read from the device and not yet forwarded.
    pub closed spec fn pending(self) -> Seq<u8> {
        self.queue.pending()
    }

    /// The length of every chunk that is forwarded.
    pub closed spec fn chunk_len(self) -> nat {
        self.queue.chunk_len()
    }

    /// The block alignment of the format captured in.
    pub closed spec fn frame_len(self) -> nat {
        self.frame_len as nat
    }

    /// Whether the loop has ended.
    pub closed spec fn stopped(self) -> bool {
        self.stopped
    }

    /// What holds of every capture loop: chunks are made of whole frames, `CHUNK_FRAMES` each.
    pub closed spec fn well_formed(self) -> bool {
        &&& self.frame_len > 0
        &&& self.queue.chunk_len() == self.frame_len * CHUNK_FRAMES
    }

    /// A capture loop for `format`, with nothing read yet.
    pub fn new(format: &AudioFormatInfo) -> (capture: CaptureLoop)
        requires
            format.valid(),
        ensures
            capture.well_formed(),
            !capture.stopped(),
            capture.pending() == Seq::<u8>::empty(),
            capture.frame_len() == format.frame_bytes(),
            capture.chunk_len() == format.frame_bytes() * CHUNK_FRAMES,
    {
        proof {
            lemma_frame_bytes_by_bits(*format);
        }
        CaptureLoop {
            queue: SampleQueue::new(format),
            frame_len: format.block_alignment() as usize,
            stopped: false,
        }
    }

    /// Whether the loop has ended.
    pub fn is_stopped(&self) -> (stopped: bool)
        ensures
            stopped == self.stopped(),
    {
        self.stopped
    }

    /// Every chunk is a whole number of frames.
    pub proof fn lemma_chunks_hold_whole_frames(self)
        requires
            self.well_formed(),
        ensures
            self.frame_len() > 0,
            self.chunk_len() == self.frame_len() * CHUNK_FRAMES,
            self.chunk_len() % self.frame_len() == 0,
            self.chunk_len() > 0,
    {
        let f = self.frame_len as int;
        assert((f * 4096) % f == 0 && f * 4096 > 0) by (nonlinear_arith)
            requires
                f > 0,
        ;
    }

    /// Decide what follows from `event`.
    ///
    /// Bytes that were read go behind those that wait, and every chunk that is then ready is
    /// forwarded, oldest first: the forwarded chunks and what stays behind are, in order, the
    /// bytes that waited and the bytes read. A failed read sends the one error message and ends
    /// the loop; a timeout ends it without a message. After the end nothing is sent any more.
    /// No data message ever has a length that is not a multiple of the block alignment.
    pub fn step(&mut self, event: CaptureEvent) -> (out: CaptureStep)
        requires
            old(self).well_formed(),
        ensures
            final(self).well_formed(),
            final(self).frame_len() == old(self).frame_len(),
            final(self).chunk_len() == old(self).chunk_len(),
            forall|i: int|
                0 <= i < out.messages@.len() ==> match #[trigger] out.messages@[i] {
                    AudioDataMessage::AudioData(chunk) => chunk@.len() == old(self).chunk_len()
                        && chunk@.len() % old(self).frame_len() == 0,
                    AudioDataMessage::Error(e) => e == CaptureError::AudioCaptureFailed && i
                        == out.messages@.len() - 1,
                },
            old(self).stopped() ==> {
                &&& out.messages@.len() == 0
                &&& !out.stop_stream
                &&& final(self).stopped()
                &&& final(self).pending() == old(self).pending()
            },
            !old(self).stopped() ==> match event {
                CaptureEvent::Samples(bytes) => {
                    &&& !out.stop_stream
                    &&& !final(self).stopped()
                    &&& payload_of(out.messages@) + final(self).pending() == old(self).pending()
                        + bytes@
                    &&& final(self).pending().len() <= old(self).chunk_len()
                    &&& out.messages@.len() > 0 ==> final(self).pending().len() > 0
                    &&& out.messages@.len() * old(self).chunk_len() == payload_of(
                        out.messages@,
                    ).len()
                },
                CaptureEvent::ReadFailed => {
                    &&& out.stop_stream
                    &&& final(self).stopped()
                    &&& out.messages@.len() == 1
                    &&& out.messages@[0] == AudioDataMessage::Error(
                        CaptureError::AudioCaptureFailed,
                    )
                    &&& final(self).pending() == old(self).pending()
                },
                CaptureEvent::TimedOut => {
                    &&& out.stop_stream
                    &&& final(self).stopped()
                    &&& out.messages@.len() == 0
                    &&& final(self).pending() == old(self).pending()
                },
            },
    {
        let mut messages: Vec<AudioDataMessage> = Vec::new();
        if self.stopped {
            return CaptureStep { messages, stop_stream: false };
        }
        proof {
            self.lemma_chunks_hold_whole_frames();
        }
        match event {
            CaptureEvent::Samples(bytes) => {
                self.queue.push_samples(bytes.as_slice());
                let ghost all = self.queue.pending();
                assert(payload_of(messages@) + self.queue.pending() =~= all);
                loop
                    invariant
                        self.well_formed(),
                        !self.stopped,
                        self.frame_len == old(self).frame_len,
                        self.queue.chunk_len() == old(self).queue.chunk_len(),
                        old(self).chunk_len() % old(self).frame_len() == 0,
                        old(self).chunk_len() > 0,
                        forall|i: int|
                            0 <= i < messages@.len() ==> match #[trigger] messages@[i] {
                                AudioDataMessage::AudioData(chunk) => chunk@.len()
                                    == old(self).chunk_len(),
                                AudioDataMessage::Error(e) => false,
                            },
                        payload_of(messages@) + self.queue.pending() == all,
                        messages@.len() > 0 ==> self.queue.pending().len() > 0,
                        messages@.len() * old(self).chunk_len() == payload_of(messages@).len(),
                    ensures
                        self.queue.pending().len() <= old(self).chunk_len(),
                    decreases self.queue.pending().len(),
                {
                    let ghost before = self.queue.pending();
                    let ghost sent = messages@;
                    match self.queue.next_chunk() {
                        Some(chunk) => {
                            let ghost taken = chunk@;
                            messages.push(AudioDataMessage::AudioData(chunk));
                            proof {
                                assert(messages@.drop_last() =~= sent);
                                assert(payload_of(messages@) == payload_of(sent) + taken);
                                assert(taken + self.queue.pending() =~= before);
                                assert(payload_of(messages@) + self.queue.pending() =~= payload_of(
                                    sent,
                                ) + before);
                                let n = sent.len();
                                let len = taken.len();
                                assert((n + 1) * len == n * len + len) by (nonlinear_arith);
                            }
                        },
                        None => {
                            break ;
                        },
                    }
                }
                CaptureStep { messages, stop_stream: false }
            },
            CaptureEvent::ReadFailed => {
                messages.push(AudioDataMessage::Error(CaptureError::AudioCaptureFailed));
                self.stopped = true;
                CaptureStep { messages, stop_stream: true }
            },
            CaptureEvent::TimedOut => {
                self.stopped = true;
                CaptureStep { messages, stop_stream: true }
            },
        }
    }
}

} // verus!
