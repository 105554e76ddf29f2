use wavrec::audio::{AudioFormatInfo, RequestedAudioFormatInfo, SampleFormat};
use std::sync::mpsc::{channel, Sender};
use wavrec::capture::{
    negotiate, AudioDataMessage, AudioLoopback, CaptureError, CaptureEvent, CaptureLoop,
    DeviceFormat, SampleQueue, SampleType, CHUNK_FRAMES,
};

fn stereo_16() -> AudioFormatInfo {
    AudioFormatInfo {
        sample_rate: 44100,
        num_channels: 2,
        format: SampleFormat::Int16,
    }
}

fn nothing_requested() -> RequestedAudioFormatInfo {
    RequestedAudioFormatInfo {
        sample_rate: None,
        num_channels: None,
        format: None,
    }
}

fn float_device() -> DeviceFormat {
    DeviceFormat {
        bits_per_sample: 32,
        samples_per_sec: 48000,
        channels: 2,
        sample_type: Some(SampleType::Float),
    }
}

fn counting_bytes(from: usize, count: usize) -> Vec<u8> {
    (from..from + count).map(|i| (i % 251) as u8).collect()
}

fn data_chunks(messages: Vec<AudioDataMessage>) -> Vec<Vec<u8>> {
    let mut chunks = Vec::new();
    for message in messages {
        match message {
            AudioDataMessage::AudioData(chunk) => chunks.push(chunk),
            AudioDataMessage::Error(e) => panic!("unexpected error message: {:?}", e),
        }
    }
    chunks
}

#[test]
fn negotiation_fills_open_fields_from_the_device() {
    let format = negotiate(&nothing_requested(), &float_device()).unwrap();
    assert_eq!(
        format,
        AudioFormatInfo {
            sample_rate: 48000,
            num_channels: 2,
            format: SampleFormat::Float32,
        }
    );
}

#[test]
fn negotiation_keeps_what_was_requested() {
    let requested = RequestedAudioFormatInfo {
        sample_rate: Some(44100),
        num_channels: Some(1),
        format: Some(SampleFormat::Int24),
    };
    let format = negotiate(&requested, &float_device()).unwrap();
    assert_eq!(
        format,
        AudioFormatInfo {
            sample_rate: 44100,
            num_channels: 1,
            format: SampleFormat::Int24,
        }
    );

    let only_rate = RequestedAudioFormatInfo {
        sample_rate: Some(96000),
        num_channels: None,
        format: None,
    };
    let format = negotiate(&only_rate, &float_device()).unwrap();
    assert_eq!(format.sample_rate, 96000);
    assert_eq!(format.num_channels, 2);
    assert_eq!(format.format, SampleFormat::Float32);
}

#[test]
fn negotiation_maps_integer_depths() {
    for (bits, expected) in [
        (16u16, SampleFormat::Int16),
        (24, SampleFormat::Int24),
        (32, SampleFormat::Int32),
    ] {
        let device = DeviceFormat {
            bits_per_sample: bits,
            samples_per_sec: 44100,
            channels: 2,
            sample_type: Some(SampleType::Int),
        };
        assert_eq!(
            negotiate(&nothing_requested(), &device).unwrap().format,
            expected
        );
    }
}

#[test]
fn negotiation_refuses_what_no_format_says() {
    let odd_depth = DeviceFormat {
        bits_per_sample: 8,
        samples_per_sec: 44100,
        channels: 2,
        sample_type: Some(SampleType::Int),
    };
    assert_eq!(
        negotiate(&nothing_requested(), &odd_depth),
        Err(CaptureError::InvalidBitDepth)
    );

    let wide_float = DeviceFormat {
        bits_per_sample: 64,
        samples_per_sec: 44100,
        channels: 2,
        sample_type: Some(SampleType::Float),
    };
    assert_eq!(
        negotiate(&nothing_requested(), &wide_float),
        Err(CaptureError::InvalidBitDepth)
    );

    let unknown_kind = DeviceFormat {
        bits_per_sample: 16,
        samples_per_sec: 44100,
        channels: 2,
        sample_type: None,
    };
    assert_eq!(
        negotiate(&nothing_requested(), &unknown_kind),
        Err(CaptureError::InvalidBitDepth)
    );
    // A requested format settles the kind of sample, whatever the device says.
    let requested = RequestedAudioFormatInfo {
        sample_rate: None,
        num_channels: None,
        format: Some(SampleFormat::Int16),
    };
    assert_eq!(
        negotiate(&requested, &unknown_kind).unwrap().format,
        SampleFormat::Int16
    );

    let too_many_channels = DeviceFormat {
        bits_per_sample: 16,
        samples_per_sec: 44100,
        channels: 256,
        sample_type: Some(SampleType::Int),
    };
    assert_eq!(
        negotiate(&nothing_requested(), &too_many_channels),
        Err(CaptureError::InvalidBitDepth)
    );

    let no_channel = RequestedAudioFormatInfo {
        sample_rate: None,
        num_channels: Some(0),
        format: None,
    };
    assert_eq!(
        negotiate(&no_channel, &float_device()),
        Err(CaptureError::InvalidBitDepth)
    );

    let no_rate = RequestedAudioFormatInfo {
        sample_rate: Some(0),
        num_channels: None,
        format: None,
    };
    assert_eq!(
        negotiate(&no_rate, &float_device()),
        Err(CaptureError::InvalidBitDepth)
    );
}

#[test]
fn negotiation_takes_the_most_channels_a_format_can_say() {
    let device = DeviceFormat {
        bits_per_sample: 16,
        samples_per_sec: 44100,
        channels: 255,
        sample_type: Some(SampleType::Int),
    };
    assert_eq!(
        negotiate(&nothing_requested(), &device).unwrap().num_channels,
        255
    );
}

#[test]
fn capture_error_messages() {
    assert_eq!(
        CaptureError::InitMtaFailure.message(),
        "Failed to initialize WASAPI MTA"
    );
    assert_eq!(
        CaptureError::InvalidBitDepth.message(),
        "Invalid bit depth requested"
    );
    assert_eq!(
        CaptureError::AudioCaptureFailed.message(),
        "Audio capture failed"
    );
}

#[test]
fn queue_hands_out_chunks_in_order() {
    let format = AudioFormatInfo {
        sample_rate: 8000,
        num_channels: 1,
        format: SampleFormat::Int16,
    };
    let mut queue = SampleQueue::new(&format);
    let chunk_len = 2 * CHUNK_FRAMES;
    assert_eq!(queue.chunk_size(), chunk_len);
    assert_eq!(queue.len(), 0);
    assert_eq!(queue.next_chunk(), None);

    let bytes = counting_bytes(0, 2 * chunk_len + 5);
    queue.push_samples(&bytes[..chunk_len]);
    // Exactly one chunk's worth is not yet enough.
    assert_eq!(queue.next_chunk(), None);
    assert_eq!(queue.len(), chunk_len);

    queue.push_samples(&bytes[chunk_len..]);
    assert_eq!(queue.len(), 2 * chunk_len + 5);
    assert_eq!(queue.next_chunk(), Some(bytes[..chunk_len].to_vec()));
    assert_eq!(queue.next_chunk(), Some(bytes[chunk_len..2 * chunk_len].to_vec()));
    assert_eq!(queue.next_chunk(), None);
    assert_eq!(queue.len(), 5);
}

#[test]
fn capture_loop_forwards_whole_chunks_only() {
    let format = stereo_16();
    let block_alignment = format.block_alignment() as usize;
    let chunk_len = block_alignment * CHUNK_FRAMES;
    assert_eq!(chunk_len, 16384);
    let mut capture = CaptureLoop::new(&format);
    assert!(!capture.is_stopped());

    let all = counting_bytes(0, chunk_len + 1 + 40000);

    let step = capture.step(CaptureEvent::Samples(all[..chunk_len].to_vec()));
    assert!(!step.stop_stream);
    assert!(step.messages.is_empty());

    let step = capture.step(CaptureEvent::Samples(all[chunk_len..chunk_len + 1].to_vec()));
    assert!(!step.stop_stream);
    let chunks = data_chunks(step.messages);
    assert_eq!(chunks, vec![all[..chunk_len].to_vec()]);

    let step = capture.step(CaptureEvent::Samples(all[chunk_len + 1..].to_vec()));
    assert!(!step.stop_stream);
    let chunks = data_chunks(step.messages);
    assert_eq!(chunks.len(), 2);
    for chunk in &chunks {
        assert_eq!(chunk.len(), chunk_len);
        assert_eq!(chunk.len() % block_alignment, 0);
    }
    assert_eq!(chunks[0], all[chunk_len..2 * chunk_len].to_vec());
    assert_eq!(chunks[1], all[2 * chunk_len..3 * chunk_len].to_vec());
    assert!(!capture.is_stopped());
}

#[test]
fn capture_loop_chunks_are_multiples_of_the_block_alignment() {
    for (format, channels) in [
        (SampleFormat::Int16, 1u8),
        (SampleFormat::Int24, 2),
        (SampleFormat::Int32, 6),
        (SampleFormat::Float32, 3),
    ] {
        let info = AudioFormatInfo {
            sample_rate: 48000,
            num_channels: channels,
            format,
        };
        let block_alignment = info.block_alignment() as usize;
        let mut capture = CaptureLoop::new(&info);
        let mut sent = 0;
        for round in 0..5 {
            let bytes = counting_bytes(round * 30011, 30011);
            let step = capture.step(CaptureEvent::Samples(bytes));
            for chunk in data_chunks(step.messages) {
                assert_eq!(chunk.len(), block_alignment * CHUNK_FRAMES);
                assert_eq!(chunk.len() % block_alignment, 0);
                sent += chunk.len();
            }
        }
        let total = 5 * 30011;
        let chunk_len = block_alignment * CHUNK_FRAMES;
        assert_eq!(sent, ((total - 1) / chunk_len) * chunk_len);
    }
}

#[test]
fn failed_read_sends_one_error_and_stops() {
    let mut capture = CaptureLoop::new(&stereo_16());
    let step = capture.step(CaptureEvent::Samples(counting_bytes(0, 100)));
    assert!(step.messages.is_empty());

    let step = capture.step(CaptureEvent::ReadFailed);
    assert!(step.stop_stream);
    assert_eq!(step.messages.len(), 1);
    assert!(matches!(
        step.messages[0],
        AudioDataMessage::Error(CaptureError::AudioCaptureFailed)
    ));
    assert!(capture.is_stopped());

    // Nothing follows the end of the loop, whatever arrives.
    let step = capture.step(CaptureEvent::ReadFailed);
    assert!(step.messages.is_empty());
    assert!(!step.stop_stream);
    let step = capture.step(CaptureEvent::Samples(counting_bytes(0, 100_000)));
    assert!(step.messages.is_empty());
    assert!(!step.stop_stream);
    assert!(capture.is_stopped());
}

#[test]
fn timeout_stops_without_a_message() {
    let mut capture = CaptureLoop::new(&stereo_16());
    let step = capture.step(CaptureEvent::TimedOut);
    assert!(step.stop_stream);
    assert!(step.messages.is_empty());
    assert!(capture.is_stopped());
}

/// A capture source that plays back a fixed list of reads; `None` is a read that fails.
struct ScriptedSource {
    format: AudioFormatInfo,
    reads: Vec<Option<Vec<u8>>>,
}

impl AudioLoopback for ScriptedSource {
    fn create(format: RequestedAudioFormatInfo) -> Result<Self, CaptureError> {
        let format = negotiate(&format, &float_device())?;
        let chunk_len = format.block_alignment() as usize * CHUNK_FRAMES;
        Ok(ScriptedSource {
            format,
            reads: vec![
                Some(counting_bytes(0, chunk_len)),
                Some(counting_bytes(chunk_len, chunk_len + 3)),
                None,
                Some(counting_bytes(0, 3 * chunk_len)),
            ],
        })
    }

    fn get_audio_format(&self) -> AudioFormatInfo {
        self.format
    }

    fn capture(&self, transmitter: Sender<AudioDataMessage>) -> Result<(), CaptureError> {
        let mut decisions = CaptureLoop::new(&self.format);
        for read in &self.reads {
            let event = match read {
                Some(bytes) => CaptureEvent::Samples(bytes.clone()),
                None => CaptureEvent::ReadFailed,
            };
            let step = decisions.step(event);
            for message in step.messages {
                transmitter
                    .send(message)
                    .map_err(|_| CaptureError::AudioCaptureFailed)?;
            }
            if step.stop_stream {
                break;
            }
        }
        Ok(())
    }
}

#[test]
fn a_capture_source_sends_chunks_in_order_then_its_one_error() {
    let requested = RequestedAudioFormatInfo {
        sample_rate: Some(44100),
        num_channels: None,
        format: Some(SampleFormat::Int16),
    };
    let source = ScriptedSource::create(requested).unwrap();
    assert_eq!(source.get_audio_format(), stereo_16());
    let chunk_len = 16384;

    let (transmitter, receiver) = channel();
    assert_eq!(source.capture(transmitter), Ok(()));
    let received: Vec<AudioDataMessage> = receiver.try_iter().collect();
    // Two reads gave two chunks and three bytes to spare; the failed read ends it all.
    assert_eq!(received.len(), 3);
    for (i, message) in received[..2].iter().enumerate() {
        match message {
            AudioDataMessage::AudioData(chunk) => {
                assert_eq!(*chunk, counting_bytes(i * chunk_len, chunk_len));
            }
            other => panic!("expected a chunk, got {:?}", other),
        }
    }
    assert!(matches!(
        received[2],
        AudioDataMessage::Error(CaptureError::AudioCaptureFailed)
    ));
    // The sending side is gone: nothing more is available, and asking does not block.
    assert!(receiver.try_recv().is_err());
}

#[test]
fn a_capture_source_cannot_be_created_in_a_format_nobody_can_say() {
    let requested = RequestedAudioFormatInfo {
        sample_rate: Some(0),
        num_channels: None,
        format: None,
    };
    assert_eq!(
        ScriptedSource::create(requested).err(),
        Some(CaptureError::InvalidBitDepth)
    );
}

#[test]
fn device_rounds_become_events() {
    assert!(matches!(
        CaptureEvent::from_device(None, false),
        CaptureEvent::ReadFailed
    ));
    assert!(matches!(
        CaptureEvent::from_device(None, true),
        CaptureEvent::ReadFailed
    ));
    assert!(matches!(
        CaptureEvent::from_device(Some(vec![1, 2, 3]), false),
        CaptureEvent::TimedOut
    ));
    match CaptureEvent::from_device(Some(vec![1, 2, 3]), true) {
        CaptureEvent::Samples(bytes) => assert_eq!(bytes, vec![1, 2, 3]),
        other => panic!("expected samples, got {:?}", other),
    }
}
