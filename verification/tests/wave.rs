use wavrec::audio::{AudioFormatInfo, SampleFormat};
use wavrec::wave::{
    encode, u16_le_bytes, u32_le_bytes, EncodeError, WaveData, WaveFile, WaveHeader,
};

fn create_wave_header(
    sample_rate: u32,
    format: SampleFormat,
    num_channels: u8,
    data_size: usize,
) -> WaveHeader {
    let format = AudioFormatInfo {
        sample_rate,
        num_channels,
        format,
    };
    WaveHeader::create(format, data_size).unwrap()
}

fn validate_wave_header_fields(
    sample_rate: u32,
    format: SampleFormat,
    num_channels: u8,
    data_size: usize,
) {
    let header = create_wave_header(sample_rate, format, num_channels, data_size);
    assert_eq!(
        u32::from_le_bytes(header.file_size),
        (data_size + WaveHeader::BYTES_IN_HEADER - 8)
            .try_into()
            .unwrap()
    );

    assert_eq!(
        u16::from_le_bytes(header.type_format),
        format.type_format_header()
    );
    assert_eq!(u16::from_le_bytes(header.num_channels), num_channels.into());
    assert_eq!(u32::from_le_bytes(header.sample_rate), sample_rate);
    assert_eq!(
        u32::from_le_bytes(header.bytes_per_second),
        (sample_rate * format.bit_depth() as u32 * num_channels as u32) / 8
    );

    assert_eq!(
        u16::from_le_bytes(header.block_alignment),
        ((num_channels * format.bit_depth()) / 8).into()
    );

    assert_eq!(
        u16::from_le_bytes(header.bit_depth),
        format.bit_depth().into()
    );
}

fn validate_wave_header_bytes(
    sample_rate: u32,
    format: SampleFormat,
    num_channels: u8,
    data_size: usize,
) {
    let header = create_wave_header(sample_rate, format, num_channels, data_size).as_bytes();

    assert_eq!(
        header[4..8],
        ((data_size + WaveHeader::BYTES_IN_HEADER - 8) as u32).to_le_bytes()
    );

    assert_eq!(header[20..22], format.type_format_header().to_le_bytes());
    assert_eq!(header[22..24], (num_channels as u16).to_le_bytes());
    assert_eq!(header[24..28], sample_rate.to_le_bytes());

    // Bytes per second
    assert_eq!(
        header[28..32],
        ((sample_rate * format.bit_depth() as u32 * num_channels as u32) / 8).to_le_bytes()
    );

    // Block alignment
    assert_eq!(
        header[32..34],
        (((num_channels * format.bit_depth()) / 8) as u16).to_le_bytes()
    );

    assert_eq!(header[34..36], (format.bit_depth() as u16).to_le_bytes());
}

#[test]
fn test_create_wave_header_returns_wave_data_with_correct_static_fields() {
    let header = create_wave_header(44100, SampleFormat::Int16, 2, 0);
    assert_eq!(header.file_description_header, *b"RIFF");
    assert_eq!(header.fmt_description, *b"fmt ");
    assert_eq!(header.wave_description_header, *b"WAVE");
    assert_eq!(u32::from_le_bytes(header.wave_description_chunk_size), 16);
}

#[test]
fn test_create_wave_header_returns_wave_data_with_correct_calculated_fields() {
    validate_wave_header_fields(44100, SampleFormat::Int16, 2, 0);
    validate_wave_header_fields(44100, SampleFormat::Int16, 2, 100);
    validate_wave_header_fields(48000, SampleFormat::Int16, 2, 100);
    validate_wave_header_fields(96000, SampleFormat::Int16, 2, 100);

    validate_wave_header_fields(44100, SampleFormat::Int24, 2, 0);
    validate_wave_header_fields(44100, SampleFormat::Int24, 2, 100);
    validate_wave_header_fields(48000, SampleFormat::Int24, 2, 100);
    validate_wave_header_fields(96000, SampleFormat::Int24, 2, 100);

    validate_wave_header_fields(44100, SampleFormat::Int32, 2, 0);
    validate_wave_header_fields(44100, SampleFormat::Int32, 2, 100);
    validate_wave_header_fields(48000, SampleFormat::Int32, 2, 100);
    validate_wave_header_fields(96000, SampleFormat::Int32, 2, 100);

    validate_wave_header_fields(44100, SampleFormat::Float32, 2, 0);
    validate_wave_header_fields(44100, SampleFormat::Float32, 2, 100);
    validate_wave_header_fields(48000, SampleFormat::Float32, 2, 100);
    validate_wave_header_fields(96000, SampleFormat::Float32, 2, 100);
}

#[test]
fn test_wave_header_bytes_contain_correct_static_data() {
    let header = create_wave_header(44100, SampleFormat::Int16, 2, 0).as_bytes();
    assert_eq!(header[0..4], *b"RIFF");
    assert_eq!(header[8..12], *b"WAVE");
    assert_eq!(header[12..16], *b"fmt ");

    // Wave description chunk size
    assert_eq!(header[16..20], 16u32.to_le_bytes());
}

#[test]
fn test_wave_header_bytes_contain_correct_calculated_data() {
    validate_wave_header_bytes(44100, SampleFormat::Int16, 2, 0);
    validate_wave_header_bytes(44100, SampleFormat::Int16, 2, 100);
    validate_wave_header_bytes(48000, SampleFormat::Int16, 2, 100);
    validate_wave_header_bytes(96000, SampleFormat::Int16, 2, 100);

    validate_wave_header_bytes(44100, SampleFormat::Int24, 2, 0);
    validate_wave_header_bytes(44100, SampleFormat::Int24, 2, 100);
    validate_wave_header_bytes(48000, SampleFormat::Int24, 2, 100);
    validate_wave_header_bytes(96000, SampleFormat::Int24, 2, 100);

    validate_wave_header_bytes(44100, SampleFormat::Int32, 2, 0);
    validate_wave_header_bytes(44100, SampleFormat::Int32, 2, 100);
    validate_wave_header_bytes(48000, SampleFormat::Int32, 2, 100);
    validate_wave_header_bytes(96000, SampleFormat::Int32, 2, 100);

    validate_wave_header_bytes(44100, SampleFormat::Float32, 2, 0);
    validate_wave_header_bytes(44100, SampleFormat::Float32, 2, 100);
    validate_wave_header_bytes(48000, SampleFormat::Float32, 2, 100);
    validate_wave_header_bytes(96000, SampleFormat::Float32, 2, 100);
}

#[test]
fn test_wave_data_contains_correct_static_data() {
    let data = WaveData::create(vec![]).unwrap();
    assert_eq!(data.data_header, *b"data");
}

#[test]
fn test_wave_data_conains_correct_size() {
    let data = WaveData::create(vec![]).unwrap();
    assert_eq!(data.size_in_bytes, 0u32.to_le_bytes());

    let data = WaveData::create(vec![0u8; 100]).unwrap();
    assert_eq!(data.size_in_bytes, 100u32.to_le_bytes());
}

#[test]
fn test_wave_data_contains_correct_data() {
    let data = WaveData::create(vec![]).unwrap();
    assert_eq!(data.data, vec![]);

    let values: Vec<u8> = vec![1, 2, 3, 4];
    let data = WaveData::create(values.clone()).unwrap();
    assert_eq!(data.data, values);
}

#[test]
fn test_wave_data_bytes_contains_correct_static_data() {
    let data = WaveData::create(vec![]).unwrap().as_bytes();
    assert_eq!(data[0..4], *b"data");
}

#[test]
fn test_wave_data_bytes_contains_correct_size() {
    let data = WaveData::create(vec![]).unwrap().as_bytes();
    assert_eq!(data[4..8], 0u32.to_le_bytes());

    let data = WaveData::create(vec![1, 2, 3, 4]).unwrap().as_bytes();
    assert_eq!(data[4..8], 4u32.to_le_bytes());
}

#[test]
fn test_wave_data_bytes_contains_correct_data() {
    let data = WaveData::create(vec![]).unwrap().as_bytes();
    assert_eq!(data[8..], vec![]);

    let values: Vec<u8> = vec![1, 2, 3, 4];
    let data = WaveData::create(values.clone()).unwrap().as_bytes();
    assert_eq!(data[8..], values);
}

fn cd_format() -> AudioFormatInfo {
    AudioFormatInfo {
        sample_rate: 44100,
        num_channels: 2,
        format: SampleFormat::Int16,
    }
}

#[test]
fn empty_payload_round_trip() {
    let bytes = encode(vec![], cd_format()).unwrap();
    assert_eq!(bytes.len(), 44);
    assert_eq!(u32::from_le_bytes(bytes[4..8].try_into().unwrap()), 36);
    assert_eq!(u32::from_le_bytes(bytes[40..44].try_into().unwrap()), 0);
    assert_eq!(
        bytes,
        vec![
            b'R', b'I', b'F', b'F', 36, 0, 0, 0, b'W', b'A', b'V', b'E', b'f', b'm', b't', b' ',
            16, 0, 0, 0, 1, 0, 2, 0, 0x44, 0xac, 0, 0, 0x10, 0xb1, 0x02, 0, 4, 0, 16, 0, b'd',
            b'a', b't', b'a', 0, 0, 0, 0
        ]
    );
}

#[test]
fn hundred_byte_payload_round_trip() {
    let payload: Vec<u8> = (0..100u8).collect();
    let bytes = encode(payload.clone(), cd_format()).unwrap();
    assert_eq!(bytes.len(), 144);
    assert_eq!(u32::from_le_bytes(bytes[4..8].try_into().unwrap()), 136);
    assert_eq!(&bytes[36..40], b"data");
    assert_eq!(u32::from_le_bytes(bytes[40..44].try_into().unwrap()), 100);
    assert_eq!(bytes[44..], payload);
}

#[test]
fn file_is_header_then_data_section() {
    let payload: Vec<u8> = vec![9, 8, 7, 6, 5, 4];
    let format = AudioFormatInfo {
        sample_rate: 48000,
        num_channels: 1,
        format: SampleFormat::Float32,
    };
    let file = WaveFile::create(payload.clone(), format).unwrap();
    assert_eq!(file.data.data, payload);
    let mut expected = file.header.as_bytes();
    assert_eq!(expected.len(), 36);
    expected.extend(file.data.as_bytes());
    assert_eq!(file.as_bytes(), expected);
    assert_eq!(file.as_bytes(), encode(payload, format).unwrap());
    assert_eq!(u16::from_le_bytes(file.header.type_format), 3);
}

#[test]
fn little_endian_bytes_match_the_standard_ones() {
    for value in [0u16, 1, 255, 256, 0x1234, u16::MAX] {
        assert_eq!(u16_le_bytes(value), value.to_le_bytes());
    }
    for value in [0u32, 1, 255, 256, 65535, 65536, 0x0102_0304, 0xdead_beef, u32::MAX] {
        assert_eq!(u32_le_bytes(value), value.to_le_bytes());
    }
}

#[test]
fn payload_too_large_is_refused() {
    let largest = u32::MAX as usize - 36;
    let header = WaveHeader::create(cd_format(), largest).unwrap();
    assert_eq!(u32::from_le_bytes(header.file_size), u32::MAX);
    if usize::BITS > 32 {
        assert_eq!(
            WaveHeader::create(cd_format(), largest + 1).err(),
            Some(EncodeError::PayloadTooLarge)
        );
        assert_eq!(
            WaveHeader::create(cd_format(), usize::MAX).err(),
            Some(EncodeError::PayloadTooLarge)
        );
    }
}

#[test]
fn byte_rate_too_large_is_refused() {
    let format = AudioFormatInfo {
        sample_rate: u32::MAX,
        num_channels: 2,
        format: SampleFormat::Int16,
    };
    assert_eq!(
        WaveHeader::create(format, 0).err(),
        Some(EncodeError::ByteRateTooLarge)
    );
    assert_eq!(
        WaveFile::create(vec![1, 2], format).err(),
        Some(EncodeError::ByteRateTooLarge)
    );
    assert_eq!(
        encode(vec![], format).err(),
        Some(EncodeError::ByteRateTooLarge)
    );
}

#[test]
fn payload_size_is_checked_before_the_byte_rate() {
    if usize::BITS > 32 {
        let format = AudioFormatInfo {
            sample_rate: u32::MAX,
            num_channels: 2,
            format: SampleFormat::Int16,
        };
        assert_eq!(
            WaveHeader::create(format, usize::MAX).err(),
            Some(EncodeError::PayloadTooLarge)
        );
    }
}

#[test]
fn encode_error_messages() {
    assert_eq!(
        EncodeError::PayloadTooLarge.message(),
        "Audio data too large for a WAV file"
    );
    assert_eq!(
        EncodeError::ByteRateTooLarge.message(),
        "Byte rate too large for a WAV file"
    );
}
