use whispercrabs::audio::{
    encode, finish_capture, CaptureError, EncodeError, RecordingError, BITS_PER_SAMPLE, CHANNELS,
    HEADER_LEN, MAX_SAMPLE_RATE,
};

fn decoded(bytes: &[u8]) -> (hound::WavSpec, Vec<i16>) {
    let mut reader = hound::WavReader::new(std::io::Cursor::new(bytes.to_vec())).unwrap();
    let spec = reader.spec();
    let samples = reader.samples::<i16>().map(|s| s.unwrap()).collect();
    (spec, samples)
}

#[test]
fn the_container_of_five_samples_is_these_bytes() {
    let audio = encode(&vec![0, 1, -1, 32767, -32768], 16000).expect("encodes");
    let expected: Vec<u8> = vec![
        0x52, 0x49, 0x46, 0x46, 0x2e, 0x00, 0x00, 0x00, 0x57, 0x41, 0x56, 0x45, 0x66, 0x6d, 0x74,
        0x20, 0x10, 0x00, 0x00, 0x00, 0x01, 0x00, 0x01, 0x00, 0x80, 0x3e, 0x00, 0x00, 0x00, 0x7d,
        0x00, 0x00, 0x02, 0x00, 0x10, 0x00, 0x64, 0x61, 0x74, 0x61, 0x0a, 0x00, 0x00, 0x00, 0x00,
        0x00, 0x01, 0x00, 0xff, 0xff, 0xff, 0x7f, 0x00, 0x80,
    ];
    assert_eq!(audio.bytes(), &expected);
    assert_eq!(audio.sample_rate(), 16000);
    assert_eq!(audio.duplicate().into_bytes(), expected);
}

#[test]
fn the_container_of_no_samples_is_the_bare_header() {
    let audio = encode(&Vec::new(), 44100).expect("encodes");
    let bytes = audio.into_bytes();
    assert_eq!(bytes.len(), HEADER_LEN);
    assert_eq!(&bytes[0..4], b"RIFF");
    assert_eq!(&bytes[4..8], &[36, 0, 0, 0]);
    assert_eq!(&bytes[24..28], &[0x44, 0xac, 0, 0]);
    assert_eq!(&bytes[28..32], &[0x88, 0x58, 0x01, 0]);
    assert_eq!(&bytes[40..44], &[0, 0, 0, 0]);
}

#[test]
fn decoding_the_container_gives_the_samples_back() {
    let samples: Vec<i16> = (0..2000).map(|i| ((i * 37) % 65536 - 32768) as i16).collect();
    let audio = encode(&samples, 48000).expect("encodes");
    let (spec, back) = decoded(audio.bytes());
    assert_eq!(spec.channels, CHANNELS);
    assert_eq!(spec.channels, 1);
    assert_eq!(spec.bits_per_sample, BITS_PER_SAMPLE);
    assert_eq!(spec.bits_per_sample, 16);
    assert_eq!(spec.sample_rate, 48000);
    assert_eq!(spec.sample_format, hound::SampleFormat::Int);
    assert_eq!(back, samples);
}

#[test]
fn a_two_second_mono_capture_is_encoded_whole() {
    let samples: Vec<i16> = (0..32000).map(|i| ((i % 200) * 100 - 10000) as i16).collect();
    let audio = finish_capture(&samples, 16000).expect("encodes");
    assert_eq!(audio.bytes().len(), 44 + 64000);
    let (spec, back) = decoded(audio.bytes());
    assert_eq!(spec.sample_rate, 16000);
    assert_eq!(back.len(), 32000);
    assert_eq!(back, samples);
}

#[test]
fn encoding_the_same_samples_twice_gives_the_same_bytes() {
    let samples: Vec<i16> = vec![5, -5, 300, -300, 12345];
    let first = encode(&samples, 22050).expect("encodes").into_bytes();
    let second = encode(&samples, 22050).expect("encodes").into_bytes();
    assert_eq!(first, second);
}

#[test]
fn a_rate_that_the_header_cannot_describe_is_refused() {
    assert_eq!(encode(&vec![1, 2, 3], 0).err(), Some(EncodeError::UnsupportedRate));
    assert_eq!(
        encode(&vec![1, 2, 3], MAX_SAMPLE_RATE + 1).err(),
        Some(EncodeError::UnsupportedRate)
    );
    assert_eq!(encode(&vec![1, 2, 3], u32::MAX).err(), Some(EncodeError::UnsupportedRate));
    assert!(encode(&vec![1, 2, 3], MAX_SAMPLE_RATE).is_ok());
    assert!(encode(&vec![1, 2, 3], 1).is_ok());
}

#[test]
fn the_largest_rate_is_written_into_the_header() {
    let bytes = encode(&vec![7], MAX_SAMPLE_RATE).expect("encodes").into_bytes();
    assert_eq!(&bytes[24..28], &[0xff, 0xff, 0xff, 0x7f]);
    assert_eq!(&bytes[28..32], &[0xfe, 0xff, 0xff, 0xff]);
    assert_eq!(&bytes[32..34], &[2, 0]);
}

#[test]
fn an_empty_capture_is_an_error() {
    assert_eq!(
        finish_capture(&Vec::new(), 16000).err(),
        Some(RecordingError::Capture(CaptureError::EmptyCapture))
    );
    assert_eq!(
        finish_capture(&Vec::new(), 0).err(),
        Some(RecordingError::Capture(CaptureError::EmptyCapture))
    );
}

#[test]
fn a_capture_at_an_unsupported_rate_is_an_encode_error() {
    assert_eq!(
        finish_capture(&vec![1], 0).err(),
        Some(RecordingError::Encode(EncodeError::UnsupportedRate))
    );
}
