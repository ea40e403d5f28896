use std::io::Cursor;

use hca_wav::decode_hca;
use hca_wav::errors::HcaError;
use hca_wav::rawpcm::RawPcmDecoder;

fn make_header(
    header_size: u32,
    channels: u16,
    rate: u32,
    samples_per_block: u32,
    block_count: u32,
    block_size: u32,
    delay: u32,
    padding: u32,
) -> Vec<u8> {
    let mut h = vec![0u8; header_size as usize];
    h[0..4].copy_from_slice(&[0x52, 0x50, 0x43, 0x4d]);
    h[4..8].copy_from_slice(&header_size.to_le_bytes());
    h[8..10].copy_from_slice(&channels.to_le_bytes());
    h[12..16].copy_from_slice(&rate.to_le_bytes());
    h[16..20].copy_from_slice(&samples_per_block.to_le_bytes());
    h[20..24].copy_from_slice(&block_count.to_le_bytes());
    h[24..28].copy_from_slice(&block_size.to_le_bytes());
    h[28..32].copy_from_slice(&delay.to_le_bytes());
    h[32..36].copy_from_slice(&padding.to_le_bytes());
    h
}

fn block_of_values(values: &[i16], block_size: u32) -> Vec<u8> {
    let mut b = vec![0u8; block_size as usize];
    for (i, v) in values.iter().enumerate() {
        b[2 * i..2 * i + 2].copy_from_slice(&v.to_le_bytes());
    }
    b
}

fn read_wav(bytes: &[u8]) -> (hound::WavSpec, Vec<i16>) {
    let reader = hound::WavReader::new(Cursor::new(bytes)).expect("valid wav");
    let spec = reader.spec();
    let samples: Vec<i16> = reader.into_samples::<i16>().map(|s| s.expect("sample")).collect();
    (spec, samples)
}

#[test]
fn end_to_end_declared_length() {
    // headerSize=64, blockSize=512, blockCount=10, samplesPerBlock=1024,
    // channelCount=2, samplingRate=44100, encoderDelay=100, encoderPadding=50.
    let mut buffer = make_header(64, 2, 44100, 1024, 10, 512, 100, 50);
    buffer.extend(std::iter::repeat(0u8).take(10 * 512));
    let out = decode_hca::<RawPcmDecoder>(&buffer, 0x1234567890ABCDEF, 0).expect("decodes");
    let (spec, samples) = read_wav(&out);
    assert_eq!(spec.channels, 2);
    assert_eq!(spec.sample_rate, 44100);
    assert_eq!(spec.bits_per_sample, 16);
    assert_eq!(spec.sample_format, hound::SampleFormat::Int);
    // 10*1024 - 100 - 50 frames, times 2 channels.
    assert_eq!(samples.len(), 10090 * 2);
    assert!(samples.iter().all(|&s| s == 0));
}

#[test]
fn short_buffer_is_invalid_input() {
    let r = decode_hca::<RawPcmDecoder>(&[0u8; 7], 0, 0);
    assert_eq!(r, Err(HcaError::InvalidInput));
}

#[test]
fn header_size_over_ceiling_is_invalid_input() {
    let mut buffer = make_header(64, 1, 8000, 4, 1, 8, 0, 0);
    buffer[4..8].copy_from_slice(&5000u32.to_le_bytes());
    buffer.extend(std::iter::repeat(0u8).take(5000));
    let r = decode_hca::<RawPcmDecoder>(&buffer, 0, 0);
    assert_eq!(r, Err(HcaError::InvalidInput));
}

#[test]
fn header_past_end_of_buffer_is_invalid_input() {
    // The probe reports 100 bytes of header but only 50 are present.
    let mut buffer = make_header(40, 1, 8000, 4, 1, 8, 0, 0);
    buffer[4..8].copy_from_slice(&100u32.to_le_bytes());
    buffer.extend(std::iter::repeat(0u8).take(10));
    let r = decode_hca::<RawPcmDecoder>(&buffer, 0, 0);
    assert_eq!(r, Err(HcaError::InvalidInput));
}

#[test]
fn bad_signature_is_invalid_input() {
    let mut buffer = make_header(64, 1, 8000, 4, 1, 8, 0, 0);
    buffer[0] = 0x00;
    let r = decode_hca::<RawPcmDecoder>(&buffer, 0, 0);
    assert_eq!(r, Err(HcaError::InvalidInput));
}

#[test]
fn tiny_header_is_unsupported() {
    // The probe accepts the 16-byte header length, but parsing rejects a
    // header too small to hold the stream parameters.
    let mut buffer = vec![0u8; 16];
    buffer[0..4].copy_from_slice(&[0x52, 0x50, 0x43, 0x4d]);
    buffer[4..8].copy_from_slice(&16u32.to_le_bytes());
    let r = decode_hca::<RawPcmDecoder>(&buffer, 0, 0);
    assert_eq!(r, Err(HcaError::UnsupportedHeader));
}

#[test]
fn trim_larger_than_stream_fails_info_check() {
    // One block of 10 frames cannot absorb a delay of 20.
    let buffer = make_header(40, 1, 8000, 10, 1, 20, 20, 0);
    let r = decode_hca::<RawPcmDecoder>(&buffer, 0, 0);
    assert_eq!(r, Err(HcaError::InfoExtractionFailed));
}

#[test]
fn zero_channels_fails_info_check() {
    let buffer = make_header(40, 0, 8000, 4, 1, 8, 0, 0);
    let r = decode_hca::<RawPcmDecoder>(&buffer, 0, 0);
    assert_eq!(r, Err(HcaError::InfoExtractionFailed));
}

#[test]
fn zero_sampling_rate_fails_info_check() {
    // A zero rate cannot be written to the container's byte-rate field.
    let buffer = make_header(40, 1, 0, 4, 1, 8, 0, 0);
    let r = decode_hca::<RawPcmDecoder>(&buffer, 0, 0);
    assert_eq!(r, Err(HcaError::InfoExtractionFailed));
}

#[test]
fn missing_last_block_is_unexpected_eof() {
    // Two blocks declared, one present: the stream is truncated.
    let mut buffer = make_header(40, 1, 8000, 4, 2, 8, 0, 0);
    buffer.extend(block_of_values(&[1, 2, 3, 4], 8));
    let r = decode_hca::<RawPcmDecoder>(&buffer, 0, 0);
    assert_eq!(r, Err(HcaError::UnexpectedEof));
}

#[test]
fn no_blocks_at_all_is_unexpected_eof() {
    let buffer = make_header(40, 1, 8000, 4, 1, 8, 0, 0);
    let r = decode_hca::<RawPcmDecoder>(&buffer, 0, 0);
    assert_eq!(r, Err(HcaError::UnexpectedEof));
}

#[test]
fn no_trim_emits_every_sample() {
    // encoderDelay == 0 and encoderPadding == 0: every decoded sample of
    // every block is emitted.
    let mut buffer = make_header(40, 1, 8000, 2, 2, 4, 0, 0);
    buffer.extend(block_of_values(&[1, 2], 4));
    buffer.extend(block_of_values(&[3, 4], 4));
    let out = decode_hca::<RawPcmDecoder>(&buffer, 0, 0).expect("decodes");
    let (spec, samples) = read_wav(&out);
    assert_eq!(spec.channels, 1);
    assert_eq!(samples, vec![1, 2, 3, 4]);
}

#[test]
fn delay_spanning_blocks_starts_past_block_zero() {
    // encoderDelay >= samplesPerBlock: the first emitted sample comes from
    // a block after block 0.
    let mut buffer = make_header(40, 1, 8000, 2, 3, 4, 3, 0);
    buffer.extend(block_of_values(&[1, 2], 4));
    buffer.extend(block_of_values(&[3, 4], 4));
    buffer.extend(block_of_values(&[5, 6], 4));
    let out = decode_hca::<RawPcmDecoder>(&buffer, 0, 0).expect("decodes");
    let (_, samples) = read_wav(&out);
    // Frames 0..3 are discarded; 4 is the first value of block 1.
    assert_eq!(samples, vec![4, 5, 6]);
}

#[test]
fn delay_and_padding_trim_both_ends() {
    let mut buffer = make_header(40, 1, 8000, 2, 2, 4, 1, 1);
    buffer.extend(block_of_values(&[1, 2], 4));
    buffer.extend(block_of_values(&[3, 4], 4));
    let out = decode_hca::<RawPcmDecoder>(&buffer, 0, 0).expect("decodes");
    let (_, samples) = read_wav(&out);
    assert_eq!(samples, vec![2, 3]);
}

#[test]
fn stereo_interleaving_is_preserved() {
    let mut buffer = make_header(40, 2, 48000, 2, 1, 8, 0, 0);
    buffer.extend(block_of_values(&[10, -10, 20, -20], 8));
    let out = decode_hca::<RawPcmDecoder>(&buffer, 0, 0).expect("decodes");
    let (spec, samples) = read_wav(&out);
    assert_eq!(spec.channels, 2);
    assert_eq!(samples, vec![10, -10, 20, -20]);
}

#[test]
fn short_block_pads_with_silence() {
    // A 4-byte block only fills the first two of four window values.
    let mut buffer = make_header(40, 1, 8000, 4, 1, 4, 0, 0);
    buffer.extend(block_of_values(&[7, 8], 4));
    let out = decode_hca::<RawPcmDecoder>(&buffer, 0, 0).expect("decodes");
    let (_, samples) = read_wav(&out);
    assert_eq!(samples, vec![7, 8, 0, 0]);
}

#[test]
fn zero_block_count_gives_valid_empty_container() {
    let buffer = make_header(40, 1, 8000, 4, 0, 8, 0, 0);
    let out = decode_hca::<RawPcmDecoder>(&buffer, 0, 0).expect("decodes");
    let (spec, samples) = read_wav(&out);
    assert_eq!(spec.channels, 1);
    assert_eq!(samples.len(), 0);
}

#[test]
fn decoding_twice_is_byte_identical() {
    let mut buffer = make_header(40, 1, 8000, 2, 3, 4, 3, 1);
    buffer.extend(block_of_values(&[1, 2], 4));
    buffer.extend(block_of_values(&[3, 4], 4));
    buffer.extend(block_of_values(&[5, 6], 4));
    let out1 = decode_hca::<RawPcmDecoder>(&buffer, 99, 7).expect("decodes");
    let out2 = decode_hca::<RawPcmDecoder>(&buffer, 99, 7).expect("decodes");
    assert_eq!(out1, out2);
}

#[test]
fn output_is_a_riff_wave_container() {
    let mut buffer = make_header(40, 1, 8000, 2, 1, 4, 0, 0);
    buffer.extend(block_of_values(&[1, 2], 4));
    let out = decode_hca::<RawPcmDecoder>(&buffer, 0, 0).expect("decodes");
    assert_eq!(&out[0..4], b"RIFF");
    assert_eq!(&out[8..12], b"WAVE");
}
