use hca_wav::decode_hca;
use hca_wav::decoder::AudioBlockDecoder;
use hca_wav::decoder::header_size_acceptable;
use hca_wav::errors::HcaError;
use hca_wav::info::StreamInfo;
use hca_wav::keys::derive_key;
use hca_wav::muxer::ContainerMuxer;
use hca_wav::rawpcm::RawPcmDecoder;

#[test]
fn zero_subkey_passes_keycode_through() {
    assert_eq!(derive_key(0, 0), 0);
    assert_eq!(derive_key(0x1234567890ABCDEF, 0), 0x1234567890ABCDEF);
    assert_eq!(derive_key(u64::MAX, 0), u64::MAX);
}

#[test]
fn nonzero_subkey_multiplies_wrapping() {
    // modifier = (subkey << 16) | ((-subkey + 2) mod 2^16), product mod 2^64.
    for (keycode, subkey) in [
        (0x1234567890ABCDEFu64, 1u16),
        (u64::MAX, 2),
        (0xDEADBEEFu64, 3),
        (7, 0xFFFF),
    ] {
        let low = (0x10002u32 - subkey as u32) % 0x10000;
        let modifier = ((subkey as u64) << 16) | low as u64;
        let expected = ((keycode as u128 * modifier as u128) % (1u128 << 64)) as u64;
        assert_eq!(derive_key(keycode, subkey), expected);
    }
}

#[test]
fn key_derivation_is_reproducible() {
    assert_eq!(derive_key(0xCAFEBABE, 0x1234), derive_key(0xCAFEBABE, 0x1234));
}

#[test]
fn header_size_bounds_are_enforced() {
    assert!(header_size_acceptable(0, 100));
    assert!(header_size_acceptable(64, 100));
    assert!(header_size_acceptable(4096, 5000));
    assert!(!header_size_acceptable(-1, 100));
    assert!(!header_size_acceptable(4097, 10000));
    assert!(!header_size_acceptable(64, 63));
}

#[test]
fn stream_info_validation() {
    let good = StreamInfo {
        channel_count: 2,
        sampling_rate: 44100,
        samples_per_block: 1024,
        block_count: 10,
        block_size: 512,
        header_size: 64,
        encoder_delay: 100,
        encoder_padding: 50,
    };
    assert!(good.validate());
    assert_eq!(good.samples_to_do(), 10 * 1024 - 100 - 50);

    let trim_too_large = StreamInfo { encoder_delay: 20000, ..good };
    assert!(!trim_too_large.validate());
    let no_channels = StreamInfo { channel_count: 0, ..good };
    assert!(!no_channels.validate());
}

#[test]
fn muxer_rejects_underfilled_container() {
    let mut m = ContainerMuxer::new(1, 8000, 4).expect("created");
    let window = vec![1i16, 2];
    m.write_values(&window, 0, 2).expect("within declared");
    assert_eq!(m.finalize(), Err(HcaError::ContainerWriteError));
}

#[test]
fn muxer_rejects_overfilled_container() {
    let mut m = ContainerMuxer::new(1, 8000, 1).expect("created");
    let window = vec![1i16, 2];
    let r = m.write_values(&window, 0, 2);
    assert_eq!(r, Err(HcaError::ContainerWriteError));
}

#[test]
fn muxer_rejects_zero_channels() {
    assert!(ContainerMuxer::new(0, 8000, 4).is_err());
}

#[test]
fn muxer_rejects_zero_sample_rate() {
    assert!(ContainerMuxer::new(1, 0, 4).is_err());
}

#[test]
fn muxer_rejects_unrepresentable_byte_rate() {
    // 2 * rate * channels must fit the WAV header's 32-bit byte-rate field.
    assert!(ContainerMuxer::new(2, u32::MAX, 4).is_err());
}

#[test]
fn error_messages_name_each_condition() {
    assert_eq!(HcaError::InvalidInput.message(), "Invalid HCA data");
    assert_eq!(HcaError::UnsupportedHeader.message(), "Unsupported HCA header");
    assert_eq!(HcaError::InfoExtractionFailed.message(), "Failed to extract HCA header info");
    assert_eq!(HcaError::UnexpectedEof.message(), "Unable to fully decode HCA: Unexpected EOF");
    assert_eq!(HcaError::BlockDecodeError(3, -7).message(), "Failed to decode HCA block");
    assert_eq!(HcaError::ContainerWriteError.message(), "Failed to write WAV container");
}

#[test]
fn muxer_exact_fill_produces_wav() {
    let mut m = ContainerMuxer::new(1, 8000, 2).expect("created");
    let window = vec![5i16, -5];
    m.write_values(&window, 0, 2).expect("within declared");
    let bytes = m.finalize().expect("complete");
    assert_eq!(&bytes[0..4], b"RIFF");
}

/// A decoder whose block decode always fails: exercises the abort path.
struct FailingBlockDecoder(RawPcmDecoder);

impl AudioBlockDecoder for FailingBlockDecoder {
    fn is_supported_format(probe: &[u8]) -> i32 {
        RawPcmDecoder::is_supported_format(probe)
    }

    fn initialize() -> Self {
        FailingBlockDecoder(RawPcmDecoder::initialize())
    }

    fn parse_header(&mut self, buffer: &[u8], header_len: u32) -> i32 {
        self.0.parse_header(buffer, header_len)
    }

    fn set_key(&mut self, key: u64) {
        self.0.set_key(key)
    }

    fn get_info(&self) -> Result<StreamInfo, i32> {
        self.0.get_info()
    }

    fn decode_block(&mut self, _block: &[u8]) -> i32 {
        -7
    }

    fn read_samples(&mut self, dest: &mut Vec<i16>) {
        self.0.read_samples(dest)
    }
}

#[test]
fn failing_block_reports_index_and_status() {
    let mut buffer = vec![0u8; 40];
    buffer[0..4].copy_from_slice(&[0x52, 0x50, 0x43, 0x4d]);
    buffer[4..8].copy_from_slice(&40u32.to_le_bytes());
    buffer[8..10].copy_from_slice(&1u16.to_le_bytes());
    buffer[12..16].copy_from_slice(&8000u32.to_le_bytes());
    buffer[16..20].copy_from_slice(&2u32.to_le_bytes());
    buffer[20..24].copy_from_slice(&1u32.to_le_bytes());
    buffer[24..28].copy_from_slice(&4u32.to_le_bytes());
    buffer.extend_from_slice(&[0u8; 4]);
    let r = decode_hca::<FailingBlockDecoder>(&buffer, 0, 0);
    assert_eq!(r, Err(HcaError::BlockDecodeError(1, -7)));
}
