use binaural::{clamp_to_pcm16, Wav, WavHeader, WavMetadata, HEADER_LEN};

fn le_u32_at(bytes: &[u8], at: usize) -> u32 {
    u32::from_le_bytes([bytes[at], bytes[at + 1], bytes[at + 2], bytes[at + 3]])
}

fn le_u16_at(bytes: &[u8], at: usize) -> u16 {
    u16::from_le_bytes([bytes[at], bytes[at + 1]])
}

#[test]
fn u32_field_is_little_endian() {
    assert_eq!(WavHeader::u32_bytes(0x1234_5678), [0x78, 0x56, 0x34, 0x12]);
    assert_eq!(WavHeader::u32_bytes(176400), [0x10, 0xB1, 0x02, 0x00]);
    assert_eq!(WavHeader::u32_bytes(u32::MAX), [0xFF, 0xFF, 0xFF, 0xFF]);
}

#[test]
fn u16_field_is_little_endian() {
    assert_eq!(WavHeader::u16_bytes(0xABCD), [0xCD, 0xAB]);
    assert_eq!(WavHeader::u16_bytes(1), [0x01, 0x00]);
}

#[test]
fn blank_metadata_header_is_canonical() {
    let metadata = WavMetadata::default_blank();
    assert_eq!(metadata.sample_rate(), 44100);
    assert_eq!(metadata.number_of_channels(), 2);
    assert_eq!(metadata.number_of_samples(), 0);
    let header = WavHeader::new(metadata).to_bytes();
    let mut expected: Vec<u8> = Vec::new();
    expected.extend_from_slice(b"RIFF");
    expected.extend_from_slice(&36u32.to_le_bytes());
    expected.extend_from_slice(b"WAVE");
    expected.extend_from_slice(b"fmt ");
    expected.extend_from_slice(&16u32.to_le_bytes());
    expected.extend_from_slice(&1u16.to_le_bytes());
    expected.extend_from_slice(&2u16.to_le_bytes());
    expected.extend_from_slice(&44100u32.to_le_bytes());
    expected.extend_from_slice(&176400u32.to_le_bytes());
    expected.extend_from_slice(&4u16.to_le_bytes());
    expected.extend_from_slice(&16u16.to_le_bytes());
    expected.extend_from_slice(b"data");
    expected.extend_from_slice(&0u32.to_le_bytes());
    assert_eq!(header, expected);
}

#[test]
fn blank_metadata_round_trip_has_no_data() {
    let metadata = WavMetadata::default_blank();
    let header = WavHeader::new(metadata).to_bytes();
    assert_eq!(le_u32_at(&header, 40), 0);
    let wav = Wav::new(metadata, vec![vec![], vec![]]);
    assert_eq!(wav.data_to_bytes().len(), 0);
    assert_eq!(wav.to_bytes(), header);
}

#[test]
fn header_is_always_44_bytes() {
    for (rate, channels, samples) in [(44100u32, 2u16, 0u32), (8000, 1, 8000), (96000, 6, 1_000_000), (1, 1, 1)] {
        let header = WavHeader::new(WavMetadata::new(rate, channels, samples)).to_bytes();
        assert_eq!(header.len(), 44);
        assert_eq!(HEADER_LEN, 44);
    }
}

#[test]
fn header_fields_follow_metadata() {
    let header = WavHeader::new(WavMetadata::new(8000, 1, 100)).to_bytes();
    assert_eq!(le_u32_at(&header, 4), 36 + 200);
    assert_eq!(le_u16_at(&header, 22), 1);
    assert_eq!(le_u32_at(&header, 24), 8000);
    assert_eq!(le_u32_at(&header, 28), 16000);
    assert_eq!(le_u16_at(&header, 32), 2);
    assert_eq!(le_u16_at(&header, 34), 16);
    assert_eq!(le_u32_at(&header, 40), 200);
}

#[test]
fn data_size_field_matches_data_section() {
    let channels = vec![vec![1i16, 2, 3], vec![4i16, 5, 6]];
    let wav = Wav::new(WavMetadata::new(44100, 2, 3), channels);
    let bytes = wav.to_bytes();
    let data = wav.data_to_bytes();
    assert_eq!(data.len(), 12);
    assert_eq!(le_u32_at(&bytes, 40) as usize, data.len());
    assert_eq!(le_u32_at(&bytes, 4) as usize, bytes.len() - 8);
    assert_eq!(&bytes[44..], &data[..]);
}

#[test]
fn data_is_interleaved_little_endian() {
    let wav = Wav::new(WavMetadata::new(8000, 2, 2), vec![vec![1i16, -2], vec![0x0102i16, i16::MIN]]);
    assert_eq!(
        wav.data_to_bytes(),
        vec![0x01, 0x00, 0x02, 0x01, 0xFE, 0xFF, 0x00, 0x80]
    );
}

#[test]
fn short_channel_is_padded_with_silence() {
    let wav = Wav::new(WavMetadata::new(8000, 2, 3), vec![vec![7i16, 8, 9], vec![-1i16]]);
    assert_eq!(
        wav.data_to_bytes(),
        vec![7, 0, 0xFF, 0xFF, 8, 0, 0, 0, 9, 0, 0, 0]
    );
}

#[test]
fn extra_samples_beyond_count_are_ignored() {
    let wav = Wav::new(WavMetadata::new(8000, 1, 1), vec![vec![5i16, 6, 7]]);
    assert_eq!(wav.data_to_bytes(), vec![5, 0]);
}

#[test]
fn data_length_is_even() {
    for samples in 0u32..5 {
        for channels in 1u16..4 {
            let data = vec![vec![3i16; samples as usize]; channels as usize];
            let wav = Wav::new(WavMetadata::new(22050, channels, samples), data);
            let bytes = wav.data_to_bytes();
            assert_eq!(bytes.len() % 2, 0);
            assert_eq!(bytes.len(), 2 * channels as usize * samples as usize);
        }
    }
}

#[test]
fn encodable_limits() {
    assert!(WavMetadata::new(44100, 2, 1_000_000).is_encodable());
    assert!(!WavMetadata::new(44100, 40000, 0).is_encodable());
    assert!(!WavMetadata::new(u32::MAX, 2, 0).is_encodable());
    assert!(!WavMetadata::new(44100, 2, u32::MAX).is_encodable());
    assert!(WavMetadata::new(44100, 1, (u32::MAX - 36) / 2).is_encodable());
    assert!(!WavMetadata::new(44100, 1, (u32::MAX - 36) / 2 + 1).is_encodable());
}

#[test]
fn clamp_saturates_to_sixteen_bits() {
    assert_eq!(clamp_to_pcm16(0), 0);
    assert_eq!(clamp_to_pcm16(32767), 32767);
    assert_eq!(clamp_to_pcm16(32768), 32767);
    assert_eq!(clamp_to_pcm16(1_000_000), 32767);
    assert_eq!(clamp_to_pcm16(-32768), -32768);
    assert_eq!(clamp_to_pcm16(-32769), -32768);
    assert_eq!(clamp_to_pcm16(i64::MIN), -32768);
    assert_eq!(clamp_to_pcm16(-1234), -1234);
}

#[test]
fn quantized_full_scale_amplitudes() {
    let quantize = |a: f64| clamp_to_pcm16((a * 32767.0).floor() as i64);
    assert_eq!(quantize(0.0), 0);
    assert_eq!(quantize(1.0), 32767);
    assert_eq!(quantize(2.0), 32767);
    assert_eq!(quantize(-3.0), -32768);
}
