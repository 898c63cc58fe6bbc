//! Encoding, serialization and decoding behaviour on concrete inputs.

use wavepcm::Format;

#[test]
fn encode_populates_fields() {
    let f = Format::encode(vec![1u8; 16], 1, 16000, 16).unwrap();
    assert_eq!(f.riff_tag, *b"RIFF");
    assert_eq!(f.total_size, [52, 0, 0, 0]);
    assert_eq!(f.wave_tag, *b"WAVE");
    assert_eq!(f.fmt_chunk_tag, *b"fmt ");
    assert_eq!(f.fmt_chunk_size, [16, 0, 0, 0]);
    assert_eq!(f.fmt_code, [1, 0]);
    assert_eq!(f.num_channels, [1, 0]);
    assert_eq!(f.sampling_rate, 16000u32.to_le_bytes());
    // 16000 samples/s * 1 channel * 16 bits / 8 = 32000 bytes/s
    assert_eq!(f.byte_rate, 32000u32.to_le_bytes());
    assert_eq!(f.block_alignment, [2, 0]);
    assert_eq!(f.bits_per_sample, [16, 0]);
    assert_eq!(f.data_tag, *b"data");
    assert_eq!(f.data_size, [16, 0, 0, 0]);
    assert_eq!(f.data, vec![1u8; 16]);
}

#[test]
fn accessors_decode_little_endian_values() {
    let f = Format::encode(vec![7u8; 1000], 2, 44100, 16).unwrap();
    assert_eq!(f.total_size_value(), 1036);
    assert_eq!(f.fmt_chunk_size_value(), 16);
    assert_eq!(f.fmt_code_value(), 1);
    assert_eq!(f.num_channels_value(), 2);
    assert_eq!(f.sampling_rate_value(), 44100);
    assert_eq!(f.byte_rate_value(), 44100 * 2 * 16 / 8);
    assert_eq!(f.block_alignment_value(), 4);
    assert_eq!(f.bits_per_sample_value(), 16);
    assert_eq!(f.data_size_value(), 1000);
}

#[test]
fn serialize_writes_exact_layout() {
    let f = Format::encode(vec![9, 8, 7], 1, 1, 8).unwrap();
    let image = f.serialize();
    let mut expected: Vec<u8> = Vec::new();
    expected.extend_from_slice(b"RIFF");
    expected.extend_from_slice(&39u32.to_le_bytes()); // 3 + 36
    expected.extend_from_slice(b"WAVE");
    expected.extend_from_slice(b"fmt ");
    expected.extend_from_slice(&16u32.to_le_bytes());
    expected.extend_from_slice(&1u16.to_le_bytes());
    expected.extend_from_slice(&1u16.to_le_bytes()); // channels
    expected.extend_from_slice(&1u32.to_le_bytes()); // sampling rate
    expected.extend_from_slice(&1u32.to_le_bytes()); // byte rate: 1 * 1 * 8 / 8
    expected.extend_from_slice(&1u16.to_le_bytes()); // block alignment
    expected.extend_from_slice(&8u16.to_le_bytes());
    expected.extend_from_slice(b"data");
    expected.extend_from_slice(&3u32.to_le_bytes());
    expected.extend_from_slice(&[9, 8, 7]);
    assert_eq!(image, expected);
}

fn assert_same_fields(a: &Format, b: &Format) {
    assert_eq!(a.riff_tag, b.riff_tag);
    assert_eq!(a.total_size, b.total_size);
    assert_eq!(a.wave_tag, b.wave_tag);
    assert_eq!(a.fmt_chunk_tag, b.fmt_chunk_tag);
    assert_eq!(a.fmt_chunk_size, b.fmt_chunk_size);
    assert_eq!(a.fmt_code, b.fmt_code);
    assert_eq!(a.num_channels, b.num_channels);
    assert_eq!(a.sampling_rate, b.sampling_rate);
    assert_eq!(a.byte_rate, b.byte_rate);
    assert_eq!(a.block_alignment, b.block_alignment);
    assert_eq!(a.bits_per_sample, b.bits_per_sample);
    assert_eq!(a.data_tag, b.data_tag);
    assert_eq!(a.data_size, b.data_size);
    assert_eq!(a.data, b.data);
}

#[test]
fn round_trip_restores_every_field() {
    let payload: Vec<u8> = (0..=99).collect();
    let encoded = Format::encode(payload, 2, 44100, 16).unwrap();
    let decoded = Format::decode(&encoded.serialize());
    assert_same_fields(&encoded, &decoded);
}

#[test]
fn round_trip_with_empty_payload() {
    let encoded = Format::encode(Vec::new(), 1, 8000, 8).unwrap();
    let decoded = Format::decode(&encoded.serialize());
    assert_same_fields(&encoded, &decoded);
}

#[test]
fn decode_zero_fills_short_header() {
    let f = Format::decode(&[0x52, 0x49]);
    assert_eq!(f.riff_tag, [0x52, 0x49, 0, 0]);
    assert_eq!(f.total_size, [0, 0, 0, 0]);
    assert_eq!(f.wave_tag, [0, 0, 0, 0]);
    assert_eq!(f.fmt_chunk_tag, [0, 0, 0, 0]);
    assert_eq!(f.fmt_chunk_size, [0, 0, 0, 0]);
    assert_eq!(f.fmt_code, [0, 0]);
    assert_eq!(f.num_channels, [0, 0]);
    assert_eq!(f.sampling_rate, [0, 0, 0, 0]);
    assert_eq!(f.byte_rate, [0, 0, 0, 0]);
    assert_eq!(f.block_alignment, [0, 0]);
    assert_eq!(f.bits_per_sample, [0, 0]);
    assert_eq!(f.data_tag, [0, 0, 0, 0]);
    assert_eq!(f.data_size, [0, 0, 0, 0]);
    assert_eq!(f.data, Vec::<u8>::new());
}

#[test]
fn decode_truncates_payload_shorter_than_declared() {
    // A header that declares 10 payload bytes over an image holding only 4.
    let mut image = Format::encode(vec![0u8; 10], 1, 8000, 8).unwrap().serialize();
    image.truncate(44 + 4);
    let first = Format::decode(&image);
    assert_eq!(first.data_size, [10, 0, 0, 0]);
    assert_eq!(first.data, vec![0u8; 4]);
    // The policy is deterministic: the same image decodes the same way again.
    let second = Format::decode(&image);
    assert_same_fields(&first, &second);
}

#[test]
fn decode_stops_at_declared_payload_size() {
    // An image with 6 bytes after the header, of which only 4 are declared.
    let mut image = Format::encode(vec![5, 6, 7, 8], 1, 8000, 8).unwrap().serialize();
    image.push(200);
    image.push(201);
    let f = Format::decode(&image);
    assert_eq!(f.data, vec![5, 6, 7, 8]);
}

#[test]
fn read_helpers_follow_the_read_policies() {
    let bytes: Vec<u8> = vec![10, 11, 12];
    assert_eq!(wavepcm::read2(&bytes, 1), [11, 12]);
    assert_eq!(wavepcm::read2(&bytes, 2), [12, 0]);
    assert_eq!(wavepcm::read4(&bytes, 0), [10, 11, 12, 0]);
    assert_eq!(wavepcm::read4(&bytes, 5), [0, 0, 0, 0]);
    assert_eq!(wavepcm::readn(&bytes, 1, 10), vec![11, 12]);
    assert_eq!(wavepcm::readn(&bytes, 0, 2), vec![10, 11]);
    assert_eq!(wavepcm::readn(&bytes, 9, 3), Vec::<u8>::new());
}
