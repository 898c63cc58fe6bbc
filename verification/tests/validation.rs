//! Validation and overflow behaviour on concrete structures.

use wavepcm::Expected;
use wavepcm::Field;
use wavepcm::Format;

#[test]
fn check_accepts_a_conforming_encoding() {
    let f = Format::encode(vec![0u8; 1000], 2, 44100, 16).unwrap();
    let violations = f.check();
    assert!(violations.is_empty());
}

#[test]
fn check_reports_only_a_corrupted_riff_tag() {
    let mut f = Format::encode(vec![0u8; 1000], 2, 44100, 16).unwrap();
    f.riff_tag = *b"RIFX";
    let violations = f.check();
    assert_eq!(violations.len(), 1);
    assert_eq!(violations[0].field, Field::RiffTag);
    assert_eq!(violations[0].found, u32::from_le_bytes(*b"RIFX"));
}

#[test]
fn check_isolates_a_zero_channel_count() {
    let mut f = Format::encode(vec![0u8; 1000], 2, 44100, 16).unwrap();
    f.num_channels = [0, 0];
    let violations = f.check();
    assert_eq!(violations.len(), 1);
    assert_eq!(violations[0].field, Field::NumChannels);
    assert_eq!(violations[0].found, 0);
}

#[test]
fn check_isolates_a_zero_byte_rate() {
    let mut f = Format::encode(vec![0u8; 8], 1, 8000, 8).unwrap();
    f.byte_rate = [0, 0, 0, 0];
    let violations = f.check();
    assert_eq!(violations.len(), 1);
    assert_eq!(violations[0].field, Field::ByteRate);
}

#[test]
fn check_reports_every_field_of_an_all_zero_structure() {
    let f = Format::decode(&[]);
    let violations = f.check();
    let fields: Vec<Field> = violations.iter().map(|v| v.field).collect();
    assert_eq!(
        fields,
        vec![
            Field::RiffTag,
            Field::WaveTag,
            Field::FmtChunkTag,
            Field::FmtChunkSize,
            Field::FmtCode,
            Field::NumChannels,
            Field::SamplingRate,
            Field::ByteRate,
            Field::BlockAlignment,
            Field::BitsPerSample,
            Field::DataTag,
            Field::DataSize,
            Field::Payload,
        ]
    );
    for v in &violations {
        assert_eq!(v.found, 0);
    }
}

#[test]
fn check_reports_empty_payload_and_zero_data_size() {
    let f = Format::encode(Vec::new(), 1, 8000, 8).unwrap();
    let violations = f.check();
    assert_eq!(violations.len(), 2);
    assert_eq!(violations[0].field, Field::DataSize);
    assert_eq!(violations[1].field, Field::Payload);
}

#[test]
fn encode_rejects_a_block_alignment_overflow() {
    // 65535 channels * 65535 bits / 8 does not fit the 16-bit field.
    let err = Format::encode(vec![0u8; 4], 65535, 1, 65535).unwrap_err();
    assert_eq!(err.field, Field::BlockAlignment);
}

#[test]
fn encode_rejects_a_byte_rate_overflow() {
    let err = Format::encode(vec![0u8; 4], 65535, 4_000_000_000, 16).unwrap_err();
    assert_eq!(err.field, Field::ByteRate);
}

#[test]
fn encode_accepts_the_widest_fitting_parameters() {
    // 65535 channels * 8 bits / 8 = 65535 exactly fills the 16-bit field.
    let f = Format::encode(vec![0u8; 4], 65535, 1, 8).unwrap();
    assert_eq!(f.block_alignment_value(), 65535);
    assert_eq!(f.byte_rate_value(), 65535);
    assert!(f.check().is_empty());
}

#[test]
fn violations_carry_field_metadata() {
    assert_eq!(Field::RiffTag.offset_lo(), 0);
    assert_eq!(Field::RiffTag.offset_hi(), 4);
    assert_eq!(Field::RiffTag.expected(), Expected::Tag(u32::from_le_bytes(*b"RIFF")));
    assert_eq!(Field::FmtChunkSize.offset_lo(), 16);
    assert_eq!(Field::FmtChunkSize.offset_hi(), 20);
    assert_eq!(Field::FmtChunkSize.expected(), Expected::Number(16));
    assert_eq!(Field::FmtCode.expected(), Expected::Number(1));
    assert_eq!(Field::NumChannels.offset_lo(), 22);
    assert_eq!(Field::NumChannels.offset_hi(), 24);
    assert_eq!(Field::NumChannels.expected(), Expected::Positive);
    assert_eq!(Field::DataTag.expected(), Expected::Tag(u32::from_le_bytes(*b"data")));
    assert_eq!(Field::Payload.offset_lo(), 44);
    assert_eq!(Field::Payload.expected(), Expected::NonEmpty);
    assert_eq!(Field::TotalSize.expected(), Expected::Derived);
}
