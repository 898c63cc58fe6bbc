//! Validation outcomes: which header field broke which invariant, and the
//! overflow error that `encode` returns when a derived field does not fit.

use crate::model::FormatModel;
use crate::model::data_tag_bytes;
use crate::model::fmt_chunk_tag_bytes;
use crate::model::riff_tag_bytes;
use crate::model::wave_tag_bytes;
use vstd::bytes::spec_u16_from_le_bytes;
use vstd::bytes::spec_u32_from_le_bytes;
use vstd::prelude::*;

verus! {

/// A field of the WAVE-PCM layout, in wire order.
#[derive(Clone, Copy, Debug, PartialEq, Eq, Structural)]
pub enum Field {
    /// Container magic at bytes 0..4.
    RiffTag,
    /// Total size at bytes 4..8.
    TotalSize,
    /// Format magic at bytes 8..12.
    WaveTag,
    /// Format sub-chunk id at bytes 12..16.
    FmtChunkTag,
    /// Format sub-chunk size at bytes 16..20.
    FmtChunkSize,
    /// Compression code at bytes 20..22.
    FmtCode,
    /// Channel count at bytes 22..24.
    NumChannels,
    /// Sampling rate at bytes 24..28.
    SamplingRate,
    /// Byte rate at bytes 28..32.
    ByteRate,
    /// Block alignment at bytes 32..34.
    BlockAlignment,
    /// Sample depth at bytes 34..36.
    BitsPerSample,
    /// Data sub-chunk id at bytes 36..40.
    DataTag,
    /// Payload length at bytes 40..44.
    DataSize,
    /// The sample payload, from byte 44 to the end of the image.
    Payload,
}

/// What a conforming file requires of a field that a violation names.
#[derive(Clone, Copy, Debug, PartialEq, Eq, Structural)]
pub enum Expected {
    /// The field must hold a fixed four-byte tag; the required tag is given
    /// little-endian-packed into a number, as `Violation::found` is.
    Tag(u32),
    /// The field must hold exactly this numeric value.
    Number(u32),
    /// The field must hold a value greater than zero.
    Positive,
    /// The payload must hold at least one byte.
    NonEmpty,
    /// The field is derived from other fields; `check` does not judge it.
    Derived,
}

/// One violated invariant of the WAVE-PCM layout: the field that broke it
/// and the value actually found there. Four-byte tags are packed
/// little-endian into the number; for the payload the value is its length.
#[derive(Clone, Copy, Debug, PartialEq, Eq, Structural)]
pub struct Violation {
    /// The field whose invariant does not hold.
    pub field: Field,
    /// The numeric value found in that field.
    pub found: u32,
}

/// The error `encode` returns when a derived field does not fit its wire
/// width for the supplied parameters.
#[derive(Clone, Copy, Debug, PartialEq, Eq, Structural)]
pub struct OverflowError {
    /// The first derived field, in wire order, that does not fit.
    pub field: Field,
}

/// The violation list a single invariant contributes: empty when the
/// invariant holds, else one entry naming the field and the value found.
pub open spec fn vio(ok: bool, field: Field, found: u32) -> Seq<Violation> {
    if ok {
        Seq::empty()
    } else {
        seq![Violation { field, found }]
    }
}

/// Every invariant of the WAVE-PCM layout that a structure violates, one
/// entry per field, in wire order of the fields: the three magic tags and
/// the data tag must hold their fixed bytes, the format sub-chunk size must
/// be 16 and the compression code 1, channel count, sampling rate, byte
/// rate, block alignment, sample depth and declared data size must each be
/// positive, and the payload must be non-empty. Each invariant is checked
/// independently of the others; an empty result means the structure
/// conforms. Four-byte tags are reported little-endian-packed into the
/// `found` number; for the payload, whose only violation is emptiness, the
/// length found is reported.
pub open spec fn violations_model(m: FormatModel) -> Seq<Violation> {
    vio(m.riff_tag == riff_tag_bytes(), Field::RiffTag, spec_u32_from_le_bytes(m.riff_tag))
        + vio(m.wave_tag == wave_tag_bytes(), Field::WaveTag, spec_u32_from_le_bytes(m.wave_tag))
        + vio(
        m.fmt_chunk_tag == fmt_chunk_tag_bytes(),
        Field::FmtChunkTag,
        spec_u32_from_le_bytes(m.fmt_chunk_tag),
    ) + vio(
        spec_u32_from_le_bytes(m.fmt_chunk_size) == 16,
        Field::FmtChunkSize,
        spec_u32_from_le_bytes(m.fmt_chunk_size),
    ) + vio(
        spec_u16_from_le_bytes(m.fmt_code) == 1,
        Field::FmtCode,
        spec_u16_from_le_bytes(m.fmt_code) as u32,
    ) + vio(
        spec_u16_from_le_bytes(m.num_channels) > 0,
        Field::NumChannels,
        spec_u16_from_le_bytes(m.num_channels) as u32,
    ) + vio(
        spec_u32_from_le_bytes(m.sampling_rate) > 0,
        Field::SamplingRate,
        spec_u32_from_le_bytes(m.sampling_rate),
    ) + vio(
        spec_u32_from_le_bytes(m.byte_rate) > 0,
        Field::ByteRate,
        spec_u32_from_le_bytes(m.byte_rate),
    ) + vio(
        spec_u16_from_le_bytes(m.block_alignment) > 0,
        Field::BlockAlignment,
        spec_u16_from_le_bytes(m.block_alignment) as u32,
    ) + vio(
        spec_u16_from_le_bytes(m.bits_per_sample) > 0,
        Field::BitsPerSample,
        spec_u16_from_le_bytes(m.bits_per_sample) as u32,
    ) + vio(m.data_tag == data_tag_bytes(), Field::DataTag, spec_u32_from_le_bytes(m.data_tag))
        + vio(
        spec_u32_from_le_bytes(m.data_size) > 0,
        Field::DataSize,
        spec_u32_from_le_bytes(m.data_size),
    ) + vio(m.data.len() > 0, Field::Payload, 0u32)
}

/// The little-endian packing of a four-byte tag into a number, as
/// `Violation::found` reports it.
fn tag_number(b0: u8, b1: u8, b2: u8, b3: u8) -> (n: u32)
    ensures
        n == spec_u32_from_le_bytes(seq![b0, b1, b2, b3]),
{
    let mut t: [u8; 4] = [b0; 4];
    t[1] = b1;
    t[2] = b2;
    t[3] = b3;
    proof {
        assert(t@ =~= seq![b0, b1, b2, b3]);
    }
    vstd::bytes::u32_from_le_bytes(t.as_slice())
}

impl Field {
    /// Offset of the field's first byte in the file image.
    pub open spec fn offset_lo_spec(self) -> u32 {
        match self {
            Field::RiffTag => 0,
            Field::TotalSize => 4,
            Field::WaveTag => 8,
            Field::FmtChunkTag => 12,
            Field::FmtChunkSize => 16,
            Field::FmtCode => 20,
            Field::NumChannels => 22,
            Field::SamplingRate => 24,
            Field::ByteRate => 28,
            Field::BlockAlignment => 32,
            Field::BitsPerSample => 34,
            Field::DataTag => 36,
            Field::DataSize => 40,
            Field::Payload => 44,
        }
    }

    /// Offset just past the field's last byte in the file image; for the
    /// payload, which runs to the end of the image, this equals its start.
    pub open spec fn offset_hi_spec(self) -> u32 {
        match self {
            Field::RiffTag => 4,
            Field::TotalSize => 8,
            Field::WaveTag => 12,
            Field::FmtChunkTag => 16,
            Field::FmtChunkSize => 20,
            Field::FmtCode => 22,
            Field::NumChannels => 24,
            Field::SamplingRate => 28,
            Field::ByteRate => 32,
            Field::BlockAlignment => 34,
            Field::BitsPerSample => 36,
            Field::DataTag => 40,
            Field::DataSize => 44,
            Field::Payload => 44,
        }
    }

    /// Offset of the field's first byte in the file image.
    pub fn offset_lo(self) -> (n: u32)
        ensures
            n == self.offset_lo_spec(),
    {
        match self {
            Field::RiffTag => 0,
            Field::TotalSize => 4,
            Field::WaveTag => 8,
            Field::FmtChunkTag => 12,
            Field::FmtChunkSize => 16,
            Field::FmtCode => 20,
            Field::NumChannels => 22,
            Field::SamplingRate => 24,
            Field::ByteRate => 28,
            Field::BlockAlignment => 32,
            Field::BitsPerSample => 34,
            Field::DataTag => 36,
            Field::DataSize => 40,
            Field::Payload => 44,
        }
    }

    /// What a conforming file requires of this field.
    pub open spec fn expected_spec(self) -> Expected {
        match self {
            Field::RiffTag => Expected::Tag(spec_u32_from_le_bytes(riff_tag_bytes())),
            Field::TotalSize => Expected::Derived,
            Field::WaveTag => Expected::Tag(spec_u32_from_le_bytes(wave_tag_bytes())),
            Field::FmtChunkTag => Expected::Tag(spec_u32_from_le_bytes(fmt_chunk_tag_bytes())),
            Field::FmtChunkSize => Expected::Number(16),
            Field::FmtCode => Expected::Number(1),
            Field::NumChannels => Expected::Positive,
            Field::SamplingRate => Expected::Positive,
            Field::ByteRate => Expected::Positive,
            Field::BlockAlignment => Expected::Positive,
            Field::BitsPerSample => Expected::Positive,
            Field::DataTag => Expected::Tag(spec_u32_from_le_bytes(data_tag_bytes())),
            Field::DataSize => Expected::Positive,
            Field::Payload => Expected::NonEmpty,
        }
    }

    /// What a conforming file requires of this field.
    pub fn expected(self) -> (e: Expected)
        ensures
            e == self.expected_spec(),
    {
        match self {
            Field::RiffTag => Expected::Tag(tag_number(82, 73, 70, 70)),  // "RIFF"
            Field::TotalSize => Expected::Derived,
            Field::WaveTag => Expected::Tag(tag_number(87, 65, 86, 69)),  // "WAVE"
            Field::FmtChunkTag => Expected::Tag(tag_number(102, 109, 116, 32)),  // "fmt "
            Field::FmtChunkSize => Expected::Number(16),
            Field::FmtCode => Expected::Number(1),
            Field::NumChannels => Expected::Positive,
            Field::SamplingRate => Expected::Positive,
            Field::ByteRate => Expected::Positive,
            Field::BlockAlignment => Expected::Positive,
            Field::BitsPerSample => Expected::Positive,
            Field::DataTag => Expected::Tag(tag_number(100, 97, 116, 97)),  // "data"
            Field::DataSize => Expected::Positive,
            Field::Payload => Expected::NonEmpty,
        }
    }

    /// Offset just past the field's last byte in the file image; for the
    /// payload, which runs to the end of the image, this equals its start.
    pub fn offset_hi(self) -> (n: u32)
        ensures
            n == self.offset_hi_spec(),
    {
        match self {
            Field::RiffTag => 4,
            Field::TotalSize => 8,
            Field::WaveTag => 12,
            Field::FmtChunkTag => 16,
            Field::FmtChunkSize => 20,
            Field::FmtCode => 22,
            Field::NumChannels => 24,
            Field::SamplingRate => 28,
            Field::ByteRate => 32,
            Field::BlockAlignment => 34,
            Field::BitsPerSample => 36,
            Field::DataTag => 40,
            Field::DataSize => 44,
            Field::Payload => 44,
        }
    }
}

} // verus!
