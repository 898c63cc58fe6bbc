//! Ghost model of a WAVE-PCM file image.
//!
//! Every multi-byte field of the wire format is modelled as the little-endian
//! byte sequence that stands in the file, so that contracts speak about the
//! exact bytes; numeric meaning is recovered through
//! `vstd::bytes::spec_u16_from_le_bytes` / `spec_u32_from_le_bytes`.

use crate::report::Field;
use vstd::bytes::spec_u16_to_le_bytes;
use vstd::bytes::spec_u32_from_le_bytes;
use vstd::bytes::spec_u32_to_le_bytes;
use vstd::prelude::*;

verus! {

/// The parsed image of a WAVE-PCM file: the header fields in wire order,
/// each as its little-endian byte sequence, plus the raw sample payload.
pub ghost struct FormatModel {
    /// Container magic; "RIFF" in a conforming file.
    pub riff_tag: Seq<u8>,
    /// Byte count of everything after this field: payload length plus 36.
    pub total_size: Seq<u8>,
    /// Format magic; "WAVE" in a conforming file.
    pub wave_tag: Seq<u8>,
    /// Sub-chunk id; "fmt " in a conforming file.
    pub fmt_chunk_tag: Seq<u8>,
    /// Size of the format sub-chunk; 16 for PCM.
    pub fmt_chunk_size: Seq<u8>,
    /// Compression code; 1 for uncompressed PCM.
    pub fmt_code: Seq<u8>,
    /// Number of interleaved channels.
    pub num_channels: Seq<u8>,
    /// Sample frames per second per channel.
    pub sampling_rate: Seq<u8>,
    /// Derived: sampling_rate * num_channels * bits_per_sample / 8.
    pub byte_rate: Seq<u8>,
    /// Derived: num_channels * bits_per_sample / 8.
    pub block_alignment: Seq<u8>,
    /// Sample depth in bits.
    pub bits_per_sample: Seq<u8>,
    /// Sub-chunk id; "data" in a conforming file.
    pub data_tag: Seq<u8>,
    /// Byte length of the payload.
    pub data_size: Seq<u8>,
    /// Raw interleaved PCM sample bytes.
    pub data: Seq<u8>,
}

/// The bytes of the ASCII tag "RIFF".
pub open spec fn riff_tag_bytes() -> Seq<u8> {
    seq![82u8, 73u8, 70u8, 70u8]
}

/// The bytes of the ASCII tag "WAVE".
pub open spec fn wave_tag_bytes() -> Seq<u8> {
    seq![87u8, 65u8, 86u8, 69u8]
}

/// The bytes of the ASCII tag "fmt " (with its trailing space).
pub open spec fn fmt_chunk_tag_bytes() -> Seq<u8> {
    seq![102u8, 109u8, 116u8, 32u8]
}

/// The bytes of the ASCII tag "data".
pub open spec fn data_tag_bytes() -> Seq<u8> {
    seq![100u8, 97u8, 116u8, 97u8]
}

/// The byte a reader yields at position `i` of a source that is zero-filled
/// past its end.
pub open spec fn byte_at(b: Seq<u8>, i: int) -> u8 {
    if 0 <= i < b.len() {
        b[i]
    } else {
        0u8
    }
}

/// `n` bytes read from position `off` of `b`, zero-filled where the source
/// is shorter: the image of a fixed-width header read.
pub open spec fn field_bytes(b: Seq<u8>, off: int, n: nat) -> Seq<u8> {
    Seq::new(n, |i: int| byte_at(b, off + i))
}

/// How many bytes a bounded read of `n` bytes at `off` actually yields from
/// a source of `src_len` bytes: `n`, or fewer when the source ends first.
pub open spec fn read_len(src_len: int, off: int, n: int) -> int {
    let avail = if off <= src_len {
        src_len - off
    } else {
        0
    };
    if n <= avail {
        n
    } else {
        avail
    }
}

/// Up to `n` bytes read from position `off` of `b`, truncated where the
/// source ends early: the image of the bounded payload read.
pub open spec fn taken_bytes(b: Seq<u8>, off: int, n: int) -> Seq<u8> {
    Seq::new(read_len(b.len() as int, off, n) as nat, |i: int| b[off + i])
}

/// The derived byte-rate field as a mathematical integer:
/// sampling_rate * num_channels * bits_per_sample / 8.
pub open spec fn byte_rate_of(num_channels: u16, sampling_rate: u32, bits_per_sample: u16) -> int {
    (sampling_rate as int) * (num_channels as int) * (bits_per_sample as int) / 8
}

/// The derived block-alignment field as a mathematical integer:
/// num_channels * bits_per_sample / 8.
pub open spec fn block_alignment_of(num_channels: u16, bits_per_sample: u16) -> int {
    (num_channels as int) * (bits_per_sample as int) / 8
}

/// All four derived fields of an encoding fit their declared wire widths.
pub open spec fn encode_fits(
    len: int,
    num_channels: u16,
    sampling_rate: u32,
    bits_per_sample: u16,
) -> bool {
    &&& len <= u32::MAX
    &&& len + 36 <= u32::MAX
    &&& byte_rate_of(num_channels, sampling_rate, bits_per_sample) <= u32::MAX
    &&& block_alignment_of(num_channels, bits_per_sample) <= u16::MAX
}

/// The first derived field, in wire order of the fields it feeds, that does
/// not fit its width; meaningful only when `encode_fits` fails.
pub open spec fn encode_overflow_field(
    len: int,
    num_channels: u16,
    sampling_rate: u32,
    bits_per_sample: u16,
) -> Field {
    if len > u32::MAX {
        Field::DataSize
    } else if len + 36 > u32::MAX {
        Field::TotalSize
    } else if byte_rate_of(num_channels, sampling_rate, bits_per_sample) > u32::MAX {
        Field::ByteRate
    } else {
        Field::BlockAlignment
    }
}

/// The file image `encode` owes for the given raw parameters, with every
/// derived field populated and byte-order fixed.
pub open spec fn encode_model(
    data: Seq<u8>,
    num_channels: u16,
    sampling_rate: u32,
    bits_per_sample: u16,
) -> FormatModel {
    FormatModel {
        riff_tag: riff_tag_bytes(),
        total_size: spec_u32_to_le_bytes((data.len() + 36) as u32),
        wave_tag: wave_tag_bytes(),
        fmt_chunk_tag: fmt_chunk_tag_bytes(),
        fmt_chunk_size: spec_u32_to_le_bytes(16u32),
        fmt_code: spec_u16_to_le_bytes(1u16),
        num_channels: spec_u16_to_le_bytes(num_channels),
        sampling_rate: spec_u32_to_le_bytes(sampling_rate),
        byte_rate: spec_u32_to_le_bytes(
            byte_rate_of(num_channels, sampling_rate, bits_per_sample) as u32,
        ),
        block_alignment: spec_u16_to_le_bytes(
            block_alignment_of(num_channels, bits_per_sample) as u16,
        ),
        bits_per_sample: spec_u16_to_le_bytes(bits_per_sample),
        data_tag: data_tag_bytes(),
        data_size: spec_u32_to_le_bytes(data.len() as u32),
        data: data,
    }
}

/// The structure `decode` owes for a byte image: 44 fixed header bytes read
/// in field order with short reads zero-filled, then a payload read bounded
/// by the declared data size and truncated where the image ends early.
pub open spec fn decode_model(b: Seq<u8>) -> FormatModel {
    FormatModel {
        riff_tag: field_bytes(b, 0, 4),
        total_size: field_bytes(b, 4, 4),
        wave_tag: field_bytes(b, 8, 4),
        fmt_chunk_tag: field_bytes(b, 12, 4),
        fmt_chunk_size: field_bytes(b, 16, 4),
        fmt_code: field_bytes(b, 20, 2),
        num_channels: field_bytes(b, 22, 2),
        sampling_rate: field_bytes(b, 24, 4),
        byte_rate: field_bytes(b, 28, 4),
        block_alignment: field_bytes(b, 32, 2),
        bits_per_sample: field_bytes(b, 34, 2),
        data_tag: field_bytes(b, 36, 4),
        data_size: field_bytes(b, 40, 4),
        data: taken_bytes(b, 44, spec_u32_from_le_bytes(field_bytes(b, 40, 4)) as int),
    }
}

/// The header part of a structure's byte image: the thirteen fixed fields
/// in wire order.
pub open spec fn serialize_header(m: FormatModel) -> Seq<u8> {
    m.riff_tag + m.total_size + m.wave_tag + m.fmt_chunk_tag + m.fmt_chunk_size + m.fmt_code
        + m.num_channels + m.sampling_rate + m.byte_rate + m.block_alignment + m.bits_per_sample
        + m.data_tag + m.data_size
}

/// The byte image of a structure: the thirteen header fields in wire order,
/// immediately followed by the payload.
pub open spec fn serialize_model(m: FormatModel) -> Seq<u8> {
    serialize_header(m) + m.data
}

} // verus!
