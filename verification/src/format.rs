//! The executable WAVE-PCM structure and its operations.

use crate::model::byte_at;
use crate::model::decode_model;
use crate::model::encode_fits;
use crate::model::encode_model;
use crate::model::encode_overflow_field;
use crate::model::field_bytes;
use crate::model::read_len;
use crate::model::serialize_header;
use crate::model::serialize_model;
use crate::model::taken_bytes;
use crate::model::FormatModel;
use crate::report::vio;
use crate::report::violations_model;
use crate::report::Field;
use crate::report::OverflowError;
use crate::report::Violation;
use vstd::prelude::*;

verus! {

/// A parsed WAVE-PCM file: the thirteen header fields in wire order, each
/// held as its little-endian bytes, plus the raw sample payload.
#[derive(Debug)]
pub struct Format {
    /// RIFF tag ("RIFF").
    pub riff_tag: [u8; 4],
    /// Total size of the file in bytes, less the eight bytes before this field.
    pub total_size: [u8; 4],
    /// WAVE tag ("WAVE").
    pub wave_tag: [u8; 4],
    /// Format tag ("fmt ").
    pub fmt_chunk_tag: [u8; 4],
    /// Format chunk size (16 for PCM).
    pub fmt_chunk_size: [u8; 4],
    /// Format type (1 for PCM - uncompressed).
    pub fmt_code: [u8; 2],
    /// Number of channels in the audio data.
    pub num_channels: [u8; 2],
    /// Sampling rate of the audio data (blocks per second).
    pub sampling_rate: [u8; 4],
    /// Byte rate (sampling_rate * num_channels * bits_per_sample / 8).
    pub byte_rate: [u8; 4],
    /// Block alignment value (num_channels * bits_per_sample / 8).
    pub block_alignment: [u8; 2],
    /// Bits per sample in the audio data (8, 16, and so on).
    pub bits_per_sample: [u8; 2],
    /// Data tag ("data").
    pub data_tag: [u8; 4],
    /// Size of the audio data in bytes.
    pub data_size: [u8; 4],
    /// Raw audio data.
    pub data: Vec<u8>,
}

impl View for Format {
    type V = FormatModel;

    open spec fn view(&self) -> FormatModel {
        FormatModel {
            riff_tag: self.riff_tag@,
            total_size: self.total_size@,
            wave_tag: self.wave_tag@,
            fmt_chunk_tag: self.fmt_chunk_tag@,
            fmt_chunk_size: self.fmt_chunk_size@,
            fmt_code: self.fmt_code@,
            num_channels: self.num_channels@,
            sampling_rate: self.sampling_rate@,
            byte_rate: self.byte_rate@,
            block_alignment: self.block_alignment@,
            bits_per_sample: self.bits_per_sample@,
            data_tag: self.data_tag@,
            data_size: self.data_size@,
            data: self.data@,
        }
    }
}

/// Build a four-byte field from its bytes in wire order.
fn tag4(b0: u8, b1: u8, b2: u8, b3: u8) -> (r: [u8; 4])
    ensures
        r@ == seq![b0, b1, b2, b3],
{
    let mut r: [u8; 4] = [b0; 4];
    r[1] = b1;
    r[2] = b2;
    r[3] = b3;
    proof {
        assert(r@ =~= seq![b0, b1, b2, b3]);
    }
    r
}

/// The little-endian four-byte image of a 32-bit value.
fn u32_field(x: u32) -> (r: [u8; 4])
    ensures
        r@ == vstd::bytes::spec_u32_to_le_bytes(x),
{
    let v: Vec<u8> = vstd::bytes::u32_to_le_bytes(x);
    let r = tag4(v[0], v[1], v[2], v[3]);
    proof {
        assert(r@ =~= v@);
    }
    r
}

/// The little-endian two-byte image of a 16-bit value.
fn u16_field(x: u16) -> (r: [u8; 2])
    ensures
        r@ == vstd::bytes::spec_u16_to_le_bytes(x),
{
    let v: Vec<u8> = vstd::bytes::u16_to_le_bytes(x);
    let mut r: [u8; 2] = [v[0]; 2];
    r[1] = v[1];
    proof {
        assert(r@ =~= v@);
    }
    r
}

impl Format {
    /// Build the file image for a raw payload and its three format
    /// parameters: every header field is populated, the derived fields
    /// (total size, byte rate, block alignment, data size) are computed in
    /// full width, and the first of them that does not fit its wire width
    /// is returned as an overflow error instead.
    ///
    /// No range validation of the parameters happens here: a degenerate but
    /// representable value (such as a zero channel count) is encoded as
    /// given, and only `check` reports it.
    pub fn encode(
        data: Vec<u8>,
        num_channels: u16,
        sampling_rate: u32,
        bits_per_sample: u16,
    ) -> (result: Result<Format, OverflowError>)
        ensures
            match result {
                Ok(f) => encode_fits(data@.len() as int, num_channels, sampling_rate, bits_per_sample)
                    && f@ == encode_model(data@, num_channels, sampling_rate, bits_per_sample),
                Err(e) => !encode_fits(
                    data@.len() as int,
                    num_channels,
                    sampling_rate,
                    bits_per_sample,
                ) && e.field == encode_overflow_field(
                    data@.len() as int,
                    num_channels,
                    sampling_rate,
                    bits_per_sample,
                ),
            },
    {
        let ghost d: Seq<u8> = data@;
        let len64: u64 = data.len() as u64;
        if len64 > 0xFFFF_FFFFu64 {
            return Err(OverflowError { field: Field::DataSize });
        }
        if len64 + 36u64 > 0xFFFF_FFFFu64 {
            return Err(OverflowError { field: Field::TotalSize });
        }
        let size: u32 = len64 as u32;

        let r64: u64 = sampling_rate as u64;
        let c64: u64 = num_channels as u64;
        let b64: u64 = bits_per_sample as u64;
        proof {
            assert(r64 * c64 <= 0xFFFF_FFFFu64 * 0xFFFFu64) by (nonlinear_arith)
                requires
                    r64 <= 0xFFFF_FFFFu64,
                    c64 <= 0xFFFFu64,
            ;
            assert((r64 * c64) * b64 <= 281470681677825u64 * 0xFFFFu64) by (nonlinear_arith)
                requires
                    r64 * c64 <= 281470681677825u64,
                    b64 <= 0xFFFFu64,
            ;
        }
        let rate_product: u64 = r64 * c64 * b64;
        let byte_rate64: u64 = rate_product / 8;
        if byte_rate64 > 0xFFFF_FFFFu64 {
            return Err(OverflowError { field: Field::ByteRate });
        }
        let byte_rate: u32 = byte_rate64 as u32;

        proof {
            assert((num_channels as u32) * (bits_per_sample as u32) <= 0xFFFFu32 * 0xFFFFu32)
                by (nonlinear_arith)
                requires
                    num_channels <= 0xFFFFu16,
                    bits_per_sample <= 0xFFFFu16,
            ;
        }
        let block_alignment32: u32 = (num_channels as u32) * (bits_per_sample as u32) / 8;
        if block_alignment32 > 0xFFFFu32 {
            return Err(OverflowError { field: Field::BlockAlignment });
        }
        let block_alignment: u16 = block_alignment32 as u16;

        let f = Format {
            riff_tag: tag4(82, 73, 70, 70),  // "RIFF"
            total_size: u32_field(size + 36),
            wave_tag: tag4(87, 65, 86, 69),  // "WAVE"
            fmt_chunk_tag: tag4(102, 109, 116, 32),  // "fmt "
            fmt_chunk_size: u32_field(16),
            fmt_code: u16_field(1),
            num_channels: u16_field(num_channels),
            sampling_rate: u32_field(sampling_rate),
            byte_rate: u32_field(byte_rate),
            block_alignment: u16_field(block_alignment),
            bits_per_sample: u16_field(bits_per_sample),
            data_tag: tag4(100, 97, 116, 97),  // "data"
            data_size: u32_field(size),
            data,
        };
        proof {
            assert(f@.riff_tag =~= crate::model::riff_tag_bytes());
            assert(f@.wave_tag =~= crate::model::wave_tag_bytes());
            assert(f@.fmt_chunk_tag =~= crate::model::fmt_chunk_tag_bytes());
            assert(f@.data_tag =~= crate::model::data_tag_bytes());
            assert(f@ == encode_model(d, num_channels, sampling_rate, bits_per_sample));
        }
        Ok(f)
    }
}

impl Format {
    /// Parse a byte image: the 44 header bytes are read at their fixed
    /// offsets in field order, an image shorter than the header being
    /// zero-filled, and the payload read is bounded by the declared data
    /// size, truncated where the image ends early. Parsing is purely
    /// mechanical; no tag or value is validated here — that is `check`'s
    /// job.
    pub fn decode(bytes: &[u8]) -> (f: Format)
        ensures
            f@ == decode_model(bytes@),
    {
        let riff_tag = read4(bytes, 0);
        let total_size = read4(bytes, 4);
        let wave_tag = read4(bytes, 8);
        let fmt_chunk_tag = read4(bytes, 12);
        let fmt_chunk_size = read4(bytes, 16);
        let fmt_code = read2(bytes, 20);
        let num_channels = read2(bytes, 22);
        let sampling_rate = read4(bytes, 24);
        let byte_rate = read4(bytes, 28);
        let block_alignment = read2(bytes, 32);
        let bits_per_sample = read2(bytes, 34);
        let data_tag = read4(bytes, 36);
        let data_size = read4(bytes, 40);
        let declared: u32 = vstd::bytes::u32_from_le_bytes(data_size.as_slice());
        let data = readn(bytes, 44, declared);
        Format {
            riff_tag,
            total_size,
            wave_tag,
            fmt_chunk_tag,
            fmt_chunk_size,
            fmt_code,
            num_channels,
            sampling_rate,
            byte_rate,
            block_alignment,
            bits_per_sample,
            data_tag,
            data_size,
            data,
        }
    }

    /// Write the structure back out as its byte image: the thirteen header
    /// fields in wire order, immediately followed by the payload.
    pub fn serialize(&self) -> (out: Vec<u8>)
        ensures
            out@ == serialize_model(self@),
    {
        let mut out: Vec<u8> = Vec::new();
        push4(&mut out, &self.riff_tag);
        push4(&mut out, &self.total_size);
        push4(&mut out, &self.wave_tag);
        push4(&mut out, &self.fmt_chunk_tag);
        push4(&mut out, &self.fmt_chunk_size);
        push2(&mut out, &self.fmt_code);
        push2(&mut out, &self.num_channels);
        push4(&mut out, &self.sampling_rate);
        push4(&mut out, &self.byte_rate);
        push2(&mut out, &self.block_alignment);
        push2(&mut out, &self.bits_per_sample);
        push4(&mut out, &self.data_tag);
        push4(&mut out, &self.data_size);
        proof {
            assert(out@ =~= serialize_header(self@));
        }
        let mut i: usize = 0;
        while i < self.data.len()
            invariant
                i <= self.data@.len(),
                out@ == serialize_header(self@) + self.data@.subrange(0, i as int),
            decreases self.data@.len() - i,
        {
            out.push(self.data[i]);
            proof {
                assert(out@ =~= serialize_header(self@) + self.data@.subrange(0, i + 1));
            }
            i += 1;
        }
        proof {
            assert(self.data@.subrange(0, self.data@.len() as int) =~= self.data@);
        }
        out
    }
}

impl Format {
    /// Validate the structure against the WAVE-PCM layout and return every
    /// violated invariant, in wire order of the fields; an empty result
    /// means the structure conforms. Each field is judged independently, so
    /// one corrupted field never hides another, and the structure itself is
    /// never changed.
    pub fn check(&self) -> (violations: Vec<Violation>)
        ensures
            violations@ == violations_model(self@),
    {
        let riff_found: u32 = vstd::bytes::u32_from_le_bytes(self.riff_tag.as_slice());
        let wave_found: u32 = vstd::bytes::u32_from_le_bytes(self.wave_tag.as_slice());
        let fmt_tag_found: u32 = vstd::bytes::u32_from_le_bytes(self.fmt_chunk_tag.as_slice());
        let fmt_size_found: u32 = vstd::bytes::u32_from_le_bytes(self.fmt_chunk_size.as_slice());
        let fmt_code_found: u16 = vstd::bytes::u16_from_le_bytes(self.fmt_code.as_slice());
        let channels_found: u16 = vstd::bytes::u16_from_le_bytes(self.num_channels.as_slice());
        let rate_found: u32 = vstd::bytes::u32_from_le_bytes(self.sampling_rate.as_slice());
        let byte_rate_found: u32 = vstd::bytes::u32_from_le_bytes(self.byte_rate.as_slice());
        let block_found: u16 = vstd::bytes::u16_from_le_bytes(self.block_alignment.as_slice());
        let bits_found: u16 = vstd::bytes::u16_from_le_bytes(self.bits_per_sample.as_slice());
        let data_tag_found: u32 = vstd::bytes::u32_from_le_bytes(self.data_tag.as_slice());
        let data_size_found: u32 = vstd::bytes::u32_from_le_bytes(self.data_size.as_slice());

        let mut violations: Vec<Violation> = Vec::new();
        // "RIFF"
        push_if(&mut violations, eq4(&self.riff_tag, 82, 73, 70, 70), Field::RiffTag, riff_found);
        // "WAVE"
        push_if(&mut violations, eq4(&self.wave_tag, 87, 65, 86, 69), Field::WaveTag, wave_found);
        // "fmt "
        push_if(
            &mut violations,
            eq4(&self.fmt_chunk_tag, 102, 109, 116, 32),
            Field::FmtChunkTag,
            fmt_tag_found,
        );
        push_if(&mut violations, fmt_size_found == 16, Field::FmtChunkSize, fmt_size_found);
        push_if(&mut violations, fmt_code_found == 1, Field::FmtCode, fmt_code_found as u32);
        push_if(&mut violations, channels_found > 0, Field::NumChannels, channels_found as u32);
        push_if(&mut violations, rate_found > 0, Field::SamplingRate, rate_found);
        push_if(&mut violations, byte_rate_found > 0, Field::ByteRate, byte_rate_found);
        push_if(&mut violations, block_found > 0, Field::BlockAlignment, block_found as u32);
        push_if(&mut violations, bits_found > 0, Field::BitsPerSample, bits_found as u32);
        // "data"
        push_if(
            &mut violations,
            eq4(&self.data_tag, 100, 97, 116, 97),
            Field::DataTag,
            data_tag_found,
        );
        push_if(&mut violations, data_size_found > 0, Field::DataSize, data_size_found);
        push_if(&mut violations, self.data.len() > 0, Field::Payload, 0);
        proof {
            assert(violations@ =~= violations_model(self@));
        }
        violations
    }
}

impl Format {
    /// The total-size field decoded from its little-endian bytes.
    pub fn total_size_value(&self) -> (v: u32)
        ensures
            v == vstd::bytes::spec_u32_from_le_bytes(self.total_size@),
    {
        vstd::bytes::u32_from_le_bytes(self.total_size.as_slice())
    }

    /// The format-chunk-size field decoded from its little-endian bytes.
    pub fn fmt_chunk_size_value(&self) -> (v: u32)
        ensures
            v == vstd::bytes::spec_u32_from_le_bytes(self.fmt_chunk_size@),
    {
        vstd::bytes::u32_from_le_bytes(self.fmt_chunk_size.as_slice())
    }

    /// The compression-code field decoded from its little-endian bytes.
    pub fn fmt_code_value(&self) -> (v: u16)
        ensures
            v == vstd::bytes::spec_u16_from_le_bytes(self.fmt_code@),
    {
        vstd::bytes::u16_from_le_bytes(self.fmt_code.as_slice())
    }

    /// The channel-count field decoded from its little-endian bytes.
    pub fn num_channels_value(&self) -> (v: u16)
        ensures
            v == vstd::bytes::spec_u16_from_le_bytes(self.num_channels@),
    {
        vstd::bytes::u16_from_le_bytes(self.num_channels.as_slice())
    }

    /// The sampling-rate field decoded from its little-endian bytes.
    pub fn sampling_rate_value(&self) -> (v: u32)
        ensures
            v == vstd::bytes::spec_u32_from_le_bytes(self.sampling_rate@),
    {
        vstd::bytes::u32_from_le_bytes(self.sampling_rate.as_slice())
    }

    /// The byte-rate field decoded from its little-endian bytes.
    pub fn byte_rate_value(&self) -> (v: u32)
        ensures
            v == vstd::bytes::spec_u32_from_le_bytes(self.byte_rate@),
    {
        vstd::bytes::u32_from_le_bytes(self.byte_rate.as_slice())
    }

    /// The block-alignment field decoded from its little-endian bytes.
    pub fn block_alignment_value(&self) -> (v: u16)
        ensures
            v == vstd::bytes::spec_u16_from_le_bytes(self.block_alignment@),
    {
        vstd::bytes::u16_from_le_bytes(self.block_alignment.as_slice())
    }

    /// The sample-depth field decoded from its little-endian bytes.
    pub fn bits_per_sample_value(&self) -> (v: u16)
        ensures
            v == vstd::bytes::spec_u16_from_le_bytes(self.bits_per_sample@),
    {
        vstd::bytes::u16_from_le_bytes(self.bits_per_sample.as_slice())
    }

    /// The data-size field decoded from its little-endian bytes.
    pub fn data_size_value(&self) -> (v: u32)
        ensures
            v == vstd::bytes::spec_u32_from_le_bytes(self.data_size@),
    {
        vstd::bytes::u32_from_le_bytes(self.data_size.as_slice())
    }
}

/// Whether a four-byte field holds exactly the given bytes.
fn eq4(a: &[u8; 4], b0: u8, b1: u8, b2: u8, b3: u8) -> (r: bool)
    ensures
        r == (a@ == seq![b0, b1, b2, b3]),
{
    let r = a[0] == b0 && a[1] == b1 && a[2] == b2 && a[3] == b3;
    proof {
        if r {
            assert(a@ =~= seq![b0, b1, b2, b3]);
        } else {
            assert(a@ != seq![b0, b1, b2, b3]) by {
                if a@ == seq![b0, b1, b2, b3] {
                    assert(a@[0] == b0 && a@[1] == b1 && a@[2] == b2 && a@[3] == b3);
                }
            }
        }
    }
    r
}

/// Append one invariant's outcome to a violation list under construction.
fn push_if(violations: &mut Vec<Violation>, ok: bool, field: Field, found: u32)
    ensures
        final(violations)@ == old(violations)@ + vio(ok, field, found),
{
    if !ok {
        violations.push(Violation { field, found });
    }
    proof {
        assert(violations@ =~= old(violations)@ + vio(ok, field, found));
    }
}

/// Append a four-byte field to a byte image under construction.
fn push4(out: &mut Vec<u8>, b: &[u8; 4])
    ensures
        final(out)@ == old(out)@ + b@,
{
    out.push(b[0]);
    out.push(b[1]);
    out.push(b[2]);
    out.push(b[3]);
    proof {
        assert(out@ =~= old(out)@ + b@);
    }
}

/// Append a two-byte field to a byte image under construction.
fn push2(out: &mut Vec<u8>, b: &[u8; 2])
    ensures
        final(out)@ == old(out)@ + b@,
{
    out.push(b[0]);
    out.push(b[1]);
    proof {
        assert(out@ =~= old(out)@ + b@);
    }
}

/// Read two bytes at position `off` of a byte image, zero-filled where the
/// image ends before them.
pub fn read2(bytes: &[u8], off: usize) -> (r: [u8; 2])
    ensures
        r@ == field_bytes(bytes@, off as int, 2),
{
    let mut r: [u8; 2] = [0u8; 2];
    let mut j: usize = 0;
    while j < 2
        invariant
            j <= 2,
            forall|k: int| 0 <= k < j ==> r@[k] == byte_at(bytes@, off + k),
            forall|k: int| j <= k < 2 ==> r@[k] == 0u8,
        decreases 2 - j,
    {
        if off < bytes.len() && j < bytes.len() - off {
            r[j] = bytes[off + j];
        }
        j += 1;
    }
    proof {
        assert(r@ =~= field_bytes(bytes@, off as int, 2));
    }
    r
}

/// Read four bytes at position `off` of a byte image, zero-filled where the
/// image ends before them.
pub fn read4(bytes: &[u8], off: usize) -> (r: [u8; 4])
    ensures
        r@ == field_bytes(bytes@, off as int, 4),
{
    let mut r: [u8; 4] = [0u8; 4];
    let mut j: usize = 0;
    while j < 4
        invariant
            j <= 4,
            forall|k: int| 0 <= k < j ==> r@[k] == byte_at(bytes@, off + k),
            forall|k: int| j <= k < 4 ==> r@[k] == 0u8,
        decreases 4 - j,
    {
        if off < bytes.len() && j < bytes.len() - off {
            r[j] = bytes[off + j];
        }
        j += 1;
    }
    proof {
        assert(r@ =~= field_bytes(bytes@, off as int, 4));
    }
    r
}

/// Read up to `nbytes` bytes at position `off` of a byte image, truncated
/// where the image ends before them.
pub fn readn(bytes: &[u8], off: usize, nbytes: u32) -> (r: Vec<u8>)
    ensures
        r@ == taken_bytes(bytes@, off as int, nbytes as int),
{
    let src_len: usize = bytes.len();
    let avail: usize = if off <= src_len {
        src_len - off
    } else {
        0
    };
    let want: usize = nbytes as usize;
    let count: usize = if want <= avail {
        want
    } else {
        avail
    };
    let mut r: Vec<u8> = Vec::new();
    let mut i: usize = 0;
    while i < count
        invariant
            i <= count,
            count == read_len(bytes@.len() as int, off as int, nbytes as int),
            src_len == bytes@.len(),
            count > 0 ==> off + count <= src_len,
            r@.len() == i,
            forall|k: int| 0 <= k < i ==> r@[k] == bytes@[off + k],
        decreases count - i,
    {
        r.push(bytes[off + i]);
        i += 1;
    }
    proof {
        assert(r@ =~= taken_bytes(bytes@, off as int, nbytes as int));
    }
    r
}

} // verus!
