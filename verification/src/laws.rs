//! Crate-wide laws: properties that relate `encode`, `serialize` and
//! `decode` to one another, proved once over the ghost models that the
//! executable functions are specified against.

use crate::model::byte_rate_of;
use crate::model::block_alignment_of;
use crate::model::decode_model;
use crate::model::encode_fits;
use crate::model::encode_model;
use crate::model::field_bytes;
use crate::model::serialize_header;
use crate::model::serialize_model;
use crate::model::taken_bytes;
use crate::report::violations_model;
use crate::report::Violation;
use vstd::bytes::lemma_auto_spec_u16_to_from_le_bytes;
use vstd::bytes::lemma_auto_spec_u32_to_from_le_bytes;
use vstd::bytes::spec_u16_from_le_bytes;
use vstd::bytes::spec_u32_from_le_bytes;
use vstd::prelude::*;

verus! {

/// Every field of an encoded structure's header holds its declared number
/// of bytes, and its byte image therefore carries the payload at offset 44.
proof fn lemma_encode_model_lens(
    data: Seq<u8>,
    num_channels: u16,
    sampling_rate: u32,
    bits_per_sample: u16,
)
    ensures
        ({
            let m = encode_model(data, num_channels, sampling_rate, bits_per_sample);
            &&& m.riff_tag.len() == 4
            &&& m.total_size.len() == 4
            &&& m.wave_tag.len() == 4
            &&& m.fmt_chunk_tag.len() == 4
            &&& m.fmt_chunk_size.len() == 4
            &&& m.fmt_code.len() == 2
            &&& m.num_channels.len() == 2
            &&& m.sampling_rate.len() == 4
            &&& m.byte_rate.len() == 4
            &&& m.block_alignment.len() == 2
            &&& m.bits_per_sample.len() == 2
            &&& m.data_tag.len() == 4
            &&& m.data_size.len() == 4
            &&& serialize_header(m).len() == 44
            &&& serialize_model(m).len() == 44 + data.len()
        }),
{
    lemma_auto_spec_u16_to_from_le_bytes();
    lemma_auto_spec_u32_to_from_le_bytes();
}

/// Round trip: any structure that `encode` accepts comes back field for
/// field when its byte image is parsed again — decoding the serialization
/// of an encoding is that encoding.
pub proof fn lemma_round_trip(
    data: Seq<u8>,
    num_channels: u16,
    sampling_rate: u32,
    bits_per_sample: u16,
)
    requires
        num_channels > 0,
        sampling_rate > 0,
        bits_per_sample > 0,
        encode_fits(data.len() as int, num_channels, sampling_rate, bits_per_sample),
    ensures
        decode_model(
            serialize_model(encode_model(data, num_channels, sampling_rate, bits_per_sample)),
        ) == encode_model(data, num_channels, sampling_rate, bits_per_sample),
{
    lemma_auto_spec_u16_to_from_le_bytes();
    lemma_auto_spec_u32_to_from_le_bytes();
    lemma_encode_model_lens(data, num_channels, sampling_rate, bits_per_sample);
    let m = encode_model(data, num_channels, sampling_rate, bits_per_sample);
    let s = serialize_model(m);
    assert(field_bytes(s, 0, 4) =~= m.riff_tag);
    assert(field_bytes(s, 4, 4) =~= m.total_size);
    assert(field_bytes(s, 8, 4) =~= m.wave_tag);
    assert(field_bytes(s, 12, 4) =~= m.fmt_chunk_tag);
    assert(field_bytes(s, 16, 4) =~= m.fmt_chunk_size);
    assert(field_bytes(s, 20, 2) =~= m.fmt_code);
    assert(field_bytes(s, 22, 2) =~= m.num_channels);
    assert(field_bytes(s, 24, 4) =~= m.sampling_rate);
    assert(field_bytes(s, 28, 4) =~= m.byte_rate);
    assert(field_bytes(s, 32, 2) =~= m.block_alignment);
    assert(field_bytes(s, 34, 2) =~= m.bits_per_sample);
    assert(field_bytes(s, 36, 4) =~= m.data_tag);
    assert(field_bytes(s, 40, 4) =~= m.data_size);
    assert(spec_u32_from_le_bytes(field_bytes(s, 40, 4)) == data.len() as u32);
    assert(taken_bytes(s, 44, data.len() as u32 as int) =~= m.data);
    assert(decode_model(s) == m);
}

/// A structure encoded from a non-empty payload, a positive channel count,
/// a positive sampling rate and a sample depth of at least one byte, whose
/// derived fields fit their wire widths, violates no invariant: `check`
/// accepts everything `encode` builds from such parameters.
pub proof fn lemma_encode_conforms(
    data: Seq<u8>,
    num_channels: u16,
    sampling_rate: u32,
    bits_per_sample: u16,
)
    requires
        data.len() > 0,
        num_channels > 0,
        sampling_rate > 0,
        bits_per_sample >= 8,
        encode_fits(data.len() as int, num_channels, sampling_rate, bits_per_sample),
    ensures
        violations_model(encode_model(data, num_channels, sampling_rate, bits_per_sample))
            == Seq::<Violation>::empty(),
{
    lemma_auto_spec_u16_to_from_le_bytes();
    lemma_auto_spec_u32_to_from_le_bytes();
    lemma_encode_model_lens(data, num_channels, sampling_rate, bits_per_sample);
    let m = encode_model(data, num_channels, sampling_rate, bits_per_sample);
    assert((sampling_rate as int) * (num_channels as int) * (bits_per_sample as int) >= 8)
        by (nonlinear_arith)
        requires
            sampling_rate >= 1,
            num_channels >= 1,
            bits_per_sample >= 8,
    ;
    assert((num_channels as int) * (bits_per_sample as int) >= 8) by (nonlinear_arith)
        requires
            num_channels >= 1,
            bits_per_sample >= 8,
    ;
    assert(byte_rate_of(num_channels, sampling_rate, bits_per_sample) >= 1);
    assert(block_alignment_of(num_channels, bits_per_sample) >= 1);
    assert(violations_model(m) =~= Seq::<Violation>::empty());
}

/// Derived-field correctness: in an encoded structure the byte-rate field
/// decodes to sampling_rate * num_channels * bits_per_sample / 8, the
/// block-alignment field to num_channels * bits_per_sample / 8, the total
/// size to the payload length plus 36, and the data size to the payload
/// length.
pub proof fn lemma_derived_fields(
    data: Seq<u8>,
    num_channels: u16,
    sampling_rate: u32,
    bits_per_sample: u16,
)
    requires
        encode_fits(data.len() as int, num_channels, sampling_rate, bits_per_sample),
    ensures
        spec_u32_from_le_bytes(
            encode_model(data, num_channels, sampling_rate, bits_per_sample).byte_rate,
        ) == byte_rate_of(num_channels, sampling_rate, bits_per_sample),
        spec_u16_from_le_bytes(
            encode_model(data, num_channels, sampling_rate, bits_per_sample).block_alignment,
        ) == block_alignment_of(num_channels, bits_per_sample),
        spec_u32_from_le_bytes(
            encode_model(data, num_channels, sampling_rate, bits_per_sample).total_size,
        ) == data.len() + 36,
        spec_u32_from_le_bytes(
            encode_model(data, num_channels, sampling_rate, bits_per_sample).data_size,
        ) == data.len(),
{
    lemma_auto_spec_u16_to_from_le_bytes();
    lemma_auto_spec_u32_to_from_le_bytes();
    lemma_encode_model_lens(data, num_channels, sampling_rate, bits_per_sample);
    assert((sampling_rate as int) * (num_channels as int) * (bits_per_sample as int) >= 0)
        by (nonlinear_arith);
    assert((num_channels as int) * (bits_per_sample as int) >= 0) by (nonlinear_arith);
    assert(byte_rate_of(num_channels, sampling_rate, bits_per_sample) >= 0);
    assert(block_alignment_of(num_channels, bits_per_sample) >= 0);
}

} // verus!
