use vstd::prelude::*;
use vstd::slice::{slice_index_get, slice_subrange, slice_to_vec};

use crate::args::{CreateTokenArgs, CreateTokenError};

verus! {

/// The little-endian 32-bit value held by the four bytes of `d` that start
/// at position `i`.
pub open spec fn le32_at(d: Seq<u8>, i: int) -> int {
    (d[i] as int) + 256 * (d[i + 1] as int) + 65536 * (d[i + 2] as int)
        + 16777216 * (d[i + 3] as int)
}

/// Position just past a length-prefixed field that starts at `pos`: four
/// bytes of length prefix followed by that many bytes of content.
pub open spec fn field_end(d: Seq<u8>, pos: int) -> int {
    pos + 4 + le32_at(d, pos)
}

/// Whether a length-prefixed field starting at `pos` lies entirely within
/// `d`: the prefix itself is in range, and so is the content it declares.
pub open spec fn field_fits(d: Seq<u8>, pos: int) -> bool {
    pos + 4 <= d.len() && field_end(d, pos) <= d.len()
}

/// The content bytes of the length-prefixed field that starts at `pos`.
pub open spec fn field_bytes(d: Seq<u8>, pos: int) -> Seq<u8> {
    d.subrange(pos + 4, field_end(d, pos))
}

/// Position just past the encoded name field.
pub open spec fn name_end(d: Seq<u8>) -> int {
    field_end(d, 0)
}

/// Position just past the encoded symbol field.
pub open spec fn symbol_end(d: Seq<u8>) -> int {
    field_end(d, name_end(d))
}

/// Position just past the encoded URI field.
pub open spec fn uri_end(d: Seq<u8>) -> int {
    field_end(d, symbol_end(d))
}

/// Whether `d` is exactly a create-token request: three length-prefixed
/// fields in order, one trailing decimals byte, and nothing after it.
pub open spec fn is_valid_encoding(d: Seq<u8>) -> bool {
    &&& field_fits(d, 0)
    &&& field_fits(d, name_end(d))
    &&& field_fits(d, symbol_end(d))
    &&& d.len() == uri_end(d) + 1
}

/// The name bytes of an encoded request.
pub open spec fn name_of(d: Seq<u8>) -> Seq<u8> {
    field_bytes(d, 0)
}

/// The symbol bytes of an encoded request.
pub open spec fn symbol_of(d: Seq<u8>) -> Seq<u8> {
    field_bytes(d, name_end(d))
}

/// The URI bytes of an encoded request.
pub open spec fn uri_of(d: Seq<u8>) -> Seq<u8> {
    field_bytes(d, symbol_end(d))
}

/// The decimals byte of an encoded request.
pub open spec fn decimals_of(d: Seq<u8>) -> u8 {
    d[uri_end(d)]
}

/// A four-byte little-endian length prefix never exceeds the 32-bit range.
pub proof fn lemma_le32_at_bounds(d: Seq<u8>, i: int)
    ensures
        0 <= le32_at(d, i) <= 0xFFFF_FFFF,
{
}

/// Law: decoding fails, rather than defaulting, on a truncated payload.
/// Cutting any number of bytes off the end of a valid request leaves a
/// buffer that no longer satisfies `is_valid_encoding`, so
/// `decode_create_token_args` rejects it.
pub proof fn lemma_truncated_encoding_invalid(d: Seq<u8>, k: int)
    requires
        is_valid_encoding(d),
        0 <= k < d.len(),
    ensures
        !is_valid_encoding(d.subrange(0, k)),
{
    let p = d.subrange(0, k);
    if k < 4 {
        assert(!field_fits(p, 0));
    } else {
        assert(le32_at(p, 0) == le32_at(d, 0));
        let n1 = le32_at(d, 0);
        if 8 + n1 > k {
            assert(!(field_fits(p, 0) && field_fits(p, name_end(p))));
        } else {
            assert(le32_at(p, 4 + n1) == le32_at(d, 4 + n1));
            let n2 = le32_at(d, 4 + n1);
            if 12 + n1 + n2 > k {
                assert(!(field_fits(p, name_end(p)) && field_fits(p, symbol_end(p))));
            } else {
                assert(le32_at(p, 8 + n1 + n2) == le32_at(d, 8 + n1 + n2));
                assert(p.len() != uri_end(p) + 1);
            }
        }
    }
}

/// Reads the little-endian 32-bit value at position `pos`.
fn read_le_u32(data: &[u8], pos: usize) -> (r: u32)
    requires
        pos + 4 <= data@.len(),
        pos + 4 <= usize::MAX,
    ensures
        r == le32_at(data@, pos as int),
{
    let b0 = *slice_index_get(data, pos) as u32;
    let b1 = *slice_index_get(data, pos + 1) as u32;
    let b2 = *slice_index_get(data, pos + 2) as u32;
    let b3 = *slice_index_get(data, pos + 3) as u32;
    b0 + 256 * b1 + 65536 * b2 + 16777216 * b3
}

/// Reads one length-prefixed field starting at `pos`, returning its content
/// and the position just past it, or nothing where the field does not lie
/// entirely within the buffer.
fn read_field(data: &[u8], pos: usize) -> (r: Option<(Vec<u8>, usize)>)
    requires
        pos <= data@.len(),
    ensures
        match r {
            Some(field) => field_fits(data@, pos as int) && field.0@ == field_bytes(
                data@,
                pos as int,
            ) && field.1 == field_end(data@, pos as int),
            None => !field_fits(data@, pos as int),
        },
{
    let len = data.len();
    if len - pos < 4 {
        return None;
    }
    let n = read_le_u32(data, pos) as usize;
    if n > len - (pos + 4) {
        return None;
    }
    let end = pos + 4 + n;
    let bytes = slice_to_vec(slice_subrange(data, pos + 4, end));
    Some((bytes, end))
}

/// Decodes a create-token request from its fixed binary layout: the three
/// length-prefixed byte fields in order, then a single decimals byte, with
/// nothing left over. Any truncated buffer, length prefix that reaches past
/// the end, or trailing garbage is rejected.
pub fn decode_create_token_args(data: &[u8]) -> (r: Result<CreateTokenArgs, CreateTokenError>)
    ensures
        match r {
            Ok(args) => {
                &&& is_valid_encoding(data@)
                &&& args.name@ == name_of(data@)
                &&& args.symbol@ == symbol_of(data@)
                &&& args.uri@ == uri_of(data@)
                &&& args.decimals == decimals_of(data@)
            },
            Err(e) => e == CreateTokenError::InvalidInstructionData && !is_valid_encoding(data@),
        },
{
    let (name, end1) = match read_field(data, 0) {
        Some(f) => f,
        None => {
            return Err(CreateTokenError::InvalidInstructionData);
        },
    };
    let (symbol, end2) = match read_field(data, end1) {
        Some(f) => f,
        None => {
            return Err(CreateTokenError::InvalidInstructionData);
        },
    };
    let (uri, end3) = match read_field(data, end2) {
        Some(f) => f,
        None => {
            return Err(CreateTokenError::InvalidInstructionData);
        },
    };
    if data.len() - end3 != 1 {
        return Err(CreateTokenError::InvalidInstructionData);
    }
    let decimals = *slice_index_get(data, end3);
    Ok(CreateTokenArgs { name, symbol, uri, decimals })
}

} // verus!
