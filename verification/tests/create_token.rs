use mint_setup::args::CreateTokenError;
use mint_setup::codec::decode_create_token_args;
use mint_setup::layout::{
    extension_size, total_mint_size, BASE_MINT_RECORD_SIZE, EXTENSIONS_PADDING_AND_OFFSET,
    METADATA_EXTENSION_BASE_SIZE, METADATA_POINTER_SIZE,
};
use mint_setup::process_create_token;

/// Builds the fixed binary layout of a create-token request: three
/// length-prefixed byte fields, then one decimals byte.
fn encode_request(name: &[u8], symbol: &[u8], uri: &[u8], decimals: u8) -> Vec<u8> {
    let mut out: Vec<u8> = Vec::new();
    for field in [name, symbol, uri] {
        out.extend_from_slice(&(field.len() as u32).to_le_bytes());
        out.extend_from_slice(field);
    }
    out.push(decimals);
    out
}

#[test]
fn decode_basic_request() {
    let data = encode_request(b"Token", b"TKN", b"https://x", 6);
    let args = decode_create_token_args(&data).unwrap();
    assert_eq!(args.name, b"Token".to_vec());
    assert_eq!(args.symbol, b"TKN".to_vec());
    assert_eq!(args.uri, b"https://x".to_vec());
    assert_eq!(args.decimals, 6);
}

#[test]
fn decode_empty_fields() {
    let data = encode_request(b"", b"", b"", 0);
    assert_eq!(data.len(), 13);
    let args = decode_create_token_args(&data).unwrap();
    assert!(args.name.is_empty());
    assert!(args.symbol.is_empty());
    assert!(args.uri.is_empty());
    assert_eq!(args.decimals, 0);
}

#[test]
fn decode_max_decimals() {
    let data = encode_request(b"n", b"s", b"u", 255);
    let args = decode_create_token_args(&data).unwrap();
    assert_eq!(args.decimals, 255);
}

#[test]
fn decode_fails_when_cut_mid_uri() {
    let data = encode_request(b"Token", b"TKN", b"https://x", 6);
    // Drop the decimals byte and the tail of the URI.
    let truncated = &data[..data.len() - 5];
    assert_eq!(
        decode_create_token_args(truncated),
        Err(CreateTokenError::InvalidInstructionData)
    );
}

#[test]
fn decode_fails_on_every_truncation() {
    let data = encode_request(b"Token", b"TKN", b"https://x", 6);
    for k in 0..data.len() {
        assert_eq!(
            decode_create_token_args(&data[..k]),
            Err(CreateTokenError::InvalidInstructionData)
        );
    }
}

#[test]
fn decode_fails_on_trailing_garbage() {
    let mut data = encode_request(b"Token", b"TKN", b"https://x", 6);
    data.push(0);
    assert_eq!(
        decode_create_token_args(&data),
        Err(CreateTokenError::InvalidInstructionData)
    );
}

#[test]
fn decode_fails_on_oversized_length_prefix() {
    // The name's prefix declares more content than the buffer holds.
    let mut data: Vec<u8> = Vec::new();
    data.extend_from_slice(&1000u32.to_le_bytes());
    data.extend_from_slice(b"Token");
    data.push(6);
    assert_eq!(
        decode_create_token_args(&data),
        Err(CreateTokenError::InvalidInstructionData)
    );
}

#[test]
fn decode_fails_on_empty_buffer() {
    assert_eq!(
        decode_create_token_args(&[]),
        Err(CreateTokenError::InvalidInstructionData)
    );
}

#[test]
fn decode_matches_borsh_layout() {
    // The request layout is the one borsh gives a struct of three strings
    // and a byte; check it field for field against borsh's own encoder.
    let value = (
        "Token".to_string(),
        "TKN".to_string(),
        "https://x".to_string(),
        6u8,
    );
    let encoded = borsh::to_vec(&value).unwrap();
    assert_eq!(encoded, encode_request(b"Token", b"TKN", b"https://x", 6));
    let args = decode_create_token_args(&encoded).unwrap();
    assert_eq!(args.name, b"Token".to_vec());
    assert_eq!(args.symbol, b"TKN".to_vec());
    assert_eq!(args.uri, b"https://x".to_vec());
    assert_eq!(args.decimals, 6);
}

#[test]
fn total_size_of_empty_request() {
    let expected = (BASE_MINT_RECORD_SIZE
        + EXTENSIONS_PADDING_AND_OFFSET
        + METADATA_POINTER_SIZE
        + METADATA_EXTENSION_BASE_SIZE) as u64;
    assert_eq!(total_mint_size(0, 0, 0), expected);
    assert_eq!(total_mint_size(0, 0, 0), 318);
}

#[test]
fn extension_size_formula() {
    assert_eq!(extension_size(0, 0, 0), (68 + 84) as u64);
    assert_eq!(extension_size(5, 3, 9), (68 + 84 + 17) as u64);
}

#[test]
fn total_size_depends_only_on_length_sum() {
    assert_eq!(total_mint_size(5, 3, 9), total_mint_size(9, 3, 5));
    assert_eq!(total_mint_size(5, 3, 9), total_mint_size(17, 0, 0));
    let a = encode_request(b"Token", b"TKN", b"https://x", 6);
    let b = encode_request(b"nekoT", b"ABC", b"x://sptth", 9);
    let plan_a = process_create_token(5, &a).unwrap();
    let plan_b = process_create_token(5, &b).unwrap();
    assert_eq!(plan_a.total_size, plan_b.total_size);
}

#[test]
fn four_accounts_fail_before_decoding() {
    // Undecodable payload: with four accounts the count error comes first.
    let garbage = [0xffu8, 0xff, 0xff];
    assert_eq!(
        process_create_token(4, &garbage),
        Err(CreateTokenError::NotEnoughAccountKeys)
    );
    // A well-formed payload changes nothing.
    let data = encode_request(b"Token", b"TKN", b"https://x", 6);
    assert_eq!(
        process_create_token(4, &data),
        Err(CreateTokenError::NotEnoughAccountKeys)
    );
}

#[test]
fn six_accounts_fail_as_well() {
    let data = encode_request(b"Token", b"TKN", b"https://x", 6);
    assert_eq!(
        process_create_token(6, &data),
        Err(CreateTokenError::NotEnoughAccountKeys)
    );
}

#[test]
fn five_accounts_bad_payload_fails_decoding() {
    let garbage = [0xffu8, 0xff, 0xff];
    assert_eq!(
        process_create_token(5, &garbage),
        Err(CreateTokenError::InvalidInstructionData)
    );
}

#[test]
fn five_accounts_valid_request_yields_plan() {
    let data = encode_request(b"Token", b"TKN", b"https://x", 6);
    let plan = process_create_token(5, &data).unwrap();
    assert_eq!(plan.args.name, b"Token".to_vec());
    assert_eq!(plan.args.symbol, b"TKN".to_vec());
    assert_eq!(plan.args.uri, b"https://x".to_vec());
    assert_eq!(plan.args.decimals, 6);
    // 5 + 3 + 9 bytes of strings on top of the fixed 318.
    assert_eq!(plan.total_size, 318 + 17);
    // The creation call and the rent lookup are sized at the base record
    // alone.
    assert_eq!(plan.create_space, 82);
    assert_eq!(plan.rent_size, 82);
}
