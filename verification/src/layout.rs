use vstd::prelude::*;

verus! {

/// Size in bytes of the metadata-pointer sub-record: a 4-byte extension
/// discriminator, the 32-byte authority key and the 32-byte pointee key.
pub const METADATA_POINTER_SIZE: usize = 4 + 32 + 32;

/// Size in bytes of the metadata extension's fixed fields beyond the three
/// variable-length strings: a 4-byte extension discriminator, the 32-byte
/// update-authority key, the 32-byte mint key and four 4-byte markers.
pub const METADATA_EXTENSION_BASE_SIZE: usize = 4 + 32 + 32 + 4 + 4 + 4 + 4;

/// Fixed padding-and-offset constant separating the base mint record from
/// the extensions area of the account.
pub const EXTENSIONS_PADDING_AND_OFFSET: usize = 84;

/// Byte length of the base mint record as the token program packs it.
/// The trusted wrapper `mint_record_len` ties this constant to the token
/// program's own declaration.
pub const BASE_MINT_RECORD_SIZE: usize = 82;

/// Size of the extensions area: both sub-records' fixed fields plus the
/// three variable string lengths.
pub open spec fn spec_extension_size(name_len: int, symbol_len: int, uri_len: int) -> int {
    METADATA_POINTER_SIZE + METADATA_EXTENSION_BASE_SIZE + name_len + symbol_len + uri_len
}

/// Total byte size of the extended mint record: the base record, the
/// padding-and-offset constant, and the extensions area.
pub open spec fn spec_total_mint_size(name_len: int, symbol_len: int, uri_len: int) -> int {
    BASE_MINT_RECORD_SIZE + EXTENSIONS_PADDING_AND_OFFSET
        + spec_extension_size(name_len, symbol_len, uri_len)
}

/// Relies on `spl_token::state::Mint`: its `solana_program::program_pack::Pack`
/// implementation declares a packed length of 82 bytes for the base mint
/// record.
#[verifier::external_body]
pub(crate) fn mint_record_len() -> (r: usize)
    ensures
        r == BASE_MINT_RECORD_SIZE,
{
    <spl_token::state::Mint as solana_program::program_pack::Pack>::LEN
}

/// Computes the size of the extensions area from the three string lengths.
pub fn extension_size(name_len: usize, symbol_len: usize, uri_len: usize) -> (r: u64)
    requires
        spec_extension_size(name_len as int, symbol_len as int, uri_len as int) <= u64::MAX,
    ensures
        r == spec_extension_size(name_len as int, symbol_len as int, uri_len as int),
{
    METADATA_POINTER_SIZE as u64 + METADATA_EXTENSION_BASE_SIZE as u64 + name_len as u64
        + symbol_len as u64 + uri_len as u64
}

/// Computes the total byte size of the extended mint record from the three
/// string lengths, reading the base record length from the token program.
pub fn total_mint_size(name_len: usize, symbol_len: usize, uri_len: usize) -> (r: u64)
    requires
        spec_total_mint_size(name_len as int, symbol_len as int, uri_len as int) <= u64::MAX,
    ensures
        r == spec_total_mint_size(name_len as int, symbol_len as int, uri_len as int),
{
    let base = mint_record_len();
    let ext = extension_size(name_len, symbol_len, uri_len);
    base as u64 + EXTENSIONS_PADDING_AND_OFFSET as u64 + ext
}

/// Law: the total mint size is a function of the three string lengths alone,
/// and of those only through their sum; two requests whose lengths sum alike
/// get the same total size, whatever their contents.
pub proof fn lemma_total_size_function_of_length_sum(
    n1: int,
    s1: int,
    u1: int,
    n2: int,
    s2: int,
    u2: int,
)
    requires
        n1 + s1 + u1 == n2 + s2 + u2,
    ensures
        spec_total_mint_size(n1, s1, u1) == spec_total_mint_size(n2, s2, u2),
{
}

} // verus!
