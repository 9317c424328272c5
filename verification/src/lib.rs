pub mod args;
pub mod codec;
pub mod layout;

use vstd::prelude::*;

use crate::args::{CreateTokenArgs, CreateTokenError};
use crate::codec::{
    decimals_of, decode_create_token_args, is_valid_encoding, lemma_le32_at_bounds, name_end,
    name_of, symbol_end, symbol_of, uri_of,
};
use crate::layout::{mint_record_len, spec_total_mint_size, total_mint_size, BASE_MINT_RECORD_SIZE};

verus! {

/// Everything the host-runtime call needs once an invocation has been
/// accepted: the decoded request, the total byte size of the extended mint
/// record, the size whose rent-exempt minimum the host is asked for, and
/// the size requested from the account-creation primitive.
///
/// The creation call is sized at the base record alone, as is the rent
/// lookup, while `total_size` also counts the extensions area; the two are
/// kept distinct here so that neither stands in for the other.
#[derive(Debug, PartialEq, Eq)]
pub struct CreateTokenPlan {
    pub args: CreateTokenArgs,
    pub total_size: u64,
    pub rent_size: usize,
    pub create_space: u64,
}

/// Decides a create-token invocation from plain values: the number of
/// account references supplied and the instruction payload. Exactly five
/// accounts are demanded before the payload is even looked at; then the
/// payload must decode as a create-token request; then the account sizes
/// are fixed. The caller performs the host-runtime call the plan describes.
pub fn process_create_token(account_count: usize, instruction_data: &[u8]) -> (r: Result<
    CreateTokenPlan,
    CreateTokenError,
>)
    ensures
        account_count != 5 ==> r == Err::<CreateTokenPlan, CreateTokenError>(
            CreateTokenError::NotEnoughAccountKeys,
        ),
        account_count == 5 ==> match r {
            Ok(plan) => {
                &&& is_valid_encoding(instruction_data@)
                &&& plan.args.name@ == name_of(instruction_data@)
                &&& plan.args.symbol@ == symbol_of(instruction_data@)
                &&& plan.args.uri@ == uri_of(instruction_data@)
                &&& plan.args.decimals == decimals_of(instruction_data@)
                &&& plan.total_size == spec_total_mint_size(
                    name_of(instruction_data@).len() as int,
                    symbol_of(instruction_data@).len() as int,
                    uri_of(instruction_data@).len() as int,
                )
                &&& plan.rent_size == BASE_MINT_RECORD_SIZE
                &&& plan.create_space == BASE_MINT_RECORD_SIZE
            },
            Err(e) => e == CreateTokenError::InvalidInstructionData && !is_valid_encoding(
                instruction_data@,
            ),
        },
{
    if account_count != 5 {
        return Err(CreateTokenError::NotEnoughAccountKeys);
    }
    let token_args = match decode_create_token_args(instruction_data) {
        Ok(a) => a,
        Err(e) => {
            return Err(e);
        },
    };
    proof {
        lemma_le32_at_bounds(instruction_data@, 0);
        lemma_le32_at_bounds(instruction_data@, name_end(instruction_data@));
        lemma_le32_at_bounds(instruction_data@, symbol_end(instruction_data@));
    }
    let total = total_mint_size(
        token_args.name.len(),
        token_args.symbol.len(),
        token_args.uri.len(),
    );
    let base = mint_record_len();
    Ok(
        CreateTokenPlan {
            args: token_args,
            total_size: total,
            rent_size: base,
            create_space: base as u64,
        },
    )
}

} // verus!
