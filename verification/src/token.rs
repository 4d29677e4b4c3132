//! Token creation: the steps that set up a new mint, its metadata where the
//! mint belongs to the Token-2022 program, and the exchange's own account.
use vstd::prelude::*;

use crate::address::Address;

verus! {

/// A metadata field of a Token-2022 mint.
#[derive(Clone, Copy, Debug, PartialEq, Eq, Structural)]
pub enum MetadataField {
    Name,
    Symbol,
    Uri,
}

/// One step of creating a token, each one a call into the token programs.
#[derive(Clone, Debug)]
pub enum TokenStep {
    /// Initialise the mint with the given decimals, the creator being its
    /// mint and freeze authority.
    InitializeMint { decimals: u8 },
    /// Create the mint's metadata pointer account.
    CreateMetadataPointer,
    /// Set a metadata field of the mint.
    UpdateMetadataField { field: MetadataField, value: String },
    /// Initialise the exchange's token account for the mint.
    InitializeDexTokenAccount,
}

/// The Token-2022 program's id, `TokenzQdBNbLqP5VEhdkAS6EPFLC1PHnBqCXEpPxuEb`, as bytes.
pub open spec fn token_2022_program_id() -> Seq<u8> {
    seq![
        6u8, 221, 246, 225, 238, 117, 143, 222, 24, 66, 93, 188, 228, 108, 205, 218,
        182, 26, 252, 77, 131, 185, 13, 39, 254, 189, 249, 40, 216, 161, 139, 252,
    ]
}

/// Whether `key` is the Token-2022 program's id, by the program crate's
/// `check_id` (`spl_token_2022::check_id`, as `anchor_spl::token_2022`
/// re-exports it). Claimed: it compares with the id that the crate declares.
#[verifier::external_body]
fn is_token_2022_program(key: &Address) -> (res: bool)
    ensures
        res == (key@ == token_2022_program_id()),
{
    anchor_spl::token_2022::spl_token_2022::check_id(
        &anchor_lang::prelude::Pubkey::new_from_array(key.bytes),
    )
}

/// The steps of creating a token owned by `token_program`: the mint first, then
/// its name, symbol and URI where the program is Token-2022, then the
/// exchange's token account.
pub open spec fn create_token_steps(
    token_program: Seq<u8>,
    name: String,
    symbol: String,
    uri: String,
    decimals: u8,
) -> Seq<TokenStep> {
    if token_program == token_2022_program_id() {
        seq![
            TokenStep::InitializeMint { decimals },
            TokenStep::CreateMetadataPointer,
            TokenStep::UpdateMetadataField { field: MetadataField::Name, value: name },
            TokenStep::UpdateMetadataField { field: MetadataField::Symbol, value: symbol },
            TokenStep::UpdateMetadataField { field: MetadataField::Uri, value: uri },
            TokenStep::InitializeDexTokenAccount,
        ]
    } else {
        seq![TokenStep::InitializeMint { decimals }, TokenStep::InitializeDexTokenAccount]
    }
}

/// The steps of creating a token with the given metadata and decimals, to be
/// carried out in order, stopping at the first that fails.
pub fn create_token(
    token_program: &Address,
    name: String,
    symbol: String,
    uri: String,
    decimals: u8,
) -> (steps: Vec<TokenStep>)
    ensures
        steps@ == create_token_steps(token_program@, name, symbol, uri, decimals),
{
    let mut steps: Vec<TokenStep> = Vec::new();
    steps.push(TokenStep::InitializeMint { decimals });
    if is_token_2022_program(token_program) {
        steps.push(TokenStep::CreateMetadataPointer);
        steps.push(TokenStep::UpdateMetadataField { field: MetadataField::Name, value: name });
        steps.push(TokenStep::UpdateMetadataField { field: MetadataField::Symbol, value: symbol });
        steps.push(TokenStep::UpdateMetadataField { field: MetadataField::Uri, value: uri });
    }
    steps.push(TokenStep::InitializeDexTokenAccount);
    proof {
        assert(steps@ =~= create_token_steps(token_program@, name, symbol, uri, decimals));
    }
    steps
}

} // verus!
