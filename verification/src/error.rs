//! The failures a call can end in.

use vstd::prelude::*;

verus! {

/// `solana_program::program_error::ProgramError`, the error of the interface crates'
/// calls. It is carried from a call to the place that maps it; nothing is read from it.
#[verifier::external_type_specification]
#[verifier::external_body]
pub struct ExProgramError(spl_tlv_account_resolution::solana_program::program_error::ProgramError);

/// Why a call was refused. Every failure is terminal for its call: nothing the call
/// would have written is kept.
#[derive(Clone, Copy, Debug, PartialEq, Eq, Structural)]
pub enum RwaError {
    /// A record already exists for the asset.
    DuplicateRecord,
    /// The caller is not the co-signing custodian of the record.
    UnauthorizedCustodian,
    /// The asset is not compliant, so the transfer is vetoed.
    NonCompliantAsset,
    /// The call payload is malformed or names an unsupported request.
    InvalidCallData,
}

} // verus!
