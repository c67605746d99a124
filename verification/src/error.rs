use vstd::prelude::*;

verus! {

/// The errors with which the program's instructions refuse a request.
#[derive(Clone, Copy, Debug, PartialEq, Eq, Structural)]
pub enum CustomError {
    InvalidBasisPoint,
    InvalidState,
    NotMature,
    UnsupportedToken,
    InputTooSmall,
    InsufficientLiquidity,
    NothingToWithdraw,
    Unauthorized,
    InvalidRecipient,
}

/// Position of each variant in the declaration, the basis of its error code.
pub open spec fn error_index(e: CustomError) -> u32 {
    match e {
        CustomError::InvalidBasisPoint => 0,
        CustomError::InvalidState => 1,
        CustomError::NotMature => 2,
        CustomError::UnsupportedToken => 3,
        CustomError::InputTooSmall => 4,
        CustomError::InsufficientLiquidity => 5,
        CustomError::NothingToWithdraw => 6,
        CustomError::Unauthorized => 7,
        CustomError::InvalidRecipient => 8,
    }
}

/// `anchor_lang::error::ERROR_CODE_OFFSET`, the number that program error codes start from.
#[verifier::external_body]
fn error_code_offset() -> (r: u32)
    ensures
        r == 6000,
{
    anchor_lang::error::ERROR_CODE_OFFSET
}

impl CustomError {
    /// The error code the program reports: the framework's offset plus the variant's position.
    pub fn code(&self) -> (r: u32)
        ensures
            r == 6000 + error_index(*self),
    {
        let index: u32 = match self {
            CustomError::InvalidBasisPoint => 0,
            CustomError::InvalidState => 1,
            CustomError::NotMature => 2,
            CustomError::UnsupportedToken => 3,
            CustomError::InputTooSmall => 4,
            CustomError::InsufficientLiquidity => 5,
            CustomError::NothingToWithdraw => 6,
            CustomError::Unauthorized => 7,
            CustomError::InvalidRecipient => 8,
        };
        error_code_offset() + index
    }

    /// The message reported with the error.
    pub fn message(&self) -> (r: &'static str)
        ensures
            r@ == error_message(*self),
    {
        match self {
            CustomError::InvalidBasisPoint => "Invalid basis point",
            CustomError::InvalidState => "Invalid state for this operation",
            CustomError::NotMature => "Deal not yet mature",
            CustomError::UnsupportedToken => "Unsupported token",
            CustomError::InputTooSmall => "Input amount too small",
            CustomError::InsufficientLiquidity => "Insufficient liquidity in the pool",
            CustomError::NothingToWithdraw => "Nothing to withdraw",
            CustomError::Unauthorized => "Signer is not allowed to act on this account",
            CustomError::InvalidRecipient => "Payout account does not belong to the recipient",
        }
    }
}

/// The message of each error.
pub open spec fn error_message(e: CustomError) -> Seq<char> {
    match e {
        CustomError::InvalidBasisPoint => "Invalid basis point"@,
        CustomError::InvalidState => "Invalid state for this operation"@,
        CustomError::NotMature => "Deal not yet mature"@,
        CustomError::UnsupportedToken => "Unsupported token"@,
        CustomError::InputTooSmall => "Input amount too small"@,
        CustomError::InsufficientLiquidity => "Insufficient liquidity in the pool"@,
        CustomError::NothingToWithdraw => "Nothing to withdraw"@,
        CustomError::Unauthorized => "Signer is not allowed to act on this account"@,
        CustomError::InvalidRecipient => "Payout account does not belong to the recipient"@,
    }
}

} // verus!
