//! The failures a request can end in, and the text shown for each.

use vstd::prelude::*;
use vstd::string::StringExecFns;

verus! {

/// Which instruction a builder was asked for; it only selects the wording of a
/// build failure.
#[derive(Clone, Copy, Debug, PartialEq, Eq, Structural)]
pub enum InstructionKind {
    /// Initialising a token mint.
    Token,
    /// Minting tokens to an account.
    Mint,
    /// Transferring tokens between accounts.
    Transfer,
}

/// Why a request was turned down. Every variant ends the request; none is
/// retried.
#[derive(Clone, Copy, Debug, PartialEq, Eq, Structural)]
pub enum ApiError {
    /// A required field is absent, an empty string, or an amount of zero.
    MissingFields,
    /// A field that must hold an address is not the base58 text of 32 bytes.
    InvalidPublicKey,
    /// The secret is not the base58 text of a 64-byte keypair whose halves
    /// agree.
    InvalidSecretKey,
    /// The signature is not base64.
    InvalidBase64,
    /// The signature decodes, but not to 64 bytes.
    InvalidSignatureFormat,
    /// The instruction builder rejected its arguments.
    InstructionBuildFailed(InstructionKind),
}

impl ApiError {
    /// The text of the error as the caller sees it.
    pub open spec fn message_spec(self) -> Seq<char> {
        match self {
            ApiError::MissingFields => "Missing required fields"@,
            ApiError::InvalidPublicKey => "Invalid public key"@,
            ApiError::InvalidSecretKey => "Invalid secret key"@,
            ApiError::InvalidBase64 => "Invalid base64 signature"@,
            ApiError::InvalidSignatureFormat => "Invalid signature format"@,
            ApiError::InstructionBuildFailed(InstructionKind::Token) =>
                "Failed to create token instruction"@,
            ApiError::InstructionBuildFailed(InstructionKind::Mint) =>
                "Failed to create mint instruction"@,
            ApiError::InstructionBuildFailed(InstructionKind::Transfer) =>
                "Failed to create transfer instruction"@,
        }
    }

    /// The text of the error as the caller sees it.
    pub fn message(&self) -> (text: String)
        ensures
            text@ == self.message_spec(),
    {
        match self {
            ApiError::MissingFields => String::from_str("Missing required fields"),
            ApiError::InvalidPublicKey => String::from_str("Invalid public key"),
            ApiError::InvalidSecretKey => String::from_str("Invalid secret key"),
            ApiError::InvalidBase64 => String::from_str("Invalid base64 signature"),
            ApiError::InvalidSignatureFormat => String::from_str("Invalid signature format"),
            ApiError::InstructionBuildFailed(InstructionKind::Token) => String::from_str(
                "Failed to create token instruction",
            ),
            ApiError::InstructionBuildFailed(InstructionKind::Mint) => String::from_str(
                "Failed to create mint instruction",
            ),
            ApiError::InstructionBuildFailed(InstructionKind::Transfer) => String::from_str(
                "Failed to create transfer instruction",
            ),
        }
    }
}

/// A result seen through the view of its success value.
pub open spec fn result_view<T: View>(result: Result<T, ApiError>) -> Result<T::V, ApiError> {
    match result {
        Ok(value) => Ok(value@),
        Err(error) => Err(error),
    }
}

} // verus!
