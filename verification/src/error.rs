//! The ways an increment can be refused.

use vstd::prelude::*;

verus! {

/// The check of the authorization protocol that a transaction failed.
///
/// The checks run in the order of the variants, and the first one that fails
/// decides the code.
#[derive(Clone, Copy, Debug, PartialEq, Eq, Structural)]
pub enum ErrorCodes {
    /// The increment is not the second instruction of its transaction.
    InstructionAtWrongIndex,
    /// The instruction before the increment is not addressed to the secp256k1
    /// program, or its data does not hold exactly one recovery entry.
    InvalidSecpInstruction,
    /// The recovered address is not the counter's signer address.
    InvalidSecpSignature,
    /// The signed message is not the counter's current nonce.
    InvalidSecpNonce,
}

impl ErrorCodes {
    /// The text that describes the code.
    pub open spec fn spec_message(self) -> Seq<char> {
        match self {
            ErrorCodes::InstructionAtWrongIndex => "InstructionAtWrongIndex"@,
            ErrorCodes::InvalidSecpInstruction => "InvalidSecpInstruction"@,
            ErrorCodes::InvalidSecpSignature => "InvalidSecpSignature"@,
            ErrorCodes::InvalidSecpNonce => "InvalidSecpNonce"@,
        }
    }

    /// The text that describes the code.
    pub fn message(&self) -> (text: &'static str)
        ensures
            text@ == self.spec_message(),
    {
        match self {
            ErrorCodes::InstructionAtWrongIndex => "InstructionAtWrongIndex",
            ErrorCodes::InvalidSecpInstruction => "InvalidSecpInstruction",
            ErrorCodes::InvalidSecpSignature => "InvalidSecpSignature",
            ErrorCodes::InvalidSecpNonce => "InvalidSecpNonce",
        }
    }
}

/// Why `increment` left the counter as it was.
#[derive(Clone, Copy, Debug, PartialEq, Eq, Structural)]
pub enum IncrementError {
    /// The account handed in as the instructions sysvar has another address.
    UnsupportedSysvar,
    /// The instruction before the increment cannot be read from the sysvar.
    InvalidAccountData,
    /// The transaction failed a check of the authorization protocol.
    Rejected(ErrorCodes),
}

} // verus!
