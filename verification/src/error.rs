//! The failures that the ledger reports.

use vstd::prelude::*;
use vstd::string::*;
use crate::text::amount_text;
use crate::text::append_amount;

verus! {

/// Why an input was turned away before anything was done with it.
#[derive(Clone, Copy, Debug, PartialEq, Eq, Structural)]
pub enum ValidationFault {
    /// The amount is zero.
    NonPositiveAmount,
    /// The currency is none of the supported ones.
    UnsupportedCurrency,
    /// The amount is below the smallest amount that is traded.
    AmountTooSmall,
    /// No wallet was found that could trade.
    NoTrader,
}

/// Why a key or a signature was not accepted.
#[derive(Clone, Copy, Debug, PartialEq, Eq, Structural)]
pub enum SignatureFault {
    /// The key does not have the length of a key, or is no point of the curve.
    MalformedKey,
    /// The signature does not have the length of a signature.
    MalformedSignature,
    /// The signature does not belong to the message under the key.
    VerificationFailed,
}

/// Why a block failed its check.
#[derive(Clone, Copy, Debug, PartialEq, Eq, Structural)]
pub enum BlockFault {
    /// The stored hash is not the hash of the header.
    HashMismatch,
    /// The hash has fewer leading zeros than the difficulty asks for.
    DifficultyNotMet,
}

/// Every way in which an operation of the ledger can fail.
#[derive(Clone, Copy, Debug, PartialEq, Eq, Structural)]
pub enum BlockchainError {
    /// An input was not acceptable.
    Validation(ValidationFault),
    /// A wallet holds less than was asked of it.
    Balance { available: u64, requested: u64 },
    /// A key or signature is malformed, or the signature does not verify.
    Signature(SignatureFault),
    /// No nonce below the bound gave a hash of the required difficulty.
    MiningExhausted,
    /// A swap would pay out less than the smallest payable amount.
    Pool,
    /// Every retry of the address generator met a code already in use.
    GenerationExhausted,
    /// A block does not hold together.
    Block(BlockFault),
    /// A timestamp lies outside the range of the calendar.
    Time,
}

impl BlockchainError {
    /// The failure in words.
    pub open spec fn text(self) -> Seq<char> {
        match self {
            BlockchainError::Validation(ValidationFault::NonPositiveAmount) => "Amount must be greater than zero"@,
            BlockchainError::Validation(ValidationFault::UnsupportedCurrency) => "Unsupported currency"@,
            BlockchainError::Validation(ValidationFault::AmountTooSmall) => "Amount is too small to trade"@,
            BlockchainError::Validation(ValidationFault::NoTrader) => "No wallets available for swap"@,
            BlockchainError::Balance { available, requested } => "Insufficient balance: "@
                + amount_text(available as nat) + " (needed: "@ + amount_text(requested as nat)
                + ")"@,
            BlockchainError::Signature(SignatureFault::MalformedKey) => "Invalid key"@,
            BlockchainError::Signature(SignatureFault::MalformedSignature) => "Invalid signature length"@,
            BlockchainError::Signature(SignatureFault::VerificationFailed) => "Signature verification failed"@,
            BlockchainError::MiningExhausted => "Failed to mine block: no valid nonce within the limit"@,
            BlockchainError::Pool => "Swap would result in too small output"@,
            BlockchainError::GenerationExhausted => "Failed to generate unique wallet address"@,
            BlockchainError::Block(BlockFault::HashMismatch) => "Invalid block hash"@,
            BlockchainError::Block(BlockFault::DifficultyNotMet) => "Block hash does not meet difficulty target"@,
            BlockchainError::Time => "Invalid timestamp"@,
        }
    }

    /// The failure in words.
    pub fn message(&self) -> (text: String)
        ensures
            text@ == self.text(),
    {
        let mut text = String::new();
        match self {
            BlockchainError::Validation(ValidationFault::NonPositiveAmount) => {
                text.append("Amount must be greater than zero");
            },
            BlockchainError::Validation(ValidationFault::UnsupportedCurrency) => {
                text.append("Unsupported currency");
            },
            BlockchainError::Validation(ValidationFault::AmountTooSmall) => {
                text.append("Amount is too small to trade");
            },
            BlockchainError::Validation(ValidationFault::NoTrader) => {
                text.append("No wallets available for swap");
            },
            BlockchainError::Balance { available, requested } => {
                text.append("Insufficient balance: ");
                append_amount(&mut text, *available);
                text.append(" (needed: ");
                append_amount(&mut text, *requested);
                text.append(")");
            },
            BlockchainError::Signature(SignatureFault::MalformedKey) => {
                text.append("Invalid key");
            },
            BlockchainError::Signature(SignatureFault::MalformedSignature) => {
                text.append("Invalid signature length");
            },
            BlockchainError::Signature(SignatureFault::VerificationFailed) => {
                text.append("Signature verification failed");
            },
            BlockchainError::MiningExhausted => {
                text.append("Failed to mine block: no valid nonce within the limit");
            },
            BlockchainError::Pool => {
                text.append("Swap would result in too small output");
            },
            BlockchainError::GenerationExhausted => {
                text.append("Failed to generate unique wallet address");
            },
            BlockchainError::Block(BlockFault::HashMismatch) => {
                text.append("Invalid block hash");
            },
            BlockchainError::Block(BlockFault::DifficultyNotMet) => {
                text.append("Block hash does not meet difficulty target");
            },
            BlockchainError::Time => {
                text.append("Invalid timestamp");
            },
        }
        assert(text@ =~= self.text());
        text
    }
}

} // verus!
