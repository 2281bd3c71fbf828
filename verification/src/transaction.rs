//! Signed transfers: the canonical text that is signed, the check of a
//! transaction, and the factory that builds and signs one.

use vstd::prelude::*;
use vstd::string::*;
use vstd::utf8::encode_utf8;
use crate::clock::unix_time;
use crate::error::BlockchainError;
use crate::error::SignatureFault;
use crate::error::ValidationFault;
use crate::hashing::hash_text;
use crate::hashing::sha256_hex;
use crate::signing::ed25519_key_valid;
use crate::signing::ed25519_signature;
use crate::signing::ed25519_verifies;
use crate::signing::key_is_valid;
use crate::signing::sign;
use crate::signing::verifies;
use crate::signing::KEY_LEN;
use crate::signing::SIGNATURE_LEN;
use crate::text::amount_text;
use crate::text::append_amount;
use crate::text::append_decimal;
use crate::text::decimal;
use crate::wallet::is_supported;
use crate::wallet::supported;
use crate::wallet::Wallet;
use crate::wallet::USDZ;
use crate::wallet::ZUX;

verus! {

/// Address under which the pool receives what is swapped in.
pub const AMM_POOL_ADDRESS: &'static str = "AMM_POOL_ZUX_USDZ";

/// What a transaction says, apart from how it stores it.
pub struct TransactionModel {
    /// Address of the paying wallet.
    pub sender: Seq<char>,
    /// Address of the receiving side.
    pub recipient: Seq<char>,
    /// Amount in smallest units.
    pub amount: u64,
    /// Currency code.
    pub currency: Seq<char>,
    /// Seconds since the Unix epoch.
    pub timestamp: u64,
    /// Ed25519 signature over the signing text.
    pub signature: Seq<u8>,
    /// The sender's public key.
    pub sender_public_key: Seq<u8>,
}

impl TransactionModel {
    /// The canonical text that is signed: sender, recipient, amount,
    /// currency and timestamp, in this order and with nothing between them.
    pub open spec fn signing_text(self) -> Seq<char> {
        self.sender + self.recipient + amount_text(self.amount as nat) + self.currency + decimal(
            self.timestamp as nat,
        )
    }

    /// The bytes that are signed: the signing text in UTF-8.
    pub open spec fn signing_bytes(self) -> Seq<u8> {
        encode_utf8(self.signing_text())
    }

    /// The first reason, if any, for which the transaction is not valid:
    /// amount, currency, key, length of the signature, the signature itself.
    pub open spec fn fault(self) -> Option<BlockchainError> {
        if self.amount == 0 {
            Some(BlockchainError::Validation(ValidationFault::NonPositiveAmount))
        } else if !supported(self.currency) {
            Some(BlockchainError::Validation(ValidationFault::UnsupportedCurrency))
        } else if self.sender_public_key.len() != KEY_LEN || !ed25519_key_valid(
            self.sender_public_key,
        ) {
            Some(BlockchainError::Signature(SignatureFault::MalformedKey))
        } else if self.signature.len() != SIGNATURE_LEN {
            Some(BlockchainError::Signature(SignatureFault::MalformedSignature))
        } else if !ed25519_verifies(self.sender_public_key, self.signing_bytes(), self.signature) {
            Some(BlockchainError::Signature(SignatureFault::VerificationFailed))
        } else {
            None
        }
    }

    /// The transaction with the signature that `secret` gives its text.
    pub open spec fn signed_by(self, secret: Seq<u8>) -> TransactionModel {
        TransactionModel { signature: ed25519_signature(secret, self.signing_bytes()), ..self }
    }
}

/// Transaction integrity: a transaction over nothing fails its check with a
/// validation error, whatever else it holds.
pub proof fn lemma_zero_amount_is_refused(tx: TransactionModel)
    requires
        tx.amount == 0,
    ensures
        tx.fault() == Some(BlockchainError::Validation(ValidationFault::NonPositiveAmount)),
{
}

/// Transaction integrity: where only the signature of a valid transaction is
/// altered, the transaction either still passes its check or fails it with
/// a signature error: with a malformed signature where the length is no
/// longer that of a signature, else with a failed verification.
pub proof fn lemma_altered_signature_fails_as_signature(tx: TransactionModel, altered: Seq<u8>)
    requires
        tx.fault() is None,
    ensures
        ({
            let other = TransactionModel { signature: altered, ..tx };
            if altered.len() != SIGNATURE_LEN {
                other.fault() == Some(
                    BlockchainError::Signature(SignatureFault::MalformedSignature),
                )
            } else if ed25519_verifies(tx.sender_public_key, tx.signing_bytes(), altered) {
                other.fault() is None
            } else {
                other.fault() == Some(
                    BlockchainError::Signature(SignatureFault::VerificationFailed),
                )
            }
        }),
{
    let other = TransactionModel { signature: altered, ..tx };
    assert(other.signing_text() == tx.signing_text());
}

/// The first reason, if any, for which `wallet` cannot pay `amount` of
/// `currency`: amount, currency, balance, signing key.
pub open spec fn transfer_fault(wallet: &Wallet, amount: u64, currency: Seq<char>) -> Option<
    BlockchainError,
> {
    if amount == 0 {
        Some(BlockchainError::Validation(ValidationFault::NonPositiveAmount))
    } else if !supported(currency) {
        Some(BlockchainError::Validation(ValidationFault::UnsupportedCurrency))
    } else if wallet.balance_of(currency) < amount {
        Some(
            BlockchainError::Balance { available: wallet.balance_of(currency), requested: amount },
        )
    } else if wallet.private_key@.len() != KEY_LEN {
        Some(BlockchainError::Signature(SignatureFault::MalformedKey))
    } else {
        None
    }
}

/// The transaction by which `wallet` pays `amount` of `currency` to
/// `recipient` at `timestamp`, signed with the wallet's private key.
pub open spec fn transfer_made(
    wallet: &Wallet,
    recipient: Seq<char>,
    amount: u64,
    currency: Seq<char>,
    timestamp: u64,
) -> TransactionModel {
    (TransactionModel {
        sender: wallet.address@,
        recipient,
        amount,
        currency,
        timestamp,
        signature: Seq::<u8>::empty(),
        sender_public_key: wallet.public_key@,
    }).signed_by(wallet.private_key@)
}

/// The currency that a swap in the given direction pays in.
pub open spec fn input_currency(is_zux_to_usd: bool) -> Seq<char> {
    if is_zux_to_usd {
        ZUX@
    } else {
        USDZ@
    }
}

/// The currency that a swap in the given direction pays out.
pub open spec fn output_currency(is_zux_to_usd: bool) -> Seq<char> {
    if is_zux_to_usd {
        USDZ@
    } else {
        ZUX@
    }
}

/// Transaction structure to represent blockchain activity.
#[derive(Debug)]
pub struct Transaction {
    /// Address of the paying wallet.
    pub sender: String,
    /// Address of the receiving side.
    pub recipient: String,
    /// Amount in smallest units.
    pub amount: u64,
    /// Currency code (ZUX, USDZ).
    pub currency: String,
    /// Seconds since the Unix epoch.
    pub timestamp: u64,
    /// Ed25519 cryptographic signature.
    pub signature: Vec<u8>,
    /// Sender's public key for signature verification.
    pub sender_public_key: Vec<u8>,
}

impl View for Transaction {
    type V = TransactionModel;

    open spec fn view(&self) -> TransactionModel {
        TransactionModel {
            sender: self.sender@,
            recipient: self.recipient@,
            amount: self.amount,
            currency: self.currency@,
            timestamp: self.timestamp,
            signature: self.signature@,
            sender_public_key: self.sender_public_key@,
        }
    }
}

impl Clone for Transaction {
    fn clone(&self) -> (copy: Self)
        ensures
            copy@ == self@,
    {
        Transaction {
            sender: self.sender.clone(),
            recipient: self.recipient.clone(),
            amount: self.amount,
            currency: self.currency.clone(),
            timestamp: self.timestamp,
            signature: self.signature.clone(),
            sender_public_key: self.sender_public_key.clone(),
        }
    }
}

impl Transaction {
    /// Create a new transaction.
    pub fn new(
        sender: String,
        recipient: String,
        amount: u64,
        currency: String,
        timestamp: u64,
        signature: Vec<u8>,
        sender_public_key: Vec<u8>,
    ) -> (tx: Self)
        ensures
            tx@ == (TransactionModel {
                sender: sender@,
                recipient: recipient@,
                amount,
                currency: currency@,
                timestamp,
                signature: signature@,
                sender_public_key: sender_public_key@,
            }),
    {
        Transaction { sender, recipient, amount, currency, timestamp, signature, sender_public_key }
    }

    /// Get the transaction data that would be signed.
    pub fn get_signing_data(&self) -> (text: String)
        ensures
            text@ == self@.signing_text(),
    {
        signing_data(
            self.sender.as_str(),
            self.recipient.as_str(),
            self.amount,
            self.currency.as_str(),
            self.timestamp,
        )
    }

    /// Verify that the transaction is valid, including cryptographic
    /// signature.
    pub fn verify(&self) -> (checked: Result<(), BlockchainError>)
        ensures
            checked is Ok <==> self@.fault() is None,
            checked matches Err(e) ==> self@.fault() == Some(e),
    {
        if self.amount == 0 {
            return Err(BlockchainError::Validation(ValidationFault::NonPositiveAmount));
        }
        if !is_supported(self.currency.as_str()) {
            return Err(BlockchainError::Validation(ValidationFault::UnsupportedCurrency));
        }
        if self.sender_public_key.len() != KEY_LEN {
            return Err(BlockchainError::Signature(SignatureFault::MalformedKey));
        }
        if !key_is_valid(self.sender_public_key.as_slice()) {
            return Err(BlockchainError::Signature(SignatureFault::MalformedKey));
        }
        if self.signature.len() != SIGNATURE_LEN {
            return Err(BlockchainError::Signature(SignatureFault::MalformedSignature));
        }
        let message = self.get_signing_data();
        if !verifies(
            self.sender_public_key.as_slice(),
            message.as_str().as_bytes(),
            self.signature.as_slice(),
        ) {
            return Err(BlockchainError::Signature(SignatureFault::VerificationFailed));
        }
        Ok(())
    }

    /// Get a hash of the transaction data.
    pub fn hash(&self) -> (digest: String)
        ensures
            digest@ == sha256_hex(self@.signing_text()),
    {
        let data = self.get_signing_data();
        hash_text(data.as_str())
    }
}

/// The canonical signing text of the given fields.
fn signing_data(sender: &str, recipient: &str, amount: u64, currency: &str, timestamp: u64) -> (text:
    String)
    ensures
        text@ == sender@ + recipient@ + amount_text(amount as nat) + currency@ + decimal(
            timestamp as nat,
        ),
{
    let mut text = String::new();
    text.append(sender);
    text.append(recipient);
    append_amount(&mut text, amount);
    text.append(currency);
    append_decimal(&mut text, timestamp);
    assert(text@ =~= sender@ + recipient@ + amount_text(amount as nat) + currency@ + decimal(
        timestamp as nat,
    ));
    text
}

/// The first reason, if any, for which `wallet` cannot pay `amount` of
/// `currency`.
pub fn check_transfer(wallet: &Wallet, amount: u64, currency: &str) -> (fault: Option<
    BlockchainError,
>)
    ensures
        fault == transfer_fault(wallet, amount, currency@),
{
    if amount == 0 {
        return Some(BlockchainError::Validation(ValidationFault::NonPositiveAmount));
    }
    if !is_supported(currency) {
        return Some(BlockchainError::Validation(ValidationFault::UnsupportedCurrency));
    }
    let balance = wallet.get_balance(currency);
    if balance < amount {
        return Some(BlockchainError::Balance { available: balance, requested: amount });
    }
    if wallet.private_key.len() != KEY_LEN {
        return Some(BlockchainError::Signature(SignatureFault::MalformedKey));
    }
    None
}

/// Builds and signs the transaction by which `sender_wallet` pays `amount`
/// of `currency` to `recipient_address` at `timestamp`. Where the wallet's
/// keys belong together, the transaction passes its own check.
pub fn create_transaction_at(
    sender_wallet: &Wallet,
    recipient_address: &str,
    amount: u64,
    currency: &str,
    timestamp: u64,
) -> (made: Result<Transaction, BlockchainError>)
    ensures
        made is Ok <==> transfer_fault(sender_wallet, amount, currency@) is None,
        made matches Err(e) ==> transfer_fault(sender_wallet, amount, currency@) == Some(e),
        made matches Ok(tx) ==> tx@ == transfer_made(
            sender_wallet,
            recipient_address@,
            amount,
            currency@,
            timestamp,
        ) && (sender_wallet.keys_match() ==> tx@.fault() is None),
{
    match check_transfer(sender_wallet, amount, currency) {
        Some(e) => {
            return Err(e);
        },
        None => {},
    }
    let transaction_data = signing_data(
        sender_wallet.address.as_str(),
        recipient_address,
        amount,
        currency,
        timestamp,
    );
    let signature = sign(
        sender_wallet.private_key.as_slice(),
        transaction_data.as_str().as_bytes(),
    );
    let tx = Transaction {
        sender: sender_wallet.address.clone(),
        recipient: recipient_address.to_owned(),
        amount,
        currency: currency.to_owned(),
        timestamp,
        signature,
        sender_public_key: sender_wallet.public_key.clone(),
    };
    assert(tx@.signing_text() == transaction_data@);
    Ok(tx)
}

/// Create a transaction with proper validation, signed with the sender's
/// key, at the time that the clock shows. A clock that stands before the
/// Unix epoch is a failure of its own, reported after every other.
pub fn create_transaction(
    sender_wallet: &Wallet,
    recipient_address: &str,
    amount: u64,
    currency: &str,
) -> (made: Result<Transaction, BlockchainError>)
    ensures
        transfer_fault(sender_wallet, amount, currency@) matches Some(e) ==> made == Err::<
            Transaction,
            BlockchainError,
        >(e),
        made matches Err(e) ==> e == BlockchainError::Time || transfer_fault(
            sender_wallet,
            amount,
            currency@,
        ) == Some(e),
        made matches Ok(tx) ==> tx@ == transfer_made(
            sender_wallet,
            recipient_address@,
            amount,
            currency@,
            tx.timestamp,
        ) && (sender_wallet.keys_match() ==> tx@.fault() is None),
{
    match check_transfer(sender_wallet, amount, currency) {
        Some(e) => {
            return Err(e);
        },
        None => {},
    }
    match unix_time() {
        Some(timestamp) => create_transaction_at(
            sender_wallet,
            recipient_address,
            amount,
            currency,
            timestamp,
        ),
        None => Err(BlockchainError::Time),
    }
}

/// Builds and signs the transaction by which `wallet` pays `input_amount`
/// into the pool at `timestamp`. The amount paid out is recorded in the
/// block's event, not in the transaction.
pub fn create_swap_transaction_at(
    wallet: &Wallet,
    is_zux_to_usd: bool,
    input_amount: u64,
    output_amount: u64,
    timestamp: u64,
) -> (made: Result<Transaction, BlockchainError>)
    ensures
        made is Ok <==> transfer_fault(wallet, input_amount, input_currency(is_zux_to_usd))
            is None,
        made matches Err(e) ==> transfer_fault(wallet, input_amount, input_currency(is_zux_to_usd))
            == Some(e),
        made matches Ok(tx) ==> tx@ == transfer_made(
            wallet,
            AMM_POOL_ADDRESS@,
            input_amount,
            input_currency(is_zux_to_usd),
            timestamp,
        ) && (wallet.keys_match() ==> tx@.fault() is None),
{
    let _ = output_amount;
    let currency = if is_zux_to_usd {
        ZUX
    } else {
        USDZ
    };
    create_transaction_at(wallet, AMM_POOL_ADDRESS, input_amount, currency, timestamp)
}

/// Create a swap transaction between a wallet and the AMM pool, at the time
/// that the clock shows.
pub fn create_swap_transaction(
    wallet: &Wallet,
    is_zux_to_usd: bool,
    input_amount: u64,
    output_amount: u64,
) -> (made: Result<Transaction, BlockchainError>)
    ensures
        transfer_fault(wallet, input_amount, input_currency(is_zux_to_usd)) matches Some(e)
            ==> made == Err::<Transaction, BlockchainError>(e),
        made matches Err(e) ==> e == BlockchainError::Time || transfer_fault(
            wallet,
            input_amount,
            input_currency(is_zux_to_usd),
        ) == Some(e),
        made matches Ok(tx) ==> tx@ == transfer_made(
            wallet,
            AMM_POOL_ADDRESS@,
            input_amount,
            input_currency(is_zux_to_usd),
            tx.timestamp,
        ) && (wallet.keys_match() ==> tx@.fault() is None),
{
    let _ = output_amount;
    let currency = if is_zux_to_usd {
        ZUX
    } else {
        USDZ
    };
    create_transaction(wallet, AMM_POOL_ADDRESS, input_amount, currency)
}

} // verus!
