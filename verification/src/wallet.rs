//! A wallet: a key pair, an address and a balance for each currency.

use vstd::prelude::*;
use vstd::hash_map::*;
use vstd::string::*;
use crate::address::UniqueCodeGenerator;
use crate::address::MAX_ATTEMPTS;
use crate::agent::TradingStrategy;
use crate::agent::MAX_PRICE;
use crate::encoding::base64_encode;
use crate::encoding::base64_text;
use crate::error::BlockchainError;
use crate::error::SignatureFault;
use crate::signing::ed25519_key_valid;
use crate::signing::ed25519_public_key;
use crate::signing::fresh_secret_key;
use crate::signing::key_is_valid;
use crate::signing::public_key_of;
use crate::signing::KEY_LEN;
use crate::text::same_text;

verus! {

/// Code of the base currency.
pub const ZUX: &'static str = "ZUX";

/// Code of the quote currency.
pub const USDZ: &'static str = "USDZ";

/// Address of the wallet that holds everything at the start.
pub const SYSTEM_WALLET_ADDRESS: &'static str = "SYSTEM";

/// What the system wallet holds of the base currency at the start: one
/// thousand million whole units.
pub const SYSTEM_ZUX: u64 = 1_000_000_000_000_000_000;

/// What the system wallet holds of the quote currency at the start: five
/// thousand million whole units.
pub const SYSTEM_USDZ: u64 = 5_000_000_000_000_000_000;

/// Whether `currency` is one of the two currencies of the ledger.
pub open spec fn supported(currency: Seq<char>) -> bool {
    currency == ZUX@ || currency == USDZ@
}

/// The amount that `balances` holds of `currency`: zero where it has no
/// entry.
pub open spec fn amount_in(balances: Map<Seq<char>, u64>, currency: Seq<char>) -> u64 {
    if balances.contains_key(currency) {
        balances[currency]
    } else {
        0
    }
}

/// Tells whether `currency` is one of the two currencies of the ledger.
pub fn is_supported(currency: &str) -> (r: bool)
    ensures
        r == supported(currency@),
{
    same_text(currency, ZUX) || same_text(currency, USDZ)
}

/// Wallet structure to hold wallet data in memory with multiple currencies.
pub struct Wallet {
    /// Ed25519 private key bytes.
    pub private_key: Vec<u8>,
    /// Ed25519 public key bytes.
    pub public_key: Vec<u8>,
    /// Unique wallet address.
    pub address: String,
    /// Currency code to balance, in smallest units.
    pub balances: StringHashMap<u64>,
    /// The wallet's agent, once it has one.
    pub trading_strategy: Option<TradingStrategy>,
}

impl Wallet {
    /// The balance in `currency`.
    pub open spec fn balance_of(&self, currency: Seq<char>) -> u64 {
        amount_in(self.balances@, currency)
    }

    /// Whether `other` is this wallet but for its balances.
    pub open spec fn same_owner(&self, other: &Wallet) -> bool {
        &&& self.private_key == other.private_key
        &&& self.public_key == other.public_key
        &&& self.address == other.address
        &&& self.trading_strategy == other.trading_strategy
    }

    /// Whether the public key is the one that belongs to the private key.
    pub open spec fn keys_match(&self) -> bool {
        &&& self.private_key@.len() == KEY_LEN
        &&& self.public_key@ == ed25519_public_key(self.private_key@)
        &&& self.public_key@.len() == KEY_LEN
        &&& ed25519_key_valid(self.public_key@)
    }

    /// The agent, where there is one, is well formed.
    pub open spec fn wf(&self) -> bool {
        self.trading_strategy matches Some(agent) ==> agent.wf()
    }

    /// Create a new wallet with a zero balance in every supported currency.
    pub fn new(private_key: Vec<u8>, public_key: Vec<u8>, address: String) -> (wallet: Self)
        ensures
            wallet.private_key == private_key,
            wallet.public_key == public_key,
            wallet.address == address,
            wallet.trading_strategy is None,
            wallet.balances@ == Map::<Seq<char>, u64>::empty().insert(ZUX@, 0u64).insert(
                USDZ@,
                0u64,
            ),
            wallet.wf(),
    {
        let mut balances: StringHashMap<u64> = StringHashMap::new();
        balances.insert(ZUX.to_owned(), 0);
        balances.insert(USDZ.to_owned(), 0);
        Wallet { private_key, public_key, address, balances, trading_strategy: None }
    }

    /// Initialize trading strategy for this wallet, with traits drawn at
    /// random.
    pub fn initialize_trading_strategy(&mut self, initial_price: u128)
        requires
            initial_price <= MAX_PRICE,
        ensures
            final(self).wf(),
            final(self).trading_strategy matches Some(agent) && agent@.is_new(initial_price),
            final(self).private_key == old(self).private_key,
            final(self).public_key == old(self).public_key,
            final(self).address == old(self).address,
            final(self).balances == old(self).balances,
    {
        self.trading_strategy = Some(TradingStrategy::new(initial_price));
    }

    /// Get the private key as a base64 string for display purposes.
    pub fn private_key_base64(&self) -> (text: String)
        ensures
            text@ == base64_text(self.private_key@),
    {
        base64_encode(self.private_key.as_slice())
    }

    /// Get the public key as a base64 string for display purposes.
    pub fn public_key_base64(&self) -> (text: String)
        ensures
            text@ == base64_text(self.public_key@),
    {
        base64_encode(self.public_key.as_slice())
    }

    /// Get the bytes of the signing key, if there are as many as a key has.
    pub fn get_signing_key(&self) -> (key: Result<Vec<u8>, BlockchainError>)
        ensures
            key is Ok <==> self.private_key@.len() == KEY_LEN,
            key matches Ok(bytes) ==> bytes@ == self.private_key@,
            key matches Err(e) ==> e == BlockchainError::Signature(SignatureFault::MalformedKey),
    {
        if self.private_key.len() != KEY_LEN {
            return Err(BlockchainError::Signature(SignatureFault::MalformedKey));
        }
        Ok(self.private_key.clone())
    }

    /// Get the bytes of the verifying key, if they are the encoding of a
    /// point of the curve.
    pub fn get_verifying_key(&self) -> (key: Result<Vec<u8>, BlockchainError>)
        ensures
            key is Ok <==> self.public_key@.len() == KEY_LEN && ed25519_key_valid(
                self.public_key@,
            ),
            key matches Ok(bytes) ==> bytes@ == self.public_key@,
            key matches Err(e) ==> e == BlockchainError::Signature(SignatureFault::MalformedKey),
    {
        if self.public_key.len() != KEY_LEN {
            return Err(BlockchainError::Signature(SignatureFault::MalformedKey));
        }
        if !key_is_valid(self.public_key.as_slice()) {
            return Err(BlockchainError::Signature(SignatureFault::MalformedKey));
        }
        Ok(self.public_key.clone())
    }

    /// Get the balance for a specific currency.
    pub fn get_balance(&self, currency: &str) -> (amount: u64)
        ensures
            amount == self.balance_of(currency@),
    {
        match self.balances.get(currency) {
            Some(amount) => *amount,
            None => 0,
        }
    }

    /// Set the balance for a specific currency.
    pub fn set_balance(&mut self, currency: &str, amount: u64)
        ensures
            final(self).balances@ == old(self).balances@.insert(currency@, amount),
            final(self).same_owner(old(self)),
            final(self).balance_of(currency@) == amount,
            forall|other: Seq<char>|
                other != currency@ ==> final(self).balance_of(other) == old(self).balance_of(other),
    {
        self.balances.insert(currency.to_owned(), amount);
    }

    /// Add to the balance for a specific currency.
    pub fn add_balance(&mut self, currency: &str, amount: u64) -> (done: Result<
        (),
        BlockchainError,
    >)
        requires
            old(self).balance_of(currency@) + amount <= u64::MAX,
        ensures
            done is Ok,
            final(self).balances@ == old(self).balances@.insert(
                currency@,
                (old(self).balance_of(currency@) + amount) as u64,
            ),
            final(self).same_owner(old(self)),
            final(self).balance_of(currency@) == old(self).balance_of(currency@) + amount,
            forall|other: Seq<char>|
                other != currency@ ==> final(self).balance_of(other) == old(self).balance_of(other),
    {
        let current = self.get_balance(currency);
        self.set_balance(currency, current + amount);
        Ok(())
    }

    /// Subtract from the balance for a specific currency. Fails, and changes
    /// nothing, where the balance is smaller than the amount.
    pub fn subtract_balance(&mut self, currency: &str, amount: u64) -> (done: Result<
        (),
        BlockchainError,
    >)
        ensures
            final(self).same_owner(old(self)),
            done is Ok <==> amount <= old(self).balance_of(currency@),
            done is Ok ==> final(self).balances@ == old(self).balances@.insert(
                currency@,
                (old(self).balance_of(currency@) - amount) as u64,
            ) && final(self).balance_of(currency@) == old(self).balance_of(currency@) - amount,
            done is Ok ==> forall|other: Seq<char>|
                other != currency@ ==> final(self).balance_of(other) == old(self).balance_of(other),
            done matches Err(e) ==> e == (BlockchainError::Balance {
                available: old(self).balance_of(currency@),
                requested: amount,
            }) && final(self).balances@ == old(self).balances@,
    {
        let current = self.get_balance(currency);
        if current < amount {
            return Err(BlockchainError::Balance { available: current, requested: amount });
        }
        self.set_balance(currency, current - amount);
        Ok(())
    }
}

/// The two currencies are not the same.
pub proof fn lemma_currencies_differ()
    ensures
        ZUX@ != USDZ@,
        supported(ZUX@),
        supported(USDZ@),
{
    reveal_strlit("ZUX");
    reveal_strlit("USDZ");
    assert(ZUX@.len() == 3);
    assert(USDZ@.len() == 4);
}

/// Create a new wallet with a fresh key pair, the next address of the
/// generator, and `initial_balance` in each supported currency.
pub fn create_wallet(code_generator: &mut UniqueCodeGenerator, initial_balance: u64) -> (made:
    Result<Wallet, BlockchainError>)
    requires
        old(code_generator).wf(),
    ensures
        final(code_generator).wf(),
        final(code_generator)@ == old(code_generator)@.generate(MAX_ATTEMPTS as nat).0,
        match made {
            Ok(wallet) => {
                &&& old(code_generator)@.generate(MAX_ATTEMPTS as nat).1 == Some(wallet.address@)
                &&& !old(code_generator)@.used.contains(wallet.address@)
                &&& final(code_generator)@.used == old(code_generator)@.used.insert(
                    wallet.address@,
                )
                &&& wallet.keys_match()
                &&& wallet.wf()
                &&& wallet.trading_strategy is None
                &&& wallet.balances@ == Map::<Seq<char>, u64>::empty().insert(
                    ZUX@,
                    initial_balance,
                ).insert(USDZ@, initial_balance)
            },
            Err(e) => {
                &&& e == BlockchainError::GenerationExhausted
                &&& old(code_generator)@.generate(MAX_ATTEMPTS as nat).1 is None
                &&& final(code_generator)@.used == old(code_generator)@.used
            },
        },
{
    let private_key = fresh_secret_key();
    let public_key = public_key_of(private_key.as_slice());
    let address = match code_generator.generate() {
        Ok(code) => code,
        Err(e) => {
            return Err(e);
        },
    };
    let mut wallet = Wallet::new(private_key, public_key, address);
    if initial_balance > 0 {
        wallet.set_balance(ZUX, initial_balance);
        wallet.set_balance(USDZ, initial_balance);
    }
    proof {
        lemma_currencies_differ();
        assert(wallet.balances@ =~= Map::<Seq<char>, u64>::empty().insert(
            ZUX@,
            initial_balance,
        ).insert(USDZ@, initial_balance));
    }
    Ok(wallet)
}

/// Create a wallet and return it without setting balances.
pub fn create_wallet_without_balance(code_generator: &mut UniqueCodeGenerator) -> (made: Result<
    Wallet,
    BlockchainError,
>)
    requires
        old(code_generator).wf(),
    ensures
        final(code_generator).wf(),
        final(code_generator)@ == old(code_generator)@.generate(MAX_ATTEMPTS as nat).0,
        match made {
            Ok(wallet) => {
                &&& old(code_generator)@.generate(MAX_ATTEMPTS as nat).1 == Some(wallet.address@)
                &&& !old(code_generator)@.used.contains(wallet.address@)
                &&& final(code_generator)@.used == old(code_generator)@.used.insert(
                    wallet.address@,
                )
                &&& wallet.keys_match()
                &&& wallet.wf()
                &&& wallet.trading_strategy is None
                &&& wallet.balances@ == Map::<Seq<char>, u64>::empty().insert(ZUX@, 0u64).insert(
                    USDZ@,
                    0u64,
                )
            },
            Err(e) => {
                &&& e == BlockchainError::GenerationExhausted
                &&& old(code_generator)@.generate(MAX_ATTEMPTS as nat).1 is None
                &&& final(code_generator)@.used == old(code_generator)@.used
            },
        },
{
    create_wallet(code_generator, 0)
}

/// Create the system wallet: a fresh key pair, the reserved address
/// `SYSTEM`, and the whole issue of both currencies.
pub fn create_system_wallet(code_generator: &mut UniqueCodeGenerator) -> (made: Result<
    Wallet,
    BlockchainError,
>)
    ensures
        final(code_generator)@ == old(code_generator)@.reserve(SYSTEM_WALLET_ADDRESS@),
        final(code_generator).wf() == old(code_generator).wf(),
        made matches Ok(wallet) && wallet.address@ == SYSTEM_WALLET_ADDRESS@
            && wallet.keys_match() && wallet.wf() && wallet.trading_strategy is None
            && wallet.balances@ == Map::<Seq<char>, u64>::empty().insert(ZUX@, SYSTEM_ZUX).insert(
            USDZ@,
            SYSTEM_USDZ,
        ),
{
    let private_key = fresh_secret_key();
    let public_key = public_key_of(private_key.as_slice());
    code_generator.reserve_code(SYSTEM_WALLET_ADDRESS);
    let mut wallet = Wallet::new(private_key, public_key, SYSTEM_WALLET_ADDRESS.to_owned());
    wallet.set_balance(ZUX, SYSTEM_ZUX);
    wallet.set_balance(USDZ, SYSTEM_USDZ);
    proof {
        lemma_currencies_differ();
        assert(wallet.balances@ =~= Map::<Seq<char>, u64>::empty().insert(
            ZUX@,
            SYSTEM_ZUX,
        ).insert(USDZ@, SYSTEM_USDZ));
    }
    Ok(wallet)
}

} // verus!
