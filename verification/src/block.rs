//! Blocks: the event that a block records, the Merkle commitment over its
//! transactions and event, the bounded search for a nonce, and the check of
//! a finished block.

use vstd::prelude::*;
use vstd::string::*;
use crate::clock::format_local_time;
use crate::clock::local_time_text;
use crate::clock::unix_time;
use crate::error::BlockFault;
use crate::error::BlockchainError;
use crate::hashing::hash_text;
use crate::hashing::sha256_hex;
use crate::text::amount_text;
use crate::text::append_amount;
use crate::text::append_bool;
use crate::text::append_decimal;
use crate::text::bool_text;
use crate::text::decimal;
use crate::text::has_zero_prefix;
use crate::text::same_text;
use crate::text::zero_prefixed;
use crate::transaction::Transaction;
use crate::transaction::TransactionModel;

verus! {

/// Nonces from zero up to this bound, exclusive, are tried.
pub const MAX_NONCE: u64 = 1_000_000;

/// Difficulty of the genesis block.
pub const GENESIS_DIFFICULTY: u64 = 1;

/// Difficulty of every other block.
pub const BLOCK_DIFFICULTY: u64 = 2;

/// The network whose blocks are of the private class.
pub const PRIVATE_NETWORK: &'static str = "ZUX-Testnet";

/// Seconds east of Greenwich of the zone in which a block's time is shown.
pub const DISPLAY_OFFSET_SECONDS: i32 = 8 * 3600;

/// The pattern after which a block's time is shown.
pub const DISPLAY_TIME_PATTERN: &'static str = "%Y-%m-%d %H:%M:%S %Z";

/// What an event says, apart from how it stores it.
pub enum EventModel {
    /// The chain begins.
    Genesis,
    /// A wallet with this address was created.
    WalletCreation(Seq<char>),
    /// This address was credited this amount of this currency.
    TokenCredit(Seq<char>, Seq<char>, u64),
    /// A pool with this address was created.
    AmmPoolCreation(Seq<char>),
    /// This address swapped, from the base currency where the flag is set,
    /// this amount in for this amount out.
    Swap(Seq<char>, bool, u64, u64),
}

impl EventModel {
    /// The canonical description of the event, which is hashed.
    pub open spec fn describe(self) -> Seq<char> {
        match self {
            EventModel::Genesis => "genesis_block"@,
            EventModel::WalletCreation(address) => "wallet_creation:"@ + address,
            EventModel::TokenCredit(address, currency, amount) => "token_credit:"@ + address
                + ":"@ + currency + ":"@ + amount_text(amount as nat),
            EventModel::AmmPoolCreation(address) => "amm_pool_creation:"@ + address,
            EventModel::Swap(address, is_zux_to_usd, input, output) => "swap:"@ + address + ":"@
                + bool_text(is_zux_to_usd) + ":"@ + amount_text(input as nat) + ":"@ + amount_text(
                output as nat,
            ),
        }
    }

    /// The type of block that records the event.
    pub open spec fn block_type(self) -> Seq<char> {
        match self {
            EventModel::Genesis => "Genesis"@,
            EventModel::WalletCreation(_) => "Wallet Creation"@,
            EventModel::TokenCredit(_, _, _) => "Token Credit"@,
            EventModel::AmmPoolCreation(_) => "AMM Pool Creation"@,
            EventModel::Swap(_, _, _, _) => "Token Swap"@,
        }
    }

    /// The difficulty of the block that records the event: lower for the
    /// genesis block, one step higher for all others.
    pub open spec fn difficulty(self) -> u64 {
        if self is Genesis {
            GENESIS_DIFFICULTY
        } else {
            BLOCK_DIFFICULTY
        }
    }
}

/// The class of the blocks of a network.
pub open spec fn block_class_of(network_name: Seq<char>) -> Seq<char> {
    if network_name == PRIVATE_NETWORK@ {
        "Private"@
    } else {
        "Public"@
    }
}

/// The header without its nonce: id, parent hash, Merkle root, timestamp,
/// class, type, version, inception year and network name, with nothing
/// between them.
pub open spec fn header_prefix(
    id: u64,
    parent_hash: Seq<char>,
    state_root: Seq<char>,
    timestamp: u64,
    block_class: Seq<char>,
    block_type: Seq<char>,
    version: Seq<char>,
    inception_year: u16,
    network_name: Seq<char>,
) -> Seq<char> {
    decimal(id as nat) + parent_hash + state_root + decimal(timestamp as nat) + block_class
        + block_type + version + decimal(inception_year as nat) + network_name
}

/// The hash of the header that `prefix` and `nonce` make.
pub open spec fn sealed_hash(prefix: Seq<char>, nonce: u64) -> Seq<char> {
    sha256_hex(prefix + decimal(nonce as nat))
}

/// Whether `nonce` gives the header a hash of the required difficulty.
pub open spec fn seals(prefix: Seq<char>, difficulty: u64, nonce: u64) -> bool {
    zero_prefixed(sealed_hash(prefix, nonce), difficulty as nat)
}

/// The leaves of the tree: the hash of each transaction's signing text, in
/// order, and last the hash of the event's description.
pub open spec fn leaves(transactions: Seq<TransactionModel>, event: EventModel) -> Seq<Seq<char>> {
    Seq::new(
        transactions.len() + 1,
        |i: int|
            if i < transactions.len() {
                sha256_hex(transactions[i].signing_text())
            } else {
                sha256_hex(event.describe())
            },
    )
}

/// The level above `level`: each pair of neighbours is hashed together, and
/// a last one without a neighbour is taken over as it is.
pub open spec fn paired(level: Seq<Seq<char>>) -> Seq<Seq<char>> {
    Seq::new(
        ((level.len() + 1) / 2) as nat,
        |i: int|
            if 2 * i + 1 < level.len() {
                sha256_hex(level[2 * i] + level[2 * i + 1])
            } else {
                level[2 * i]
            },
    )
}

/// The one hash that is left when `level` is paired again and again.
pub open spec fn reduced(level: Seq<Seq<char>>) -> Seq<char>
    decreases level.len(),
{
    if level.len() == 0 {
        Seq::<char>::empty()
    } else if level.len() == 1 {
        level[0]
    } else {
        reduced(paired(level))
    }
}

/// The Merkle root of a block: without transactions the hash of the event's
/// description, else what is left of the leaves.
pub open spec fn merkle_root(transactions: Seq<TransactionModel>, event: EventModel) -> Seq<char> {
    if transactions.len() == 0 {
        sha256_hex(event.describe())
    } else {
        reduced(leaves(transactions, event))
    }
}

/// The first fault among the transactions, if any.
pub open spec fn first_fault(transactions: Seq<TransactionModel>) -> Option<BlockchainError>
    decreases transactions.len(),
{
    if transactions.len() == 0 {
        None
    } else if transactions[0].fault() is Some {
        transactions[0].fault()
    } else {
        first_fault(transactions.drop_first())
    }
}

/// The models of the transactions, in order.
pub open spec fn models_of(transactions: Seq<Transaction>) -> Seq<TransactionModel> {
    Seq::new(transactions.len(), |i: int| transactions[i]@)
}

/// Enum to track different types of blockchain events.
#[derive(Debug)]
pub enum BlockEvent {
    /// The chain begins.
    Genesis,
    /// Wallet address.
    WalletCreation(String),
    /// Wallet address, currency code, amount.
    TokenCredit(String, String, u64),
    /// AMM Pool address.
    AmmPoolCreation(String),
    /// Wallet address, is_zux_to_usd, input_amount, output_amount.
    Swap(String, bool, u64, u64),
}

impl View for BlockEvent {
    type V = EventModel;

    open spec fn view(&self) -> EventModel {
        match self {
            BlockEvent::Genesis => EventModel::Genesis,
            BlockEvent::WalletCreation(address) => EventModel::WalletCreation(address@),
            BlockEvent::TokenCredit(address, currency, amount) => EventModel::TokenCredit(
                address@,
                currency@,
                *amount,
            ),
            BlockEvent::AmmPoolCreation(address) => EventModel::AmmPoolCreation(address@),
            BlockEvent::Swap(address, is_zux_to_usd, input, output) => EventModel::Swap(
                address@,
                *is_zux_to_usd,
                *input,
                *output,
            ),
        }
    }
}

impl Clone for BlockEvent {
    fn clone(&self) -> (copy: Self)
        ensures
            copy@ == self@,
    {
        match self {
            BlockEvent::Genesis => BlockEvent::Genesis,
            BlockEvent::WalletCreation(address) => BlockEvent::WalletCreation(address.clone()),
            BlockEvent::TokenCredit(address, currency, amount) => BlockEvent::TokenCredit(
                address.clone(),
                currency.clone(),
                *amount,
            ),
            BlockEvent::AmmPoolCreation(address) => BlockEvent::AmmPoolCreation(address.clone()),
            BlockEvent::Swap(address, is_zux_to_usd, input, output) => BlockEvent::Swap(
                address.clone(),
                *is_zux_to_usd,
                *input,
                *output,
            ),
        }
    }
}

impl BlockEvent {
    /// The canonical description of the event.
    pub fn describe(&self) -> (text: String)
        ensures
            text@ == self@.describe(),
    {
        let mut text = String::new();
        match self {
            BlockEvent::Genesis => {
                text.append("genesis_block");
                assert(text@ =~= self@.describe());
            },
            BlockEvent::WalletCreation(address) => {
                text.append("wallet_creation:");
                text.append(address.as_str());
                assert(text@ =~= self@.describe());
            },
            BlockEvent::TokenCredit(address, currency, amount) => {
                text.append("token_credit:");
                text.append(address.as_str());
                text.append(":");
                text.append(currency.as_str());
                text.append(":");
                append_amount(&mut text, *amount);
                assert(text@ =~= self@.describe());
            },
            BlockEvent::AmmPoolCreation(address) => {
                text.append("amm_pool_creation:");
                text.append(address.as_str());
                assert(text@ =~= self@.describe());
            },
            BlockEvent::Swap(address, is_zux_to_usd, input, output) => {
                text.append("swap:");
                text.append(address.as_str());
                text.append(":");
                append_bool(&mut text, *is_zux_to_usd);
                text.append(":");
                append_amount(&mut text, *input);
                text.append(":");
                append_amount(&mut text, *output);
                assert(text@ =~= self@.describe());
            },
        }
        text
    }

    /// The type of block that records the event.
    pub fn block_type(&self) -> (name: &'static str)
        ensures
            name@ == self@.block_type(),
    {
        match self {
            BlockEvent::Genesis => "Genesis",
            BlockEvent::WalletCreation(_) => "Wallet Creation",
            BlockEvent::TokenCredit(_, _, _) => "Token Credit",
            BlockEvent::AmmPoolCreation(_) => "AMM Pool Creation",
            BlockEvent::Swap(_, _, _, _) => "Token Swap",
        }
    }

    /// The difficulty of the block that records the event.
    pub fn difficulty(&self) -> (d: u64)
        ensures
            d == self@.difficulty(),
    {
        match self {
            BlockEvent::Genesis => GENESIS_DIFFICULTY,
            _ => BLOCK_DIFFICULTY,
        }
    }
}

/// What a block says, apart from how it stores it.
pub struct BlockModel {
    /// Number of the block.
    pub id: u64,
    /// Hash of the header.
    pub hash: Seq<char>,
    /// Hash of the block before.
    pub parent_hash: Seq<char>,
    /// Merkle root over transactions and event.
    pub state_root: Seq<char>,
    /// Seconds since the Unix epoch.
    pub timestamp: u64,
    /// Private or public.
    pub block_class: Seq<char>,
    /// The type that belongs to the event.
    pub block_type: Seq<char>,
    /// Version of the block format.
    pub version: Seq<char>,
    /// Year in which the chain began.
    pub inception_year: u16,
    /// Name of the network.
    pub network_name: Seq<char>,
    /// The transactions, in order.
    pub transactions: Seq<TransactionModel>,
    /// The event that the block records.
    pub event: EventModel,
    /// The timestamp as it is shown.
    pub formatted_time: Seq<char>,
    /// Required number of leading zeros of the hash.
    pub difficulty: u64,
    /// The nonce that was found.
    pub nonce: u64,
}

impl BlockModel {
    /// The header without its nonce.
    pub open spec fn prefix(self) -> Seq<char> {
        header_prefix(
            self.id,
            self.parent_hash,
            self.state_root,
            self.timestamp,
            self.block_class,
            self.block_type,
            self.version,
            self.inception_year,
            self.network_name,
        )
    }

    /// The hash that the header fields and the nonce give.
    pub open spec fn computed_hash(self) -> Seq<char> {
        sealed_hash(self.prefix(), self.nonce)
    }

    /// The first reason, if any, for which the block is not valid: the
    /// stored hash, the difficulty, the transactions in order.
    pub open spec fn fault(self) -> Option<BlockchainError> {
        if self.computed_hash() != self.hash {
            Some(BlockchainError::Block(BlockFault::HashMismatch))
        } else if !zero_prefixed(self.hash, self.difficulty as nat) {
            Some(BlockchainError::Block(BlockFault::DifficultyNotMet))
        } else {
            first_fault(self.transactions)
        }
    }

    /// Whether the stored hash is the hash of the header and has the
    /// required leading zeros.
    pub open spec fn sealed(self) -> bool {
        self.computed_hash() == self.hash && zero_prefixed(self.hash, self.difficulty as nat)
    }
}

/// Block structure to store all block information.
#[derive(Debug)]
pub struct Block {
    /// Number of the block.
    pub id: u64,
    /// Hash of the header.
    pub hash: String,
    /// Hash of the block before.
    pub parent_hash: String,
    /// Merkle root over transactions and event.
    pub state_root: String,
    /// Seconds since the Unix epoch.
    pub timestamp: u64,
    /// Private or public.
    pub block_class: String,
    /// The type that belongs to the event.
    pub block_type: String,
    /// Version of the block format.
    pub version: String,
    /// Year in which the chain began.
    pub inception_year: u16,
    /// Name of the network.
    pub network_name: String,
    /// The transactions, in order.
    pub transactions: Vec<Transaction>,
    /// The event that the block records.
    pub event: BlockEvent,
    /// The timestamp as it is shown.
    pub formatted_time: String,
    /// Mining difficulty target.
    pub difficulty: u64,
    /// Nonce used for mining.
    pub nonce: u64,
}

impl View for Block {
    type V = BlockModel;

    open spec fn view(&self) -> BlockModel {
        BlockModel {
            id: self.id,
            hash: self.hash@,
            parent_hash: self.parent_hash@,
            state_root: self.state_root@,
            timestamp: self.timestamp,
            block_class: self.block_class@,
            block_type: self.block_type@,
            version: self.version@,
            inception_year: self.inception_year,
            network_name: self.network_name@,
            transactions: models_of(self.transactions@),
            event: self.event@,
            formatted_time: self.formatted_time@,
            difficulty: self.difficulty,
            nonce: self.nonce,
        }
    }
}

/// The header without its nonce, as text.
fn header_prefix_text(
    block_id: u64,
    parent_hash: &str,
    state_root: &str,
    timestamp: u64,
    block_class: &str,
    block_type: &str,
    block_ver: &str,
    inception_year: u16,
    network_name: &str,
) -> (text: String)
    ensures
        text@ == header_prefix(
            block_id,
            parent_hash@,
            state_root@,
            timestamp,
            block_class@,
            block_type@,
            block_ver@,
            inception_year,
            network_name@,
        ),
{
    let mut text = String::new();
    append_decimal(&mut text, block_id);
    text.append(parent_hash);
    text.append(state_root);
    append_decimal(&mut text, timestamp);
    text.append(block_class);
    text.append(block_type);
    text.append(block_ver);
    append_decimal(&mut text, inception_year as u64);
    text.append(network_name);
    assert(text@ =~= header_prefix(
        block_id,
        parent_hash@,
        state_root@,
        timestamp,
        block_class@,
        block_type@,
        block_ver@,
        inception_year,
        network_name@,
    ));
    text
}

/// The hash of the header that `prefix` and `nonce` make.
fn seal_with(prefix: &String, nonce: u64) -> (hash: String)
    ensures
        hash@ == sealed_hash(prefix@, nonce),
{
    let mut header = prefix.clone();
    append_decimal(&mut header, nonce);
    hash_text(header.as_str())
}

/// The level above `level`.
fn pair_up(level: &Vec<String>) -> (above: Vec<String>)
    ensures
        texts_of(above@) == paired(texts_of(level@)),
        above@.len() == (level@.len() + 1) / 2,
{
    let total = level.len();
    let mut above: Vec<String> = Vec::new();
    let mut at: usize = 0;
    while total - at >= 2
        invariant
            total == level@.len(),
            at % 2 == 0,
            at <= total,
            above@.len() == at / 2,
            forall|k: int|
                0 <= k < above@.len() ==> (#[trigger] above@[k])@ == paired(texts_of(level@))[k],
        decreases total - at,
    {
        let mut both = level[at].clone();
        both.append(level[at + 1].as_str());
        above.push(hash_text(both.as_str()));
        at += 2;
    }
    if at < total {
        above.push(level[at].clone());
    }
    assert(texts_of(above@) =~= paired(texts_of(level@)));
    above
}

/// The texts of the strings, in order.
pub open spec fn texts_of(strings: Seq<String>) -> Seq<Seq<char>> {
    Seq::new(strings.len(), |i: int| strings[i]@)
}

impl Block {
    /// Calculate a Merkle root hash from transactions and event data.
    pub fn calculate_merkle_root(transactions: &[Transaction], event: &BlockEvent) -> (root: String)
        ensures
            root@ == merkle_root(models_of(transactions@), event@),
    {
        let event_data = event.describe();
        let event_leaf = hash_text(event_data.as_str());
        if transactions.len() == 0 {
            return event_leaf;
        }
        let mut level: Vec<String> = Vec::new();
        let mut at: usize = 0;
        while at < transactions.len()
            invariant
                at <= transactions@.len(),
                level@.len() == at,
                forall|k: int|
                    0 <= k < at ==> (#[trigger] level@[k])@ == sha256_hex(
                        transactions@[k]@.signing_text(),
                    ),
            decreases transactions@.len() - at,
        {
            level.push(transactions[at].hash());
            at += 1;
        }
        level.push(event_leaf);
        assert(texts_of(level@) =~= leaves(models_of(transactions@), event@));
        while level.len() > 1
            invariant
                level@.len() >= 1,
                level@.len() <= transactions@.len() + 1,
                reduced(texts_of(level@)) == reduced(leaves(models_of(transactions@), event@)),
            decreases level@.len(),
        {
            level = pair_up(&level);
        }
        level[0].clone()
    }

    /// Mine a block by finding the first nonce that produces a hash with the
    /// required number of leading zeros.
    pub fn mine_block(
        block_id: u64,
        parent_hash: &str,
        state_root: &str,
        timestamp: u64,
        block_class: &str,
        block_type: &str,
        block_ver: &str,
        inception_year: u16,
        network_name: &str,
        difficulty: u64,
    ) -> (mined: Result<(String, u64), BlockchainError>)
        ensures
            ({
                let prefix = header_prefix(
                    block_id,
                    parent_hash@,
                    state_root@,
                    timestamp,
                    block_class@,
                    block_type@,
                    block_ver@,
                    inception_year,
                    network_name@,
                );
                match mined {
                    Ok((hash, nonce)) => {
                        &&& nonce < MAX_NONCE
                        &&& hash@ == sealed_hash(prefix, nonce)
                        &&& seals(prefix, difficulty, nonce)
                        &&& forall|earlier: u64|
                            earlier < nonce ==> !#[trigger] seals(prefix, difficulty, earlier)
                    },
                    Err(e) => {
                        &&& e == BlockchainError::MiningExhausted
                        &&& forall|nonce: u64|
                            nonce < MAX_NONCE ==> !#[trigger] seals(prefix, difficulty, nonce)
                    },
                }
            }),
    {
        let prefix = header_prefix_text(
            block_id,
            parent_hash,
            state_root,
            timestamp,
            block_class,
            block_type,
            block_ver,
            inception_year,
            network_name,
        );
        let mut nonce: u64 = 0;
        while nonce < MAX_NONCE
            invariant
                nonce <= MAX_NONCE,
                prefix@ == header_prefix(
                    block_id,
                    parent_hash@,
                    state_root@,
                    timestamp,
                    block_class@,
                    block_type@,
                    block_ver@,
                    inception_year,
                    network_name@,
                ),
                forall|earlier: u64|
                    earlier < nonce ==> !#[trigger] seals(prefix@, difficulty, earlier),
            decreases MAX_NONCE - nonce,
        {
            let hash = seal_with(&prefix, nonce);
            if has_zero_prefix(hash.as_str(), difficulty) {
                return Ok((hash, nonce));
            }
            nonce += 1;
        }
        Err(BlockchainError::MiningExhausted)
    }

    /// Verify that the block hash is valid: the stored hash is the hash of
    /// the header, it has the required leading zeros, and every transaction
    /// passes its own check.
    pub fn verify(&self) -> (checked: Result<(), BlockchainError>)
        ensures
            checked is Ok <==> self@.fault() is None,
            checked matches Err(e) ==> self@.fault() == Some(e),
    {
        let prefix = header_prefix_text(
            self.id,
            self.parent_hash.as_str(),
            self.state_root.as_str(),
            self.timestamp,
            self.block_class.as_str(),
            self.block_type.as_str(),
            self.version.as_str(),
            self.inception_year,
            self.network_name.as_str(),
        );
        let calculated_hash = seal_with(&prefix, self.nonce);
        if calculated_hash != self.hash {
            return Err(BlockchainError::Block(BlockFault::HashMismatch));
        }
        if !has_zero_prefix(self.hash.as_str(), self.difficulty) {
            return Err(BlockchainError::Block(BlockFault::DifficultyNotMet));
        }
        let ghost all = models_of(self.transactions@);
        assert(all.skip(0) =~= all);
        let mut at: usize = 0;
        while at < self.transactions.len()
            invariant
                at <= self.transactions@.len(),
                all == models_of(self.transactions@),
                self@.fault() == first_fault(all),
                first_fault(all) == first_fault(all.skip(at as int)),
            decreases self.transactions@.len() - at,
        {
            let ghost rest = all.skip(at as int);
            assert(rest[0] == self.transactions@[at as int]@);
            assert(rest.drop_first() =~= all.skip(at as int + 1));
            match self.transactions[at].verify() {
                Ok(_) => {},
                Err(e) => {
                    return Err(e);
                },
            }
            at += 1;
        }
        assert(all.skip(at as int).len() == 0);
        Ok(())
    }

    /// Create a new block with transaction and event information at
    /// `creation_timestamp`, including proof-of-work mining.
    pub fn new_at(
        current_block_id: u64,
        parent_hash: &str,
        transactions: &[Transaction],
        network_name: &str,
        block_ver: &str,
        inception_year: u16,
        event: &BlockEvent,
        creation_timestamp: u64,
    ) -> (made: Result<Self, BlockchainError>)
        ensures
            ({
                let shown = local_time_text(
                    creation_timestamp,
                    DISPLAY_OFFSET_SECONDS,
                    DISPLAY_TIME_PATTERN@,
                );
                let root = merkle_root(models_of(transactions@), event@);
                let prefix = header_prefix(
                    current_block_id,
                    parent_hash@,
                    root,
                    creation_timestamp,
                    block_class_of(network_name@),
                    event@.block_type(),
                    block_ver@,
                    inception_year,
                    network_name@,
                );
                match made {
                    Ok(block) => {
                        &&& shown == Some(block@.formatted_time)
                        &&& block@.id == current_block_id
                        &&& block@.parent_hash == parent_hash@
                        &&& block@.state_root == root
                        &&& block@.timestamp == creation_timestamp
                        &&& block@.block_class == block_class_of(network_name@)
                        &&& block@.block_type == event@.block_type()
                        &&& block@.version == block_ver@
                        &&& block@.inception_year == inception_year
                        &&& block@.network_name == network_name@
                        &&& block@.transactions == models_of(transactions@)
                        &&& block@.event == event@
                        &&& block@.difficulty == event@.difficulty()
                        &&& block@.nonce < MAX_NONCE
                        &&& block@.prefix() == prefix
                        &&& block@.sealed()
                        &&& forall|earlier: u64|
                            earlier < block@.nonce ==> !#[trigger] seals(
                                prefix,
                                event@.difficulty(),
                                earlier,
                            )
                        &&& block@.fault() == first_fault(models_of(transactions@))
                    },
                    Err(e) => if shown is None {
                        e == BlockchainError::Time
                    } else {
                        &&& e == BlockchainError::MiningExhausted
                        &&& forall|nonce: u64|
                            nonce < MAX_NONCE ==> !#[trigger] seals(
                                prefix,
                                event@.difficulty(),
                                nonce,
                            )
                    },
                }
            }),
    {
        let formatted_time = match format_local_time(
            creation_timestamp,
            DISPLAY_OFFSET_SECONDS,
            DISPLAY_TIME_PATTERN,
        ) {
            Some(text) => text,
            None => {
                return Err(BlockchainError::Time);
            },
        };
        let block_type = event.block_type();
        let block_class = if same_text(network_name, PRIVATE_NETWORK) {
            "Private"
        } else {
            "Public"
        };
        let state_root = Self::calculate_merkle_root(transactions, event);
        let difficulty = event.difficulty();
        let (hash, nonce) = match Self::mine_block(
            current_block_id,
            parent_hash,
            state_root.as_str(),
            creation_timestamp,
            block_class,
            block_type,
            block_ver,
            inception_year,
            network_name,
            difficulty,
        ) {
            Ok(found) => found,
            Err(e) => {
                return Err(e);
            },
        };
        let mut kept: Vec<Transaction> = Vec::new();
        let mut at: usize = 0;
        while at < transactions.len()
            invariant
                at <= transactions@.len(),
                kept@.len() == at,
                forall|k: int| 0 <= k < at ==> (#[trigger] kept@[k])@ == transactions@[k]@,
            decreases transactions@.len() - at,
        {
            kept.push(transactions[at].clone());
            at += 1;
        }
        assert(models_of(kept@) =~= models_of(transactions@));
        let block = Block {
            id: current_block_id,
            hash,
            parent_hash: parent_hash.to_owned(),
            state_root,
            timestamp: creation_timestamp,
            difficulty,
            nonce,
            block_class: block_class.to_owned(),
            block_type: block_type.to_owned(),
            version: block_ver.to_owned(),
            inception_year,
            network_name: network_name.to_owned(),
            transactions: kept,
            event: event.clone(),
            formatted_time,
        };
        Ok(block)
    }

    /// Create a new block with transaction and event information at the
    /// time that the clock shows, including proof-of-work mining.
    pub fn new(
        current_block_id: u64,
        parent_hash: &str,
        transactions: &[Transaction],
        network_name: &str,
        block_ver: &str,
        inception_year: u16,
        event: &BlockEvent,
    ) -> (made: Result<Self, BlockchainError>)
        ensures
            made matches Ok(block) ==> {
                &&& block@.id == current_block_id
                &&& block@.parent_hash == parent_hash@
                &&& block@.state_root == merkle_root(models_of(transactions@), event@)
                &&& block@.block_class == block_class_of(network_name@)
                &&& block@.block_type == event@.block_type()
                &&& block@.version == block_ver@
                &&& block@.inception_year == inception_year
                &&& block@.network_name == network_name@
                &&& block@.transactions == models_of(transactions@)
                &&& block@.event == event@
                &&& block@.difficulty == event@.difficulty()
                &&& block@.nonce < MAX_NONCE
                &&& block@.sealed()
                &&& forall|earlier: u64|
                    earlier < block@.nonce ==> !#[trigger] seals(
                        block@.prefix(),
                        event@.difficulty(),
                        earlier,
                    )
                &&& block@.fault() == first_fault(models_of(transactions@))
                &&& local_time_text(block@.timestamp, DISPLAY_OFFSET_SECONDS, DISPLAY_TIME_PATTERN@)
                    == Some(block@.formatted_time)
            },
            made matches Err(e) ==> e == BlockchainError::Time || e
                == BlockchainError::MiningExhausted,
    {
        let creation_timestamp = match unix_time() {
            Some(seconds) => seconds,
            None => {
                return Err(BlockchainError::Time);
            },
        };
        Self::new_at(
            current_block_id,
            parent_hash,
            transactions,
            network_name,
            block_ver,
            inception_year,
            event,
            creation_timestamp,
        )
    }
}

/// Merkle determinism: transactions with the same signing texts in the same
/// order, with events of the same description, have the same root.
pub proof fn lemma_merkle_deterministic(
    first: Seq<TransactionModel>,
    second: Seq<TransactionModel>,
    first_event: EventModel,
    second_event: EventModel,
)
    requires
        first.len() == second.len(),
        forall|i: int|
            0 <= i < first.len() ==> (#[trigger] first[i]).signing_text()
                == second[i].signing_text(),
        first_event.describe() == second_event.describe(),
    ensures
        merkle_root(first, first_event) == merkle_root(second, second_event),
{
    assert(leaves(first, first_event) =~= leaves(second, second_event));
}

/// A block without transactions commits to its event alone, and a block
/// with one transaction to the hash of the two leaves together.
pub proof fn lemma_merkle_small(one: TransactionModel, event: EventModel)
    ensures
        merkle_root(Seq::<TransactionModel>::empty(), event) == sha256_hex(event.describe()),
        merkle_root(seq![one], event) == sha256_hex(
            sha256_hex(one.signing_text()) + sha256_hex(event.describe()),
        ),
{
    let level = leaves(seq![one], event);
    assert(level.len() == 2);
    let above = paired(level);
    assert(above.len() == 1);
    assert(above[0] == sha256_hex(level[0] + level[1]));
    assert(reduced(level) == reduced(above));
}

/// No transaction is at fault exactly where none has a fault of its own.
pub proof fn lemma_first_fault_none(transactions: Seq<TransactionModel>)
    ensures
        first_fault(transactions) is None <==> forall|i: int|
            0 <= i < transactions.len() ==> (#[trigger] transactions[i]).fault() is None,
    decreases transactions.len(),
{
    if transactions.len() > 0 {
        let rest = transactions.drop_first();
        lemma_first_fault_none(rest);
        if first_fault(transactions) is None {
            assert forall|i: int| 0 <= i < transactions.len() implies (
            #[trigger] transactions[i]).fault() is None by {
                if i > 0 {
                    assert(rest[i - 1] == transactions[i]);
                }
            }
        } else if transactions[0].fault() is None {
            let i = choose|i: int| 0 <= i < rest.len() && !((#[trigger] rest[i]).fault() is None);
            assert(transactions[i + 1] == rest[i]);
        }
    }
}

/// Block integrity: a block passes its check exactly where its stored hash
/// is the hash of its header, the hash has the leading zeros that the
/// difficulty asks for, and every transaction passes its own check.
pub proof fn lemma_block_valid_iff(block: BlockModel)
    ensures
        block.fault() is None <==> {
            &&& block.computed_hash() == block.hash
            &&& zero_prefixed(block.hash, block.difficulty as nat)
            &&& forall|i: int|
                0 <= i < block.transactions.len() ==> (#[trigger] block.transactions[i]).fault()
                    is None
        },
{
    lemma_first_fault_none(block.transactions);
}

/// Block integrity: where the stored hash of a valid block is altered, the
/// block fails its check with a hash mismatch.
pub proof fn lemma_altered_hash_invalidates(block: BlockModel, altered: Seq<char>)
    requires
        block.fault() is None,
        altered != block.hash,
    ensures
        (BlockModel { hash: altered, ..block }).fault() == Some(
            BlockchainError::Block(BlockFault::HashMismatch),
        ),
{
}

/// Block integrity: where header fields or the nonce of a valid block are
/// altered and the stored hash is kept, the block fails its check with a
/// hash mismatch, unless the altered header has the very hash of the old
/// one.
pub proof fn lemma_altered_header_invalidates(block: BlockModel, altered: BlockModel)
    requires
        block.fault() is None,
        altered.hash == block.hash,
        altered.computed_hash() != block.computed_hash(),
    ensures
        altered.fault() == Some(BlockchainError::Block(BlockFault::HashMismatch)),
{
}

/// Block integrity: where the difficulty of a valid block is raised beyond
/// the leading zeros of its hash, the block fails its check.
pub proof fn lemma_raised_difficulty_invalidates(block: BlockModel, raised: u64)
    requires
        block.fault() is None,
        !zero_prefixed(block.hash, raised as nat),
    ensures
        (BlockModel { difficulty: raised, ..block }).fault() == Some(
            BlockchainError::Block(BlockFault::DifficultyNotMet),
        ),
{
}

} // verus!
