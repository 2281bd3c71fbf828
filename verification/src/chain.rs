//! The chain: an append-only sequence of blocks in which every block names
//! the hash of the block before it.

use vstd::prelude::*;
use vstd::string::*;
use crate::address::UniqueCodeGenerator;
use crate::address::MAX_ATTEMPTS;
use crate::block::block_class_of;
use crate::block::first_fault;
use crate::block::header_prefix;
use crate::block::merkle_root;
use crate::block::models_of;
use crate::block::seals;
use crate::block::Block;
use crate::block::BlockEvent;
use crate::block::BlockModel;
use crate::block::EventModel;
use crate::block::DISPLAY_OFFSET_SECONDS;
use crate::block::DISPLAY_TIME_PATTERN;
use crate::block::MAX_NONCE;
use crate::clock::local_time_text;
use crate::clock::unix_time;
use crate::error::BlockchainError;
use crate::transaction::Transaction;
use crate::transaction::TransactionModel;
use crate::wallet::create_wallet_without_balance;
use crate::wallet::lemma_currencies_differ;
use crate::wallet::Wallet;
use crate::wallet::USDZ;
use crate::wallet::ZUX;

verus! {

/// The parent hash of the first block: sixty-four zeros.
pub const GENESIS_PARENT: &'static str =
    "0000000000000000000000000000000000000000000000000000000000000000";

/// The hash that the block after `blocks` must name as its parent.
pub open spec fn tip_of(blocks: Seq<BlockModel>) -> Seq<char> {
    if blocks.len() == 0 {
        GENESIS_PARENT@
    } else {
        blocks.last().hash
    }
}

/// Whether every block is sealed, carries its position as its id, and names
/// the hash of the block before it (the first one, sixty-four zeros).
pub open spec fn linked(blocks: Seq<BlockModel>) -> bool {
    forall|i: int|
        0 <= i < blocks.len() ==> {
            &&& (#[trigger] blocks[i]).sealed()
            &&& blocks[i].id == i + 1
            &&& blocks[i].parent_hash == tip_of(blocks.take(i))
        }
}

/// The models of the blocks, in order.
pub open spec fn models_of_blocks(blocks: Seq<Block>) -> Seq<BlockModel> {
    Seq::new(blocks.len(), |i: int| blocks[i]@)
}

/// The first fault among the blocks, if any.
pub open spec fn first_block_fault(blocks: Seq<BlockModel>) -> Option<BlockchainError>
    decreases blocks.len(),
{
    if blocks.len() == 0 {
        None
    } else if blocks[0].fault() is Some {
        blocks[0].fault()
    } else {
        first_block_fault(blocks.drop_first())
    }
}

/// Appending a block that is sealed, carries the next id and names the tip
/// keeps the chain linked.
pub proof fn lemma_linked_push(blocks: Seq<BlockModel>, block: BlockModel)
    requires
        linked(blocks),
        block.sealed(),
        block.id == blocks.len() + 1,
        block.parent_hash == tip_of(blocks),
    ensures
        linked(blocks.push(block)),
        tip_of(blocks.push(block)) == block.hash,
{
    let longer = blocks.push(block);
    assert forall|i: int| 0 <= i < longer.len() implies {
        &&& (#[trigger] longer[i]).sealed()
        &&& longer[i].id == i + 1
        &&& longer[i].parent_hash == tip_of(longer.take(i))
    } by {
        if i < blocks.len() {
            assert(longer.take(i) =~= blocks.take(i));
        } else {
            assert(longer.take(i) =~= blocks);
        }
    }
}

/// Chain continuity: in a linked chain every block after the first names the
/// hash of its predecessor.
pub proof fn lemma_linked_neighbours(blocks: Seq<BlockModel>, i: int)
    requires
        linked(blocks),
        0 < i < blocks.len(),
    ensures
        blocks[i].parent_hash == blocks[i - 1].hash,
{
    assert(blocks.take(i).last() == blocks[i - 1]);
}

/// An append-only, hash-linked sequence of blocks of one network.
pub struct Chain {
    network_name: String,
    block_ver: String,
    inception_year: u16,
    blocks: Vec<Block>,
}

impl View for Chain {
    type V = Seq<BlockModel>;

    closed spec fn view(&self) -> Seq<BlockModel> {
        Seq::new(self.blocks@.len(), |i: int| self.blocks@[i]@)
    }
}

impl Chain {
    /// Name of the network.
    pub closed spec fn network(&self) -> Seq<char> {
        self.network_name@
    }

    /// Version of the block format.
    pub closed spec fn version(&self) -> Seq<char> {
        self.block_ver@
    }

    /// Year in which the chain began.
    pub closed spec fn year(&self) -> u16 {
        self.inception_year
    }

    /// The chain is linked.
    pub open spec fn wf(&self) -> bool {
        linked(self@)
    }

    /// The header, without its nonce, of the block that is appended next for
    /// these transactions and this event at `timestamp`.
    pub open spec fn next_prefix(
        &self,
        transactions: Seq<TransactionModel>,
        event: EventModel,
        timestamp: u64,
    ) -> Seq<char> {
        header_prefix(
            (self@.len() + 1) as u64,
            tip_of(self@),
            merkle_root(transactions, event),
            timestamp,
            block_class_of(self.network()),
            event.block_type(),
            self.version(),
            self.year(),
            self.network(),
        )
    }

    /// What stands against appending a block for these transactions and this
    /// event at `timestamp`: a time that the calendar cannot show, or no
    /// nonce below the bound that seals the block.
    pub open spec fn append_fault(
        &self,
        transactions: Seq<TransactionModel>,
        event: EventModel,
        timestamp: u64,
    ) -> Option<BlockchainError> {
        if local_time_text(timestamp, DISPLAY_OFFSET_SECONDS, DISPLAY_TIME_PATTERN@) is None {
            Some(BlockchainError::Time)
        } else if forall|nonce: u64|
            nonce < MAX_NONCE ==> !#[trigger] seals(
                self.next_prefix(transactions, event, timestamp),
                event.difficulty(),
                nonce,
            ) {
            Some(BlockchainError::MiningExhausted)
        } else {
            None
        }
    }

    /// An empty chain for the given network.
    pub fn new(network_name: &str, block_ver: &str, inception_year: u16) -> (chain: Self)
        ensures
            chain.wf(),
            chain@.len() == 0,
            chain.network() == network_name@,
            chain.version() == block_ver@,
            chain.year() == inception_year,
    {
        Chain {
            network_name: network_name.to_owned(),
            block_ver: block_ver.to_owned(),
            inception_year,
            blocks: Vec::new(),
        }
    }

    /// Number of blocks.
    pub fn len(&self) -> (count: usize)
        ensures
            count == self@.len(),
    {
        self.blocks.len()
    }

    /// The block at position `index`.
    pub fn block(&self, index: usize) -> (found: Option<&Block>)
        ensures
            found is Some <==> index < self@.len(),
            found matches Some(block) ==> block@ == self@[index as int],
    {
        if index < self.blocks.len() {
            Some(&self.blocks[index])
        } else {
            None
        }
    }

    /// All blocks, first to last.
    pub fn blocks(&self) -> (all: &Vec<Block>)
        ensures
            models_of_blocks(all@) == self@,
    {
        proof {
            assert(models_of_blocks(self.blocks@) =~= self@);
        }
        &self.blocks
    }

    /// The hash that the next block must name as its parent.
    pub fn tip_hash(&self) -> (hash: String)
        ensures
            hash@ == tip_of(self@),
    {
        let count = self.blocks.len();
        if count == 0 {
            GENESIS_PARENT.to_owned()
        } else {
            self.blocks[count - 1].hash.clone()
        }
    }

    /// Mines the block for `event` at `timestamp` on top of the chain and
    /// appends it. A failure leaves the chain as it was.
    pub fn append_at(&mut self, transactions: &[Transaction], event: &BlockEvent, timestamp: u64) -> (done:
        Result<(), BlockchainError>)
        requires
            old(self).wf(),
            old(self)@.len() < u64::MAX,
        ensures
            final(self).wf(),
            final(self).network() == old(self).network(),
            final(self).version() == old(self).version(),
            final(self).year() == old(self).year(),
            done is Ok <==> old(self).append_fault(models_of(transactions@), event@, timestamp)
                is None,
            done is Ok ==> {
                &&& final(self)@.len() == old(self)@.len() + 1
                &&& final(self)@.drop_last() == old(self)@
                &&& final(self)@.last().parent_hash == tip_of(old(self)@)
                &&& final(self)@.last().id == old(self)@.len() + 1
                &&& final(self)@.last().timestamp == timestamp
                &&& final(self)@.last().event == event@
                &&& final(self)@.last().transactions == models_of(transactions@)
                &&& final(self)@.last().state_root == merkle_root(models_of(transactions@), event@)
                &&& final(self)@.last().network_name == old(self).network()
                &&& final(self)@.last().version == old(self).version()
                &&& final(self)@.last().inception_year == old(self).year()
                &&& final(self)@.last().block_class == block_class_of(old(self).network())
                &&& final(self)@.last().block_type == event@.block_type()
                &&& final(self)@.last().difficulty == event@.difficulty()
                &&& local_time_text(timestamp, DISPLAY_OFFSET_SECONDS, DISPLAY_TIME_PATTERN@)
                    == Some(final(self)@.last().formatted_time)
                &&& final(self)@.last().nonce < MAX_NONCE
                &&& forall|earlier: u64|
                    earlier < final(self)@.last().nonce ==> !#[trigger] seals(
                        old(self).next_prefix(models_of(transactions@), event@, timestamp),
                        event@.difficulty(),
                        earlier,
                    )
                &&& final(self)@.last().fault() == first_fault(models_of(transactions@))
            },
            done matches Err(e) ==> final(self)@ == old(self)@ && old(self).append_fault(
                models_of(transactions@),
                event@,
                timestamp,
            ) == Some(e),
    {
        let parent = self.tip_hash();
        let id = self.blocks.len() as u64 + 1;
        let block = match Block::new_at(
            id,
            parent.as_str(),
            transactions,
            self.network_name.as_str(),
            self.block_ver.as_str(),
            self.inception_year,
            event,
            timestamp,
        ) {
            Ok(block) => block,
            Err(e) => {
                return Err(e);
            },
        };
        proof {
            lemma_linked_push(self@, block@);
            assert(seals(
                self.next_prefix(models_of(transactions@), event@, timestamp),
                event@.difficulty(),
                block.nonce,
            ));
        }
        self.blocks.push(block);
        assert(self@ =~= old(self)@.push(block@));
        assert(self@.drop_last() =~= old(self)@);
        Ok(())
    }

    /// Mines the block for `event` at the time that the clock shows and
    /// appends it. A failure leaves the chain as it was.
    pub fn append(&mut self, transactions: &[Transaction], event: &BlockEvent) -> (done: Result<
        (),
        BlockchainError,
    >)
        requires
            old(self).wf(),
            old(self)@.len() < u64::MAX,
        ensures
            final(self).wf(),
            final(self).network() == old(self).network(),
            final(self).version() == old(self).version(),
            final(self).year() == old(self).year(),
            done is Ok ==> {
                &&& final(self)@.len() == old(self)@.len() + 1
                &&& final(self)@.drop_last() == old(self)@
                &&& final(self)@.last().parent_hash == tip_of(old(self)@)
                &&& final(self)@.last().id == old(self)@.len() + 1
                &&& final(self)@.last().event == event@
                &&& final(self)@.last().transactions == models_of(transactions@)
                &&& final(self)@.last().state_root == merkle_root(models_of(transactions@), event@)
                &&& final(self)@.last().fault() == first_fault(models_of(transactions@))
            },
            done matches Err(e) ==> final(self)@ == old(self)@ && (e == BlockchainError::Time
                || exists|timestamp: u64| #[trigger]
                old(self).append_fault(models_of(transactions@), event@, timestamp) == Some(e)),
    {
        match unix_time() {
            Some(timestamp) => self.append_at(transactions, event, timestamp),
            None => Err(BlockchainError::Time),
        }
    }

    /// Checks every block, first to last: its hash, its difficulty and its
    /// transactions.
    pub fn verify(&self) -> (checked: Result<(), BlockchainError>)
        ensures
            checked is Ok <==> first_block_fault(self@) is None,
            checked matches Err(e) ==> first_block_fault(self@) == Some(e),
    {
        let ghost all = self@;
        assert(all.skip(0) =~= all);
        let mut at: usize = 0;
        while at < self.blocks.len()
            invariant
                at <= self.blocks@.len(),
                all == self@,
                first_block_fault(all) == first_block_fault(all.skip(at as int)),
            decreases self.blocks@.len() - at,
        {
            let ghost rest = all.skip(at as int);
            assert(rest[0] == self.blocks@[at as int]@);
            assert(rest.drop_first() =~= all.skip(at as int + 1));
            match self.blocks[at].verify() {
                Ok(_) => {},
                Err(e) => {
                    return Err(e);
                },
            }
            at += 1;
        }
        assert(all.skip(at as int).len() == 0);
        Ok(())
    }
}

/// Creates one wallet with the next address of the generator and no balance,
/// and appends the block for its creation to the chain.
pub fn create_wallet_with_block(chain: &mut Chain, code_generator: &mut UniqueCodeGenerator) -> (made:
    Result<Wallet, BlockchainError>)
    requires
        old(chain).wf(),
        old(code_generator).wf(),
        old(chain)@.len() < u64::MAX,
    ensures
        final(chain).wf(),
        final(code_generator).wf(),
        final(chain).network() == old(chain).network(),
        final(chain).version() == old(chain).version(),
        final(chain).year() == old(chain).year(),
        old(code_generator)@.used.subset_of(final(code_generator)@.used),
        final(code_generator)@ == old(code_generator)@.generate(MAX_ATTEMPTS as nat).0,
        old(code_generator)@.generate(MAX_ATTEMPTS as nat).1 is None <==> (made matches Err(e)
            && e == BlockchainError::GenerationExhausted),
        made matches Ok(wallet) ==> {
            &&& old(code_generator)@.generate(MAX_ATTEMPTS as nat).1 == Some(wallet.address@)
            &&& final(chain)@.len() == old(chain)@.len() + 1
            &&& final(chain)@.drop_last() == old(chain)@
            &&& final(chain)@.last().event == EventModel::WalletCreation(wallet.address@)
            &&& final(chain)@.last().transactions.len() == 0
            &&& !old(code_generator)@.used.contains(wallet.address@)
            &&& final(code_generator)@.used == old(code_generator)@.used.insert(wallet.address@)
            &&& wallet.keys_match()
            &&& wallet.wf()
            &&& wallet.trading_strategy is None
            &&& wallet.balance_of(ZUX@) == 0
            &&& wallet.balance_of(USDZ@) == 0
        },
        made matches Err(e) ==> {
            &&& e == BlockchainError::GenerationExhausted || e == BlockchainError::Time || e
                == BlockchainError::MiningExhausted
            &&& final(chain)@ == old(chain)@
        },
{
    let wallet = match create_wallet_without_balance(code_generator) {
        Ok(wallet) => wallet,
        Err(e) => {
            return Err(e);
        },
    };
    let event = BlockEvent::WalletCreation(wallet.address.clone());
    let no_transactions: Vec<Transaction> = Vec::new();
    match chain.append(no_transactions.as_slice(), &event) {
        Ok(_) => {},
        Err(e) => {
            return Err(e);
        },
    }
    proof {
        assert(models_of(no_transactions@).len() == 0);
        lemma_currencies_differ();
    }
    Ok(wallet)
}

/// Creates `count` wallets, each with the next address of the generator and
/// no balance, and appends one block for each creation to the chain. No two
/// of the wallets share an address, and none has an address that was in use
/// before. A failure leaves the blocks made so far in the chain.
pub fn create_multiple_wallets(
    count: usize,
    chain: &mut Chain,
    code_generator: &mut UniqueCodeGenerator,
) -> (made: Result<Vec<Wallet>, BlockchainError>)
    requires
        old(chain).wf(),
        old(code_generator).wf(),
        old(chain)@.len() + count < u64::MAX,
    ensures
        final(chain).wf(),
        final(code_generator).wf(),
        final(chain)@.len() >= old(chain)@.len(),
        final(chain)@.take(old(chain)@.len() as int) == old(chain)@,
        old(code_generator)@.used.subset_of(final(code_generator)@.used),
        count == 0 ==> made is Ok && final(chain)@ == old(chain)@ && final(code_generator)@ == old(code_generator)@,
        count > 0 && old(code_generator)@.generate(MAX_ATTEMPTS as nat).1 is None ==> (
        made matches Err(e) && e == BlockchainError::GenerationExhausted),
        made matches Ok(wallets) ==> {
            &&& wallets@.len() == count
            &&& final(chain)@.len() == old(chain)@.len() + count
            &&& forall|i: int|
                0 <= i < count ==> {
                    &&& !old(code_generator)@.used.contains((#[trigger] wallets@[i]).address@)
                    &&& final(code_generator)@.used.contains(wallets@[i].address@)
                    &&& wallets@[i].keys_match()
                    &&& wallets@[i].wf()
                    &&& wallets@[i].trading_strategy is None
                    &&& wallets@[i].balance_of(ZUX@) == 0
                    &&& wallets@[i].balance_of(USDZ@) == 0
                }
            &&& forall|k: int|
                old(chain)@.len() <= k < old(chain)@.len() + count ==> {
                    &&& (#[trigger] final(chain)@[k]).event == EventModel::WalletCreation(
                        wallets@[k - old(chain)@.len()].address@,
                    )
                    &&& final(chain)@[k].transactions.len() == 0
                }
            &&& forall|i: int, j: int|
                0 <= i < j < count ==> (#[trigger] wallets@[i]).address@ != (
                #[trigger] wallets@[j]).address@
        },
        made matches Err(e) ==> e == BlockchainError::GenerationExhausted || e
            == BlockchainError::Time || e == BlockchainError::MiningExhausted,
{
    let ghost first = chain@.len();
    let mut wallets: Vec<Wallet> = Vec::new();
    let mut made: usize = 0;
    assert(chain@.take(first as int) =~= chain@);
    while made < count
        invariant
            made <= count,
            first == old(chain)@.len(),
            first + count < u64::MAX,
            chain.wf(),
            code_generator.wf(),
            wallets@.len() == made,
            chain@.len() == first + made,
            chain@.take(first as int) == old(chain)@,
            old(code_generator)@.used.subset_of(code_generator@.used),
            made == 0 ==> code_generator@ == old(code_generator)@,
            made > 0 ==> old(code_generator)@.generate(MAX_ATTEMPTS as nat).1 is Some,
            forall|i: int|
                0 <= i < made ==> {
                    &&& !old(code_generator)@.used.contains((#[trigger] wallets@[i]).address@)
                    &&& code_generator@.used.contains(wallets@[i].address@)
                    &&& wallets@[i].keys_match()
                    &&& wallets@[i].wf()
                    &&& wallets@[i].trading_strategy is None
                    &&& wallets@[i].balance_of(ZUX@) == 0
                    &&& wallets@[i].balance_of(USDZ@) == 0
                },
            forall|k: int|
                first <= k < first + made ==> {
                    &&& (#[trigger] chain@[k]).event == EventModel::WalletCreation(
                        wallets@[k - first].address@,
                    )
                    &&& chain@[k].transactions.len() == 0
                },
            forall|i: int, j: int|
                0 <= i < j < made ==> (#[trigger] wallets@[i]).address@ != (
                #[trigger] wallets@[j]).address@,
        decreases count - made,
    {
        let ghost chain_before = chain@;
        let ghost wallets_before = wallets@;
        let wallet = match create_wallet_with_block(chain, code_generator) {
            Ok(wallet) => wallet,
            Err(e) => {
                return Err(e);
            },
        };
        wallets.push(wallet);
        proof {
            assert(chain@.drop_last() == chain_before);
            assert(chain@.take(first as int) =~= chain_before.take(first as int));
            assert forall|k: int| first <= k < first + made implies #[trigger] chain@[k]
                == chain_before[k] by {
                assert(chain@.drop_last()[k] == chain@[k]);
            }
            assert forall|i: int| 0 <= i < made implies #[trigger] wallets@[i]
                == wallets_before[i] by {}
            assert(chain@[first + made] == chain@.last());
        }
        made += 1;
    }
    Ok(wallets)
}

} // verus!
