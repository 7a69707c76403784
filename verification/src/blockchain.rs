//! The chain: blocks linked by hash, a queue of pending transactions and
//! a table of balances.

use crate::block::{no_merkle_root, no_predecessor, Block, BlockView};
use crate::clock::unix_time_now;
use crate::encoding::{join, joined};
use crate::mining::MiningStrategy;
use vstd::hash_map::StringHashMap;
use vstd::prelude::*;
use vstd::string::*;

verus! {

/// Why a chain refused to grow.
#[derive(Debug, Clone, Copy, PartialEq, Eq, Structural)]
pub enum BlockchainError {
    /// The mined block does not carry its own hash, or there was no pending
    /// transaction to mine.
    InvalidBlock,
    /// Kept for lookups that fail; no operation returns it.
    BlockNotFound,
    /// The chain holds no block to build on.
    ChainBroken,
}

/// The first place at which a chain is found inconsistent.
#[derive(Debug, Clone, Copy, PartialEq, Eq, Structural)]
pub enum ChainFault {
    /// The first block does not carry its own hash.
    GenesisInvalid,
    /// The block at this position does not carry its own hash.
    BlockInvalid(usize),
    /// The block at this position carries its own hash, but names another
    /// hash than that of the block before it.
    LinkBroken(usize),
}

impl ChainFault {
    /// The position of the block at which the fault was found.
    pub open spec fn position(self) -> int {
        match self {
            ChainFault::GenesisInvalid => 0,
            ChainFault::BlockInvalid(i) => i as int,
            ChainFault::LinkBroken(i) => i as int,
        }
    }
}

/// The account that is credited for each block.
pub open spec fn miner() -> Seq<char> {
    "miner"@
}

/// What stands between two transactions in a block's data.
pub open spec fn transaction_separator() -> Seq<char> {
    "|"@
}

/// The miner's balance in a new chain.
pub const INITIAL_BALANCE: u64 = 100;

/// What the miner is credited for each block.
pub const BLOCK_REWARD: u64 = 10;

/// A chain of blocks with the strategy that mines every block it appends.
/// The fields are open to the caller; what the operations promise of a
/// chain that was changed by hand is what their contracts say, no more.
pub struct Blockchain<T: MiningStrategy> {
    pub chain: Vec<Block>,
    pub mining_strategy: T,
    pub balances: StringHashMap<u64>,
    pub pending_transactions: Vec<String>,
}

/// What a [`Blockchain`] holds, as mathematical values.
pub struct ChainView {
    pub blocks: Seq<BlockView>,
    pub pending: Seq<Seq<char>>,
    pub balances: Map<Seq<char>, u64>,
}

impl<T: MiningStrategy> View for Blockchain<T> {
    type V = ChainView;

    open spec fn view(&self) -> ChainView {
        ChainView {
            blocks: self.chain@.map_values(|b: Block| b@),
            pending: self.pending_transactions.deep_view(),
            balances: self.balances@,
        }
    }
}

impl ChainView {
    /// What is wrong with the block at position `i`, taken with the block
    /// before it: nothing, its own hash, or else its link.
    pub open spec fn fault_at(self, i: int) -> Option<ChainFault>
        recommends
            0 <= i < self.blocks.len(),
    {
        if !self.blocks[i].valid() {
            if i == 0 {
                Some(ChainFault::GenesisInvalid)
            } else {
                Some(ChainFault::BlockInvalid(i as usize))
            }
        } else if i > 0 && self.blocks[i].prev_hash != self.blocks[i - 1].hash {
            Some(ChainFault::LinkBroken(i as usize))
        } else {
            None
        }
    }

    /// There is a first block, every block carries its own hash, and every
    /// block but the first names the hash of the block before it.
    pub open spec fn chain_valid(self) -> bool {
        &&& self.blocks.len() > 0
        &&& forall|i: int| 0 <= i < self.blocks.len() ==> (#[trigger] self.blocks[i]).valid()
        &&& forall|i: int|
            0 < i < self.blocks.len() ==> (#[trigger] self.blocks[i]).prev_hash == self.blocks[i
                - 1].hash
    }

    /// The chain is consistent and begins with a block that names no
    /// predecessor.
    pub open spec fn well_formed(self) -> bool {
        &&& self.chain_valid()
        &&& self.blocks[0].prev_hash == no_predecessor()
    }

    /// The chain without its pending transactions.
    pub open spec fn without_pending(self) -> ChainView {
        ChainView { pending: Seq::empty(), ..self }
    }

    /// The data of the block that holds all pending transactions.
    pub open spec fn pending_data(self) -> Seq<char> {
        joined(self.pending, transaction_separator())
    }

    /// A chain with a first block is consistent exactly when no position
    /// has a fault.
    pub proof fn consistent_iff_faultless(self)
        requires
            self.blocks.len() > 0,
        ensures
            self.chain_valid() <==> forall|i: int|
                0 <= i < self.blocks.len() ==> self.fault_at(i) is None,
    {
        if self.chain_valid() {
            assert forall|i: int| 0 <= i < self.blocks.len() implies self.fault_at(i) is None by {
                assert(self.blocks[i].valid());
            }
        }
        if forall|i: int| 0 <= i < self.blocks.len() ==> self.fault_at(i) is None {
            assert forall|i: int| 0 <= i < self.blocks.len() implies (#[trigger] self.blocks[i]).valid() by {
                assert(self.fault_at(i) is None);
            }
            assert forall|i: int| 0 < i < self.blocks.len() implies (#[trigger] self.blocks[i]).prev_hash
                == self.blocks[i - 1].hash by {
                assert(self.fault_at(i) is None);
            }
        }
    }

    /// What `address` holds in `balances`: 0 where it has no entry.
    pub open spec fn balance_in(balances: Map<Seq<char>, u64>, address: Seq<char>) -> u64 {
        if balances.contains_key(address) {
            balances[address]
        } else {
            0
        }
    }

    /// The balances after the miner was credited for one block. A miner
    /// without an entry counts as holding 0 and is given one.
    pub open spec fn rewarded(balances: Map<Seq<char>, u64>) -> Map<Seq<char>, u64> {
        balances.insert(miner(), (Self::balance_in(balances, miner()) + BLOCK_REWARD) as u64)
    }

    /// The next index and the miner's next balance can be represented.
    pub open spec fn has_room(self) -> bool {
        &&& self.blocks.len() > 0 ==> self.blocks.last().index < u64::MAX
        &&& self.balances.contains_key(miner()) ==> self.balances[miner()] <= u64::MAX
            - BLOCK_REWARD
    }

    /// The chain after `block` was appended and rewarded.
    pub open spec fn with_block(self, block: BlockView) -> ChainView {
        ChainView {
            blocks: self.blocks.push(block),
            pending: self.pending,
            balances: Self::rewarded(self.balances),
        }
    }

    /// `block` is a successor to the last block that holds `data`: the next
    /// index, the last block's hash as previous hash, no merkle root, and
    /// its own hash. Its timestamp and nonce are left open.
    pub open spec fn is_successor(self, block: BlockView, data: Seq<char>) -> bool
        recommends
            self.blocks.len() > 0,
    {
        &&& block.index == self.blocks.last().index + 1
        &&& block.prev_hash == self.blocks.last().hash
        &&& block.data == data
        &&& block.merkle_root == no_merkle_root()
        &&& block.valid()
    }

    /// The block that [`Blockchain::add_block`] hands to the mining
    /// strategy when it builds a successor at `timestamp` around `data`.
    pub open spec fn candidate(self, timestamp: i64, data: Seq<char>) -> BlockView
        recommends
            self.has_room(),
            self.blocks.len() > 0,
    {
        BlockView::fresh(
            (self.blocks.last().index + 1) as u64,
            timestamp,
            self.blocks.last().hash,
            data,
        )
    }

    /// `after` is this chain grown by one successor that holds `data`.
    pub open spec fn grown_to(self, after: ChainView, data: Seq<char>) -> bool {
        &&& self.blocks.len() > 0
        &&& after.blocks.len() == self.blocks.len() + 1
        &&& after == self.with_block(after.blocks.last())
        &&& self.is_successor(after.blocks.last(), data)
    }

    /// This chain with the block at position `i` replaced by `block`.
    pub open spec fn with_block_at(self, i: int, block: BlockView) -> ChainView
        recommends
            0 <= i < self.blocks.len(),
    {
        ChainView { blocks: self.blocks.update(i, block), ..self }
    }

    /// A consistent chain stays consistent when a block is appended that
    /// carries its own hash and names the hash of the last block.
    pub proof fn appending_a_linked_block_keeps_consistency(self, block: BlockView)
        requires
            self.chain_valid(),
            block.valid(),
            block.prev_hash == self.blocks.last().hash,
        ensures
            self.with_block(block).chain_valid(),
            self.well_formed() ==> self.with_block(block).well_formed(),
    {
        let after = self.with_block(block);
        assert(after.blocks[0] == self.blocks[0]);
        assert forall|i: int| 0 <= i < after.blocks.len() implies (#[trigger] after.blocks[i]).valid() by {
            if i < self.blocks.len() {
                assert(after.blocks[i] == self.blocks[i]);
            }
        }
        assert forall|i: int| 0 < i < after.blocks.len() implies (#[trigger] after.blocks[i]).prev_hash
            == after.blocks[i - 1].hash by {
            if i < self.blocks.len() {
                assert(after.blocks[i] == self.blocks[i]);
                assert(after.blocks[i - 1] == self.blocks[i - 1]);
            }
        }
    }

    /// A consistent chain that grows by a successor stays consistent.
    pub proof fn growth_keeps_consistency(self, after: ChainView, data: Seq<char>)
        requires
            self.chain_valid(),
            self.grown_to(after, data),
        ensures
            after.chain_valid(),
            self.well_formed() ==> after.well_formed(),
    {
        self.appending_a_linked_block_keeps_consistency(after.blocks.last());
    }

    /// A chain in which a valid block was replaced by one that keeps its
    /// hash but has other fields is not consistent, and the fault is found
    /// at that block or before it, unless the new fields have the digest
    /// of the old ones.
    pub proof fn tampering_breaks_the_chain(self, i: int, forged: BlockView)
        requires
            0 <= i < self.blocks.len(),
            self.blocks[i].valid(),
            forged.hash == self.blocks[i].hash,
            forged.digest() != self.blocks[i].digest(),
        ensures
            !forged.valid(),
            !self.with_block_at(i, forged).chain_valid(),
            self.with_block_at(i, forged).fault_at(i) is Some,
    {
        self.blocks[i].tampering_is_detected(forged);
        assert(self.with_block_at(i, forged).blocks[i] == forged);
    }
}

impl<T: MiningStrategy> Blockchain<T> {
    /// A chain that holds the genesis block alone, with the miner's
    /// opening balance and no pending transaction.
    pub fn new(mining_strategy: T) -> (blockchain: Self)
        ensures
            blockchain.mining_strategy == mining_strategy,
            blockchain@.blocks == seq![BlockView::genesis(blockchain.chain@[0].timestamp)],
            blockchain@.pending == Seq::<Seq<char>>::empty(),
            blockchain@.balances == Map::<Seq<char>, u64>::empty().insert(miner(), INITIAL_BALANCE),
            blockchain@.well_formed(),
            blockchain@.has_room(),
    {
        let mut blockchain = Blockchain {
            chain: Vec::new(),
            mining_strategy,
            balances: StringHashMap::new(),
            pending_transactions: Vec::new(),
        };
        blockchain.create_genesis_block();
        blockchain.balances.insert(String::from_str("miner"), INITIAL_BALANCE);
        assert(blockchain@.pending =~= Seq::<Seq<char>>::empty());
        blockchain
    }

    fn create_genesis_block(&mut self)
        requires
            old(self).chain@.len() == 0,
        ensures
            final(self).chain@.len() == 1,
            final(self)@.blocks == seq![BlockView::genesis(final(self).chain@[0].timestamp)],
            final(self).mining_strategy == old(self).mining_strategy,
            final(self).balances == old(self).balances,
            final(self).pending_transactions == old(self).pending_transactions,
    {
        let genesis_block = Block::genesis();
        self.chain.push(genesis_block);
        assert(self@.blocks =~= seq![BlockView::genesis(self.chain@[0].timestamp)]);
    }

    /// The last block, if there is any.
    pub fn get_latest_block(&self) -> (latest: Option<&Block>)
        ensures
            self.chain@.len() == 0 ==> latest is None,
            self.chain@.len() > 0 ==> latest == Some(&self.chain@.last()),
    {
        if self.chain.len() == 0 {
            None
        } else {
            Some(&self.chain[self.chain.len() - 1])
        }
    }

    /// Whether the chain can take one more block: the next index and the
    /// miner's next balance can be represented.
    pub fn has_room(&self) -> (ok: bool)
        ensures
            ok == self@.has_room(),
    {
        let index_fits = match self.get_latest_block() {
            Some(latest_block) => latest_block.index < u64::MAX,
            None => true,
        };
        let reward_fits = match self.balances.get("miner") {
            Some(balance) => *balance <= u64::MAX - BLOCK_REWARD,
            None => true,
        };
        index_fits && reward_fits
    }

    /// Appends a block that was mined already, if it carries its own hash,
    /// and credits the miner, whether or not the miner has an entry in the
    /// table. A block that does not is refused with
    /// `InvalidBlock`, and nothing changes. Whether the block fits the
    /// chain's last block is not looked at.
    pub fn append_mined(&mut self, block: Block) -> (result: Result<(), BlockchainError>)
        requires
            old(self)@.has_room(),
        ensures
            final(self).mining_strategy == old(self).mining_strategy,
            block@.valid() ==> result == Ok::<(), BlockchainError>(()) && final(self)@ == old(
                self,
            )@.with_block(block@),
            !block@.valid() ==> result == Err::<(), BlockchainError>(BlockchainError::InvalidBlock)
                && final(self)@ == old(self)@ && final(self).chain@ == old(self).chain@,
            old(self)@.chain_valid() && block@.prev_hash == old(self)@.blocks.last().hash
                ==> final(self)@.chain_valid(),
            old(self)@.well_formed() && block@.prev_hash == old(self)@.blocks.last().hash
                ==> final(self)@.well_formed(),
    {
        proof {
            if self@.chain_valid() && block@.valid() && block@.prev_hash == self@.blocks.last().hash {
                self@.appending_a_linked_block_keeps_consistency(block@);
            }
        }
        if !block.is_valid() {
            return Err(BlockchainError::InvalidBlock);
        }
        self.chain.push(block);
        let balance = self.get_balance("miner");
        self.balances.insert(String::from_str("miner"), balance + BLOCK_REWARD);
        assert(self@.blocks =~= old(self)@.blocks.push(block@));
        Ok(())
    }

    /// Builds a successor to the last block around `data`, stamps it with
    /// the current time, mines it with the chain's strategy and appends it.
    /// Fails with `ChainBroken`, changing nothing, where the chain holds no
    /// block.
    pub fn add_block(&mut self, data: String) -> (result: Result<(), BlockchainError>)
        requires
            old(self).mining_strategy.well_configured(),
            old(self)@.has_room(),
        ensures
            final(self).mining_strategy == old(self).mining_strategy,
            result is Ok <==> old(self).chain@.len() > 0,
            result is Ok ==> old(self)@.grown_to(final(self)@, data@),
            result is Ok ==> old(self).mining_strategy.mines(
                old(self)@.candidate(final(self)@.blocks.last().timestamp, data@),
                final(self)@.blocks.last(),
            ),
            old(self)@.chain_valid() ==> final(self)@.chain_valid(),
            old(self)@.well_formed() ==> final(self)@.well_formed(),
            result is Err ==> result == Err::<(), BlockchainError>(BlockchainError::ChainBroken)
                && final(self)@ == old(self)@ && final(self).chain@ == old(self).chain@,
    {
        let (new_index, new_prev_hash) = match self.get_latest_block() {
            Some(latest_block) => (latest_block.index + 1, latest_block.hash.clone()),
            None => {
                return Err(BlockchainError::ChainBroken);
            },
        };
        let new_timestamp = unix_time_now();
        let mut new_block = Block::new(new_index, new_timestamp, new_prev_hash, data);
        new_block.mine_block(&self.mining_strategy);
        proof {
            if self@.chain_valid() {
                self@.appending_a_linked_block_keeps_consistency(new_block@);
            }
        }
        self.append_mined(new_block)
    }

    /// The first fault of the chain, going from the first block to the
    /// last, or `None` where the chain is consistent.
    pub fn first_fault(&self) -> (fault: Option<ChainFault>)
        requires
            self.chain@.len() > 0,
        ensures
            fault is None <==> self@.chain_valid(),
            fault is None ==> forall|i: int| 0 <= i < self.chain@.len() ==> self@.fault_at(i) is None,
            fault matches Some(found) ==> {
                &&& 0 <= found.position() < self.chain@.len()
                &&& self@.fault_at(found.position()) == fault
                &&& forall|j: int| 0 <= j < found.position() ==> self@.fault_at(j) is None
            },
    {
        let mut i: usize = 0;
        while i < self.chain.len()
            invariant
                i <= self.chain@.len(),
                forall|j: int| 0 <= j < i ==> self@.fault_at(j) is None,
            decreases self.chain@.len() - i,
        {
            let current_block = &self.chain[i];
            if !current_block.is_valid() {
                let fault = if i == 0 {
                    ChainFault::GenesisInvalid
                } else {
                    ChainFault::BlockInvalid(i)
                };
                proof {
                    assert(self@.fault_at(i as int) == Some(fault));
                    self@.consistent_iff_faultless();
                }
                return Some(fault);
            }
            if i > 0 {
                let previous_block = &self.chain[i - 1];
                if current_block.prev_hash != previous_block.hash {
                    proof {
                        assert(self@.fault_at(i as int) == Some(ChainFault::LinkBroken(i)));
                        self@.consistent_iff_faultless();
                    }
                    return Some(ChainFault::LinkBroken(i));
                }
            }
            i += 1;
        }
        proof {
            self@.consistent_iff_faultless();
        }
        None
    }

    /// Whether every block carries its own hash and every block but the
    /// first names the hash of the block before it.
    pub fn is_chain_valid(&self) -> (ok: bool)
        requires
            self.chain@.len() > 0,
        ensures
            ok == self@.chain_valid(),
    {
        self.first_fault().is_none()
    }

    /// Puts a transaction at the end of the queue, unexamined.
    pub fn add_transaction(&mut self, transaction: String)
        ensures
            final(self).mining_strategy == old(self).mining_strategy,
            final(self).chain@ == old(self).chain@,
            final(self)@ == (ChainView {
                pending: old(self)@.pending.push(transaction@),
                ..old(self)@
            }),
            old(self)@.well_formed() ==> final(self)@.well_formed(),
    {
        self.pending_transactions.push(transaction);
        assert(self@.pending =~= old(self)@.pending.push(transaction@));
    }

    /// Mines one block that holds all pending transactions, joined by `|`,
    /// and empties the queue. With an empty queue it fails with
    /// `InvalidBlock` and changes nothing. The queue is emptied before the
    /// block is built, so it is empty also where appending fails.
    pub fn mine_pending_transactions(&mut self) -> (result: Result<(), BlockchainError>)
        requires
            old(self).mining_strategy.well_configured(),
            old(self)@.has_room(),
        ensures
            final(self).mining_strategy == old(self).mining_strategy,
            old(self)@.pending.len() == 0 ==> result == Err::<(), BlockchainError>(
                BlockchainError::InvalidBlock,
            ) && final(self)@ == old(self)@ && final(self).chain@ == old(self).chain@,
            old(self)@.pending.len() > 0 && old(self)@.blocks.len() == 0 ==> result == Err::<
                (),
                BlockchainError,
            >(BlockchainError::ChainBroken) && final(self)@ == old(self)@.without_pending()
                && final(self).chain@ == old(self).chain@,
            old(self)@.pending.len() > 0 && old(self)@.blocks.len() > 0 ==> result is Ok && old(
                self,
            )@.without_pending().grown_to(final(self)@, old(self)@.pending_data()),
            result is Ok ==> old(self).mining_strategy.mines(
                old(self)@.candidate(final(self)@.blocks.last().timestamp, old(self)@.pending_data()),
                final(self)@.blocks.last(),
            ),
            old(self)@.chain_valid() ==> final(self)@.chain_valid(),
            old(self)@.well_formed() ==> final(self)@.well_formed(),
    {
        if self.pending_transactions.len() == 0 {
            return Err(BlockchainError::InvalidBlock);
        }
        let transactions = join(&self.pending_transactions, "|");
        self.pending_transactions.clear();
        assert(self@.pending =~= Seq::<Seq<char>>::empty());
        self.add_block(transactions)
    }

    /// The first block, from the start of the chain, whose `index` field is `index`.
    pub fn get_block_by_index(&self, index: u64) -> (found: Option<&Block>)
        ensures
            found is None <==> forall|i: int| 0 <= i < self.chain@.len() ==> self.chain@[i].index != index,
            found is Some ==> exists|i: int|
                0 <= i < self.chain@.len() && found == Some(&#[trigger] self.chain@[i])
                    && self.chain@[i].index == index && forall|j: int|
                    0 <= j < i ==> self.chain@[j].index != index,
    {
        let mut i: usize = 0;
        while i < self.chain.len()
            invariant
                i <= self.chain@.len(),
                forall|j: int| 0 <= j < i ==> self.chain@[j].index != index,
            decreases self.chain@.len() - i,
        {
            if self.chain[i].index == index {
                return Some(&self.chain[i]);
            }
            i += 1;
        }
        None
    }

    /// The first block, from the start of the chain, whose `hash` field is `hash`.
    pub fn get_block_by_hash(&self, hash: &str) -> (found: Option<&Block>)
        ensures
            found is None <==> forall|i: int| 0 <= i < self.chain@.len() ==> self.chain@[i].hash@ != hash@,
            found is Some ==> exists|i: int|
                0 <= i < self.chain@.len() && found == Some(&#[trigger] self.chain@[i])
                    && self.chain@[i].hash@ == hash@ && forall|j: int|
                    0 <= j < i ==> self.chain@[j].hash@ != hash@,
    {
        let wanted = String::from_str(hash);
        let mut i: usize = 0;
        while i < self.chain.len()
            invariant
                i <= self.chain@.len(),
                wanted@ == hash@,
                forall|j: int| 0 <= j < i ==> self.chain@[j].hash@ != hash@,
            decreases self.chain@.len() - i,
        {
            if self.chain[i].hash == wanted {
                return Some(&self.chain[i]);
            }
            i += 1;
        }
        None
    }

    /// The balance of `address`; 0 for an address that was never credited.
    pub fn get_balance(&self, address: &str) -> (balance: u64)
        ensures
            balance == ChainView::balance_in(self@.balances, address@),
    {
        match self.balances.get(address) {
            Some(balance) => *balance,
            None => 0,
        }
    }

    /// A copy of the last block, if there is any.
    pub fn get_latest_block_owned(&self) -> (latest: Option<Block>)
        ensures
            self.chain@.len() == 0 ==> latest is None,
            self.chain@.len() > 0 ==> latest == Some(self.chain@.last()),
    {
        match self.get_latest_block() {
            Some(block) => Some(block.clone()),
            None => None,
        }
    }
}

} // verus!
