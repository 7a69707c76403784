//! A block and the hash that seals it.

use crate::clock::unix_time_now;
use crate::digest::{hex_digest, hex_digest_of, sha256};
use crate::encoding::{
    decimal, lower_hex_is_injective, push_decimal, push_signed_decimal, signed_decimal,
};
use crate::mining::MiningStrategy;
use vstd::prelude::*;
use vstd::string::*;
use vstd::utf8::encode_utf8;

verus! {

/// One record of the ledger. Nothing but [`Block::hash`] ties the fields
/// together, so a block whose fields were changed by hand is detected by
/// [`Block::is_valid`] and by nothing else.
#[derive(Debug)]
pub struct Block {
    pub index: u64,
    pub timestamp: i64,
    pub hash: String,
    pub prev_hash: String,
    pub data: String,
    pub nonce: u64,
    pub merkle_root: String,
}

/// What a [`Block`] holds, as mathematical values.
pub struct BlockView {
    pub index: u64,
    pub timestamp: i64,
    pub hash: Seq<char>,
    pub prev_hash: Seq<char>,
    pub data: Seq<char>,
    pub nonce: u64,
    pub merkle_root: Seq<char>,
}

impl View for Block {
    type V = BlockView;

    open spec fn view(&self) -> BlockView {
        BlockView {
            index: self.index,
            timestamp: self.timestamp,
            hash: self.hash@,
            prev_hash: self.prev_hash@,
            data: self.data@,
            nonce: self.nonce,
            merkle_root: self.merkle_root@,
        }
    }
}

/// The `prev_hash` of a block that has no predecessor.
pub open spec fn no_predecessor() -> Seq<char> {
    seq!['0']
}

/// The `merkle_root` of a block for which none was computed.
pub open spec fn no_merkle_root() -> Seq<char> {
    seq!['0']
}

/// The payload of the first block of every chain.
pub open spec fn genesis_data() -> Seq<char> {
    "Genesis Block"@
}

impl BlockView {
    /// The text that is hashed: every field but `hash`, in the order index,
    /// timestamp, previous hash, data, nonce, merkle root, with the numbers
    /// in decimal and nothing in between.
    pub open spec fn preimage(self) -> Seq<char> {
        decimal(self.index as nat) + signed_decimal(self.timestamp as int) + self.prev_hash
            + self.data + decimal(self.nonce as nat) + self.merkle_root
    }

    /// The SHA-256 digest of the preimage's UTF-8 bytes.
    pub open spec fn digest(self) -> Seq<u8> {
        sha256(encode_utf8(self.preimage()))
    }

    /// The hash that the other six fields call for: the digest in
    /// lower-case hexadecimal.
    pub open spec fn expected_hash(self) -> Seq<char> {
        hex_digest(self.preimage())
    }

    /// The stored hash is the one that the other fields call for.
    pub open spec fn valid(self) -> bool {
        self.hash == self.expected_hash()
    }

    /// This block with its hash brought up to date.
    pub open spec fn sealed(self) -> BlockView {
        BlockView { hash: self.expected_hash(), ..self }
    }

    /// This block with the nonce `nonce`, sealed again.
    pub open spec fn with_nonce(self, nonce: u64) -> BlockView {
        (BlockView { nonce, ..self }).sealed()
    }

    /// The two blocks agree on everything that mining leaves alone: all
    /// fields but `nonce` and `hash`.
    pub open spec fn same_payload(self, other: BlockView) -> bool {
        &&& self.index == other.index
        &&& self.timestamp == other.timestamp
        &&& self.prev_hash == other.prev_hash
        &&& self.data == other.data
        &&& self.merkle_root == other.merkle_root
    }

    /// A newly built block: nonce 0, no merkle root, sealed.
    pub open spec fn fresh(index: u64, timestamp: i64, prev_hash: Seq<char>, data: Seq<char>) -> BlockView {
        (BlockView {
            index,
            timestamp,
            hash: Seq::empty(),
            prev_hash,
            data,
            nonce: 0,
            merkle_root: no_merkle_root(),
        }).sealed()
    }

    /// The first block of a chain made at `timestamp`: a fresh block at
    /// index 0 without predecessor, given the digest of its data as merkle
    /// root and sealed again.
    pub open spec fn genesis(timestamp: i64) -> BlockView {
        (BlockView {
            merkle_root: hex_digest(genesis_data()),
            ..Self::fresh(0, timestamp, no_predecessor(), genesis_data())
        }).sealed()
    }
}

impl BlockView {
    /// The text that [`Block::describe`] returns.
    pub open spec fn description(self) -> Seq<char> {
        "Block { index: "@ + decimal(self.index as nat) + ", hash: "@ + self.hash
            + ", prev_hash: "@ + self.prev_hash + ", timestamp: "@ + signed_decimal(
            self.timestamp as int,
        ) + ", data: "@ + self.data + ", nonce: "@ + decimal(self.nonce as nat)
            + ", merkle_root: "@ + self.merkle_root + " }"@
    }

    /// The hash is a function of the six other fields: two blocks that
    /// agree on them call for the same hash, whatever hash each one stores.
    pub proof fn hash_is_determined_by_the_other_fields(self, other: BlockView)
        requires
            self.same_payload(other),
            self.nonce == other.nonce,
        ensures
            self.expected_hash() == other.expected_hash(),
    {
    }

    /// A valid block whose fields were changed while its hash was kept is
    /// no longer valid, unless the changed fields have the digest of the
    /// old ones. They have it where the preimage is the same, as with
    /// index 1, timestamp 23 against index 12, timestamp 3.
    pub proof fn tampering_is_detected(self, forged: BlockView)
        requires
            self.valid(),
            forged.hash == self.hash,
            forged.digest() != self.digest(),
        ensures
            !forged.valid(),
    {
        if forged.valid() {
            lower_hex_is_injective(forged.digest(), self.digest());
        }
    }
}

impl Clone for Block {
    fn clone(&self) -> (copy: Block)
        ensures
            copy == *self,
    {
        Block {
            index: self.index,
            timestamp: self.timestamp,
            hash: self.hash.clone(),
            prev_hash: self.prev_hash.clone(),
            data: self.data.clone(),
            nonce: self.nonce,
            merkle_root: self.merkle_root.clone(),
        }
    }
}

impl Block {
    /// Builds a block with nonce 0 and the placeholder merkle root, and seals it.
    pub fn new(index: u64, timestamp: i64, prev_hash: String, data: String) -> (block: Block)
        ensures
            block@ == BlockView::fresh(index, timestamp, prev_hash@, data@),
            block@.valid(),
            block@.hash.len() == 64,
    {
        proof {
            reveal_strlit("0");
        }
        let mut block = Block {
            index,
            timestamp,
            hash: String::new(),
            prev_hash,
            data,
            nonce: 0,
            merkle_root: String::from_str("0"),
        };
        assert(block.merkle_root@ =~= no_merkle_root());
        block.hash = block.calculate_hash();
        block
    }

    /// The hash that the block's other six fields call for. The stored hash
    /// is neither read nor changed.
    pub fn calculate_hash(&self) -> (hash: String)
        ensures
            hash@ == self@.expected_hash(),
            hash@.len() == 64,
    {
        let mut contents = String::new();
        push_decimal(&mut contents, self.index);
        push_signed_decimal(&mut contents, self.timestamp);
        contents.append(self.prev_hash.as_str());
        contents.append(self.data.as_str());
        push_decimal(&mut contents, self.nonce);
        contents.append(self.merkle_root.as_str());
        assert(contents@ =~= self@.preimage());
        hex_digest_of(contents.as_str())
    }

    /// Hands the block to `mining_strategy`, which may change its nonce and
    /// seal it again.
    pub fn mine_block<T: MiningStrategy>(&mut self, mining_strategy: &T)
        requires
            mining_strategy.well_configured(),
        ensures
            mining_strategy.mines(old(self)@, final(self)@),
            final(self)@.same_payload(old(self)@),
            final(self)@ == old(self)@ || final(self)@.valid(),
            old(self)@.valid() ==> final(self)@.valid(),
    {
        mining_strategy.mine(self);
    }

    /// The first block of a chain, stamped with the current time.
    pub fn genesis() -> (block: Block)
        ensures
            block@ == BlockView::genesis(block.timestamp),
            block@.valid(),
            block@.hash.len() == 64,
    {
        Block::genesis_at(unix_time_now())
    }

    /// The first block of a chain made at `timestamp`.
    pub fn genesis_at(timestamp: i64) -> (block: Block)
        ensures
            block@ == BlockView::genesis(timestamp),
            block@.valid(),
            block@.hash.len() == 64,
    {
        proof {
            reveal_strlit("0");
        }
        let prev_hash = String::from_str("0");
        assert(prev_hash@ =~= no_predecessor());
        let mut genesis = Block::new(0, timestamp, prev_hash, String::from_str("Genesis Block"));
        genesis.merkle_root = genesis.calculate_merkle_root();
        genesis.hash = genesis.calculate_hash();
        genesis
    }

    /// The digest of the block's data alone.
    fn calculate_merkle_root(&self) -> (root: String)
        ensures
            root@ == hex_digest(self@.data),
    {
        hex_digest_of(self.data.as_str())
    }

    /// Sets the nonce and seals the block again.
    pub fn reseal(&mut self, nonce: u64)
        ensures
            final(self)@ == old(self)@.with_nonce(nonce),
            final(self)@.valid(),
            final(self)@.hash.len() == 64,
    {
        self.nonce = nonce;
        self.hash = self.calculate_hash();
    }

    /// The block on one line, every field by its name.
    pub fn describe(&self) -> (text: String)
        ensures
            text@ == self@.description(),
    {
        let mut text = String::from_str("Block { index: ");
        push_decimal(&mut text, self.index);
        text.append(", hash: ");
        text.append(self.hash.as_str());
        text.append(", prev_hash: ");
        text.append(self.prev_hash.as_str());
        text.append(", timestamp: ");
        push_signed_decimal(&mut text, self.timestamp);
        text.append(", data: ");
        text.append(self.data.as_str());
        text.append(", nonce: ");
        push_decimal(&mut text, self.nonce);
        text.append(", merkle_root: ");
        text.append(self.merkle_root.as_str());
        text.append(" }");
        assert(text@ =~= self@.description());
        text
    }

    /// Whether the stored hash is the one that the other fields call for.
    /// Says nothing of the link to a predecessor.
    pub fn is_valid(&self) -> (ok: bool)
        ensures
            ok == self@.valid(),
    {
        let expected = self.calculate_hash();
        self.hash == expected
    }
}

} // verus!
