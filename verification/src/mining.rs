//! Mining strategies: ways to choose a block's nonce.

use crate::block::{Block, BlockView};
use rand::Rng;
use vstd::prelude::*;
use vstd::std_specs::iter::IteratorSpec;

verus! {

/// A way to choose a block's nonce. A strategy changes nothing but the
/// nonce and the hash, and where it changes either it leaves the block
/// sealed.
///
/// The two strategies of this module are proved to keep that contract. Of
/// a strategy that is written elsewhere the chain takes it on trust:
/// whatever is proved of a chain holds for strategies that keep it.
pub trait MiningStrategy {
    /// The strategy's settings are such that mining can succeed. A
    /// strategy without settings leaves this as it is.
    open spec fn well_configured(&self) -> bool {
        true
    }

    /// `after` is a block that this strategy may leave where it was given
    /// `before`. A strategy that says no more of its results than every
    /// strategy must leaves this as it is.
    open spec fn mines(&self, before: BlockView, after: BlockView) -> bool {
        true
    }

    /// Chooses a nonce for `block`. Of the block's fields only the nonce
    /// and the hash may change, and a block that was changed is sealed; so
    /// a valid block stays valid.
    fn mine(&self, block: &mut Block)
        requires
            self.well_configured(),
        ensures
            self.mines(old(block)@, final(block)@),
            final(block)@.same_payload(old(block)@),
            final(block)@ == old(block)@ || final(block)@.valid(),
            old(block)@.valid() ==> final(block)@.valid(),
    ;
}

/// `hash` begins with at least `count` characters `'0'`.
pub open spec fn leading_zeros(hash: Seq<char>, count: nat) -> bool {
    &&& count <= hash.len()
    &&& forall|i: int| 0 <= i < count ==> hash[i] == '0'
}

/// Whether `hash` begins with at least `count` characters `'0'`.
pub fn has_leading_zeros(hash: &str, count: usize) -> (ok: bool)
    ensures
        ok == leading_zeros(hash@, count as nat),
{
    let mut rest = hash.chars();
    let mut seen: usize = 0;
    while seen < count
        invariant
            seen <= count,
            seen <= hash@.len(),
            rest.obeys_prophetic_iter_laws(),
            rest.remaining() == hash@.skip(seen as int),
            forall|i: int| 0 <= i < seen ==> hash@[i] == '0',
        decreases count - seen,
    {
        match rest.next() {
            Some(c) => {
                if c != '0' {
                    assert(hash@[seen as int] == c);
                    return false;
                }
            },
            None => {
                return false;
            },
        }
        seen += 1;
    }
    true
}

/// Searches upwards from the block's nonce for one whose hash begins with
/// `difficulty` zeros.
pub struct ProofOfWorkStrategy {
    pub difficulty: usize,
}

/// The longest run of zeros that a hash of 64 digits can begin with.
pub const MAX_DIFFICULTY: usize = 64;

impl ProofOfWorkStrategy {
    /// The hash begins with `difficulty` zeros.
    pub open spec fn accepts(&self, hash: Seq<char>) -> bool {
        leading_zeros(hash, self.difficulty as nat)
    }

    /// The block that the search holds when it has come to `nonce`: `start`
    /// itself at its own nonce, `start` sealed with `nonce` at any other.
    pub open spec fn candidate(start: BlockView, nonce: u64) -> BlockView {
        if nonce == start.nonce {
            start
        } else {
            start.with_nonce(nonce)
        }
    }

    /// `nonce` is where the search from `start` ends: the first nonce from
    /// `start.nonce` upwards whose candidate is accepted, or the largest
    /// nonce there is when none is.
    pub open spec fn search_ends_at(&self, start: BlockView, nonce: u64) -> bool {
        &&& start.nonce <= nonce
        &&& self.accepts(Self::candidate(start, nonce).hash) || nonce == u64::MAX
        &&& forall|earlier: u64|
            start.nonce <= earlier < nonce ==> !self.accepts(
                #[trigger] Self::candidate(start, earlier).hash,
            )
    }
}

impl MiningStrategy for ProofOfWorkStrategy {
    open spec fn well_configured(&self) -> bool {
        self.difficulty <= MAX_DIFFICULTY
    }

    /// The block is left at the first nonce, from its own upwards, at
    /// which its hash is accepted.
    open spec fn mines(&self, before: BlockView, after: BlockView) -> bool {
        &&& self.search_ends_at(before, after.nonce)
        &&& after == Self::candidate(before, after.nonce)
    }

    /// Leaves the block at the first nonce, from its own upwards, at which
    /// its hash is accepted. A block whose hash is accepted already is left
    /// as it is; where no nonce up to the largest is accepted, the block is
    /// left sealed at the largest.
    fn mine(&self, block: &mut Block)
        ensures
            self.accepts(final(block)@.hash) || final(block).nonce == u64::MAX,
            final(block).nonce != old(block).nonce ==> final(block)@.hash.len() == 64,
    {
        while !has_leading_zeros(block.hash.as_str(), self.difficulty) && block.nonce < u64::MAX
            invariant
                old(block).nonce <= block.nonce,
                block@ == Self::candidate(old(block)@, block.nonce),
                block.nonce != old(block).nonce ==> block@.hash.len() == 64,
                forall|earlier: u64|
                    old(block).nonce <= earlier < block.nonce ==> !self.accepts(
                        #[trigger] Self::candidate(old(block)@, earlier).hash,
                    ),
            decreases u64::MAX - block.nonce,
        {
            block.nonce += 1;
            block.hash = block.calculate_hash();
        }
    }
}

/// Draws one nonce at random and seals the block with it.
pub struct RandomStrategy;

/// The least nonce that [`RandomStrategy`] draws.
pub const RANDOM_NONCE_MIN: u64 = 1;

/// The least nonce above those that [`RandomStrategy`] draws.
pub const RANDOM_NONCE_END: u64 = 1000;

/// Calls `rand::thread_rng` and `Rng::gen_range` on the range from `low`
/// up to, not including, `high`.
///
/// Trusted: the number drawn lies in that range. Nothing more is claimed,
/// and two calls may differ. `gen_range` panics on an empty range, which
/// `requires` rules out; `thread_rng` panics where the system gives it no
/// seed.
#[verifier::external_body]
fn draw_in_range(low: u64, high: u64) -> (drawn: u64)
    requires
        low < high,
    ensures
        low <= drawn < high,
{
    rand::thread_rng().gen_range(low..high)
}

impl MiningStrategy for RandomStrategy {
    /// The block is sealed with a nonce from `RANDOM_NONCE_MIN` up to, not
    /// including, `RANDOM_NONCE_END`.
    open spec fn mines(&self, before: BlockView, after: BlockView) -> bool {
        &&& RANDOM_NONCE_MIN <= after.nonce < RANDOM_NONCE_END
        &&& after == before.with_nonce(after.nonce)
    }

    /// Seals the block with a nonce drawn from `RANDOM_NONCE_MIN` up to,
    /// not including, `RANDOM_NONCE_END`, whatever nonce and hash it had.
    /// The hash meets no further condition.
    fn mine(&self, block: &mut Block)
        ensures
            RANDOM_NONCE_MIN <= final(block).nonce < RANDOM_NONCE_END,
            final(block)@.valid(),
            final(block)@.hash.len() == 64,
    {
        block.reseal(draw_in_range(RANDOM_NONCE_MIN, RANDOM_NONCE_END));
    }
}

} // verus!
