//! The chain: an append-only sequence of blocks that is never empty.

use crate::block::{block_views, is_genesis, Block, BlockView};
use crate::canonical::{block_digest, encode_block};
use crate::clock::timestamp_now;
use crate::pow::{accepts, is_least_proof, is_search_result, no_proof_exists, proof_accepted};
use crate::sha256::sha256;
use crate::text::{hex_encode, is_decimal, is_lower_hex};
use vstd::prelude::*;
use vstd::string::StringExecFns;

verus! {

/// Whether `block` may follow `previous`: it names the digest of `previous`,
/// and its proof is accepted after the proof of `previous`.
pub open spec fn link_holds(previous: BlockView, block: BlockView) -> bool {
    &&& block.previous_hash == block_digest(previous)
    &&& accepts(previous.proof, block.proof)
}

/// Whether every block but the first may follow the block before it.
pub open spec fn chain_valid(chain: Seq<BlockView>) -> bool {
    forall|i: int| 1 <= i < chain.len() ==> link_holds(chain[i - 1], #[trigger] chain[i])
}

/// The shape that every chain keeps: it is not empty, it begins with a
/// genesis block, and each block's index is its position counted from 1.
pub open spec fn well_formed(chain: Seq<BlockView>) -> bool {
    &&& chain.len() >= 1
    &&& is_genesis(chain[0])
    &&& forall|i: int| 0 <= i < chain.len() ==> (#[trigger] chain[i]).index == i + 1
}

/// Whether `block` is what mining on top of `previous` gives: it names the
/// digest of `previous`, and its proof is the least that is accepted after the
/// proof of `previous`.
pub open spec fn mined_link(previous: BlockView, block: BlockView) -> bool {
    &&& block.previous_hash == block_digest(previous)
    &&& is_least_proof(previous.proof, block.proof)
}

/// Whether `chain` is a genesis block followed by blocks that were each mined
/// on top of the block before.
pub open spec fn mined_chain(chain: Seq<BlockView>) -> bool {
    &&& well_formed(chain)
    &&& forall|i: int| 1 <= i < chain.len() ==> mined_link(chain[i - 1], #[trigger] chain[i])
}

/// The block that `create_block_at` appends to `chain`.
pub open spec fn next_block(
    chain: Seq<BlockView>,
    proof: u64,
    previous_hash: Seq<char>,
    timestamp: Seq<char>,
) -> BlockView {
    BlockView { index: chain.len() + 1, timestamp, proof, previous_hash }
}

/// An append-only chain of blocks.
pub struct Blockchain {
    chain: Vec<Block>,
}

impl View for Blockchain {
    type V = Seq<BlockView>;

    closed spec fn view(&self) -> Seq<BlockView> {
        block_views(self.chain@)
    }
}

impl Blockchain {
    /// A chain that holds the genesis block alone, stamped with `timestamp`.
    pub fn new_at(timestamp: String) -> (fresh: Self)
        ensures
            fresh@ == seq![
                BlockView { index: 1, timestamp: timestamp@, proof: 1, previous_hash: seq!['0'] },
            ],
            well_formed(fresh@),
    {
        proof {
            reveal_strlit("0");
        }
        let genesis = Block {
            index: 1,
            timestamp,
            proof: 1,
            previous_hash: String::from_str("0"),
        };
        assert(genesis.previous_hash@ =~= seq!['0']);
        let mut chain: Vec<Block> = Vec::new();
        chain.push(genesis);
        let fresh = Blockchain { chain };
        assert(fresh@ =~= seq![genesis@]);
        fresh
    }

    /// A chain that holds the genesis block alone, stamped with the present
    /// instant.
    pub fn new() -> (fresh: Self)
        ensures
            fresh@.len() == 1,
            is_genesis(fresh@[0]),
            is_decimal(fresh@[0].timestamp),
            well_formed(fresh@),
    {
        Self::new_at(timestamp_now())
    }

    /// Appends a block with the given proof, previous hash and timestamp, and
    /// returns it. The chain grows by this one block, whose index is the new
    /// length.
    pub fn create_block_at(&mut self, proof: u64, previous_hash: String, timestamp: String) -> (block:
        &Block)
        requires
            old(self)@.len() < usize::MAX,
        ensures
            block@ == next_block(old(self)@, proof, previous_hash@, timestamp@),
            block@.index == old(self)@.len() + 1,
            final(self)@ == old(self)@.push(block@),
            final(self)@.len() == old(self)@.len() + 1,
            well_formed(old(self)@) ==> well_formed(final(self)@),
    {
        let block = Block { index: self.chain.len() + 1, timestamp, proof, previous_hash };
        self.chain.push(block);
        assert(self@ =~= old(self)@.push(block@));
        &self.chain[self.chain.len() - 1]
    }

    /// Appends a block with the given proof and previous hash, stamped with
    /// the present instant, and returns it. The chain grows by this one block,
    /// whose index is the new length.
    pub fn create_block(&mut self, proof: u64, previous_hash: String) -> (block: &Block)
        requires
            old(self)@.len() < usize::MAX,
        ensures
            block@ == next_block(old(self)@, proof, previous_hash@, block@.timestamp),
            block@.index == old(self)@.len() + 1,
            is_decimal(block@.timestamp),
            final(self)@ == old(self)@.push(block@),
            final(self)@.len() == old(self)@.len() + 1,
            well_formed(old(self)@) ==> well_formed(final(self)@),
    {
        self.create_block_at(proof, previous_hash, timestamp_now())
    }

    /// The last block of the chain.
    pub fn get_previous_block(&self) -> (block: &Block)
        requires
            self@.len() >= 1,
        ensures
            block@ == self@.last(),
    {
        &self.chain[self.chain.len() - 1]
    }

    /// The blocks of the chain, in order.
    pub fn chain(&self) -> (blocks: &Vec<Block>)
        ensures
            block_views(blocks@) == self@,
    {
        &self.chain
    }

    /// Searches for the proof that follows `previous_proof`: the least nonce,
    /// from 1 upwards, that the predicate accepts after it. The search tries
    /// every 64-bit nonce in turn and gives `None` only if none is accepted.
    pub fn proof_of_work(&self, previous_proof: u64) -> (found: Option<u64>)
        ensures
            is_search_result(previous_proof, found),
    {
        let mut candidate: u64 = 1;
        loop
            invariant
                candidate >= 1,
                forall|smaller: u64| 1 <= smaller < candidate ==> !accepts(previous_proof, smaller),
            decreases u64::MAX - candidate,
        {
            if proof_accepted(previous_proof, candidate) {
                return Some(candidate);
            }
            if candidate == u64::MAX {
                return None;
            }
            candidate += 1;
        }
    }

    /// The digest of `block`: sixty-four lowercase hexadecimal digits.
    pub fn hash(&self, block: &Block) -> (digest: String)
        ensures
            digest@ == block_digest(block@),
            digest@.len() == 64,
            is_lower_hex(digest@),
    {
        let encoded = encode_block(block);
        let digest = sha256(encoded.as_slice());
        hex_encode(digest.as_slice())
    }

    /// Checks every link of `chain` in one pass from the first block on, and
    /// stops at the first link that does not hold.
    pub fn is_chain_valid(&self, chain: &Vec<Block>) -> (valid: bool)
        requires
            chain@.len() >= 1,
        ensures
            valid == chain_valid(block_views(chain@)),
    {
        let ghost views = block_views(chain@);
        let mut position: usize = 1;
        while position < chain.len()
            invariant
                1 <= position <= chain@.len(),
                views == block_views(chain@),
                forall|i: int| 1 <= i < position ==> link_holds(views[i - 1], #[trigger] views[i]),
            decreases chain@.len() - position,
        {
            let previous = &chain[position - 1];
            let block = &chain[position];
            assert(views[position - 1] == previous@ && views[position as int] == block@);
            let expected = self.hash(previous);
            if !(block.previous_hash == expected) {
                return false;
            }
            if !proof_accepted(previous.proof, block.proof) {
                return false;
            }
            position += 1;
        }
        true
    }

    /// Mines one block on top of the chain: searches for the proof that
    /// follows the last block's proof, takes the last block's digest as the
    /// link, and appends the block made of both. Where no proof exists the
    /// chain stays as it is.
    pub fn mine_block(&mut self) -> (mined: Option<&Block>)
        requires
            1 <= old(self)@.len() < usize::MAX,
        ensures
            match mined {
                Some(block) => {
                    &&& mined_link(old(self)@.last(), block@)
                    &&& block@.index == old(self)@.len() + 1
                    &&& is_decimal(block@.timestamp)
                    &&& final(self)@ == old(self)@.push(block@)
                },
                None => no_proof_exists(old(self)@.last().proof) && final(self)@ == old(self)@,
            },
            well_formed(old(self)@) ==> well_formed(final(self)@),
            chain_valid(old(self)@) ==> chain_valid(final(self)@),
            mined_chain(old(self)@) ==> mined_chain(final(self)@),
    {
        let previous_block = self.get_previous_block();
        match self.proof_of_work(previous_block.proof) {
            Some(proof) => {
                let previous_hash = self.hash(previous_block);
                Some(self.create_block(proof, previous_hash))
            },
            None => None,
        }
    }
}

} // verus!
