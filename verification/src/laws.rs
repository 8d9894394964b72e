//! What holds of the chain, its digests and its proofs, whatever the blocks.

use crate::block::{is_genesis, Block, BlockView};
use crate::canonical::block_digest;
use crate::chain::{chain_valid, link_holds, mined_chain, mined_link};
use crate::pow::{accepts, is_search_result};
use vstd::prelude::*;

verus! {

/// A search has one outcome: two results of a search after the same proof
/// are the same, be it a nonce or none.
pub proof fn search_result_is_unique(previous_proof: u64, first: Option<u64>, second: Option<u64>)
    requires
        is_search_result(previous_proof, first),
        is_search_result(previous_proof, second),
    ensures
        first == second,
{
}

/// The digest depends on the four fields alone: blocks with equal fields have
/// equal digests.
pub proof fn digest_depends_on_fields_alone(first: Block, second: Block)
    requires
        first@ == second@,
    ensures
        block_digest(first@) == block_digest(second@),
{
}

/// A genesis block alone is a mined chain.
pub proof fn genesis_alone_is_mined(genesis: BlockView)
    requires
        is_genesis(genesis),
    ensures
        mined_chain(seq![genesis]),
{
}

/// Mining on top of a mined chain gives a mined chain.
pub proof fn mining_extends_mined_chain(chain: Seq<BlockView>, block: BlockView)
    requires
        mined_chain(chain),
        mined_link(chain.last(), block),
        block.index == chain.len() + 1,
    ensures
        mined_chain(chain.push(block)),
{
}

/// Mining on top of a valid chain gives a valid chain.
pub proof fn mining_keeps_chain_valid(chain: Seq<BlockView>, block: BlockView)
    requires
        chain.len() >= 1,
        chain_valid(chain),
        mined_link(chain.last(), block),
    ensures
        chain_valid(chain.push(block)),
{
}

/// A chain built by mining alone, from the genesis block on, is valid.
pub proof fn mined_chain_is_valid(chain: Seq<BlockView>)
    requires
        mined_chain(chain),
    ensures
        chain_valid(chain),
{
}

/// A valid chain in which the previous hash of a block after the first is
/// replaced by any other text is no longer valid.
pub proof fn forged_previous_hash_is_detected(
    chain: Seq<BlockView>,
    position: int,
    forged: Seq<char>,
)
    requires
        chain_valid(chain),
        1 <= position < chain.len(),
        forged != chain[position].previous_hash,
    ensures
        !chain_valid(chain.update(position, BlockView { previous_hash: forged, ..chain[position] })),
{
    let tampered = chain.update(position, BlockView { previous_hash: forged, ..chain[position] });
    assert(tampered[position - 1] == chain[position - 1]);
    assert(!link_holds(tampered[position - 1], tampered[position]));
}

/// A valid chain in which a block that has a successor is replaced by one of
/// another digest is no longer valid.
pub proof fn changed_digest_is_detected(
    chain: Seq<BlockView>,
    position: int,
    replacement: BlockView,
)
    requires
        chain_valid(chain),
        0 <= position,
        position + 1 < chain.len(),
        block_digest(replacement) != block_digest(chain[position]),
    ensures
        !chain_valid(chain.update(position, replacement)),
{
    let tampered = chain.update(position, replacement);
    assert(tampered[position + 1] == chain[position + 1]);
    assert(link_holds(chain[position], chain[position + 1]));
    assert(!link_holds(tampered[position], tampered[position + 1]));
}

/// A chain in which the proof of a block is replaced by one that the
/// predicate rejects, after the proof before it or before the proof after it,
/// is not valid.
pub proof fn rejected_proof_is_detected(chain: Seq<BlockView>, position: int, proof: u64)
    requires
        0 <= position < chain.len(),
        ({
            ||| position >= 1 && !accepts(chain[position - 1].proof, proof)
            ||| position + 1 < chain.len() && !accepts(proof, chain[position + 1].proof)
        }),
    ensures
        !chain_valid(chain.update(position, BlockView { proof, ..chain[position] })),
{
    let tampered = chain.update(position, BlockView { proof, ..chain[position] });
    if position >= 1 && !accepts(chain[position - 1].proof, proof) {
        assert(!link_holds(tampered[position - 1], tampered[position]));
    } else {
        assert(!link_holds(tampered[position], tampered[position + 1]));
    }
}

} // verus!
