//! The block: one record of the chain.

use vstd::prelude::*;

verus! {

/// One record of the chain. A plain value: it is built once and read
/// afterwards.
#[derive(Debug, Clone)]
pub struct Block {
    /// Position in the chain, counted from 1.
    pub index: usize,
    /// Creation instant: milliseconds since the Unix epoch, in decimal.
    pub timestamp: String,
    /// The proof-of-work nonce.
    pub proof: u64,
    /// Digest of the preceding block, in lowercase hexadecimal.
    pub previous_hash: String,
}

/// What a block is to the specifications: its four fields as mathematical
/// values.
pub struct BlockView {
    pub index: nat,
    pub timestamp: Seq<char>,
    pub proof: u64,
    pub previous_hash: Seq<char>,
}

impl View for Block {
    type V = BlockView;

    open spec fn view(&self) -> BlockView {
        BlockView {
            index: self.index as nat,
            timestamp: self.timestamp@,
            proof: self.proof,
            previous_hash: self.previous_hash@,
        }
    }
}

/// The views of a sequence of blocks, in the same order.
pub open spec fn block_views(blocks: Seq<Block>) -> Seq<BlockView> {
    Seq::new(blocks.len(), |i: int| blocks[i]@)
}

/// Whether `block` has the fixed fields of the first block of every chain:
/// index 1, proof 1 and the previous hash `0`.
pub open spec fn is_genesis(block: BlockView) -> bool {
    &&& block.index == 1
    &&& block.proof == 1
    &&& block.previous_hash == seq!['0']
}

} // verus!
