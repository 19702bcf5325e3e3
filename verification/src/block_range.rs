//! Half-open spans of ledger blocks.

use vstd::prelude::*;

verus! {

/// The half-open span `[start_block, end_block)` of ledger blocks.
#[derive(Clone, Copy, Debug, PartialEq, Eq, Structural)]
pub struct BlockRange {
    /// First block of the span.
    pub start_block: u64,
    /// First block past the span.
    pub end_block: u64,
}

impl BlockRange {
    /// A span is valid when it holds at least one block.
    pub open spec fn valid(self) -> bool {
        self.end_block > self.start_block
    }

    /// Whether the block with this index lies in the span.
    pub open spec fn spec_contains(self, block: u64) -> bool {
        self.start_block <= block < self.end_block
    }

    /// The span from `start_block` up to, and without, `end_block`.
    pub fn new(start_block: u64, end_block: u64) -> (r: BlockRange)
        ensures
            r.start_block == start_block,
            r.end_block == end_block,
    {
        BlockRange { start_block, end_block }
    }

    /// Tells whether the span holds at least one block.
    pub fn is_valid(&self) -> (b: bool)
        ensures
            b == self.valid(),
    {
        self.end_block > self.start_block
    }

    /// Tells whether `block` lies in the span.
    pub fn contains(&self, block: u64) -> (b: bool)
        ensures
            b == self.spec_contains(block),
    {
        self.start_block <= block && block < self.end_block
    }
}

} // verus!
