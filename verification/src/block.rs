use vstd::prelude::*;

verus! {

/// Size of one storage block in bytes. The card protocol transfers whole
/// blocks only; no partial-block operation exists anywhere in this crate.
pub const BLOCK_BYTES: usize = 512;

/// One block's contents: a fixed 512-byte buffer.
#[derive(Clone, Copy)]
pub struct Block {
    pub contents: [u8; 512],
}

impl View for Block {
    type V = Seq<u8>;

    open spec fn view(&self) -> Seq<u8> {
        self.contents@
    }
}

impl Block {
    /// A block with every byte zero.
    pub fn zeroed() -> (b: Block)
        ensures
            b@ == Seq::<u8>::new(512, |i: int| 0u8),
    {
        let b = Block { contents: [0u8; 512] };
        proof {
            assert(b@ =~= Seq::<u8>::new(512, |i: int| 0u8));
        }
        b
    }

    /// A block holding the given bytes.
    pub fn from_bytes(contents: [u8; 512]) -> (b: Block)
        ensures
            b@ == contents@,
    {
        Block { contents }
    }
}

/// The views of a sequence of blocks, one byte sequence per block.
pub open spec fn block_views(blocks: Seq<Block>) -> Seq<Seq<u8>> {
    blocks.map(|i: int, b: Block| b@)
}

} // verus!
