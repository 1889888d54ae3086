use vstd::prelude::*;

use crate::block::{block_views, Block};
use crate::card::{CardError, CardLink};

verus! {

/// Errors of the filesystem-facing adapter.
#[derive(Clone, Copy, Debug, PartialEq, Eq, Structural)]
pub enum DeviceError {
    /// The requested range reaches beyond the card's last block. Reported
    /// before any bus transaction is attempted.
    OutOfRange,
    /// No card has been successfully initialized.
    NoCard,
    /// A bus transaction failed mid-operation; the batch was aborted.
    Card(CardError),
}

/// The blocks `content[start .. start + n]` of a card image.
pub open spec fn fetch_blocks(content: Seq<Seq<u8>>, start: int, n: int) -> Seq<Seq<u8>> {
    content.subrange(start, start + n)
}

/// The card image after writing `data` at consecutive addresses beginning
/// at `start`.
pub open spec fn store_blocks(content: Seq<Seq<u8>>, start: int, data: Seq<Seq<u8>>) -> Seq<
    Seq<u8>,
> {
    Seq::new(
        content.len(),
        |i: int|
            if start <= i < start + data.len() {
                data[i - start]
            } else {
                content[i]
            },
    )
}

/// What a batch read that failed at batch index `k` leaves in the caller's
/// buffers: the first `k` buffers hold the card's blocks, the rest are
/// untouched. There is no rollback; the operation is not transactional.
pub open spec fn partial_read(
    before: Seq<Block>,
    after: Seq<Block>,
    content: Seq<Seq<u8>>,
    start: int,
    k: int,
) -> bool {
    &&& forall|i: int| 0 <= i < k ==> (#[trigger] after[i])@ == content[start + i]
    &&& forall|i: int| k <= i < before.len() ==> after[i] == before[i]
}

/// What a batch write that failed at batch index `k` leaves on the card:
/// the first `k` blocks of the range hold the new data, blocks outside the
/// addressed prefix are untouched, and the block the failure hit is in an
/// unspecified state. There is no rollback.
pub open spec fn partial_write(
    before: Seq<Seq<u8>>,
    after: Seq<Seq<u8>>,
    start: int,
    data: Seq<Seq<u8>>,
    k: int,
) -> bool {
    &&& after.len() == before.len()
    &&& forall|i: int| 0 <= i < k ==> after[start + i] == data[i]
    &&& forall|i: int|
        0 <= i < before.len() && !(start <= i <= start + k) ==> after[i] == before[i]
}

/// Round-trip law: over any card image, writing a batch of blocks and then
/// reading the same range back yields exactly the written data.
pub proof fn lemma_write_read_round_trip(content: Seq<Seq<u8>>, start: int, data: Seq<Seq<u8>>)
    requires
        0 <= start,
        start + data.len() <= content.len(),
    ensures
        fetch_blocks(store_blocks(content, start, data), start, data.len() as int) == data,
{
    assert(fetch_blocks(store_blocks(content, start, data), start, data.len() as int) =~= data);
}

/// Blocks outside a written range are unaffected by the write.
pub proof fn lemma_write_preserves_rest(content: Seq<Seq<u8>>, start: int, data: Seq<Seq<u8>>)
    requires
        0 <= start,
        start + data.len() <= content.len(),
    ensures
        forall|i: int|
            0 <= i < content.len() && !(start <= i < start + data.len()) ==> (
            #[trigger] store_blocks(content, start, data)[i]) == content[i],
{
}

/// The filesystem-facing block device adapter: batched reads and writes of
/// consecutive blocks plus a capacity query, over an exclusively owned card
/// link. Addresses are passed through unchanged to the card protocol, one
/// block per protocol unit; there is no remapping and no caching.
pub struct FsAdapter<L: CardLink> {
    link: L,
}

impl<L: CardLink> FsAdapter<L> {
    /// Adapter well-formedness: the underlying link is well formed.
    pub closed spec fn wf(&self) -> bool {
        self.link.inv()
    }

    /// Whether a card is present.
    pub closed spec fn present(&self) -> bool {
        self.link.present()
    }

    /// The card's blocks.
    pub closed spec fn content(&self) -> Seq<Seq<u8>> {
        self.link.content()
    }

    /// Read transactions issued on the bus so far.
    pub closed spec fn reads_issued(&self) -> nat {
        self.link.reads_issued()
    }

    /// Write transactions issued on the bus so far.
    pub closed spec fn writes_issued(&self) -> nat {
        self.link.writes_issued()
    }

    /// Wrap a card link. The adapter takes exclusive ownership: all block
    /// traffic for this card goes through this adapter from now on.
    pub fn new(link: L) -> (r: Self)
        requires
            link.inv(),
        ensures
            r.wf(),
            r.present() == link.present(),
            r.content() == link.content(),
            r.reads_issued() == link.reads_issued(),
            r.writes_issued() == link.writes_issued(),
    {
        FsAdapter { link }
    }

    /// Give the card link back, ending the adapter's ownership.
    pub fn release(self) -> (r: L)
        requires
            self.wf(),
        ensures
            r.inv(),
            r.present() == self.present(),
            r.content() == self.content(),
            r.reads_issued() == self.reads_issued(),
            r.writes_issued() == self.writes_issued(),
    {
        self.link
    }

    /// The card's block count. Fails exactly when no card has been
    /// initialized; issues no bus transaction.
    pub fn capacity(&self) -> (r: Result<u32, DeviceError>)
        requires
            self.wf(),
        ensures
            r is Ok <==> self.present(),
            r matches Ok(n) ==> n == self.content().len(),
            r is Err ==> r matches Err(DeviceError::NoCard),
    {
        match self.link.card() {
            Ok(card) => Ok(card.block_count),
            Err(_) => Err(DeviceError::NoCard),
        }
    }

    /// Read `blocks.len()` consecutive blocks beginning at `start`, fully
    /// overwriting each buffer in turn. `_reason` tags the request for
    /// tracing and has no effect.
    ///
    /// A request without a card, or reaching past the last block, is
    /// rejected before any bus traffic. If block `k` of the batch fails on
    /// the bus, the operation aborts: buffers before `k` already hold card
    /// data, buffers from `k` on are untouched, and exactly `k + 1` read
    /// transactions were issued. Nothing is rolled back.
    pub fn read(&mut self, blocks: &mut Vec<Block>, start: u32, _reason: &str) -> (r: Result<
        (),
        DeviceError,
    >)
        requires
            old(self).wf(),
        ensures
            final(self).wf(),
            final(self).present() == old(self).present(),
            final(self).content() == old(self).content(),
            final(self).writes_issued() == old(self).writes_issued(),
            final(blocks)@.len() == old(blocks)@.len(),
            !old(self).present() ==> {
                &&& r matches Err(DeviceError::NoCard)
                &&& final(self).reads_issued() == old(self).reads_issued()
                &&& final(blocks)@ == old(blocks)@
            },
            old(self).present() && start + old(blocks)@.len() > old(self).content().len()
                ==> {
                &&& r matches Err(DeviceError::OutOfRange)
                &&& final(self).reads_issued() == old(self).reads_issued()
                &&& final(blocks)@ == old(blocks)@
            },
            old(self).present() && start + old(blocks)@.len() <= old(self).content().len()
                ==> match r {
                Ok(()) => {
                    &&& block_views(final(blocks)@) == fetch_blocks(
                        old(self).content(),
                        start as int,
                        old(blocks)@.len() as int,
                    )
                    &&& final(self).reads_issued() == old(self).reads_issued() + old(
                        blocks,
                    )@.len()
                },
                Err(e) => {
                    &&& e matches DeviceError::Card(_)
                    &&& exists|k: int|
                        0 <= k < old(blocks)@.len() && #[trigger] partial_read(
                            old(blocks)@,
                            final(blocks)@,
                            old(self).content(),
                            start as int,
                            k,
                        ) && final(self).reads_issued() == old(self).reads_issued() + k + 1
                },
            },
    {
        let card = match self.link.card() {
            Ok(card) => card,
            Err(_) => {
                return Err(DeviceError::NoCard);
            },
        };
        let n = blocks.len();
        if start > card.block_count || n as u64 > (card.block_count - start) as u64 {
            return Err(DeviceError::OutOfRange);
        }
        let mut idx: usize = 0;
        while idx < n
            invariant
                old(self).wf(),
                old(self).present(),
                idx <= n,
                n == blocks@.len(),
                blocks@.len() == old(blocks)@.len(),
                start + n <= old(self).content().len(),
                old(self).content().len() <= u32::MAX,
                self.wf(),
                self.present(),
                self.content() == old(self).content(),
                self.writes_issued() == old(self).writes_issued(),
                self.reads_issued() == old(self).reads_issued() + idx,
                forall|i: int|
                    0 <= i < idx ==> (#[trigger] blocks@[i])@ == old(self).content()[start + i],
                forall|i: int| idx <= i < n ==> blocks@[i] == old(blocks)@[i],
            decreases n - idx,
        {
            let addr = start + idx as u32;
            let mut b = blocks[idx];
            match self.link.read_block(addr, &mut b) {
                Ok(()) => {
                    blocks[idx] = b;
                },
                Err(e) => {
                    proof {
                        assert(partial_read(
                            old(blocks)@,
                            blocks@,
                            old(self).content(),
                            start as int,
                            idx as int,
                        ));
                    }
                    return Err(DeviceError::Card(e));
                },
            }
            idx = idx + 1;
        }
        proof {
            assert(block_views(blocks@) =~= fetch_blocks(
                old(self).content(),
                start as int,
                n as int,
            ));
        }
        Ok(())
    }

    /// Write `blocks.len()` consecutive blocks beginning at `start`, one
    /// single-block bus write per block, advancing the address by one each
    /// time.
    ///
    /// A request without a card, or reaching past the last block, is
    /// rejected before any bus traffic. If block `k` of the batch fails on
    /// the bus, the operation aborts: the first `k` blocks of the range
    /// already hold the new data, blocks outside the attempted prefix are
    /// untouched, and exactly `k + 1` write transactions were issued.
    /// Nothing is rolled back.
    pub fn write(&mut self, blocks: &Vec<Block>, start: u32) -> (r: Result<(), DeviceError>)
        requires
            old(self).wf(),
        ensures
            final(self).wf(),
            final(self).present() == old(self).present(),
            final(self).content().len() == old(self).content().len(),
            final(self).reads_issued() == old(self).reads_issued(),
            !old(self).present() ==> {
                &&& r matches Err(DeviceError::NoCard)
                &&& final(self).writes_issued() == old(self).writes_issued()
                &&& final(self).content() == old(self).content()
            },
            old(self).present() && start + blocks@.len() > old(self).content().len() ==> {
                &&& r matches Err(DeviceError::OutOfRange)
                &&& final(self).writes_issued() == old(self).writes_issued()
                &&& final(self).content() == old(self).content()
            },
            old(self).present() && start + blocks@.len() <= old(self).content().len()
                ==> match r {
                Ok(()) => {
                    &&& final(self).content() == store_blocks(
                        old(self).content(),
                        start as int,
                        block_views(blocks@),
                    )
                    &&& final(self).writes_issued() == old(self).writes_issued()
                        + blocks@.len()
                },
                Err(e) => {
                    &&& e matches DeviceError::Card(_)
                    &&& exists|k: int|
                        0 <= k < blocks@.len() && #[trigger] partial_write(
                            old(self).content(),
                            final(self).content(),
                            start as int,
                            block_views(blocks@),
                            k,
                        ) && final(self).writes_issued() == old(self).writes_issued() + k + 1
                },
            },
    {
        let card = match self.link.card() {
            Ok(card) => card,
            Err(_) => {
                return Err(DeviceError::NoCard);
            },
        };
        let n = blocks.len();
        if start > card.block_count || n as u64 > (card.block_count - start) as u64 {
            return Err(DeviceError::OutOfRange);
        }
        let mut idx: usize = 0;
        while idx < n
            invariant
                old(self).wf(),
                old(self).present(),
                idx <= n,
                n == blocks@.len(),
                start + n <= old(self).content().len(),
                old(self).content().len() <= u32::MAX,
                self.wf(),
                self.present(),
                self.content().len() == old(self).content().len(),
                self.reads_issued() == old(self).reads_issued(),
                self.writes_issued() == old(self).writes_issued() + idx,
                forall|i: int|
                    0 <= i < idx ==> #[trigger] self.content()[start + i] == block_views(
                        blocks@,
                    )[i],
                forall|i: int|
                    0 <= i < old(self).content().len() && !(start <= i < start + idx)
                        ==> #[trigger] self.content()[i] == old(self).content()[i],
            decreases n - idx,
        {
            let addr = start + idx as u32;
            match self.link.write_block(addr, &blocks[idx]) {
                Ok(()) => {},
                Err(e) => {
                    proof {
                        assert(partial_write(
                            old(self).content(),
                            self.content(),
                            start as int,
                            block_views(blocks@),
                            idx as int,
                        ));
                    }
                    return Err(DeviceError::Card(e));
                },
            }
            idx = idx + 1;
        }
        proof {
            let stored = store_blocks(old(self).content(), start as int, block_views(blocks@));
            assert forall|i: int| 0 <= i < self.content().len() implies self.content()[i]
                == stored[i] by {
                if start <= i < start + n {
                    let j = i - start;
                    assert(self.content()[start + j] == block_views(blocks@)[j]);
                }
            }
            assert(self.content() =~= stored);
        }
        Ok(())
    }
}

} // verus!
