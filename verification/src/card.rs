use vstd::prelude::*;

use crate::block::Block;

verus! {

/// Clock frequency class for the card initialization handshake. The caller
/// picks a ceiling appropriate to the wiring quality of the board.
#[derive(Clone, Copy, Debug, PartialEq, Eq, Structural)]
pub enum ClockClass {
    Mhz8,
    Mhz12,
    Mhz24,
}

/// Transient card-level failures. None of these is fatal: the presence loop
/// retries initialization indefinitely, and a failure during a block
/// transfer fails only that transfer.
#[derive(Clone, Copy, Debug, PartialEq, Eq, Structural)]
pub enum CardError {
    /// The card did not answer the handshake.
    NoResponse,
    /// A bus transaction timed out.
    Timeout,
    /// A checksum did not match during a transfer.
    Crc,
    /// The card rejected the negotiated voltage.
    UnsupportedVoltage,
}

/// A successfully initialized card, reduced to the attribute the block
/// protocol needs: how many 512-byte blocks it can address.
#[derive(Clone, Copy, Debug, PartialEq, Eq, Structural)]
pub struct Card {
    pub block_count: u32,
}

/// Ownership of the physical bus lines and the card-presence signal.
///
/// The model exposed to contracts: whether a card is currently initialized
/// (`present`), the card's blocks (`content`), and how many bus transactions
/// of each kind have been issued (`reads_issued`, `writes_issued`,
/// `init_attempts`). The transaction counts let callers state that an
/// operation performed no bus traffic at all.
///
/// A deliberate contract choice, documented here because hardware cannot be
/// held to it by proof: a failed `read_block` leaves the caller's buffer
/// unchanged, and a failed `write_block` disturbs no block other than the
/// addressed one. The RAM-backed link in this crate satisfies both by
/// construction; a hardware implementation must buffer accordingly.
///
/// The model functions carry placeholder default bodies so that an
/// implementation outside the verifier's view — the SDIO-backed hardware
/// link — can be written without one. Every implementation the verifier
/// checks overrides them; what is proved about an unchecked implementation
/// is exactly nothing.
pub trait CardLink: Sized {
    /// Whether a card has been successfully initialized and is usable.
    open spec fn present(&self) -> bool {
        false
    }

    /// The card's contents, one 512-byte sequence per block.
    open spec fn content(&self) -> Seq<Seq<u8>> {
        Seq::empty()
    }

    /// Number of block-read bus transactions issued so far.
    open spec fn reads_issued(&self) -> nat {
        0
    }

    /// Number of block-write bus transactions issued so far.
    open spec fn writes_issued(&self) -> nat {
        0
    }

    /// Number of initialization handshakes attempted so far.
    open spec fn init_attempts(&self) -> nat {
        0
    }

    /// Well-formedness of the link state.
    open spec fn inv(&self) -> bool {
        true
    }

    /// Attempt the initialization handshake at the requested clock class.
    /// Failure is transient: nothing but the attempt count changes, and the
    /// caller is free to retry.
    fn init(&mut self, clock: ClockClass) -> (r: Result<(), CardError>)
        requires
            old(self).inv(),
        ensures
            final(self).inv(),
            final(self).init_attempts() == old(self).init_attempts() + 1,
            final(self).reads_issued() == old(self).reads_issued(),
            final(self).writes_issued() == old(self).writes_issued(),
            final(self).content() == old(self).content(),
            r is Ok ==> final(self).present(),
    ;

    /// The initialized card, or an error if no card is present. Issues no
    /// bus transaction. A present card addresses at least one block and at
    /// most `u32::MAX`.
    fn card(&self) -> (r: Result<Card, CardError>)
        requires
            self.inv(),
        ensures
            r is Ok <==> self.present(),
            r matches Ok(card) ==> card.block_count == self.content().len() && card.block_count
                >= 1,
    ;

    /// One block-read bus transaction. On success the addressed block is
    /// copied into `out`; on failure `out` is unchanged. Either way exactly
    /// one read transaction is issued and the card is undisturbed.
    fn read_block(&mut self, addr: u32, out: &mut Block) -> (r: Result<(), CardError>)
        requires
            old(self).inv(),
            old(self).present(),
            addr < old(self).content().len(),
        ensures
            final(self).inv(),
            final(self).present(),
            final(self).content() == old(self).content(),
            final(self).reads_issued() == old(self).reads_issued() + 1,
            final(self).writes_issued() == old(self).writes_issued(),
            final(self).init_attempts() == old(self).init_attempts(),
            r is Ok ==> final(out)@ == old(self).content()[addr as int],
            r is Err ==> final(out)@ == old(out)@,
    ;

    /// One block-write bus transaction. On success the addressed block now
    /// holds `data`; on failure every block other than the addressed one is
    /// undisturbed. Either way exactly one write transaction is issued.
    fn write_block(&mut self, addr: u32, data: &Block) -> (r: Result<(), CardError>)
        requires
            old(self).inv(),
            old(self).present(),
            addr < old(self).content().len(),
        ensures
            final(self).inv(),
            final(self).present(),
            final(self).content().len() == old(self).content().len(),
            final(self).writes_issued() == old(self).writes_issued() + 1,
            final(self).reads_issued() == old(self).reads_issued(),
            final(self).init_attempts() == old(self).init_attempts(),
            r is Ok ==> final(self).content() == old(self).content().update(
                addr as int,
                data@,
            ),
            r is Err ==> forall|i: int|
                0 <= i < old(self).content().len() && i != addr ==> final(self).content()[i]
                    == old(self).content()[i],
    ;
}

} // verus!
