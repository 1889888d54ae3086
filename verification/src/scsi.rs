use vstd::prelude::*;

use crate::block::Block;
use crate::card::CardLink;
use crate::slot::Slot;

verus! {

/// The mass-storage error vocabulary reported upstream to the USB host.
#[derive(Clone, Copy, Debug, PartialEq, Eq, Structural)]
pub enum UsbError {
    /// The logical block address lies beyond the card's last block, or no
    /// card is present. Reported before any bus transaction.
    InvalidAddress,
    /// A read transaction failed on the bus.
    HardwareError,
    /// A write transaction failed on the bus.
    WriteError,
}

/// The SCSI-facing block device adapter: single 512-byte block reads and
/// writes plus an error-free capacity query, over an exclusively owned card
/// link. Addresses pass through unchanged; every call is one bus
/// transaction.
pub struct ScsiAdapter<L: CardLink> {
    link: L,
}

impl<L: CardLink> ScsiAdapter<L> {
    /// Adapter well-formedness: the underlying link is well formed.
    pub closed spec fn wf(&self) -> bool {
        self.link.inv()
    }

    /// Whether a card is present.
    pub closed spec fn present(&self) -> bool {
        self.link.present()
    }

    /// The card's blocks.
    pub closed spec fn content(&self) -> Seq<Seq<u8>> {
        self.link.content()
    }

    /// Read transactions issued on the bus so far.
    pub closed spec fn reads_issued(&self) -> nat {
        self.link.reads_issued()
    }

    /// Write transactions issued on the bus so far.
    pub closed spec fn writes_issued(&self) -> nat {
        self.link.writes_issued()
    }

    /// Wrap a card link. The adapter takes exclusive ownership: all block
    /// traffic for this card goes through this adapter from now on.
    pub fn new(link: L) -> (r: Self)
        requires
            link.inv(),
        ensures
            r.wf(),
            r.present() == link.present(),
            r.content() == link.content(),
            r.reads_issued() == link.reads_issued(),
            r.writes_issued() == link.writes_issued(),
    {
        ScsiAdapter { link }
    }

    /// Give the card link back, ending the adapter's ownership.
    pub fn release(self) -> (r: L)
        requires
            self.wf(),
        ensures
            r.inv(),
            r.present() == self.present(),
            r.content() == self.content(),
            r.reads_issued() == self.reads_issued(),
            r.writes_issued() == self.writes_issued(),
    {
        self.link
    }

    /// The highest addressable logical block: `block_count - 1` when a card
    /// is present, and `0` when none has ever been initialized. The SCSI
    /// capacity query has no error channel, so an absent card degrades to a
    /// one-block device instead of failing; this keeps the USB enumeration
    /// path non-blocking. Never an error, never a panic, and no bus
    /// transaction.
    pub fn max_lba(&self) -> (r: u32)
        requires
            self.wf(),
        ensures
            self.present() ==> r == self.content().len() - 1,
            !self.present() ==> r == 0,
    {
        match self.link.card() {
            Ok(card) => card.block_count - 1,
            Err(_) => 0,
        }
    }

    /// Read the block at `lba` into `out`.
    ///
    /// An address at or beyond the block count — in particular any address
    /// when no card is present — is rejected as `InvalidAddress` with no
    /// bus traffic. Otherwise exactly one read transaction is issued; a bus
    /// failure is reported as `HardwareError` and leaves `out` untouched.
    pub fn read_block(&mut self, lba: u32, out: &mut Block) -> (r: Result<(), UsbError>)
        requires
            old(self).wf(),
        ensures
            final(self).wf(),
            !old(self).present() || lba >= old(self).content().len() ==> {
                &&& r matches Err(UsbError::InvalidAddress)
                &&& *final(self) == *old(self)
                &&& *final(out) == *old(out)
            },
            old(self).present() && lba < old(self).content().len() ==> {
                &&& final(self).present()
                &&& final(self).content() == old(self).content()
                &&& final(self).writes_issued() == old(self).writes_issued()
                &&& final(self).reads_issued() == old(self).reads_issued() + 1
                &&& match r {
                    Ok(()) => final(out)@ == old(self).content()[lba as int],
                    Err(e) => e == UsbError::HardwareError && final(out)@ == old(out)@,
                }
            },
    {
        let card = match self.link.card() {
            Ok(card) => card,
            Err(_) => {
                return Err(UsbError::InvalidAddress);
            },
        };
        if lba >= card.block_count {
            return Err(UsbError::InvalidAddress);
        }
        match self.link.read_block(lba, out) {
            Ok(()) => Ok(()),
            Err(_) => Err(UsbError::HardwareError),
        }
    }

    /// Write `data` to the block at `lba`.
    ///
    /// An address at or beyond the block count — in particular any address
    /// when no card is present — is rejected as `InvalidAddress` with no
    /// bus traffic. Otherwise exactly one write transaction is issued; a
    /// bus failure is reported as `WriteError` and disturbs no block other
    /// than the addressed one.
    pub fn write_block(&mut self, lba: u32, data: &Block) -> (r: Result<(), UsbError>)
        requires
            old(self).wf(),
        ensures
            final(self).wf(),
            !old(self).present() || lba >= old(self).content().len() ==> {
                &&& r matches Err(UsbError::InvalidAddress)
                &&& *final(self) == *old(self)
            },
            old(self).present() && lba < old(self).content().len() ==> {
                &&& final(self).present()
                &&& final(self).content().len() == old(self).content().len()
                &&& final(self).reads_issued() == old(self).reads_issued()
                &&& final(self).writes_issued() == old(self).writes_issued() + 1
                &&& match r {
                    Ok(()) => final(self).content() == old(self).content().update(
                        lba as int,
                        data@,
                    ),
                    Err(e) => e == UsbError::WriteError && forall|i: int|
                        0 <= i < old(self).content().len() && i != lba
                            ==> final(self).content()[i] == old(self).content()[i],
                }
            },
    {
        let card = match self.link.card() {
            Ok(card) => card,
            Err(_) => {
                return Err(UsbError::InvalidAddress);
            },
        };
        if lba >= card.block_count {
            return Err(UsbError::InvalidAddress);
        }
        match self.link.write_block(lba, data) {
            Ok(()) => Ok(()),
            Err(_) => Err(UsbError::WriteError),
        }
    }
}

/// One decoded SCSI block command, as the USB stack hands it to the
/// responder.
#[derive(Clone, Copy)]
pub enum ScsiCommand {
    /// Read the block at this logical block address.
    ReadBlock(u32),
    /// Write this data to the block at this logical block address.
    WriteBlock(u32, Block),
    /// Report the highest addressable logical block.
    QueryMaxLba,
}

/// The responder's answer to one SCSI block command.
#[derive(Clone, Copy)]
pub enum ScsiResponse {
    /// The requested block's contents.
    Data(Block),
    /// The write completed.
    WriteDone,
    /// The highest addressable logical block.
    MaxLba(u32),
    /// The command failed; the responder stays serviceable.
    Failed(UsbError),
}

/// The mass-storage responder: it owns the SCSI-facing adapter and answers
/// one decoded host command at a time from inside the interrupt handler.
pub struct MassStorageResponder<L: CardLink> {
    adapter: ScsiAdapter<L>,
}

/// How one serviced command relates the responder's state before (`pre`)
/// and after (`post`) and its answer `r`: the exact error translation of
/// the mass-storage path. An out-of-range or cardless request answers
/// `InvalidAddress` and changes nothing; an in-range read answers the
/// card's data or `HardwareError`; an in-range write updates the card and
/// answers `WriteDone`, or answers `WriteError` disturbing no other block.
pub open spec fn responder_step<L: CardLink>(
    pre: MassStorageResponder<L>,
    post: MassStorageResponder<L>,
    cmd: ScsiCommand,
    r: ScsiResponse,
) -> bool {
    match cmd {
        ScsiCommand::QueryMaxLba => {
            &&& post == pre
            &&& r == ScsiResponse::MaxLba(
                if pre.present() {
                    (pre.content().len() - 1) as u32
                } else {
                    0u32
                },
            )
        },
        ScsiCommand::ReadBlock(lba) => {
            if !pre.present() || lba >= pre.content().len() {
                r == ScsiResponse::Failed(UsbError::InvalidAddress) && post == pre
            } else {
                &&& post.present()
                &&& post.content() == pre.content()
                &&& post.writes_issued() == pre.writes_issued()
                &&& post.reads_issued() == pre.reads_issued() + 1
                &&& match r {
                    ScsiResponse::Data(b) => b@ == pre.content()[lba as int],
                    ScsiResponse::Failed(e) => e == UsbError::HardwareError,
                    _ => false,
                }
            }
        },
        ScsiCommand::WriteBlock(lba, data) => {
            if !pre.present() || lba >= pre.content().len() {
                r == ScsiResponse::Failed(UsbError::InvalidAddress) && post == pre
            } else {
                &&& post.present()
                &&& post.content().len() == pre.content().len()
                &&& post.reads_issued() == pre.reads_issued()
                &&& post.writes_issued() == pre.writes_issued() + 1
                &&& match r {
                    ScsiResponse::WriteDone => post.content() == pre.content().update(
                        lba as int,
                        data@,
                    ),
                    ScsiResponse::Failed(e) => e == UsbError::WriteError && forall|i: int|
                        0 <= i < pre.content().len() && i != lba ==> post.content()[i]
                            == pre.content()[i],
                    _ => false,
                }
            }
        },
    }
}

impl<L: CardLink> MassStorageResponder<L> {
    /// Responder well-formedness: its adapter is well formed.
    pub closed spec fn wf(&self) -> bool {
        self.adapter.wf()
    }

    /// Whether a card is present.
    pub closed spec fn present(&self) -> bool {
        self.adapter.present()
    }

    /// The card's blocks.
    pub closed spec fn content(&self) -> Seq<Seq<u8>> {
        self.adapter.content()
    }

    /// Read transactions issued on the bus so far.
    pub closed spec fn reads_issued(&self) -> nat {
        self.adapter.reads_issued()
    }

    /// Write transactions issued on the bus so far.
    pub closed spec fn writes_issued(&self) -> nat {
        self.adapter.writes_issued()
    }

    /// Build the responder around the adapter it will answer from.
    pub fn new(adapter: ScsiAdapter<L>) -> (r: Self)
        requires
            adapter.wf(),
        ensures
            r.wf(),
            r.present() == adapter.present(),
            r.content() == adapter.content(),
            r.reads_issued() == adapter.reads_issued(),
            r.writes_issued() == adapter.writes_issued(),
    {
        MassStorageResponder { adapter }
    }

    /// Give the adapter back, ending the responder's ownership.
    pub fn release(self) -> (r: ScsiAdapter<L>)
        requires
            self.wf(),
        ensures
            r.wf(),
            r.present() == self.present(),
            r.content() == self.content(),
            r.reads_issued() == self.reads_issued(),
            r.writes_issued() == self.writes_issued(),
    {
        self.adapter
    }

    /// Answer one decoded host command. A failed block transfer fails only
    /// that one command: the responder stays well formed and serviceable,
    /// and never panics or halts the handler.
    pub fn handle(&mut self, cmd: ScsiCommand) -> (r: ScsiResponse)
        requires
            old(self).wf(),
        ensures
            final(self).wf(),
            responder_step(*old(self), *final(self), cmd, r),
    {
        match cmd {
            ScsiCommand::QueryMaxLba => ScsiResponse::MaxLba(self.adapter.max_lba()),
            ScsiCommand::ReadBlock(lba) => {
                let mut b = Block::zeroed();
                match self.adapter.read_block(lba, &mut b) {
                    Ok(()) => ScsiResponse::Data(b),
                    Err(e) => ScsiResponse::Failed(e),
                }
            },
            ScsiCommand::WriteBlock(lba, data) => {
                match self.adapter.write_block(lba, &data) {
                    Ok(()) => ScsiResponse::WriteDone,
                    Err(e) => ScsiResponse::Failed(e),
                }
            },
        }
    }
}

/// The transition the interrupt handler makes on one firing, inside one
/// critical section that checks both slot entries out together.
///
/// If the slot was never populated, or polling the USB device reported no
/// pending work (`pending` is `None`), nothing happens: no block I/O is
/// attempted and the slot's entries are untouched. If work was decoded, the
/// responder answers it and the outcome is returned. Either way both
/// entries are back in the slot when the function returns, so the critical
/// section never ends with the slot half-populated.
pub fn service_interrupt<U, L: CardLink>(
    slot: &mut Slot<U, MassStorageResponder<L>>,
    pending: Option<ScsiCommand>,
) -> (r: Option<ScsiResponse>)
    requires
        (old(slot).stored() matches Some(p) ==> p.1.wf()),
    ensures
        old(slot).stored() is None ==> {
            &&& r is None
            &&& final(slot).stored() is None
        },
        old(slot).stored() matches Some(p) ==> {
            &&& final(slot).stored() matches Some(q) && q.0 == p.0 && q.1.wf() && match pending {
                None => q.1 == p.1 && r is None,
                Some(cmd) => r matches Some(resp) && responder_step(p.1, q.1, cmd, resp),
            }
        },
{
    let checked_out = slot.begin_service();
    match checked_out {
        None => None,
        Some((device, mut responder)) => {
            let outcome = match pending {
                None => None,
                Some(cmd) => Some(responder.handle(cmd)),
            };
            let put_back = slot.install(device, responder);
            proof {
                assert(put_back is Ok);
            }
            outcome
        },
    }
}

} // verus!
