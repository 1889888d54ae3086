//! Verified storage core for an SD-card-backed block device.
//!
//! One physical SD card is exported as a random-access block device to two
//! alternative consumers: a FAT directory walker running in the main execution
//! context, and a USB mass-storage (SCSI) target driven from an interrupt
//! handler. This crate holds the verified core: the card-presence retry
//! policy, the block-addressed read/write protocol with its error taxonomy,
//! and the critical-section-protected slot that serializes interrupt-driven
//! host commands against the shared device. Hardware access (SDIO bus, GPIO,
//! clocks, USB enumeration) is left to unverified glue around this crate.

mod adapter;
mod block;
mod card;
mod presence;
mod scsi;
mod sim;
mod slot;

pub use adapter::fetch_blocks;
pub use adapter::lemma_write_preserves_rest;
pub use adapter::lemma_write_read_round_trip;
pub use adapter::partial_read;
pub use adapter::partial_write;
pub use adapter::store_blocks;
pub use adapter::DeviceError;
pub use adapter::FsAdapter;
pub use block::block_views;
pub use block::Block;
pub use block::BLOCK_BYTES;
pub use card::Card;
pub use card::CardError;
pub use card::CardLink;
pub use card::ClockClass;
pub use presence::presence_step;
pub use presence::RetryDelay;
pub use presence::StatusIndicator;
pub use scsi::responder_step;
pub use scsi::service_interrupt;
pub use scsi::MassStorageResponder;
pub use scsi::ScsiAdapter;
pub use scsi::ScsiCommand;
pub use scsi::ScsiResponse;
pub use scsi::UsbError;
pub use sim::counter_shows;
pub use sim::CountingIndicator;
pub use sim::InstantDelay;
pub use sim::RamCardLink;
pub use slot::Slot;
