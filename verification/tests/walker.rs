use std::cell::RefCell;

use embedded_sdmmc::Block as FatBlock;
use embedded_sdmmc::BlockCount;
use embedded_sdmmc::BlockDevice;
use embedded_sdmmc::BlockIdx;
use embedded_sdmmc::Controller;
use embedded_sdmmc::TimeSource;
use embedded_sdmmc::Timestamp;
use embedded_sdmmc::VolumeIdx;

use feather_f405::Block;
use feather_f405::CardLink;
use feather_f405::ClockClass;
use feather_f405::DeviceError;
use feather_f405::FsAdapter;
use feather_f405::RamCardLink;

/// The directory walker only hands out shared references to its block
/// device, so the adapter sits in a single-writer cell, exactly as on the
/// board.
struct Storage {
    adapter: RefCell<FsAdapter<RamCardLink>>,
}

impl BlockDevice for Storage {
    type Error = DeviceError;

    fn read(
        &self,
        blocks: &mut [FatBlock],
        start: BlockIdx,
        reason: &str,
    ) -> Result<(), DeviceError> {
        let mut ours = vec![Block::zeroed(); blocks.len()];
        self.adapter.borrow_mut().read(&mut ours, start.0, reason)?;
        for (dst, src) in blocks.iter_mut().zip(ours.iter()) {
            dst.contents = src.contents;
        }
        Ok(())
    }

    fn write(&self, blocks: &[FatBlock], start: BlockIdx) -> Result<(), DeviceError> {
        let ours: Vec<Block> = blocks.iter().map(|b| Block { contents: b.contents }).collect();
        self.adapter.borrow_mut().write(&ours, start.0)
    }

    fn num_blocks(&self) -> Result<BlockCount, DeviceError> {
        Ok(BlockCount(self.adapter.borrow().capacity()?))
    }
}

/// File metadata gets a fixed epoch timestamp; wall-clock time is out of
/// scope for the storage core.
struct EpochTime;

impl TimeSource for EpochTime {
    fn get_timestamp(&self) -> Timestamp {
        Timestamp::from_fat(0, 0)
    }
}

/// A 1024-block card image holding one FAT16 volume: a master boot record,
/// a blank boot-parameter block region, and a root directory with two
/// entries. Every other byte carries a fixed pattern.
fn fat16_card_image() -> Vec<Block> {
    let mut image = vec![Block { contents: [0xB6; 512] }; 1024];

    // Master boot record: one non-bootable FAT16 partition starting at
    // block 1 and covering the rest of the card.
    let mut mbr = [0u8; 512];
    mbr[446] = 0x00;
    mbr[446 + 4] = 0x06;
    mbr[446 + 8..446 + 12].copy_from_slice(&1u32.to_le_bytes());
    mbr[446 + 12..446 + 16].copy_from_slice(&1023u32.to_le_bytes());
    mbr[510] = 0x55;
    mbr[511] = 0xAA;
    image[0].contents = mbr;

    // Boot parameter block: 512-byte blocks, one block per cluster, one
    // reserved block, two FATs of 16 blocks each, 32 root entries. The
    // cluster count lands in the FAT16 range.
    let mut bpb = [0u8; 512];
    bpb[11..13].copy_from_slice(&512u16.to_le_bytes());
    bpb[13] = 1;
    bpb[14..16].copy_from_slice(&1u16.to_le_bytes());
    bpb[16] = 2;
    bpb[17..19].copy_from_slice(&32u16.to_le_bytes());
    bpb[21] = 0xF8;
    bpb[22..24].copy_from_slice(&16u16.to_le_bytes());
    bpb[32..36].copy_from_slice(&4200u32.to_le_bytes());
    bpb[43..54].copy_from_slice(b"STORAGECARD");
    bpb[510] = 0x55;
    bpb[511] = 0xAA;
    image[1].contents = bpb;

    // The two FAT regions (blocks 2..34) are never consulted when only the
    // fixed root directory region is walked; leave them patterned.

    // Root directory: blocks 34 and 35. Two entries, then the end marker.
    let mut root = [0u8; 512];
    root[0..11].copy_from_slice(b"HELLO   TXT");
    root[11] = 0x20;
    root[26..28].copy_from_slice(&2u16.to_le_bytes());
    root[28..32].copy_from_slice(&1234u32.to_le_bytes());
    root[32..43].copy_from_slice(b"LOGS       ");
    root[43] = 0x10;
    root[32 + 26..32 + 28].copy_from_slice(&3u16.to_le_bytes());
    image[34].contents = root;
    image[35].contents = [0u8; 512];

    image
}

#[test]
fn walker_enumerates_the_root_directory() {
    let mut link = RamCardLink::new(fat16_card_image(), 0);
    link.init(ClockClass::Mhz8).expect("init with no injected failures");

    let storage = Storage { adapter: RefCell::new(FsAdapter::new(link)) };
    let mut controller = Controller::new(storage, EpochTime);

    let volume = controller.get_volume(VolumeIdx(0)).expect("the card holds one FAT16 volume");
    let root = controller.open_root_dir(&volume).expect("open the root directory");

    let mut names = Vec::new();
    controller
        .iterate_dir(&volume, &root, |entry| {
            names.push(format!("{}", entry.name));
        })
        .expect("enumeration visits every entry and terminates");

    // The walker issued only in-range requests: the adapter rejects any
    // out-of-range read before it reaches the bus, so a single such
    // request would have failed the enumeration above.
    assert_eq!(names, vec!["HELLO.TXT".to_string(), "LOGS".to_string()]);
}

#[test]
fn walker_stops_at_the_end_marker_without_reading_past_the_root_region() {
    let mut link = RamCardLink::new(fat16_card_image(), 0);
    link.init(ClockClass::Mhz24).expect("init with no injected failures");

    let storage = Storage { adapter: RefCell::new(FsAdapter::new(link)) };
    let mut controller = Controller::new(storage, EpochTime);

    let volume = controller.get_volume(VolumeIdx(0)).expect("the card holds one FAT16 volume");
    let root = controller.open_root_dir(&volume).expect("open the root directory");

    let mut entries = 0u32;
    controller
        .iterate_dir(&volume, &root, |_entry| {
            entries += 1;
        })
        .expect("enumeration terminates");
    assert_eq!(entries, 2);
}
