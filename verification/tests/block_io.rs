use uefi::base::Status;
use uefi::bootservices::CountingBootServices;
use uefi::protocol::block::{BlockIOMedia, BlockIOProtocol, ScriptedBlockHardware};

fn media_with_block_size(block_size: u32) -> BlockIOMedia {
    BlockIOMedia {
        media_id: 7,
        removable: 1,
        present: 1,
        logical_partition: 0,
        read_only: 0,
        write_caching: 1,
        block_size,
        io_align: 4096,
        last_block: 1023,
        lowest_aligned_lba: 0,
        logical_blocks_per_physical_block: 1,
        optimal_transfer_length_granularity: 1,
    }
}

fn device(block_size: u32, status: Status) -> BlockIOProtocol<ScriptedBlockHardware> {
    BlockIOProtocol {
        media: media_with_block_size(block_size),
        hardware: ScriptedBlockHardware::new(status, 0xAB),
    }
}

#[test]
fn required_pages_rounds_up_to_block_then_page() {
    let d = device(512, Status::Success);
    // 513 bytes round up to 1024 block bytes, which one page covers.
    assert_eq!(d.required_pages(513), 1);
    // Zero bytes need zero pages.
    assert_eq!(d.required_pages(0), 0);
    // An exact page multiple adds no artifact.
    assert_eq!(d.required_pages(4096 * 3), 3);
    // One byte past a page boundary costs one more page.
    assert_eq!(d.required_pages(4097), 2);
}

#[test]
fn required_pages_with_large_blocks() {
    let d = device(8192, Status::Success);
    // One byte rounds to one 8192-byte block: two pages.
    assert_eq!(d.required_pages(1), 2);
    assert_eq!(d.required_pages(8192), 2);
    assert_eq!(d.required_pages(8193), 4);
}

#[test]
fn required_pages_block_matches_byte_computation() {
    let d = device(512, Status::Success);
    for blocks in [0usize, 1, 7, 8, 9, 100] {
        assert_eq!(d.required_pages_block(blocks), d.required_pages(blocks * 512));
    }
}

#[test]
fn read_bytes_returns_logical_slice_over_page_allocation() {
    let mut bs = CountingBootServices::new();
    let mut d = device(512, Status::Success);
    let buf = d.read_bytes(&mut bs, 0, 513).expect("read should succeed");
    assert_eq!(buf.len, 513);
    assert_eq!(buf.bytes().len(), 513);
    // The backing allocation covers the rounded request: one whole page.
    assert_eq!(buf.data.len(), 4096);
    assert!(buf.bytes().iter().all(|b| *b == 0xAB));
    assert_eq!(bs.pages_allocated, 1);
    assert_eq!(bs.pages_freed, 0);
    d.free_read(&mut bs, buf);
    assert!(bs.balanced());
    assert_eq!(bs.pages_freed, 1);
}

#[test]
fn read_bytes_failure_releases_pages_exactly_once() {
    let mut bs = CountingBootServices::new();
    let mut d = device(512, Status::DeviceError);
    let r = d.read_bytes(&mut bs, 4, 513);
    assert!(matches!(r, Err(Status::DeviceError)));
    // The allocation was made and released exactly once: no leak, no
    // double-free.
    assert_eq!(bs.pages_allocated, 1);
    assert_eq!(bs.pages_freed, 1);
    assert!(bs.balanced());
}

#[test]
fn read_bytes_allocation_failure_surfaces_without_touching_device() {
    let mut bs = CountingBootServices::new();
    bs.deny = true;
    let mut d = device(512, Status::Success);
    let r = d.read_bytes(&mut bs, 0, 513);
    assert!(matches!(r, Err(Status::OutOfResources)));
    assert_eq!(bs.pages_allocated, 0);
    assert_eq!(bs.pages_freed, 0);
}

#[test]
fn read_blocks_converts_blocks_to_bytes() {
    let mut bs = CountingBootServices::new();
    let mut d = device(512, Status::Success);
    let buf = d.read_blocks(&mut bs, 2, 3).expect("read should succeed");
    assert_eq!(buf.len, 1536);
    assert_eq!(buf.data.len(), 4096);
    d.free_read(&mut bs, buf);
    assert!(bs.balanced());
}

#[test]
fn write_bytes_passes_unrounded_length_through() {
    let mut d = device(512, Status::Success);
    // 513 bytes is not a whole number of blocks; the accessor must not
    // pre-validate or round — the device sees exactly 513 bytes.
    let buffer = vec![1u8; 513];
    let r = d.write_bytes(9, buffer.as_slice());
    assert!(r.is_ok());
    assert_eq!(d.hardware.write_count, 1);
    assert_eq!(d.hardware.last_write_len, 513);
}

#[test]
fn write_bytes_failure_surfaces_device_status() {
    let mut d = device(512, Status::WriteProtected);
    let buffer = vec![0u8; 512];
    let r = d.write_bytes(0, buffer.as_slice());
    assert!(matches!(r, Err(Status::WriteProtected)));
    // The call still reached the device with the exact length.
    assert_eq!(d.hardware.last_write_len, 512);
}

#[test]
fn flush_and_reset_map_status() {
    let mut d = device(512, Status::Success);
    assert!(d.flush_blocks().is_ok());
    assert!(d.reset(true).is_ok());
    let mut bad = device(512, Status::DeviceError);
    assert!(matches!(bad.flush_blocks(), Err(Status::DeviceError)));
    assert!(matches!(bad.reset(false), Err(Status::DeviceError)));
}

#[test]
fn media_projections_read_flags() {
    let d = device(512, Status::Success);
    assert!(d.is_removable());
    assert!(d.is_present());
    assert!(!d.is_logical_partition());
    assert!(!d.is_read_only());
    assert!(d.write_caching());
    assert!(d.must_align());
    let mut plain = media_with_block_size(512);
    plain.io_align = 1;
    plain.removable = 0;
    let d2 = BlockIOProtocol {
        media: plain,
        hardware: ScriptedBlockHardware::new(Status::Success, 0),
    };
    assert!(!d2.must_align());
    assert!(!d2.is_removable());
}
