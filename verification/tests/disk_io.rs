use uefi::base::Status;
use uefi::bootservices::{BootServices, CountingBootServices};
use uefi::protocol::disk::{DiskIOProtocol, ScriptedDiskHardware};

#[test]
fn read_disk_returns_byte_exact_buffer() {
    let mut bs = CountingBootServices::new();
    let mut d = DiskIOProtocol { hardware: ScriptedDiskHardware::new(Status::Success, 7) };
    let buf = d.read_disk(&mut bs, 3, 1000, 10).expect("read should succeed");
    // No rounding: exactly the requested size comes back.
    assert_eq!(buf.len(), 10);
    assert!(buf.iter().all(|b| *b == 7));
    assert_eq!(bs.pool_allocated, 1);
    assert_eq!(bs.pool_freed, 0);
    bs.free_pool(buf);
    assert!(bs.balanced());
}

#[test]
fn read_disk_failure_releases_pool_buffer() {
    let mut bs = CountingBootServices::new();
    let mut d = DiskIOProtocol { hardware: ScriptedDiskHardware::new(Status::NoMedia, 0) };
    let r = d.read_disk(&mut bs, 3, 0, 64);
    assert!(matches!(r, Err(Status::NoMedia)));
    // The allocation's fate is explicit: released before the error surfaced.
    assert_eq!(bs.pool_allocated, 1);
    assert_eq!(bs.pool_freed, 1);
    assert!(bs.balanced());
}

#[test]
fn read_disk_allocation_failure_surfaces() {
    let mut bs = CountingBootServices::new();
    bs.deny = true;
    let mut d = DiskIOProtocol { hardware: ScriptedDiskHardware::new(Status::Success, 0) };
    let r = d.read_disk(&mut bs, 3, 0, 64);
    assert!(matches!(r, Err(Status::OutOfResources)));
    assert_eq!(bs.pool_allocated, 0);
}
