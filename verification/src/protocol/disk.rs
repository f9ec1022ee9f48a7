//! Byte-granular disk access, layered logically above the block device but
//! implemented against its own firmware call.

use vstd::prelude::*;

use crate::base::Status;
use crate::bootservices::{BootServices, MemoryCall};

verus! {

/// The raw disk call surface that the firmware implements: one synchronous
/// read at an arbitrary byte offset. The device's own status is
/// authoritative; nothing is promised about the data. The call log records
/// every read with exactly the arguments handed over — media id, byte
/// offset, byte count — and the status that came back.
pub trait DiskHardware: Sized {
    /// Every read call made so far: media id, offset, size, status.
    spec fn call_log(&self) -> Seq<(u32, u64, int, Status)>;

    /// One read of `buffer.len()` bytes at byte offset `offset`, tagged with
    /// the media generation it expects.
    fn read_disk(&mut self, media_id: u32, offset: u64, buffer: &mut Vec<u8>) -> (st: Status)
        ensures
            final(buffer)@.len() == old(buffer)@.len(),
            final(self).call_log() == old(self).call_log().push(
                (media_id, offset, old(buffer)@.len() as int, st),
            ),
    ;
}

/// Synchronous byte-offset reads. Unlike the block accessor no rounding
/// occurs: offsets and sizes are byte-exact, and the returned buffer is
/// caller-owned pool memory released through the pool-free path.
pub struct DiskIOProtocol<H: DiskHardware> {
    /// The firmware's raw call surface for this device.
    pub hardware: H,
}

impl<H: DiskHardware> DiskIOProtocol<H> {
    /// Read `size` bytes at byte offset `offset`. `media_id` should come from
    /// the block accessor's media descriptor, to guard against stale reads
    /// after a media change. On success the buffer holds exactly `size`
    /// bytes and is the caller's to release through the pool-free path; on
    /// failure the allocation is released here — no path leaks it.
    pub fn read_disk<B: BootServices>(
        &mut self,
        bs: &mut B,
        media_id: u32,
        offset: u64,
        size: usize,
    ) -> (r: Result<Vec<u8>, Status>)
        requires
            old(bs).pool_outstanding() >= 0,
        ensures
            match r {
                Ok(v) => {
                    &&& v@.len() == size
                    &&& final(bs).pool_outstanding() == old(bs).pool_outstanding() + 1
                    &&& final(bs).pages_outstanding() == old(bs).pages_outstanding()
                    &&& final(bs).memory_log() == old(bs).memory_log().push(
                        MemoryCall::AllocatePool { size: size as int, status: Status::Success },
                    )
                    &&& final(self).hardware.call_log()
                        == old(self).hardware.call_log().push(
                        (media_id, offset, size as int, Status::Success),
                    )
                },
                Err(e) => {
                    &&& e != Status::Success
                    &&& final(bs).pool_outstanding() == old(bs).pool_outstanding()
                    &&& final(bs).pages_outstanding() == old(bs).pages_outstanding()
                    &&& ((final(self).hardware.call_log() == old(self).hardware.call_log()
                        && final(bs).memory_log() == old(bs).memory_log().push(
                            MemoryCall::AllocatePool { size: size as int, status: e },
                        )) || (final(self).hardware.call_log()
                        == old(self).hardware.call_log().push(
                            (media_id, offset, size as int, e),
                        ) && final(bs).memory_log() == old(bs).memory_log().push(
                            MemoryCall::AllocatePool {
                                size: size as int,
                                status: Status::Success,
                            },
                        ).push(MemoryCall::FreePool)))
                },
            },
    {
        match bs.allocate_pool(size) {
            Err(e) => Err(e),
            Ok(mut buffer) => {
                let status = self.hardware.read_disk(media_id, offset, &mut buffer);
                match status {
                    Status::Success => Ok(buffer),
                    e => {
                        bs.free_pool(buffer);
                        Err(e)
                    },
                }
            },
        }
    }
}

/// A disk double for tests: every read answers with the programmed status
/// and fills the buffer with a fixed byte.
pub struct ScriptedDiskHardware {
    /// The status every read returns.
    pub status: Status,
    /// The byte a read stores into each position.
    pub fill: u8,
    /// Every read call so far.
    pub log: Ghost<Seq<(u32, u64, int, Status)>>,
}

impl ScriptedDiskHardware {
    /// A disk double answering `status` and filling reads with `fill`.
    pub fn new(status: Status, fill: u8) -> (r: Self)
        ensures
            r.status == status,
            r.fill == fill,
            r.call_log() == Seq::<(u32, u64, int, Status)>::empty(),
    {
        ScriptedDiskHardware { status, fill, log: Ghost(Seq::empty()) }
    }
}

impl DiskHardware for ScriptedDiskHardware {
    open spec fn call_log(&self) -> Seq<(u32, u64, int, Status)> {
        self.log@
    }

    fn read_disk(&mut self, media_id: u32, offset: u64, buffer: &mut Vec<u8>) -> (st: Status) {
        let n = buffer.len();
        let mut i: usize = 0;
        while i < n
            invariant
                i <= n,
                n <= buffer@.len(),
                buffer@.len() == old(buffer)@.len(),
            decreases n - i,
        {
            buffer[i] = self.fill;
            i = i + 1;
        }
        self.log = Ghost(self.log@.push((media_id, offset, n as int, self.status)));
        self.status
    }
}

} // verus!
