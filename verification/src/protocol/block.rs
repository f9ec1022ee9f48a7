//! Block-granular disk access: alignment-aware page-buffer sizing,
//! block-addressed reads and writes, and explicit release of read buffers.

use vstd::prelude::*;
use vstd::arithmetic::div_mod::{
    lemma_fundamental_div_mod, lemma_fundamental_div_mod_converse, lemma_mod_bound,
    lemma_mod_multiples_basic,
};
use vstd::arithmetic::mul::{
    lemma_mul_inequality, lemma_mul_is_commutative, lemma_mul_is_distributive_add,
};

use crate::base::Status;
use crate::bootservices::{BootServices, MemoryCall, PAGE_SIZE};

verus! {

/// Immutable-at-runtime description of a block device, owned by the
/// firmware; the accessor only reads it. The block size must be positive for
/// any of the sizing arithmetic to be meaningful.
pub struct BlockIOMedia {
    /// Generation tag of the current media; stale values make I/O calls fail.
    pub media_id: u32,
    /// 1 when the device is removable.
    pub removable: u8,
    /// 1 when media is present in the device.
    pub present: u8,
    /// 1 when the device is a logical partition.
    pub logical_partition: u8,
    /// 1 when the media is read only.
    pub read_only: u8,
    /// 1 when the device performs write caching.
    pub write_caching: u8,
    /// Size of one block, in bytes.
    pub block_size: u32,
    /// Required I/O buffer alignment.
    pub io_align: u32,
    /// Address of the last block on the media.
    pub last_block: u64,
    /// First block aligned to a physical block boundary.
    pub lowest_aligned_lba: u64,
    /// Logical blocks per physical block.
    pub logical_blocks_per_physical_block: u32,
    /// Optimal transfer granularity, in blocks.
    pub optimal_transfer_length_granularity: u32,
}

impl BlockIOMedia {
    /// A usable media descriptor: its block size is positive.
    pub open spec fn wf(&self) -> bool {
        self.block_size > 0
    }
}

/// `bytes` rounded up to the next multiple of `block_size`: reads can only
/// be performed in whole blocks.
pub open spec fn round_up_to_block(bytes: int, block_size: int) -> int {
    if bytes % block_size == 0 {
        bytes
    } else {
        block_size * (bytes / block_size + 1)
    }
}

/// `a / b`, rounded up.
pub open spec fn ceil_div(a: int, b: int) -> int {
    (a + b - 1) / b
}

/// The number of whole pages that cover `bytes` bytes once rounded up to the
/// device's block size.
pub open spec fn spec_required_pages(bytes: int, block_size: int) -> int {
    ceil_div(round_up_to_block(bytes, block_size), PAGE_SIZE as int)
}

/// Facts about rounding a byte count up to a block boundary: the result is
/// the least multiple of `k` at or above `bytes`.
pub proof fn lemma_round_up_props(bytes: int, k: int)
    requires
        k > 0,
        bytes >= 0,
    ensures
        round_up_to_block(bytes, k) >= bytes,
        round_up_to_block(bytes, k) < bytes + k,
        round_up_to_block(bytes, k) % k == 0,
        bytes % k == 0 ==> round_up_to_block(bytes, k) == bytes,
{
    lemma_fundamental_div_mod(bytes, k);
    lemma_mod_bound(bytes, k);
    if bytes % k != 0 {
        lemma_mul_is_distributive_add(k, bytes / k, 1);
        lemma_mod_multiples_basic(bytes / k + 1, k);
    }
}

/// Facts about `ceil_div`: it matches truncating division plus a correction
/// for a nonzero remainder, and `b * ceil_div(a, b)` is the least multiple of
/// `b` at or above `a`.
pub proof fn lemma_ceil_div_props(a: int, b: int)
    requires
        a >= 0,
        b > 0,
    ensures
        ceil_div(a, b) == a / b + (if a % b == 0 { 0int } else { 1int }),
        b * ceil_div(a, b) >= a,
        b * ceil_div(a, b) < a + b,
        ceil_div(a, b) >= 0,
        a % b == 0 ==> b * ceil_div(a, b) == a,
{
    lemma_fundamental_div_mod(a, b);
    lemma_mod_bound(a, b);
    lemma_mul_is_commutative(b, a / b);
    if a % b == 0 {
        assert((a / b) * b + (b - 1) == a + b - 1);
        lemma_fundamental_div_mod_converse(a + b - 1, b, a / b, b - 1);
    } else {
        lemma_mul_is_distributive_add(b, a / b, 1);
        lemma_mul_is_commutative(b, a / b + 1);
        assert((a / b + 1) * b + (a % b - 1) == a + b - 1);
        lemma_fundamental_div_mod_converse(a + b - 1, b, a / b + 1, a % b - 1);
    }
}

/// One raw call to the block device, exactly as the device received it,
/// together with the status the device answered.
#[verifier::ext_equal]
pub ghost enum BlockCall {
    /// A block-addressed read of `buffer_size` bytes.
    Read { media_id: u32, lba: u64, buffer_size: int, status: Status },
    /// A block-addressed write of exactly `bytes`.
    Write { media_id: u32, lba: u64, bytes: Seq<u8>, status: Status },
    /// A flush of pending writes.
    Flush { status: Status },
    /// A device reset.
    Reset { extended_verification: bool, status: Status },
}

/// The raw block-device call surface that the firmware implements. The
/// device's own status is authoritative and is surfaced as-is; nothing is
/// promised about the data a read returns. The call log records every raw
/// call with exactly the arguments handed over and the status that came
/// back, so callers can state which device calls an operation made and that
/// no rounding or reshaping happened on the way to the device.
pub trait BlockHardware: Sized {
    /// Every raw call made so far, in order, with its arguments and status.
    spec fn call_log(&self) -> Seq<BlockCall>;

    /// One block-addressed read of `buffer_size` bytes into `buffer`.
    fn read_blocks(
        &mut self,
        media_id: u32,
        lba: u64,
        buffer_size: usize,
        buffer: &mut Vec<u8>,
    ) -> (st: Status)
        requires
            buffer_size <= old(buffer)@.len(),
        ensures
            final(buffer)@.len() == old(buffer)@.len(),
            final(self).call_log() == old(self).call_log().push(
                BlockCall::Read { media_id, lba, buffer_size: buffer_size as int, status: st },
            ),
    ;

    /// One block-addressed write of exactly `buffer`.
    fn write_blocks(&mut self, media_id: u32, lba: u64, buffer: &[u8]) -> (st: Status)
        ensures
            final(self).call_log() == old(self).call_log().push(
                BlockCall::Write { media_id, lba, bytes: buffer@, status: st },
            ),
    ;

    /// Force buffered writes to the physical medium.
    fn flush_blocks(&mut self) -> (st: Status)
        ensures
            final(self).call_log() == old(self).call_log().push(
                BlockCall::Flush { status: st },
            ),
    ;

    /// Reset the device.
    fn reset(&mut self, extended_verification: bool) -> (st: Status)
        ensures
            final(self).call_log() == old(self).call_log().push(
                BlockCall::Reset { extended_verification, status: st },
            ),
    ;
}

/// A page-allocated buffer returned by a read. `data` is the whole
/// allocation — a whole number of pages, large enough to cover `len` bytes
/// rounded up to the device's block size — while `len` is the logical size
/// the caller asked for. The caller owns it and must route it back through
/// `free_read`.
pub struct ReadBuffer {
    /// The full page allocation backing the read.
    pub data: Vec<u8>,
    /// The logical byte count that was requested.
    pub len: usize,
}

impl ReadBuffer {
    /// The backing allocation is sized by the same page computation that the
    /// release path will repeat from `len` alone.
    pub open spec fn wf(&self, block_size: int) -> bool {
        &&& self.data@.len() == PAGE_SIZE * spec_required_pages(self.len as int, block_size)
        &&& self.len <= self.data@.len()
    }

    /// The logically requested bytes: the first `len` bytes of the
    /// allocation.
    pub fn bytes(&self) -> (r: &[u8])
        requires
            self.len <= self.data@.len(),
        ensures
            r@ == self.data@.subrange(0, self.len as int),
    {
        &self.data.as_slice()[0..self.len]
    }
}

/// Synchronous access to a block device: whole-block transfers, with
/// page-granular buffers sized from the device's geometry.
pub struct BlockIOProtocol<H: BlockHardware> {
    /// The device's geometry and flags.
    pub media: BlockIOMedia,
    /// The firmware's raw call surface for this device.
    pub hardware: H,
}

impl<H: BlockHardware> BlockIOProtocol<H> {
    /// The accessor is usable: its media descriptor is.
    pub open spec fn wf(&self) -> bool {
        self.media.wf()
    }

    /// Indicates whether or not the device is removable.
    pub fn is_removable(&self) -> (r: bool)
        ensures
            r == (self.media.removable == 1),
    {
        self.media.removable == 1
    }

    /// Indicates whether or not the device is present.
    pub fn is_present(&self) -> (r: bool)
        ensures
            r == (self.media.present == 1),
    {
        self.media.present == 1
    }

    /// Indicates whether or not the device is a logical partition.
    pub fn is_logical_partition(&self) -> (r: bool)
        ensures
            r == (self.media.logical_partition == 1),
    {
        self.media.logical_partition == 1
    }

    /// Indicates whether or not the device is read only.
    pub fn is_read_only(&self) -> (r: bool)
        ensures
            r == (self.media.read_only == 1),
    {
        self.media.read_only == 1
    }

    /// Indicates whether or not the device performs write caching.
    pub fn write_caching(&self) -> (r: bool)
        ensures
            r == (self.media.write_caching == 1),
    {
        self.media.write_caching == 1
    }

    /// Indicates whether or not the device has alignment requirements for
    /// buffers.
    pub fn must_align(&self) -> (r: bool)
        ensures
            r == (self.media.io_align > 1),
    {
        self.media.io_align > 1
    }

    /// Calculates the number of pages needed to read `read_size` bytes from
    /// this device: the byte count is first rounded up to the device's block
    /// size, then divided into pages, rounding up.
    pub fn required_pages(&self, read_size: usize) -> (r: usize)
        requires
            self.wf(),
            round_up_to_block(
                read_size as int,
                self.media.block_size as int,
            ) <= usize::MAX,
        ensures
            r == spec_required_pages(read_size as int, self.media.block_size as int),
    {
        let block_size = self.media.block_size as usize;
        let mut actual_read_size = read_size;
        if read_size % block_size != 0 {
            proof {
                let rs = read_size as int;
                let bs = block_size as int;
                lemma_mod_bound(rs, 1);
                assert(bs >= 2);
                lemma_fundamental_div_mod(rs, bs);
                lemma_mod_bound(rs, bs);
                lemma_mul_inequality(2, bs, rs / bs);
                lemma_round_up_props(rs, bs);
            }
            actual_read_size = block_size * (read_size / block_size + 1);
        } else {
            proof {
                lemma_round_up_props(read_size as int, block_size as int);
            }
        }
        assert(actual_read_size as int == round_up_to_block(
            read_size as int,
            self.media.block_size as int,
        ));
        let mut num_pages = actual_read_size / PAGE_SIZE;
        if actual_read_size % PAGE_SIZE != 0 {
            num_pages = num_pages + 1;
        }
        proof {
            lemma_ceil_div_props(actual_read_size as int, PAGE_SIZE as int);
        }
        num_pages
    }

    /// Calculates the number of pages needed to read `blocks` whole blocks
    /// from this device.
    pub fn required_pages_block(&self, blocks: usize) -> (r: usize)
        requires
            self.wf(),
            blocks as int * self.media.block_size as int <= usize::MAX,
        ensures
            r == spec_required_pages(
                blocks as int * self.media.block_size as int,
                self.media.block_size as int,
            ),
    {
        let block_size = self.media.block_size as usize;
        let bytes = blocks * block_size;
        proof {
            lemma_mod_multiples_basic(blocks as int, block_size as int);
            lemma_round_up_props(bytes as int, block_size as int);
        }
        self.required_pages(bytes)
    }

    /// Read `num_bytes` bytes from the disk starting at block `start`. The
    /// returned buffer is page memory sized by `required_pages` and is the
    /// caller's to release through `free_read`. On a firmware failure the
    /// allocation is released here, exactly once, before the error surfaces:
    /// the outstanding page count is unchanged on every error path.
    pub fn read_bytes<B: BootServices>(
        &mut self,
        bs: &mut B,
        start: u64,
        num_bytes: usize,
    ) -> (r: Result<ReadBuffer, Status>)
        requires
            old(self).wf(),
            round_up_to_block(
                num_bytes as int,
                old(self).media.block_size as int,
            ) <= usize::MAX,
            old(bs).pages_outstanding() >= 0,
        ensures
            final(self).media == old(self).media,
            match r {
                Ok(buf) => {
                    &&& buf.len == num_bytes
                    &&& buf.wf(old(self).media.block_size as int)
                    &&& final(bs).pages_outstanding() == old(bs).pages_outstanding() + 1
                    &&& final(bs).pool_outstanding() == old(bs).pool_outstanding()
                    &&& final(bs).memory_log() == old(bs).memory_log().push(
                        MemoryCall::AllocatePages {
                            pages: spec_required_pages(
                                num_bytes as int,
                                old(self).media.block_size as int,
                            ),
                            status: Status::Success,
                        },
                    )
                    &&& final(self).hardware.call_log()
                        == old(self).hardware.call_log().push(
                        BlockCall::Read {
                            media_id: old(self).media.media_id,
                            lba: start,
                            buffer_size: round_up_to_block(
                                num_bytes as int,
                                old(self).media.block_size as int,
                            ),
                            status: Status::Success,
                        },
                    )
                },
                Err(e) => {
                    &&& e != Status::Success
                    &&& final(bs).pages_outstanding() == old(bs).pages_outstanding()
                    &&& final(bs).pool_outstanding() == old(bs).pool_outstanding()
                    &&& ((final(self).hardware.call_log() == old(self).hardware.call_log()
                        && final(bs).memory_log() == old(bs).memory_log().push(
                            MemoryCall::AllocatePages {
                                pages: spec_required_pages(
                                    num_bytes as int,
                                    old(self).media.block_size as int,
                                ),
                                status: e,
                            },
                        )) || (final(self).hardware.call_log()
                        == old(self).hardware.call_log().push(
                            BlockCall::Read {
                                media_id: old(self).media.media_id,
                                lba: start,
                                buffer_size: round_up_to_block(
                                    num_bytes as int,
                                    old(self).media.block_size as int,
                                ),
                                status: e,
                            },
                        ) && final(bs).memory_log() == old(bs).memory_log().push(
                            MemoryCall::AllocatePages {
                                pages: spec_required_pages(
                                    num_bytes as int,
                                    old(self).media.block_size as int,
                                ),
                                status: Status::Success,
                            },
                        ).push(
                            MemoryCall::FreePages {
                                pages: spec_required_pages(
                                    num_bytes as int,
                                    old(self).media.block_size as int,
                                ),
                            },
                        )))
                },
            },
    {
        let block_size = self.media.block_size as usize;
        let mut read_size = num_bytes;

        // Reads can only be performed in multiples of the block size, so
        // round up to the nearest block.
        if num_bytes % block_size != 0 {
            proof {
                let nb = num_bytes as int;
                let bsz = block_size as int;
                lemma_mod_bound(nb, 1);
                assert(bsz >= 2);
                lemma_fundamental_div_mod(nb, bsz);
                lemma_mod_bound(nb, bsz);
                lemma_mul_inequality(2, bsz, nb / bsz);
                lemma_round_up_props(nb, bsz);
            }
            read_size = block_size * (num_bytes / block_size + 1);
        } else {
            proof {
                lemma_round_up_props(num_bytes as int, block_size as int);
            }
        }
        assert(read_size as int == round_up_to_block(
            num_bytes as int,
            self.media.block_size as int,
        ));
        proof {
            // Rounding is idempotent, so sizing from the rounded length and
            // sizing from the logical length agree.
            lemma_round_up_props(read_size as int, block_size as int);
            lemma_ceil_div_props(read_size as int, PAGE_SIZE as int);
        }
        let pages = self.required_pages(read_size);
        match bs.allocate_pages(pages) {
            Err(e) => Err(e),
            Ok(mut buffer) => {
                let status = self.hardware.read_blocks(
                    self.media.media_id,
                    start,
                    read_size,
                    &mut buffer,
                );
                match status {
                    Status::Success => Ok(ReadBuffer { data: buffer, len: num_bytes }),
                    e => {
                        bs.free_pages(buffer, pages);
                        Err(e)
                    },
                }
            },
        }
    }

    /// Read `num_blocks` whole blocks from the disk starting at block
    /// `start`. The returned buffer is the caller's to release through
    /// `free_read`.
    pub fn read_blocks<B: BootServices>(
        &mut self,
        bs: &mut B,
        start: u64,
        num_blocks: usize,
    ) -> (r: Result<ReadBuffer, Status>)
        requires
            old(self).wf(),
            num_blocks as int * old(self).media.block_size as int <= usize::MAX,
            old(bs).pages_outstanding() >= 0,
        ensures
            final(self).media == old(self).media,
            match r {
                Ok(buf) => {
                    &&& buf.len as int == num_blocks as int * old(self).media.block_size as int
                    &&& buf.wf(old(self).media.block_size as int)
                    &&& final(bs).pages_outstanding() == old(bs).pages_outstanding() + 1
                    &&& final(bs).pool_outstanding() == old(bs).pool_outstanding()
                    &&& final(bs).memory_log() == old(bs).memory_log().push(
                        MemoryCall::AllocatePages {
                            pages: spec_required_pages(
                                num_blocks as int * old(self).media.block_size as int,
                                old(self).media.block_size as int,
                            ),
                            status: Status::Success,
                        },
                    )
                    &&& final(self).hardware.call_log()
                        == old(self).hardware.call_log().push(
                        BlockCall::Read {
                            media_id: old(self).media.media_id,
                            lba: start,
                            buffer_size: num_blocks as int * old(self).media.block_size as int,
                            status: Status::Success,
                        },
                    )
                },
                Err(e) => {
                    &&& e != Status::Success
                    &&& final(bs).pages_outstanding() == old(bs).pages_outstanding()
                    &&& final(bs).pool_outstanding() == old(bs).pool_outstanding()
                    &&& ((final(self).hardware.call_log() == old(self).hardware.call_log()
                        && final(bs).memory_log() == old(bs).memory_log().push(
                            MemoryCall::AllocatePages {
                                pages: spec_required_pages(
                                    num_blocks as int * old(self).media.block_size as int,
                                    old(self).media.block_size as int,
                                ),
                                status: e,
                            },
                        )) || (final(self).hardware.call_log()
                        == old(self).hardware.call_log().push(
                            BlockCall::Read {
                                media_id: old(self).media.media_id,
                                lba: start,
                                buffer_size: num_blocks as int
                                    * old(self).media.block_size as int,
                                status: e,
                            },
                        ) && final(bs).memory_log() == old(bs).memory_log().push(
                            MemoryCall::AllocatePages {
                                pages: spec_required_pages(
                                    num_blocks as int * old(self).media.block_size as int,
                                    old(self).media.block_size as int,
                                ),
                                status: Status::Success,
                            },
                        ).push(
                            MemoryCall::FreePages {
                                pages: spec_required_pages(
                                    num_blocks as int * old(self).media.block_size as int,
                                    old(self).media.block_size as int,
                                ),
                            },
                        )))
                },
            },
    {
        let block_size = self.media.block_size as usize;
        proof {
            lemma_mul_is_commutative(num_blocks as int, block_size as int);
        }
        let read_size_bytes = num_blocks * block_size;
        proof {
            lemma_mod_multiples_basic(num_blocks as int, block_size as int);
            lemma_round_up_props(read_size_bytes as int, block_size as int);
        }
        self.read_bytes(bs, start, read_size_bytes)
    }

    /// Write `buffer` to the disk starting at block `start`. The buffer is
    /// handed to the device exactly as given — no rounding, no validation of
    /// its length against the block size: if the length is not a whole
    /// number of blocks, the device's own status reports the mismatch.
    pub fn write_bytes(&mut self, start: u64, buffer: &[u8]) -> (r: Result<(), Status>)
        ensures
            final(self).media == old(self).media,
            match r {
                Ok(_) => final(self).hardware.call_log() == old(self).hardware.call_log().push(
                    BlockCall::Write {
                        media_id: old(self).media.media_id,
                        lba: start,
                        bytes: buffer@,
                        status: Status::Success,
                    },
                ),
                Err(e) => e != Status::Success && final(self).hardware.call_log()
                    == old(self).hardware.call_log().push(
                    BlockCall::Write {
                        media_id: old(self).media.media_id,
                        lba: start,
                        bytes: buffer@,
                        status: e,
                    },
                ),
            },
    {
        match self.hardware.write_blocks(self.media.media_id, start, buffer) {
            Status::Success => Ok(()),
            e => Err(e),
        }
    }

    /// Flush any pending writes to this disk; blocks until the device
    /// reports completion or failure.
    pub fn flush_blocks(&mut self) -> (r: Result<(), Status>)
        ensures
            final(self).media == old(self).media,
            match r {
                Ok(_) => final(self).hardware.call_log() == old(self).hardware.call_log().push(
                    BlockCall::Flush { status: Status::Success },
                ),
                Err(e) => e != Status::Success && final(self).hardware.call_log()
                    == old(self).hardware.call_log().push(BlockCall::Flush { status: e }),
            },
    {
        match self.hardware.flush_blocks() {
            Status::Success => Ok(()),
            e => Err(e),
        }
    }

    /// Reset the device.
    pub fn reset(&mut self, extended_verification: bool) -> (r: Result<(), Status>)
        ensures
            final(self).media == old(self).media,
            match r {
                Ok(_) => final(self).hardware.call_log() == old(self).hardware.call_log().push(
                    BlockCall::Reset { extended_verification, status: Status::Success },
                ),
                Err(e) => e != Status::Success && final(self).hardware.call_log()
                    == old(self).hardware.call_log().push(
                    BlockCall::Reset { extended_verification, status: e },
                ),
            },
    {
        match self.hardware.reset(extended_verification) {
            Status::Success => Ok(()),
            e => Err(e),
        }
    }

    /// Release a buffer returned by `read_bytes` or `read_blocks`. The page
    /// count handed back to the allocator is recomputed from the buffer's
    /// logical length — the same computation that sized the allocation.
    pub fn free_read<B: BootServices>(&self, bs: &mut B, buffer: ReadBuffer)
        requires
            self.wf(),
            buffer.wf(self.media.block_size as int),
            old(bs).pages_outstanding() >= 1,
        ensures
            final(bs).pages_outstanding() == old(bs).pages_outstanding() - 1,
            final(bs).pool_outstanding() == old(bs).pool_outstanding(),
            final(bs).memory_log() == old(bs).memory_log().push(
                MemoryCall::FreePages {
                    pages: spec_required_pages(
                        buffer.len as int,
                        self.media.block_size as int,
                    ),
                },
            ),
    {
        let total = buffer.data.len();
        proof {
            let bsz = self.media.block_size as int;
            lemma_round_up_props(buffer.len as int, bsz);
            lemma_ceil_div_props(round_up_to_block(buffer.len as int, bsz), PAGE_SIZE as int);
        }
        let pages = self.required_pages(buffer.len);
        let ReadBuffer { data, len } = buffer;
        let _ = len;
        bs.free_pages(data, pages);
    }
}

/// A block device double for tests: every raw call answers with the
/// programmed status, reads are filled with a fixed byte, and each write is
/// recorded so a test can observe exactly what length reached the device.
pub struct ScriptedBlockHardware {
    /// The status every raw call returns.
    pub status: Status,
    /// The byte a read stores into each transferred position.
    pub fill: u8,
    /// How many write calls were made.
    pub write_count: u64,
    /// The byte length handed over by the most recent write call.
    pub last_write_len: usize,
    /// Every raw call so far.
    pub log: Ghost<Seq<BlockCall>>,
}

impl ScriptedBlockHardware {
    /// A device double answering `status` and filling reads with `fill`.
    pub fn new(status: Status, fill: u8) -> (r: Self)
        ensures
            r.status == status,
            r.fill == fill,
            r.write_count == 0,
            r.call_log() == Seq::<BlockCall>::empty(),
    {
        ScriptedBlockHardware {
            status,
            fill,
            write_count: 0,
            last_write_len: 0,
            log: Ghost(Seq::empty()),
        }
    }
}

impl BlockHardware for ScriptedBlockHardware {
    open spec fn call_log(&self) -> Seq<BlockCall> {
        self.log@
    }

    fn read_blocks(
        &mut self,
        media_id: u32,
        lba: u64,
        buffer_size: usize,
        buffer: &mut Vec<u8>,
    ) -> (st: Status) {
        let _ = media_id;
        let _ = lba;
        let mut i: usize = 0;
        while i < buffer_size
            invariant
                i <= buffer_size,
                buffer_size <= buffer@.len(),
                buffer@.len() == old(buffer)@.len(),
            decreases buffer_size - i,
        {
            buffer[i] = self.fill;
            i = i + 1;
        }
        self.log = Ghost(
            self.log@.push(
                BlockCall::Read {
                    media_id,
                    lba,
                    buffer_size: buffer_size as int,
                    status: self.status,
                },
            ),
        );
        self.status
    }

    fn write_blocks(&mut self, media_id: u32, lba: u64, buffer: &[u8]) -> (st: Status) {
        self.log = Ghost(
            self.log@.push(
                BlockCall::Write { media_id, lba, bytes: buffer@, status: self.status },
            ),
        );
        if self.write_count < u64::MAX {
            self.write_count = self.write_count + 1;
        }
        self.last_write_len = buffer.len();
        self.status
    }

    fn flush_blocks(&mut self) -> (st: Status) {
        self.log = Ghost(self.log@.push(BlockCall::Flush { status: self.status }));
        self.status
    }

    fn reset(&mut self, extended_verification: bool) -> (st: Status) {
        self.log = Ghost(
            self.log@.push(BlockCall::Reset { extended_verification, status: self.status }),
        );
        self.status
    }
}

} // verus!
