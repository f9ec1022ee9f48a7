//! The pool/page allocator bridge: the sole place where memory regions are
//! requested from and returned to the firmware.
//!
//! Every other component depends on this trait and never allocates on its
//! own. A buffer is an owned value, so a caller cannot free it twice nor use
//! it after routing it back; the outstanding-allocation counters let callers
//! state that a failure path leaks nothing.

use vstd::prelude::*;

use crate::base::Status;

verus! {

/// Number of bytes in one page allocation unit.
pub const PAGE_SIZE: usize = 4096;

/// One call to the firmware's memory services, with the status it answered
/// (releases report nothing).
#[verifier::ext_equal]
pub ghost enum MemoryCall {
    /// A page allocation request.
    AllocatePages { pages: int, status: Status },
    /// A page release.
    FreePages { pages: int },
    /// A narrow pool allocation request.
    AllocatePool { size: int, status: Status },
    /// A narrow pool release.
    FreePool,
    /// A wide pool allocation request.
    AllocatePoolUtf16 { units: int, status: Status },
    /// A wide pool release.
    FreePoolUtf16,
}

/// The firmware's memory services. An implementation owns the backing
/// memory; this crate only tracks how many allocations of each class are
/// outstanding, so that release-on-failure obligations can be verified, and
/// the call log, which records every request with the status the allocator
/// answered, so a caller can state that a surfaced failure is the
/// allocator's own status, unchanged.
///
/// Obligations on every implementation:
/// - an allocation that succeeds hands out a buffer of exactly the requested
///   size and raises the matching outstanding count by one;
/// - a failed allocation changes nothing else and reports a non-success
///   status;
/// - a zero-byte pool request always succeeds;
/// - releasing lowers the matching outstanding count by one;
/// - every call is appended to the call log as it happened.
pub trait BootServices: Sized {
    /// How many page allocations are outstanding (allocated, not yet freed).
    spec fn pages_outstanding(&self) -> int;

    /// How many pool allocations are outstanding, wide and narrow together.
    spec fn pool_outstanding(&self) -> int;

    /// Every memory-service call so far, with its arguments and answer.
    spec fn memory_log(&self) -> Seq<MemoryCall>;

    /// Allocate `pages` pages: a 4096-byte-aligned region of
    /// `pages * 4096` bytes.
    fn allocate_pages(&mut self, pages: usize) -> (r: Result<Vec<u8>, Status>)
        ensures
            match r {
                Ok(buf) => buf@.len() == pages * PAGE_SIZE
                    && final(self).pages_outstanding() == old(self).pages_outstanding() + 1
                    && final(self).pool_outstanding() == old(self).pool_outstanding(),
                Err(e) => e != Status::Success
                    && final(self).pages_outstanding() == old(self).pages_outstanding()
                    && final(self).pool_outstanding() == old(self).pool_outstanding(),
            },
            final(self).memory_log() == old(self).memory_log().push(
                MemoryCall::AllocatePages {
                    pages: pages as int,
                    status: match r {
                        Ok(_) => Status::Success,
                        Err(e) => e,
                    },
                },
            ),
    ;

    /// Release a page buffer. `pages` must be the page count of the original
    /// allocation, which is exactly the condition stated on `buffer`.
    fn free_pages(&mut self, buffer: Vec<u8>, pages: usize)
        requires
            old(self).pages_outstanding() >= 1,
            buffer@.len() == pages * PAGE_SIZE,
        ensures
            final(self).pages_outstanding() == old(self).pages_outstanding() - 1,
            final(self).pool_outstanding() == old(self).pool_outstanding(),
            final(self).memory_log() == old(self).memory_log().push(
                MemoryCall::FreePages { pages: pages as int },
            ),
    ;

    /// Allocate `size` bytes of byte-granular pool memory, no alignment
    /// guarantee. A zero-byte request must succeed.
    fn allocate_pool(&mut self, size: usize) -> (r: Result<Vec<u8>, Status>)
        ensures
            match r {
                Ok(buf) => buf@.len() == size
                    && final(self).pool_outstanding() == old(self).pool_outstanding() + 1
                    && final(self).pages_outstanding() == old(self).pages_outstanding(),
                Err(e) => e != Status::Success
                    && final(self).pool_outstanding() == old(self).pool_outstanding()
                    && final(self).pages_outstanding() == old(self).pages_outstanding(),
            },
            size == 0 ==> r is Ok,
            final(self).memory_log() == old(self).memory_log().push(
                MemoryCall::AllocatePool {
                    size: size as int,
                    status: match r {
                        Ok(_) => Status::Success,
                        Err(e) => e,
                    },
                },
            ),
    ;

    /// Release a pool buffer.
    fn free_pool(&mut self, buffer: Vec<u8>)
        requires
            old(self).pool_outstanding() >= 1,
        ensures
            final(self).pool_outstanding() == old(self).pool_outstanding() - 1,
            final(self).pages_outstanding() == old(self).pages_outstanding(),
            final(self).memory_log() == old(self).memory_log().push(MemoryCall::FreePool),
    ;

    /// Allocate `units` wide code units of pool memory, for the wide-string
    /// convention of the text services. Counted with the pool allocations.
    fn allocate_pool_utf16(&mut self, units: usize) -> (r: Result<Vec<u16>, Status>)
        ensures
            match r {
                Ok(buf) => buf@.len() == units
                    && final(self).pool_outstanding() == old(self).pool_outstanding() + 1
                    && final(self).pages_outstanding() == old(self).pages_outstanding(),
                Err(e) => e != Status::Success
                    && final(self).pool_outstanding() == old(self).pool_outstanding()
                    && final(self).pages_outstanding() == old(self).pages_outstanding(),
            },
            final(self).memory_log() == old(self).memory_log().push(
                MemoryCall::AllocatePoolUtf16 {
                    units: units as int,
                    status: match r {
                        Ok(_) => Status::Success,
                        Err(e) => e,
                    },
                },
            ),
    ;

    /// Release a wide pool buffer.
    fn free_pool_utf16(&mut self, buffer: Vec<u16>)
        requires
            old(self).pool_outstanding() >= 1,
        ensures
            final(self).pool_outstanding() == old(self).pool_outstanding() - 1,
            final(self).pages_outstanding() == old(self).pages_outstanding(),
            final(self).memory_log() == old(self).memory_log().push(
                MemoryCall::FreePoolUtf16,
            ),
    ;
}

/// An in-memory allocator bridge that hands out zero-filled buffers and
/// counts every allocate and free, so a test can assert that the two sides
/// balance across success and failure paths. With `deny` set, every non-empty
/// request fails with `OutOfResources`.
pub struct CountingBootServices {
    /// Refuse every allocation of more than zero bytes.
    pub deny: bool,
    /// How many page allocations were handed out.
    pub pages_allocated: u64,
    /// How many page allocations were returned.
    pub pages_freed: u64,
    /// How many pool allocations were handed out.
    pub pool_allocated: u64,
    /// How many pool allocations were returned.
    pub pool_freed: u64,
    /// Exact count of outstanding page allocations.
    pub pages_live: Ghost<int>,
    /// Exact count of outstanding pool allocations.
    pub pool_live: Ghost<int>,
    /// Every memory-service call so far.
    pub log: Ghost<Seq<MemoryCall>>,
}

impl CountingBootServices {
    /// A fresh bridge with nothing outstanding.
    pub fn new() -> (r: Self)
        ensures
            r.pages_outstanding() == 0,
            r.pool_outstanding() == 0,
            !r.deny,
            r.pages_allocated == 0,
            r.pages_freed == 0,
            r.pool_allocated == 0,
            r.pool_freed == 0,
            r.memory_log() == Seq::<MemoryCall>::empty(),
    {
        CountingBootServices {
            deny: false,
            pages_allocated: 0,
            pages_freed: 0,
            pool_allocated: 0,
            pool_freed: 0,
            pages_live: Ghost(0int),
            pool_live: Ghost(0int),
            log: Ghost(Seq::empty()),
        }
    }

    /// True when every allocation has been returned.
    pub fn balanced(&self) -> (r: bool)
        ensures
            r == (self.pages_allocated == self.pages_freed
                && self.pool_allocated == self.pool_freed),
    {
        self.pages_allocated == self.pages_freed && self.pool_allocated == self.pool_freed
    }
}

impl BootServices for CountingBootServices {
    open spec fn pages_outstanding(&self) -> int {
        self.pages_live@
    }

    open spec fn pool_outstanding(&self) -> int {
        self.pool_live@
    }

    open spec fn memory_log(&self) -> Seq<MemoryCall> {
        self.log@
    }

    fn allocate_pages(&mut self, pages: usize) -> (r: Result<Vec<u8>, Status>) {
        if self.deny || pages > usize::MAX / PAGE_SIZE {
            self.log = Ghost(
                self.log@.push(
                    MemoryCall::AllocatePages {
                        pages: pages as int,
                        status: Status::OutOfResources,
                    },
                ),
            );
            return Err(Status::OutOfResources);
        }
        let buf = vec![0u8; pages * PAGE_SIZE];
        if self.pages_allocated < u64::MAX {
            self.pages_allocated = self.pages_allocated + 1;
        }
        self.pages_live = Ghost(self.pages_live@ + 1);
        self.log = Ghost(
            self.log@.push(
                MemoryCall::AllocatePages { pages: pages as int, status: Status::Success },
            ),
        );
        Ok(buf)
    }

    fn free_pages(&mut self, buffer: Vec<u8>, pages: usize) {
        let _ = buffer;
        if self.pages_freed < u64::MAX {
            self.pages_freed = self.pages_freed + 1;
        }
        self.pages_live = Ghost(self.pages_live@ - 1);
        self.log = Ghost(self.log@.push(MemoryCall::FreePages { pages: pages as int }));
    }

    fn allocate_pool(&mut self, size: usize) -> (r: Result<Vec<u8>, Status>) {
        if size > 0 && self.deny {
            self.log = Ghost(
                self.log@.push(
                    MemoryCall::AllocatePool {
                        size: size as int,
                        status: Status::OutOfResources,
                    },
                ),
            );
            return Err(Status::OutOfResources);
        }
        let buf = vec![0u8; size];
        if self.pool_allocated < u64::MAX {
            self.pool_allocated = self.pool_allocated + 1;
        }
        self.pool_live = Ghost(self.pool_live@ + 1);
        self.log = Ghost(
            self.log@.push(
                MemoryCall::AllocatePool { size: size as int, status: Status::Success },
            ),
        );
        Ok(buf)
    }

    fn free_pool(&mut self, buffer: Vec<u8>) {
        let _ = buffer;
        if self.pool_freed < u64::MAX {
            self.pool_freed = self.pool_freed + 1;
        }
        self.pool_live = Ghost(self.pool_live@ - 1);
        self.log = Ghost(self.log@.push(MemoryCall::FreePool));
    }

    fn allocate_pool_utf16(&mut self, units: usize) -> (r: Result<Vec<u16>, Status>) {
        if units > 0 && self.deny {
            self.log = Ghost(
                self.log@.push(
                    MemoryCall::AllocatePoolUtf16 {
                        units: units as int,
                        status: Status::OutOfResources,
                    },
                ),
            );
            return Err(Status::OutOfResources);
        }
        let buf = vec![0u16; units];
        if self.pool_allocated < u64::MAX {
            self.pool_allocated = self.pool_allocated + 1;
        }
        self.pool_live = Ghost(self.pool_live@ + 1);
        self.log = Ghost(
            self.log@.push(
                MemoryCall::AllocatePoolUtf16 { units: units as int, status: Status::Success },
            ),
        );
        Ok(buf)
    }

    fn free_pool_utf16(&mut self, buffer: Vec<u16>) {
        let _ = buffer;
        if self.pool_freed < u64::MAX {
            self.pool_freed = self.pool_freed + 1;
        }
        self.pool_live = Ghost(self.pool_live@ - 1);
        self.log = Ghost(self.log@.push(MemoryCall::FreePoolUtf16));
    }
}

} // verus!
