//! Wide-string marshaling between the caller's byte text and the firmware's
//! null-terminated wide-character convention.
//!
//! No real transcoding happens in either direction: each byte is widened to
//! one code unit, and each code unit is truncated to its low byte. Only text
//! whose code points fit in one byte survives a round trip; that is a
//! deliberate limitation of this boundary layer, kept here unchanged.

pub mod device_path;

use vstd::prelude::*;

use crate::base::Status;
use crate::bootservices::{BootServices, MemoryCall};

verus! {

/// A wide buffer that holds a null terminator somewhere.
pub open spec fn is_terminated(s: Seq<u16>) -> bool {
    exists|i: int| 0 <= i < s.len() && s[i] == 0
}

/// The number of code units before the first zero unit; the whole length
/// when no zero unit exists.
pub open spec fn wide_strlen(s: Seq<u16>) -> int
    decreases s.len(),
{
    if s.len() == 0 {
        0
    } else if s[0] == 0 {
        0
    } else {
        1 + wide_strlen(s.drop_first())
    }
}

/// `wide_strlen` is exactly the position of the first zero unit.
pub proof fn lemma_wide_strlen_at(s: Seq<u16>, r: int)
    requires
        0 <= r < s.len(),
        s[r] == 0,
        forall|j: int| 0 <= j < r ==> s[j] != 0,
    ensures
        wide_strlen(s) == r,
    decreases r,
{
    if r > 0 {
        lemma_wide_strlen_at(s.drop_first(), r - 1);
    }
}

/// The narrow text a wide string denotes: its code units up to the first
/// terminator, each truncated to its low byte.
pub open spec fn narrowed(s: Seq<u16>) -> Seq<u8> {
    s.take(wide_strlen(s)).map_values(|c: u16| (c % 256) as u8)
}

/// The wide form of byte text: each byte zero-extended to one code unit,
/// with a terminating zero unit appended.
pub open spec fn widened(t: Seq<u8>) -> Seq<u16> {
    Seq::new(
        t.len() + 1,
        |i: int|
            if i < t.len() {
                t[i] as u16
            } else {
                0u16
            },
    )
}

/// A zero unit anywhere bounds `wide_strlen` from above.
pub proof fn lemma_wide_strlen_le(s: Seq<u16>, k: int)
    requires
        0 <= k < s.len(),
        s[k] == 0,
    ensures
        wide_strlen(s) <= k,
    decreases k,
{
    if k > 0 && s[0] != 0 {
        lemma_wide_strlen_le(s.drop_first(), k - 1);
    }
}

/// Take a null-terminated wide string (such as one returned by firmware text
/// services) and determine its length: the count of code units before the
/// first zero unit. The terminator must be present — that is the caller's
/// precondition, not a checked condition.
pub fn utf16_strlen(chars: &[u16]) -> (r: usize)
    requires
        is_terminated(chars@),
    ensures
        r as int == wide_strlen(chars@),
        r < chars@.len(),
        chars@[r as int] == 0,
        forall|j: int| 0 <= j < r ==> chars@[j] != 0,
{
    let mut len: usize = 0;
    while chars[len] != 0
        invariant
            0 <= len < chars@.len(),
            forall|j: int| 0 <= j < len ==> chars@[j] != 0,
            exists|i: int| len <= i < chars@.len() && chars@[i] == 0,
        decreases chars@.len() - len,
    {
        proof {
            let w = choose|i: int| len <= i < chars@.len() && chars@[i] == 0;
            assert(w != len);
            assert(len + 1 <= w < chars@.len() && chars@[w] == 0);
        }
        len = len + 1;
    }
    proof {
        lemma_wide_strlen_at(chars@, len as int);
    }
    len
}

/// Convert a null-terminated wide string into a caller-owned narrow pool
/// buffer: one byte per code unit, each code unit truncated to its low byte.
/// The caller releases the buffer through the pool-free path. A zero-length
/// wide string (immediate terminator) always yields an empty buffer.
pub fn utf16_ptr_to_str<B: BootServices>(chars: &[u16], bs: &mut B) -> (r: Result<
    Vec<u8>,
    Status,
>)
    requires
        is_terminated(chars@),
    ensures
        match r {
            Ok(v) => {
                &&& v@ == narrowed(chars@)
                &&& v@.len() == wide_strlen(chars@)
                &&& forall|i: int| 0 <= i < v@.len() ==> v@[i] == (chars@[i] % 256) as u8
                &&& final(bs).pool_outstanding() == old(bs).pool_outstanding() + 1
                &&& final(bs).pages_outstanding() == old(bs).pages_outstanding()
                &&& final(bs).memory_log() == old(bs).memory_log().push(
                    MemoryCall::AllocatePool {
                        size: wide_strlen(chars@),
                        status: Status::Success,
                    },
                )
            },
            Err(e) => {
                &&& e != Status::Success
                &&& final(bs).pool_outstanding() == old(bs).pool_outstanding()
                &&& final(bs).pages_outstanding() == old(bs).pages_outstanding()
                &&& final(bs).memory_log() == old(bs).memory_log().push(
                    MemoryCall::AllocatePool { size: wide_strlen(chars@), status: e },
                )
            },
        },
        wide_strlen(chars@) == 0 ==> r is Ok,
{
    let strlen = utf16_strlen(chars);
    match bs.allocate_pool(strlen) {
        Err(e) => Err(e),
        Ok(mut out) => {
            let mut i: usize = 0;
            while i < strlen
                invariant
                    i <= strlen,
                    strlen < chars@.len(),
                    out@.len() == strlen,
                    forall|j: int| 0 <= j < i ==> out@[j] == (chars@[j] % 256) as u8,
                decreases strlen - i,
            {
                out[i] = (chars[i] % 256) as u8;
                i = i + 1;
            }
            proof {
                assert(out@ =~= narrowed(chars@));
            }
            Ok(out)
        },
    }
}

/// Convert byte text to a caller-owned, null-terminated wide pool buffer:
/// one code unit per byte, zero-extended, with a terminating zero unit
/// appended. The buffer is pool memory; whoever consumes it is responsible
/// for routing it back.
pub fn str_to_utf16_ptr<B: BootServices>(chars: &[u8], bs: &mut B) -> (r: Result<
    Vec<u16>,
    Status,
>)
    requires
        chars@.len() < usize::MAX,
    ensures
        match r {
            Ok(w) => {
                &&& w@ == widened(chars@)
                &&& w@.len() == chars@.len() + 1
                &&& forall|i: int| 0 <= i < chars@.len() ==> w@[i] == chars@[i] as u16
                &&& w@[chars@.len() as int] == 0
                &&& is_terminated(w@)
                &&& wide_strlen(w@) <= chars@.len()
                &&& final(bs).pool_outstanding() == old(bs).pool_outstanding() + 1
                &&& final(bs).pages_outstanding() == old(bs).pages_outstanding()
                &&& final(bs).memory_log() == old(bs).memory_log().push(
                    MemoryCall::AllocatePoolUtf16 {
                        units: chars@.len() as int + 1,
                        status: Status::Success,
                    },
                )
            },
            Err(e) => {
                &&& e != Status::Success
                &&& final(bs).pool_outstanding() == old(bs).pool_outstanding()
                &&& final(bs).pages_outstanding() == old(bs).pages_outstanding()
                &&& final(bs).memory_log() == old(bs).memory_log().push(
                    MemoryCall::AllocatePoolUtf16 { units: chars@.len() as int + 1, status: e },
                )
            },
        },
{
    let n = chars.len();
    match bs.allocate_pool_utf16(n + 1) {
        Err(e) => Err(e),
        Ok(mut w) => {
            let mut i: usize = 0;
            while i < n
                invariant
                    i <= n,
                    n == chars@.len(),
                    w@.len() == n + 1,
                    forall|j: int| 0 <= j < i ==> w@[j] == chars@[j] as u16,
                decreases n - i,
            {
                w[i] = chars[i] as u16;
                i = i + 1;
            }
            w[n] = 0;
            proof {
                assert(w@[n as int] == 0);
                assert(is_terminated(w@));
                lemma_wide_strlen_le(w@, n as int);
                assert(w@ =~= widened(chars@));
            }
            Ok(w)
        },
    }
}

} // verus!
