//! Hand-construction of media file-path nodes: a node whose payload is a
//! null-terminated wide file name, built by widening each name byte to one
//! code unit. No surrogate handling takes place — only names whose bytes
//! are their own code points are representable, a deliberate limitation of
//! this boundary layer.

use vstd::prelude::*;

use crate::base::Status;
use crate::protocol::device_path::{
    DevicePathProtocol, DevicePathUtilitiesProtocol, NodeView, PathUtilitiesHardware, UtilityCall,
};
use crate::util::{lemma_wide_strlen_at, wide_strlen};

verus! {

/// The payload of a file-name node for `name`: each name byte widened to a
/// little-endian code unit, then one zero terminator unit.
pub open spec fn file_name_payload(name: Seq<u8>) -> Seq<u8> {
    Seq::new(
        (name.len() + 1) * 2,
        |i: int|
            if i % 2 == 1 {
                0u8
            } else if i / 2 < name.len() {
                name[i / 2]
            } else {
                0u8
            },
    )
}

/// A payload read back as little-endian code unit pairs.
pub open spec fn payload_code_units(p: Seq<u8>) -> Seq<u16> {
    Seq::new(p.len() / 2, |i: int| (p[2 * i] as int + 256 * p[2 * i + 1] as int) as u16)
}

/// The text a file-name payload denotes: its code units up to the first
/// terminator, each truncated back to its low byte.
pub open spec fn decoded_file_name(p: Seq<u8>) -> Seq<u8> {
    payload_code_units(p).take(wide_strlen(payload_code_units(p))).map_values(
        |c: u16| (c % 256) as u8,
    )
}

/// Encoding a file name and decoding the payload reproduces the name: the
/// widening and the truncation are inverse on names free of zero bytes.
pub proof fn lemma_file_name_round_trip(name: Seq<u8>)
    requires
        forall|i: int| 0 <= i < name.len() ==> name[i] != 0,
    ensures
        decoded_file_name(file_name_payload(name)) == name,
{
    let p = file_name_payload(name);
    let u = payload_code_units(p);
    assert(p.len() == (name.len() + 1) * 2);
    assert(u.len() == name.len() + 1);
    assert forall|i: int| 0 <= i < name.len() + 1 implies u[i] == (
        if i < name.len() {
            name[i] as u16
        } else {
            0u16
        }
    ) by {
        assert(p[2 * i] == (if i < name.len() {
            name[i]
        } else {
            0u8
        }));
        assert(p[2 * i + 1] == 0u8);
    }
    lemma_wide_strlen_at(u, name.len() as int);
    assert(decoded_file_name(p) =~= name);
}

/// The node the firmware's create service hands out for a file-name
/// request of `name_len` bytes: file-path tags, the declared total length,
/// and a still zero-filled payload.
pub open spec fn blank_file_node(name_len: nat) -> NodeView {
    NodeView {
        type_: 4u8,
        sub_type: 4u8,
        length: (4 + (name_len + 1) * 2) as int,
        payload: Seq::new((name_len + 1) * 2, |i: int| 0u8),
    }
}

/// Construct a media file-path node for `filename` without going through a
/// generic text service: the node is requested from the firmware's utility
/// service at exactly `4 + (len + 1) * 2` bytes, then each name byte is
/// written into the payload as a widened code unit, followed by a zero
/// terminator. Succeeds exactly when the firmware hands out the node; a
/// null result is an invalid-parameter failure.
pub fn create_file_device_node<U: PathUtilitiesHardware>(
    filename: &[u8],
    utilities: &mut DevicePathUtilitiesProtocol<U>,
) -> (r: Result<DevicePathProtocol, Status>)
    requires
        filename@.len() <= 32764,
    ensures
        match r {
            Ok(n) => {
                &&& n.type_ == 4
                &&& n.sub_type == 4
                &&& n.length_spec() == 4 + (filename@.len() + 1) * 2
                &&& n.payload@ == file_name_payload(filename@)
                &&& n.wf()
                &&& final(utilities).backend.utility_log()
                    == old(utilities).backend.utility_log().push(
                    UtilityCall::CreateNode {
                        node_type: 4,
                        node_subtype: 4,
                        node_length: (4 + (filename@.len() + 1) * 2) as u16,
                        result: Some(blank_file_node(filename@.len())),
                    },
                )
            },
            Err(e) => e == Status::InvalidParameter
                && final(utilities).backend.utility_log()
                    == old(utilities).backend.utility_log().push(
                    UtilityCall::CreateNode {
                        node_type: 4,
                        node_subtype: 4,
                        node_length: (4 + (filename@.len() + 1) * 2) as u16,
                        result: None,
                    },
                ),
        },
{
    let node_size_bytes: usize = 4 + (filename.len() + 1) * 2;
    match utilities.create_device_node(4, 4, node_size_bytes as u16) {
        Err(e) => Err(e),
        Ok(mut node) => {
            proof {
                assert(node@.payload
                    =~= Seq::new((filename@.len() + 1) * 2, |i: int| 0u8));
                assert(node@ =~= blank_file_node(filename@.len()));
            }
            let n = filename.len();
            let ghost target = file_name_payload(filename@);
            let mut i: usize = 0;
            while i < n
                invariant
                    i <= n,
                    n == filename@.len(),
                    n <= 32764,
                    target == file_name_payload(filename@),
                    node.payload@.len() == (n + 1) * 2,
                    node.type_ == 4,
                    node.sub_type == 4,
                    node.length_spec() == 4 + (n + 1) * 2,
                    forall|m: int| 0 <= m < 2 * i ==> node.payload@[m] == target[m],
                    forall|m: int|
                        2 * i <= m < node.payload@.len() ==> node.payload@[m] == 0u8,
                decreases n - i,
            {
                node.payload[2 * i] = filename[i];
                node.payload[2 * i + 1] = 0;
                proof {
                    assert(target[2 * i as int] == filename@[i as int]);
                    assert(target[2 * i as int + 1] == 0u8);
                }
                i = i + 1;
            }
            proof {
                assert forall|m: int|
                    0 <= m < node.payload@.len() implies node.payload@[m] == target[m] by {
                    if m >= 2 * n {
                        assert(node.payload@[m] == 0u8);
                        assert(target[m] == 0u8);
                    }
                }
                assert(node.payload@ =~= target);
            }
            Ok(node)
        },
    }
}

/// Read a node payload back as wide code units: little-endian pairs, in
/// order. A file-name node's payload yields its embedded wide string.
pub fn payload_units(payload: &[u8]) -> (r: Vec<u16>)
    ensures
        r@ == payload_code_units(payload@),
{
    let plen = payload.len();
    let units = plen / 2;
    let mut out: Vec<u16> = Vec::new();
    let mut i: usize = 0;
    while i < units
        invariant
            i <= units,
            2 * units <= plen,
            plen == payload@.len(),
            out@.len() == i,
            forall|j: int| 0 <= j < i ==> out@[j] == payload_code_units(payload@)[j],
        decreases units - i,
    {
        let lo = payload[2 * i];
        let hi = payload[2 * i + 1];
        out.push(lo as u16 + 256 * (hi as u16));
        i = i + 1;
    }
    proof {
        assert(out@ =~= payload_code_units(payload@));
    }
    out
}

} // verus!
