//! Binary device-path records and the firmware services around them: a node
//! is a self-describing variable-length record — one type byte, one subtype
//! byte, a two-byte little-endian total length (header plus payload), then
//! the payload — and nodes chain into multi-node paths.

use vstd::prelude::*;

use crate::base::Status;
use crate::bootservices::{BootServices, MemoryCall};
use crate::console::SimpleTextOutput;
use crate::util::{is_terminated, narrowed, str_to_utf16_ptr, utf16_ptr_to_str, wide_strlen, widened};

verus! {

/// The type tags a device-path node can carry.
#[derive(Clone, Copy, Debug, PartialEq, Eq, Structural)]
pub enum DevicePathTypes {
    Hardware,
    ACPI,
    Messaging,
    Media,
    BIOSBootSpecification,
    End,
}

impl DevicePathTypes {
    /// The tag byte this type occupies in the binary record.
    pub open spec fn spec_value(&self) -> u8 {
        match self {
            DevicePathTypes::Hardware => 0x01,
            DevicePathTypes::ACPI => 0x02,
            DevicePathTypes::Messaging => 0x03,
            DevicePathTypes::Media => 0x04,
            DevicePathTypes::BIOSBootSpecification => 0x05,
            DevicePathTypes::End => 0x7F,
        }
    }

    /// The tag byte this type occupies in the binary record.
    pub fn value(&self) -> (r: u8)
        ensures
            r == self.spec_value(),
    {
        match self {
            DevicePathTypes::Hardware => 0x01,
            DevicePathTypes::ACPI => 0x02,
            DevicePathTypes::Messaging => 0x03,
            DevicePathTypes::Media => 0x04,
            DevicePathTypes::BIOSBootSpecification => 0x05,
            DevicePathTypes::End => 0x7F,
        }
    }
}

/// Subtypes of an End-type node: the end of one path instance, or of the
/// entire path.
#[derive(Clone, Copy, Debug, PartialEq, Eq, Structural)]
pub enum EndPathSubTypes {
    EndInstance,
    EndEntirePath,
}

impl EndPathSubTypes {
    /// The subtype byte this variant occupies in the binary record.
    pub open spec fn spec_value(&self) -> u8 {
        match self {
            EndPathSubTypes::EndInstance => 0x01,
            EndPathSubTypes::EndEntirePath => 0xFF,
        }
    }

    /// The subtype byte this variant occupies in the binary record.
    pub fn value(&self) -> (r: u8)
        ensures
            r == self.spec_value(),
    {
        match self {
            EndPathSubTypes::EndInstance => 0x01,
            EndPathSubTypes::EndEntirePath => 0xFF,
        }
    }
}

/// The mathematical content of one node: tags, the declared total length,
/// and the payload bytes.
#[verifier::ext_equal]
pub ghost struct NodeView {
    /// The type tag.
    pub type_: u8,
    /// The subtype tag.
    pub sub_type: u8,
    /// The declared total length: header plus payload.
    pub length: int,
    /// The payload bytes.
    pub payload: Seq<u8>,
}

impl NodeView {
    /// The declared length matches the payload: `length == 4 + payload len`.
    pub open spec fn wf(&self) -> bool {
        self.length == 4 + self.payload.len()
    }
}

/// One device-path node. The two length bytes are stored exactly as they sit
/// in the binary record, least-significant first.
pub struct DevicePathProtocol {
    /// The type tag.
    pub type_: u8,
    /// The subtype tag.
    pub sub_type: u8,
    /// Total record length in bytes, header included, little-endian.
    pub length: [u8; 2],
    /// The `length - 4` payload bytes following the header.
    pub payload: Vec<u8>,
}

impl View for DevicePathProtocol {
    type V = NodeView;

    open spec fn view(&self) -> NodeView {
        NodeView {
            type_: self.type_,
            sub_type: self.sub_type,
            length: self.length_spec(),
            payload: self.payload@,
        }
    }
}

impl DevicePathProtocol {
    /// The value of the little-endian length field.
    pub open spec fn length_spec(&self) -> int {
        self.length[0] as int + 256 * self.length[1] as int
    }

    /// The declared length field matches the payload actually held: any
    /// mismatch is a construction bug, not a runtime-recoverable state.
    pub open spec fn wf(&self) -> bool {
        self.length_spec() == 4 + self.payload@.len()
    }

    /// The whole binary record: the four header bytes followed by the
    /// payload.
    pub open spec fn spec_encoding(&self) -> Seq<u8> {
        seq![self.type_, self.sub_type, self.length[0], self.length[1]] + self.payload@
    }

    /// The payload bytes following the four-byte header.
    pub fn data(&self) -> (r: &[u8])
        ensures
            r@ == self.payload@,
    {
        self.payload.as_slice()
    }

    /// Serialize this node bit-exactly: type, subtype, the two length bytes
    /// least-significant first, then the payload.
    pub fn encode(&self) -> (r: Vec<u8>)
        ensures
            r@ == self.spec_encoding(),
    {
        let mut out: Vec<u8> = Vec::new();
        out.push(self.type_);
        out.push(self.sub_type);
        out.push(self.length[0]);
        out.push(self.length[1]);
        let n = self.payload.len();
        let mut i: usize = 0;
        while i < n
            invariant
                i <= n,
                n == self.payload@.len(),
                out@ == seq![
                    self.type_,
                    self.sub_type,
                    self.length[0],
                    self.length[1],
                ] + self.payload@.subrange(0, i as int),
            decreases n - i,
        {
            out.push(self.payload[i]);
            i = i + 1;
            proof {
                assert(self.payload@.subrange(0, i as int)
                    =~= self.payload@.subrange(0, i - 1).push(self.payload@[i - 1]));
            }
        }
        proof {
            assert(self.payload@.subrange(0, n as int) =~= self.payload@);
        }
        out
    }

    /// Parse one node from the front of `bytes`, validating that the header
    /// is present and that the declared length is at least the header size
    /// and within the available bytes. Succeeds exactly on that condition.
    pub fn decode(bytes: &[u8]) -> (r: Result<DevicePathProtocol, Status>)
        ensures
            match r {
                Ok(n) => {
                    &&& n.wf()
                    &&& bytes@.len() >= 4
                    &&& n.type_ == bytes@[0]
                    &&& n.sub_type == bytes@[1]
                    &&& n.length[0] == bytes@[2]
                    &&& n.length[1] == bytes@[3]
                    &&& 4 <= n.length_spec() <= bytes@.len()
                    &&& n.payload@ == bytes@.subrange(4, n.length_spec())
                },
                Err(e) => e == Status::BadBufferSize,
            },
            (r is Ok) <==> (bytes@.len() >= 4
                && 4 <= bytes@[2] as int + 256 * bytes@[3] as int <= bytes@.len()),
    {
        if bytes.len() < 4 {
            return Err(Status::BadBufferSize);
        }
        let declared: usize = bytes[2] as usize + 256 * (bytes[3] as usize);
        if declared < 4 || declared > bytes.len() {
            return Err(Status::BadBufferSize);
        }
        let mut payload: Vec<u8> = Vec::new();
        let mut i: usize = 4;
        while i < declared
            invariant
                4 <= i <= declared,
                declared <= bytes@.len(),
                payload@ == bytes@.subrange(4, i as int),
            decreases declared - i,
        {
            payload.push(bytes[i]);
            i = i + 1;
            proof {
                assert(bytes@.subrange(4, i as int)
                    =~= bytes@.subrange(4, i - 1).push(bytes@[i - 1]));
            }
        }
        Ok(DevicePathProtocol {
            type_: bytes[0],
            sub_type: bytes[1],
            length: [bytes[2], bytes[3]],
            payload,
        })
    }

    /// A field-for-field copy of this node.
    pub fn duplicate(&self) -> (r: DevicePathProtocol)
        ensures
            r@ == self@,
    {
        let n = self.payload.len();
        let mut payload: Vec<u8> = Vec::new();
        let mut i: usize = 0;
        while i < n
            invariant
                i <= n,
                n == self.payload@.len(),
                payload@ == self.payload@.subrange(0, i as int),
            decreases n - i,
        {
            payload.push(self.payload[i]);
            i = i + 1;
            proof {
                assert(self.payload@.subrange(0, i as int)
                    =~= self.payload@.subrange(0, i - 1).push(self.payload@[i - 1]));
            }
        }
        let r = DevicePathProtocol {
            type_: self.type_,
            sub_type: self.sub_type,
            length: [self.length[0], self.length[1]],
            payload,
        };
        proof {
            assert(self.payload@.subrange(0, n as int) =~= self.payload@);
            assert(r@ =~= self@);
        }
        r
    }
}

/// A chain of device-path nodes. The designated End-type terminator of the
/// binary form is implicit: it is appended when a chain is laid out in
/// memory and never stored as a member node.
pub struct DevicePath {
    /// The member nodes, in path order.
    pub nodes: Vec<DevicePathProtocol>,
}

impl View for DevicePath {
    type V = Seq<NodeView>;

    open spec fn view(&self) -> Seq<NodeView> {
        self.nodes@.map_values(|n: DevicePathProtocol| n@)
    }
}

impl DevicePath {
    /// Every member node is well formed.
    pub open spec fn wf(&self) -> bool {
        forall|i: int| 0 <= i < self@.len() ==> (#[trigger] self@[i]).wf()
    }
}

/// One call to the device-path utility service, with the firmware's answer;
/// `None` models the firmware handing back a null pointer.
#[verifier::ext_equal]
pub ghost enum UtilityCall {
    /// A concatenation of two chains.
    Append { src1: Seq<NodeView>, src2: Seq<NodeView>, result: Option<Seq<NodeView>> },
    /// A node allocation request.
    CreateNode { node_type: u8, node_subtype: u8, node_length: u16, result: Option<NodeView> },
}

/// The firmware's device-path utility service. A `None` result models the
/// firmware handing back a null pointer instead of a path. The request log
/// records every call with exactly the arguments handed over and the
/// firmware's answer.
pub trait PathUtilitiesHardware: Sized {
    /// Every utility request so far, with its arguments and answer.
    spec fn utility_log(&self) -> Seq<UtilityCall>;

    /// Concatenate two chains into a newly allocated chain holding the
    /// first's nodes followed by the second's.
    fn append_device_path(&mut self, src1: &DevicePath, src2: &DevicePath) -> (r: Option<
        DevicePath,
    >)
        ensures
            r matches Some(p) ==> p@ == src1@ + src2@,
            final(self).utility_log() == old(self).utility_log().push(
                UtilityCall::Append {
                    src1: src1@,
                    src2: src2@,
                    result: match r {
                        Some(p) => Some(p@),
                        None => None,
                    },
                },
            ),
    ;

    /// Allocate a fresh node of `node_length` total bytes with the given
    /// tags; the payload comes back zero-filled. A length below the header
    /// size yields no node.
    fn create_device_node(&mut self, node_type: u8, node_subtype: u8, node_length: u16) -> (r:
        Option<DevicePathProtocol>)
        ensures
            r matches Some(n) ==> {
                &&& n.type_ == node_type
                &&& n.sub_type == node_subtype
                &&& n.length_spec() == node_length
                &&& n.payload@ == Seq::new((node_length - 4) as nat, |i: int| 0u8)
                &&& n.wf()
            },
            node_length < 4 ==> r is None,
            final(self).utility_log() == old(self).utility_log().push(
                UtilityCall::CreateNode {
                    node_type,
                    node_subtype,
                    node_length,
                    result: match r {
                        Some(n) => Some(n@),
                        None => None,
                    },
                },
            ),
    ;
}

/// Path construction through the firmware's utility service. A null result
/// from the firmware is surfaced as an invalid-parameter failure, never as
/// success.
pub struct DevicePathUtilitiesProtocol<U: PathUtilitiesHardware> {
    /// The firmware's raw utility surface.
    pub backend: U,
}

impl<U: PathUtilitiesHardware> DevicePathUtilitiesProtocol<U> {
    /// Concatenate two path chains into a new one: the firmware's append
    /// service is asked exactly once, with both chains unchanged. It
    /// succeeds exactly when the firmware answered a path — then the result
    /// is that very answer, the first chain's nodes followed by the
    /// second's — and a null answer is an invalid-parameter failure, never
    /// success.
    pub fn append_device_path(&mut self, src1: &DevicePath, src2: &DevicePath) -> (r: Result<
        DevicePath,
        Status,
    >)
        ensures
            match r {
                Ok(p) => p@ == src1@ + src2@
                    && final(self).backend.utility_log()
                        == old(self).backend.utility_log().push(
                        UtilityCall::Append { src1: src1@, src2: src2@, result: Some(p@) },
                    ),
                Err(e) => e == Status::InvalidParameter
                    && final(self).backend.utility_log()
                        == old(self).backend.utility_log().push(
                        UtilityCall::Append { src1: src1@, src2: src2@, result: None },
                    ),
            },
    {
        match self.backend.append_device_path(src1, src2) {
            Some(p) => Ok(p),
            None => Err(Status::InvalidParameter),
        }
    }

    /// Allocate a new node of `node_length` total bytes with the given
    /// tags: the firmware's create service is asked exactly once, with the
    /// arguments unchanged. It succeeds exactly when the firmware answered a
    /// node — then the result is that very answer, carrying the requested
    /// tags, the requested declared length, and a zero-filled payload — and
    /// a null answer is an invalid-parameter failure, never success.
    pub fn create_device_node(&mut self, node_type: u8, node_subtype: u8, node_length: u16) -> (r:
        Result<DevicePathProtocol, Status>)
        ensures
            match r {
                Ok(n) => {
                    &&& n.type_ == node_type
                    &&& n.sub_type == node_subtype
                    &&& n.length_spec() == node_length
                    &&& n.payload@ == Seq::new((node_length - 4) as nat, |i: int| 0u8)
                    &&& n.wf()
                    &&& final(self).backend.utility_log()
                        == old(self).backend.utility_log().push(
                        UtilityCall::CreateNode {
                            node_type,
                            node_subtype,
                            node_length,
                            result: Some(n@),
                        },
                    )
                },
                Err(e) => e == Status::InvalidParameter
                    && final(self).backend.utility_log()
                        == old(self).backend.utility_log().push(
                        UtilityCall::CreateNode {
                            node_type,
                            node_subtype,
                            node_length,
                            result: None,
                        },
                    ),
            },
            node_length < 4 ==> r is Err,
    {
        match self.backend.create_device_node(node_type, node_subtype, node_length) {
            Some(n) => Ok(n),
            None => Err(Status::InvalidParameter),
        }
    }
}

/// One request to the path-to-text conversion service, with the wide string
/// or status the firmware answered.
#[verifier::ext_equal]
pub ghost enum TextRequest {
    /// A single-node rendering request.
    Node { node: NodeView, display_only: bool, allow_shortcuts: bool, result: Result<Seq<u16>, Status> },
    /// A whole-path rendering request.
    Path { path: Seq<NodeView>, display_only: bool, allow_shortcuts: bool, result: Result<Seq<u16>, Status> },
}

/// One request to the text-to-path parsing service, with the firmware's
/// answer; `None` models the firmware handing back a null pointer.
#[verifier::ext_equal]
pub ghost enum ParseRequest {
    /// A parse into one node.
    Node { text: Seq<u16>, result: Option<NodeView> },
    /// A parse into a whole path.
    Path { text: Seq<u16>, result: Option<Seq<NodeView>> },
}

/// The firmware's path-to-text conversion service. On success it hands back
/// a freshly pool-allocated, null-terminated wide string that the caller
/// must release — the outstanding pool count rises by one. The request log
/// records every call with the node or path handed over, the flags, and the
/// firmware's answer.
pub trait ToTextHardware: Sized {
    /// Every conversion request so far, with its arguments and answer.
    spec fn text_log(&self) -> Seq<TextRequest>;

    /// Render one node as text.
    fn device_path_node_to_text<B: BootServices>(
        &mut self,
        bs: &mut B,
        device_node: &DevicePathProtocol,
        display_only: bool,
        allow_shortcuts: bool,
    ) -> (r: Result<Vec<u16>, Status>)
        ensures
            match r {
                Ok(w) => {
                    &&& is_terminated(w@)
                    &&& final(bs).pool_outstanding() == old(bs).pool_outstanding() + 1
                    &&& final(bs).pages_outstanding() == old(bs).pages_outstanding()
                },
                Err(e) => {
                    &&& e != Status::Success
                    &&& final(bs).pool_outstanding() == old(bs).pool_outstanding()
                    &&& final(bs).pages_outstanding() == old(bs).pages_outstanding()
                },
            },
            final(self).text_log() == old(self).text_log().push(
                TextRequest::Node {
                    node: device_node@,
                    display_only,
                    allow_shortcuts,
                    result: match r {
                        Ok(w) => Ok(w@),
                        Err(e) => Err(e),
                    },
                },
            ),
    ;

    /// Render a whole path as text.
    fn device_path_to_text<B: BootServices>(
        &mut self,
        bs: &mut B,
        device_path: &DevicePath,
        display_only: bool,
        allow_shortcuts: bool,
    ) -> (r: Result<Vec<u16>, Status>)
        ensures
            match r {
                Ok(w) => {
                    &&& is_terminated(w@)
                    &&& final(bs).pool_outstanding() == old(bs).pool_outstanding() + 1
                    &&& final(bs).pages_outstanding() == old(bs).pages_outstanding()
                },
                Err(e) => {
                    &&& e != Status::Success
                    &&& final(bs).pool_outstanding() == old(bs).pool_outstanding()
                    &&& final(bs).pages_outstanding() == old(bs).pages_outstanding()
                },
            },
            final(self).text_log() == old(self).text_log().push(
                TextRequest::Path {
                    path: device_path@,
                    display_only,
                    allow_shortcuts,
                    result: match r {
                        Ok(w) => Ok(w@),
                        Err(e) => Err(e),
                    },
                },
            ),
    ;
}

/// Path rendering through the firmware's conversion service. The
/// firmware-owned wide string is always released here — a miss would leak
/// firmware memory for the process lifetime — and a marshaling failure is
/// surfaced as a conversion failure distinct from any firmware status.
pub struct DevicePathToTextProtocol<T: ToTextHardware> {
    /// The firmware's raw conversion surface.
    pub backend: T,
}

impl<T: ToTextHardware> DevicePathToTextProtocol<T> {
    /// Render one node as caller-owned narrow text: the conversion service
    /// is asked once, with exactly this node and these flags, and on success
    /// the result is the low-byte narrowing of the wide string it answered.
    /// On success exactly one pool allocation — the returned text — is
    /// added; on any failure the pool balance is unchanged: the intermediate
    /// wide string never leaks.
    pub fn device_path_node_to_text<B: BootServices>(
        &mut self,
        bs: &mut B,
        device_node: &DevicePathProtocol,
        display_only: bool,
        allow_shortcuts: bool,
    ) -> (r: Result<Vec<u8>, ()>)
        requires
            old(bs).pool_outstanding() >= 0,
        ensures
            final(bs).pages_outstanding() == old(bs).pages_outstanding(),
            match r {
                Ok(v) => {
                    &&& final(bs).pool_outstanding() == old(bs).pool_outstanding() + 1
                    &&& exists|w: Seq<u16>|
                        final(self).backend.text_log() == old(self).backend.text_log().push(
                            TextRequest::Node {
                                node: device_node@,
                                display_only,
                                allow_shortcuts,
                                result: Ok(w),
                            },
                        ) && v@ == narrowed(w)
                },
                Err(_) => {
                    &&& final(bs).pool_outstanding() == old(bs).pool_outstanding()
                    &&& ((exists|e2: Status|
                        e2 != Status::Success && final(self).backend.text_log() == old(self).backend.text_log().push(
                            TextRequest::Node {
                                node: device_node@,
                                display_only,
                                allow_shortcuts,
                                result: Err(e2),
                            },
                        )) || (exists|w: Seq<u16>, e2: Status|
                        e2 != Status::Success && final(self).backend.text_log() == old(self).backend.text_log().push(
                            TextRequest::Node {
                                node: device_node@,
                                display_only,
                                allow_shortcuts,
                                result: Ok(w),
                            },
                        ) && final(bs).memory_log().len() >= 2 && final(bs).memory_log()[final(bs).memory_log().len() - 2] == (MemoryCall::AllocatePool {
                            size: wide_strlen(w),
                            status: e2,
                        }) && final(bs).memory_log().last() == MemoryCall::FreePoolUtf16))
                },
            },
    {
        match self.backend.device_path_node_to_text(bs, device_node, display_only, allow_shortcuts)
        {
            Err(_) => Err(()),
            Ok(wide) => {
                let out = utf16_ptr_to_str(wide.as_slice(), bs);
                bs.free_pool_utf16(wide);
                match out {
                    Ok(text) => Ok(text),
                    Err(_) => Err(()),
                }
            },
        }
    }

    /// Render a whole path as caller-owned narrow text, with the same call
    /// and release discipline as the single-node conversion.
    pub fn device_path_to_text<B: BootServices>(
        &mut self,
        bs: &mut B,
        device_path: &DevicePath,
        display_only: bool,
        allow_shortcuts: bool,
    ) -> (r: Result<Vec<u8>, ()>)
        requires
            old(bs).pool_outstanding() >= 0,
        ensures
            final(bs).pages_outstanding() == old(bs).pages_outstanding(),
            match r {
                Ok(v) => {
                    &&& final(bs).pool_outstanding() == old(bs).pool_outstanding() + 1
                    &&& exists|w: Seq<u16>|
                        final(self).backend.text_log() == old(self).backend.text_log().push(
                            TextRequest::Path {
                                path: device_path@,
                                display_only,
                                allow_shortcuts,
                                result: Ok(w),
                            },
                        ) && v@ == narrowed(w)
                },
                Err(_) => {
                    &&& final(bs).pool_outstanding() == old(bs).pool_outstanding()
                    &&& ((exists|e2: Status|
                        e2 != Status::Success && final(self).backend.text_log() == old(self).backend.text_log().push(
                            TextRequest::Path {
                                path: device_path@,
                                display_only,
                                allow_shortcuts,
                                result: Err(e2),
                            },
                        )) || (exists|w: Seq<u16>, e2: Status|
                        e2 != Status::Success && final(self).backend.text_log() == old(self).backend.text_log().push(
                            TextRequest::Path {
                                path: device_path@,
                                display_only,
                                allow_shortcuts,
                                result: Ok(w),
                            },
                        ) && final(bs).memory_log().len() >= 2 && final(bs).memory_log()[final(bs).memory_log().len() - 2] == (MemoryCall::AllocatePool {
                            size: wide_strlen(w),
                            status: e2,
                        }) && final(bs).memory_log().last() == MemoryCall::FreePoolUtf16))
                },
            },
    {
        match self.backend.device_path_to_text(bs, device_path, display_only, allow_shortcuts) {
            Err(_) => Err(()),
            Ok(wide) => {
                let out = utf16_ptr_to_str(wide.as_slice(), bs);
                bs.free_pool_utf16(wide);
                match out {
                    Ok(text) => Ok(text),
                    Err(_) => Err(()),
                }
            },
        }
    }

    /// Render one node and write the text to the console: on success the
    /// console gains exactly the narrowing of the wide string the conversion
    /// service answered for this node, written once; on failure it is
    /// untouched. The temporary text buffer is routed back to the pool
    /// before returning, so the pool balance is unchanged on every path.
    pub fn print_device_path_node<B: BootServices, C: SimpleTextOutput>(
        &mut self,
        bs: &mut B,
        console: &mut C,
        device_node: &DevicePathProtocol,
        display_only: bool,
        allow_shortcuts: bool,
    ) -> (r: Result<(), ()>)
        requires
            old(bs).pool_outstanding() >= 0,
        ensures
            final(bs).pages_outstanding() == old(bs).pages_outstanding(),
            final(bs).pool_outstanding() == old(bs).pool_outstanding(),
            r is Err ==> final(console).written() == old(console).written()
                && ((exists|e2: Status|
                    e2 != Status::Success && final(self).backend.text_log() == old(self).backend.text_log().push(
                        TextRequest::Node {
                            node: device_node@,
                            display_only,
                            allow_shortcuts,
                            result: Err(e2),
                        },
                    )) || (exists|w: Seq<u16>, e2: Status|
                    e2 != Status::Success && final(self).backend.text_log() == old(self).backend.text_log().push(
                        TextRequest::Node {
                            node: device_node@,
                            display_only,
                            allow_shortcuts,
                            result: Ok(w),
                        },
                    ) && final(bs).memory_log().len() >= 2
                    && final(bs).memory_log()[final(bs).memory_log().len() - 2]
                        == (MemoryCall::AllocatePool { size: wide_strlen(w), status: e2 })
                    && final(bs).memory_log().last() == MemoryCall::FreePoolUtf16)),
            r is Ok ==> exists|w: Seq<u16>|
                final(self).backend.text_log() == old(self).backend.text_log().push(
                    TextRequest::Node {
                        node: device_node@,
                        display_only,
                        allow_shortcuts,
                        result: Ok(w),
                    },
                ) && final(console).written() == old(console).written() + narrowed(w),
    {
        match self.device_path_node_to_text(bs, device_node, display_only, allow_shortcuts) {
            Err(_) => Err(()),
            Ok(text) => {
                console.write(text.as_slice());
                bs.free_pool(text);
                Ok(())
            },
        }
    }

    /// Render a whole path and write the text to the console, with the same
    /// exactness and release discipline as the single-node print.
    pub fn print_device_path<B: BootServices, C: SimpleTextOutput>(
        &mut self,
        bs: &mut B,
        console: &mut C,
        device_path: &DevicePath,
        display_only: bool,
        allow_shortcuts: bool,
    ) -> (r: Result<(), ()>)
        requires
            old(bs).pool_outstanding() >= 0,
        ensures
            final(bs).pages_outstanding() == old(bs).pages_outstanding(),
            final(bs).pool_outstanding() == old(bs).pool_outstanding(),
            r is Err ==> final(console).written() == old(console).written()
                && ((exists|e2: Status|
                    e2 != Status::Success && final(self).backend.text_log() == old(self).backend.text_log().push(
                        TextRequest::Path {
                            path: device_path@,
                            display_only,
                            allow_shortcuts,
                            result: Err(e2),
                        },
                    )) || (exists|w: Seq<u16>, e2: Status|
                    e2 != Status::Success && final(self).backend.text_log() == old(self).backend.text_log().push(
                        TextRequest::Path {
                            path: device_path@,
                            display_only,
                            allow_shortcuts,
                            result: Ok(w),
                        },
                    ) && final(bs).memory_log().len() >= 2
                    && final(bs).memory_log()[final(bs).memory_log().len() - 2]
                        == (MemoryCall::AllocatePool { size: wide_strlen(w), status: e2 })
                    && final(bs).memory_log().last() == MemoryCall::FreePoolUtf16)),
            r is Ok ==> exists|w: Seq<u16>|
                final(self).backend.text_log() == old(self).backend.text_log().push(
                    TextRequest::Path {
                        path: device_path@,
                        display_only,
                        allow_shortcuts,
                        result: Ok(w),
                    },
                ) && final(console).written() == old(console).written() + narrowed(w),
    {
        match self.device_path_to_text(bs, device_path, display_only, allow_shortcuts) {
            Err(_) => Err(()),
            Ok(text) => {
                console.write(text.as_slice());
                bs.free_pool(text);
                Ok(())
            },
        }
    }
}

/// The firmware's text-to-path parsing service. The handed-over wide buffer
/// is consumed: the service owns it from the call on and releases it, so the
/// outstanding pool count falls by one. That ownership transfer is this
/// trait's contract; an implementation that expects the caller to retain the
/// buffer cannot implement it. A `None` result models the firmware handing
/// back a null pointer instead of a parse; the request log records every
/// call with the wide text handed over and the firmware's answer.
pub trait FromTextHardware: Sized {
    /// Every parse request so far, with its text and answer.
    spec fn parse_log(&self) -> Seq<ParseRequest>;

    /// Parse a wide string into one node.
    fn text_to_device_path_node<B: BootServices>(&mut self, bs: &mut B, text: Vec<u16>) -> (r:
        Option<DevicePathProtocol>)
        requires
            old(bs).pool_outstanding() >= 1,
        ensures
            final(bs).pool_outstanding() == old(bs).pool_outstanding() - 1,
            final(bs).pages_outstanding() == old(bs).pages_outstanding(),
            r matches Some(n) ==> n.wf(),
            final(self).parse_log() == old(self).parse_log().push(
                ParseRequest::Node {
                    text: text@,
                    result: match r {
                        Some(n) => Some(n@),
                        None => None,
                    },
                },
            ),
    ;

    /// Parse a wide string into a full path.
    fn text_to_device_path<B: BootServices>(&mut self, bs: &mut B, text: Vec<u16>) -> (r: Option<
        DevicePath,
    >)
        requires
            old(bs).pool_outstanding() >= 1,
        ensures
            final(bs).pool_outstanding() == old(bs).pool_outstanding() - 1,
            final(bs).pages_outstanding() == old(bs).pages_outstanding(),
            r matches Some(p) ==> p.wf(),
            final(self).parse_log() == old(self).parse_log().push(
                ParseRequest::Path {
                    text: text@,
                    result: match r {
                        Some(p) => Some(p@),
                        None => None,
                    },
                },
            ),
    ;
}

/// Path parsing through the firmware's text service. The marshaled wide
/// intermediate is allocated here and consumed by the firmware call, so the
/// pool balance is unchanged on every path.
pub struct DevicePathFromTextProtocol<T: FromTextHardware> {
    /// The firmware's raw parsing surface.
    pub backend: T,
}

impl<T: FromTextHardware> DevicePathFromTextProtocol<T> {
    /// Parse caller text into one node: the text is widened and handed to
    /// the parsing service exactly once, the service's node is the result,
    /// and a null answer surfaces as an invalid-parameter failure, never as
    /// success. When the marshaling itself fails, its status surfaces and
    /// the parser is never called.
    pub fn text_to_device_path_node<B: BootServices>(&mut self, bs: &mut B, path: &[u8]) -> (r:
        Result<DevicePathProtocol, Status>)
        requires
            path@.len() < usize::MAX,
            old(bs).pool_outstanding() >= 0,
        ensures
            final(bs).pool_outstanding() == old(bs).pool_outstanding(),
            final(bs).pages_outstanding() == old(bs).pages_outstanding(),
            match r {
                Ok(n) => {
                    &&& n.wf()
                    &&& final(self).backend.parse_log() == old(self).backend.parse_log().push(
                        ParseRequest::Node { text: widened(path@), result: Some(n@) },
                    )
                },
                Err(e) => {
                    &&& e != Status::Success
                    &&& ((final(self).backend.parse_log() == old(self).backend.parse_log()
                        && final(bs).memory_log() == old(bs).memory_log().push(
                            MemoryCall::AllocatePoolUtf16 {
                                units: path@.len() as int + 1,
                                status: e,
                            },
                        )) || (e == Status::InvalidParameter
                        && final(self).backend.parse_log()
                            == old(self).backend.parse_log().push(
                        ParseRequest::Node { text: widened(path@), result: None },
                    )))
                },
            },
    {
        match str_to_utf16_ptr(path, bs) {
            Err(e) => Err(e),
            Ok(wide) => match self.backend.text_to_device_path_node(bs, wide) {
                Some(node) => Ok(node),
                None => Err(Status::InvalidParameter),
            },
        }
    }

    /// Parse caller text into a full path, with the same call and
    /// null-to-error discipline as the single-node parse.
    pub fn text_to_device_path<B: BootServices>(&mut self, bs: &mut B, path: &[u8]) -> (r: Result<
        DevicePath,
        Status,
    >)
        requires
            path@.len() < usize::MAX,
            old(bs).pool_outstanding() >= 0,
        ensures
            final(bs).pool_outstanding() == old(bs).pool_outstanding(),
            final(bs).pages_outstanding() == old(bs).pages_outstanding(),
            match r {
                Ok(p) => {
                    &&& p.wf()
                    &&& final(self).backend.parse_log() == old(self).backend.parse_log().push(
                        ParseRequest::Path { text: widened(path@), result: Some(p@) },
                    )
                },
                Err(e) => {
                    &&& e != Status::Success
                    &&& ((final(self).backend.parse_log() == old(self).backend.parse_log()
                        && final(bs).memory_log() == old(bs).memory_log().push(
                            MemoryCall::AllocatePoolUtf16 {
                                units: path@.len() as int + 1,
                                status: e,
                            },
                        )) || (e == Status::InvalidParameter
                        && final(self).backend.parse_log()
                            == old(self).backend.parse_log().push(
                        ParseRequest::Path { text: widened(path@), result: None },
                    )))
                },
            },
    {
        match str_to_utf16_ptr(path, bs) {
            Err(e) => Err(e),
            Ok(wide) => match self.backend.text_to_device_path(bs, wide) {
                Some(p) => Ok(p),
                None => Err(Status::InvalidParameter),
            },
        }
    }
}

/// A path-utility double for tests. With `fail` set it answers every call
/// with a null result, so the null-to-error mapping can be observed.
pub struct ScriptedPathUtilities {
    /// Answer every call with a null result.
    pub fail: bool,
    /// Every utility request so far.
    pub log: Ghost<Seq<UtilityCall>>,
}

impl ScriptedPathUtilities {
    /// A utility double; with `fail` it answers every call with a null
    /// result.
    pub fn new(fail: bool) -> (r: Self)
        ensures
            r.fail == fail,
            r.utility_log() == Seq::<UtilityCall>::empty(),
    {
        ScriptedPathUtilities { fail, log: Ghost(Seq::empty()) }
    }
}

impl PathUtilitiesHardware for ScriptedPathUtilities {
    open spec fn utility_log(&self) -> Seq<UtilityCall> {
        self.log@
    }

    fn append_device_path(&mut self, src1: &DevicePath, src2: &DevicePath) -> (r: Option<
        DevicePath,
    >) {
        if self.fail {
            self.log = Ghost(
                self.log@.push(
                    UtilityCall::Append { src1: src1@, src2: src2@, result: None },
                ),
            );
            return None;
        }
        let mut nodes: Vec<DevicePathProtocol> = Vec::new();
        let n1 = src1.nodes.len();
        let mut i: usize = 0;
        while i < n1
            invariant
                i <= n1,
                n1 == src1.nodes@.len(),
                nodes@.len() == i,
                forall|j: int| 0 <= j < i ==> (#[trigger] nodes@[j])@ == src1.nodes@[j]@,
            decreases n1 - i,
        {
            nodes.push(src1.nodes[i].duplicate());
            i = i + 1;
        }
        let n2 = src2.nodes.len();
        let mut k: usize = 0;
        while k < n2
            invariant
                k <= n2,
                n2 == src2.nodes@.len(),
                n1 == src1.nodes@.len(),
                nodes@.len() == n1 + k,
                forall|j: int| 0 <= j < n1 ==> (#[trigger] nodes@[j])@ == src1.nodes@[j]@,
                forall|j: int| 0 <= j < k ==> (#[trigger] nodes@[n1 + j])@ == src2.nodes@[j]@,
            decreases n2 - k,
        {
            nodes.push(src2.nodes[k].duplicate());
            k = k + 1;
        }
        let out = DevicePath { nodes };
        proof {
            let both = src1@ + src2@;
            assert(out@.len() == out.nodes@.len());
            assert(src1@.len() == src1.nodes@.len());
            assert(src2@.len() == src2.nodes@.len());
            assert forall|j: int| 0 <= j < out@.len() implies out@[j] == both[j] by {
                assert(out@[j] == out.nodes@[j]@);
                if j < n1 {
                    assert(out.nodes@[j]@ == src1.nodes@[j]@);
                    assert(src1@[j] == src1.nodes@[j]@);
                } else {
                    assert(out.nodes@[n1 as int + (j - n1)]@ == src2.nodes@[j - n1]@);
                    assert(src2@[j - n1] == src2.nodes@[j - n1]@);
                }
            }
            assert(out@ =~= both);
        }
        self.log = Ghost(
            self.log@.push(
                UtilityCall::Append { src1: src1@, src2: src2@, result: Some(out@) },
            ),
        );
        Some(out)
    }

    fn create_device_node(&mut self, node_type: u8, node_subtype: u8, node_length: u16) -> (r:
        Option<DevicePathProtocol>) {
        if self.fail || node_length < 4 {
            self.log = Ghost(
                self.log@.push(
                    UtilityCall::CreateNode {
                        node_type,
                        node_subtype,
                        node_length,
                        result: None,
                    },
                ),
            );
            return None;
        }
        let payload_len: usize = (node_length - 4) as usize;
        let mut payload: Vec<u8> = Vec::new();
        let mut i: usize = 0;
        while i < payload_len
            invariant
                i <= payload_len,
                payload@.len() == i,
                forall|j: int| 0 <= j < i ==> payload@[j] == 0u8,
            decreases payload_len - i,
        {
            payload.push(0u8);
            i = i + 1;
        }
        let lo: u8 = (node_length % 256) as u8;
        let hi: u8 = (node_length / 256) as u8;
        let node = DevicePathProtocol { type_: node_type, sub_type: node_subtype, length: [
            lo,
            hi,
        ], payload };
        proof {
            assert(node.length_spec() == node_length);
            assert(node.payload@ =~= Seq::new((node_length - 4) as nat, |j: int| 0u8));
        }
        self.log = Ghost(
            self.log@.push(
                UtilityCall::CreateNode {
                    node_type,
                    node_subtype,
                    node_length,
                    result: Some(node@),
                },
            ),
        );
        Some(node)
    }
}

/// A text-conversion double for tests. A node is rendered as the wide
/// string embedded in its payload — the payload read as little-endian code
/// unit pairs, with a terminator appended — so a file-name node renders as
/// its file name; a whole path renders as empty text. With `fail` set every
/// call answers with a device error.
pub struct ScriptedTextConversion {
    /// Answer every call with a device error.
    pub fail: bool,
    /// Every conversion request so far.
    pub log: Ghost<Seq<TextRequest>>,
}

impl ScriptedTextConversion {
    /// A conversion double; with `fail` it answers every call with a device
    /// error.
    pub fn new(fail: bool) -> (r: Self)
        ensures
            r.fail == fail,
            r.text_log() == Seq::<TextRequest>::empty(),
    {
        ScriptedTextConversion { fail, log: Ghost(Seq::empty()) }
    }
}

impl ToTextHardware for ScriptedTextConversion {
    open spec fn text_log(&self) -> Seq<TextRequest> {
        self.log@
    }

    fn device_path_node_to_text<B: BootServices>(
        &mut self,
        bs: &mut B,
        device_node: &DevicePathProtocol,
        display_only: bool,
        allow_shortcuts: bool,
    ) -> (r: Result<Vec<u16>, Status>) {
        if self.fail {
            self.log = Ghost(
                self.log@.push(
                    TextRequest::Node {
                        node: device_node@,
                        display_only,
                        allow_shortcuts,
                        result: Err(Status::DeviceError),
                    },
                ),
            );
            return Err(Status::DeviceError);
        }
        let plen = device_node.payload.len();
        let units = plen / 2;
        match bs.allocate_pool_utf16(units + 1) {
            Err(e) => {
                self.log = Ghost(
                    self.log@.push(
                        TextRequest::Node {
                            node: device_node@,
                            display_only,
                            allow_shortcuts,
                            result: Err(e),
                        },
                    ),
                );
                Err(e)
            },
            Ok(mut w) => {
                let mut i: usize = 0;
                while i < units
                    invariant
                        i <= units,
                        2 * units <= plen,
                        plen == device_node.payload@.len(),
                        w@.len() == units + 1,
                    decreases units - i,
                {
                    let lo = device_node.payload[2 * i];
                    let hi = device_node.payload[2 * i + 1];
                    w[i] = lo as u16 + 256 * (hi as u16);
                    i = i + 1;
                }
                w[units] = 0;
                proof {
                    assert(w@[units as int] == 0);
                    assert(is_terminated(w@));
                }
                self.log = Ghost(
                    self.log@.push(
                        TextRequest::Node {
                            node: device_node@,
                            display_only,
                            allow_shortcuts,
                            result: Ok(w@),
                        },
                    ),
                );
                Ok(w)
            },
        }
    }

    fn device_path_to_text<B: BootServices>(
        &mut self,
        bs: &mut B,
        device_path: &DevicePath,
        display_only: bool,
        allow_shortcuts: bool,
    ) -> (r: Result<Vec<u16>, Status>) {
        if self.fail {
            self.log = Ghost(
                self.log@.push(
                    TextRequest::Path {
                        path: device_path@,
                        display_only,
                        allow_shortcuts,
                        result: Err(Status::DeviceError),
                    },
                ),
            );
            return Err(Status::DeviceError);
        }
        match bs.allocate_pool_utf16(1) {
            Err(e) => {
                self.log = Ghost(
                    self.log@.push(
                        TextRequest::Path {
                            path: device_path@,
                            display_only,
                            allow_shortcuts,
                            result: Err(e),
                        },
                    ),
                );
                Err(e)
            },
            Ok(mut w) => {
                w[0] = 0;
                proof {
                    assert(w@[0int] == 0);
                    assert(is_terminated(w@));
                }
                self.log = Ghost(
                    self.log@.push(
                        TextRequest::Path {
                            path: device_path@,
                            display_only,
                            allow_shortcuts,
                            result: Ok(w@),
                        },
                    ),
                );
                Ok(w)
            },
        }
    }
}

/// A text-parsing double for tests. It releases the handed-over wide buffer
/// as its contract demands and answers with a fixed end-of-path node (or an
/// empty path). With `fail` set every call answers with a null result —
/// after releasing the buffer.
pub struct ScriptedTextParser {
    /// Answer every call with a null result.
    pub fail: bool,
    /// Every parse request so far.
    pub log: Ghost<Seq<ParseRequest>>,
}

impl ScriptedTextParser {
    /// A parsing double; with `fail` it answers every call with a null
    /// result.
    pub fn new(fail: bool) -> (r: Self)
        ensures
            r.fail == fail,
            r.parse_log() == Seq::<ParseRequest>::empty(),
    {
        ScriptedTextParser { fail, log: Ghost(Seq::empty()) }
    }
}

impl FromTextHardware for ScriptedTextParser {
    open spec fn parse_log(&self) -> Seq<ParseRequest> {
        self.log@
    }

    fn text_to_device_path_node<B: BootServices>(&mut self, bs: &mut B, text: Vec<u16>) -> (r:
        Option<DevicePathProtocol>) {
        let ghost handed = text@;
        bs.free_pool_utf16(text);
        if self.fail {
            self.log = Ghost(
                self.log@.push(ParseRequest::Node { text: handed, result: None }),
            );
            return None;
        }
        let node = DevicePathProtocol {
            type_: 0x7F,
            sub_type: 0xFF,
            length: [4, 0],
            payload: Vec::new(),
        };
        self.log = Ghost(
            self.log@.push(ParseRequest::Node { text: handed, result: Some(node@) }),
        );
        Some(node)
    }

    fn text_to_device_path<B: BootServices>(&mut self, bs: &mut B, text: Vec<u16>) -> (r: Option<
        DevicePath,
    >) {
        let ghost handed = text@;
        bs.free_pool_utf16(text);
        if self.fail {
            self.log = Ghost(
                self.log@.push(ParseRequest::Path { text: handed, result: None }),
            );
            return None;
        }
        let path = DevicePath { nodes: Vec::new() };
        self.log = Ghost(
            self.log@.push(ParseRequest::Path { text: handed, result: Some(path@) }),
        );
        Some(path)
    }
}

} // verus!
