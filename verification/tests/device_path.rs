use uefi::base::Status;
use uefi::bootservices::{BootServices, CountingBootServices};
use uefi::console::BufferConsole;
use uefi::protocol::device_path::{
    DevicePath, DevicePathFromTextProtocol, DevicePathProtocol, DevicePathToTextProtocol,
    DevicePathTypes, DevicePathUtilitiesProtocol, EndPathSubTypes, ScriptedPathUtilities,
    ScriptedTextConversion, ScriptedTextParser,
};
use uefi::util::device_path::{create_file_device_node, payload_units};
use uefi::util::utf16_ptr_to_str;

fn utilities(fail: bool) -> DevicePathUtilitiesProtocol<ScriptedPathUtilities> {
    DevicePathUtilitiesProtocol { backend: ScriptedPathUtilities::new(fail) }
}

#[test]
fn type_tags_match_binary_values() {
    assert_eq!(DevicePathTypes::Hardware.value(), 0x01);
    assert_eq!(DevicePathTypes::ACPI.value(), 0x02);
    assert_eq!(DevicePathTypes::Messaging.value(), 0x03);
    assert_eq!(DevicePathTypes::Media.value(), 0x04);
    assert_eq!(DevicePathTypes::BIOSBootSpecification.value(), 0x05);
    assert_eq!(DevicePathTypes::End.value(), 0x7F);
    assert_eq!(EndPathSubTypes::EndInstance.value(), 0x01);
    assert_eq!(EndPathSubTypes::EndEntirePath.value(), 0xFF);
}

#[test]
fn node_encode_lays_out_header_and_payload() {
    let node = DevicePathProtocol {
        type_: 4,
        sub_type: 4,
        length: [8, 0],
        payload: vec![1, 2, 3, 4],
    };
    assert_eq!(node.encode(), vec![4u8, 4, 8, 0, 1, 2, 3, 4]);
    assert_eq!(node.data(), &[1u8, 2, 3, 4][..]);
}

#[test]
fn node_decode_round_trips_encode() {
    let node = DevicePathProtocol {
        type_: 3,
        sub_type: 11,
        length: [9, 0],
        payload: vec![10, 20, 30, 40, 50],
    };
    let bytes = node.encode();
    let back = DevicePathProtocol::decode(bytes.as_slice()).expect("decode should succeed");
    assert_eq!(back.type_, 3);
    assert_eq!(back.sub_type, 11);
    assert_eq!(back.length, [9, 0]);
    assert_eq!(back.payload, vec![10, 20, 30, 40, 50]);
}

#[test]
fn node_decode_rejects_malformed_buffers() {
    // Shorter than the header.
    assert!(matches!(
        DevicePathProtocol::decode(&[4u8, 4, 8]),
        Err(Status::BadBufferSize)
    ));
    // Declared length below the header size.
    assert!(matches!(
        DevicePathProtocol::decode(&[4u8, 4, 3, 0]),
        Err(Status::BadBufferSize)
    ));
    // Declared length beyond the available bytes.
    assert!(matches!(
        DevicePathProtocol::decode(&[4u8, 4, 9, 0, 1, 2]),
        Err(Status::BadBufferSize)
    ));
    // Exactly the header, declaring no payload, parses.
    assert!(DevicePathProtocol::decode(&[0x7Fu8, 0xFF, 4, 0]).is_ok());
}

#[test]
fn create_device_node_sets_header_and_zero_payload() {
    let mut u = utilities(false);
    let node = u.create_device_node(4, 4, 10).expect("creation should succeed");
    assert_eq!(node.type_, 4);
    assert_eq!(node.sub_type, 4);
    assert_eq!(node.length, [10, 0]);
    assert_eq!(node.payload, vec![0u8; 6]);
}

#[test]
fn create_device_node_rejects_undersized_length() {
    let mut u = utilities(false);
    assert!(matches!(u.create_device_node(4, 4, 3), Err(Status::InvalidParameter)));
}

#[test]
fn create_device_node_null_surfaces_as_invalid_parameter() {
    let mut u = utilities(true);
    assert!(matches!(u.create_device_node(4, 4, 28), Err(Status::InvalidParameter)));
}

#[test]
fn append_device_path_null_surfaces_as_invalid_parameter() {
    let mut u = utilities(true);
    let a = DevicePath { nodes: vec![] };
    let b = DevicePath { nodes: vec![] };
    assert!(matches!(u.append_device_path(&a, &b), Err(Status::InvalidParameter)));
}

#[test]
fn append_device_path_concatenates_chains() {
    let mut u = utilities(false);
    let a = DevicePath {
        nodes: vec![DevicePathProtocol {
            type_: 1,
            sub_type: 1,
            length: [6, 0],
            payload: vec![5, 6],
        }],
    };
    let b = DevicePath {
        nodes: vec![
            DevicePathProtocol { type_: 4, sub_type: 4, length: [4, 0], payload: vec![] },
            DevicePathProtocol { type_: 3, sub_type: 2, length: [5, 0], payload: vec![9] },
        ],
    };
    let joined = u.append_device_path(&a, &b).expect("append should succeed");
    assert_eq!(joined.nodes.len(), 3);
    assert_eq!(joined.nodes[0].type_, 1);
    assert_eq!(joined.nodes[0].payload, vec![5, 6]);
    assert_eq!(joined.nodes[1].type_, 4);
    assert_eq!(joined.nodes[2].payload, vec![9]);
}

#[test]
fn file_node_length_counts_header_and_wide_name() {
    let mut u = utilities(false);
    let node = create_file_device_node(b"BOOTX64.EFI", &mut u).expect("creation should succeed");
    // 4 header bytes plus (11 + 1) wide code units of two bytes each.
    assert_eq!(node.length, [28, 0]);
    assert_eq!(node.payload.len(), 24);
    assert_eq!(node.type_, 4);
    assert_eq!(node.sub_type, 4);
}

#[test]
fn file_node_round_trips_back_to_text() {
    let mut u = utilities(false);
    let mut bs = CountingBootServices::new();
    let node = create_file_device_node(b"BOOTX64.EFI", &mut u).expect("creation should succeed");
    let units = payload_units(node.data());
    let name = utf16_ptr_to_str(units.as_slice(), &mut bs).expect("decoding should succeed");
    assert_eq!(name, b"BOOTX64.EFI".to_vec());
}

#[test]
fn file_node_creation_failure_is_invalid_parameter() {
    let mut u = utilities(true);
    assert!(matches!(
        create_file_device_node(b"BOOTX64.EFI", &mut u),
        Err(Status::InvalidParameter)
    ));
}

#[test]
fn node_to_text_returns_payload_text_and_frees_wide_buffer() {
    let mut u = utilities(false);
    let mut bs = CountingBootServices::new();
    let node = create_file_device_node(b"BOOTX64.EFI", &mut u).expect("creation should succeed");
    let mut to_text = DevicePathToTextProtocol { backend: ScriptedTextConversion::new(false) };
    let text = to_text
        .device_path_node_to_text(&mut bs, &node, true, false)
        .expect("conversion should succeed");
    assert_eq!(text, b"BOOTX64.EFI".to_vec());
    // The wide intermediate was allocated and released; only the returned
    // text is still outstanding.
    assert_eq!(bs.pool_allocated, 2);
    assert_eq!(bs.pool_freed, 1);
    bs.free_pool(text);
    assert!(bs.balanced());
}

#[test]
fn node_to_text_failure_keeps_pool_balanced() {
    let mut bs = CountingBootServices::new();
    let node = DevicePathProtocol { type_: 4, sub_type: 4, length: [4, 0], payload: vec![] };
    let mut to_text = DevicePathToTextProtocol { backend: ScriptedTextConversion::new(true) };
    let r = to_text.device_path_node_to_text(&mut bs, &node, true, false);
    assert!(r.is_err());
    assert!(bs.balanced());
}

#[test]
fn print_device_path_node_writes_text_and_releases_buffers() {
    let mut u = utilities(false);
    let mut bs = CountingBootServices::new();
    let mut console = BufferConsole::new();
    let node = create_file_device_node(b"BOOTX64.EFI", &mut u).expect("creation should succeed");
    let mut to_text = DevicePathToTextProtocol { backend: ScriptedTextConversion::new(false) };
    to_text
        .print_device_path_node(&mut bs, &mut console, &node, true, false)
        .expect("printing should succeed");
    assert_eq!(console.data, b"BOOTX64.EFI".to_vec());
    assert!(bs.balanced());
}

#[test]
fn print_device_path_failure_leaves_console_untouched() {
    let mut bs = CountingBootServices::new();
    let mut console = BufferConsole::new();
    let path = DevicePath { nodes: vec![] };
    let mut to_text = DevicePathToTextProtocol { backend: ScriptedTextConversion::new(true) };
    let r = to_text.print_device_path(&mut bs, &mut console, &path, true, false);
    assert!(r.is_err());
    assert!(console.data.is_empty());
    assert!(bs.balanced());
}

#[test]
fn print_device_path_writes_rendered_path() {
    let mut bs = CountingBootServices::new();
    let mut console = BufferConsole::new();
    let path = DevicePath { nodes: vec![] };
    let mut to_text = DevicePathToTextProtocol { backend: ScriptedTextConversion::new(false) };
    to_text
        .print_device_path(&mut bs, &mut console, &path, true, false)
        .expect("printing should succeed");
    // The double renders a whole path as empty text.
    assert!(console.data.is_empty());
    assert!(bs.balanced());
}

#[test]
fn text_to_device_path_node_consumes_intermediate_buffer() {
    let mut bs = CountingBootServices::new();
    let mut from_text = DevicePathFromTextProtocol { backend: ScriptedTextParser::new(false) };
    let node = from_text
        .text_to_device_path_node(&mut bs, b"PciRoot(0)")
        .expect("parsing should succeed");
    assert_eq!(node.type_, 0x7F);
    assert_eq!(node.sub_type, 0xFF);
    assert!(bs.balanced());
}

#[test]
fn text_to_device_path_null_surfaces_as_invalid_parameter() {
    let mut bs = CountingBootServices::new();
    let mut from_text = DevicePathFromTextProtocol { backend: ScriptedTextParser::new(true) };
    let r = from_text.text_to_device_path(&mut bs, b"PciRoot(0)");
    // A null parse result is an invalid-parameter failure, never success,
    // and the intermediate buffer is still consumed.
    assert!(matches!(r, Err(Status::InvalidParameter)));
    assert!(bs.balanced());
}

#[test]
fn text_to_device_path_returns_parsed_path() {
    let mut bs = CountingBootServices::new();
    let mut from_text = DevicePathFromTextProtocol { backend: ScriptedTextParser::new(false) };
    let path = from_text
        .text_to_device_path(&mut bs, b"PciRoot(0)/Pci(0,0)")
        .expect("parsing should succeed");
    assert!(path.nodes.is_empty());
    assert!(bs.balanced());
}
