use uefi::base::Status;
use uefi::bootservices::{BootServices, CountingBootServices};
use uefi::util::{str_to_utf16_ptr, utf16_ptr_to_str, utf16_strlen};

#[test]
fn utf16_strlen_counts_to_first_terminator() {
    let wide: Vec<u16> = vec![72, 73, 0, 99];
    assert_eq!(utf16_strlen(wide.as_slice()), 2);
    let only_terminator: Vec<u16> = vec![0];
    assert_eq!(utf16_strlen(only_terminator.as_slice()), 0);
}

#[test]
fn utf16_ptr_to_str_truncates_each_unit_to_low_byte() {
    let mut bs = CountingBootServices::new();
    let wide: Vec<u16> = vec![66, 79, 79, 84, 0];
    let narrow = utf16_ptr_to_str(wide.as_slice(), &mut bs).expect("conversion should succeed");
    assert_eq!(narrow, b"BOOT".to_vec());
    assert_eq!(bs.pool_allocated, 1);
    bs.free_pool(narrow);
    assert!(bs.balanced());
}

#[test]
fn utf16_ptr_to_str_keeps_only_low_bytes_of_wide_units() {
    let mut bs = CountingBootServices::new();
    // 0x0141 truncates to 0x41: no real transcoding takes place.
    let wide: Vec<u16> = vec![0x0141, 0];
    let narrow = utf16_ptr_to_str(wide.as_slice(), &mut bs).expect("conversion should succeed");
    assert_eq!(narrow, vec![0x41u8]);
}

#[test]
fn utf16_ptr_to_str_empty_string_always_succeeds() {
    let mut bs = CountingBootServices::new();
    // Even a bridge that refuses every non-empty request serves the
    // zero-length conversion.
    bs.deny = true;
    let wide: Vec<u16> = vec![0];
    let narrow = utf16_ptr_to_str(wide.as_slice(), &mut bs).expect("empty conversion must succeed");
    assert!(narrow.is_empty());
}

#[test]
fn str_to_utf16_ptr_widens_and_terminates() {
    let mut bs = CountingBootServices::new();
    let wide = str_to_utf16_ptr(b"EFI", &mut bs).expect("conversion should succeed");
    assert_eq!(wide, vec![69u16, 70, 73, 0]);
    assert_eq!(bs.pool_allocated, 1);
}

#[test]
fn str_to_utf16_ptr_allocation_failure_surfaces() {
    let mut bs = CountingBootServices::new();
    bs.deny = true;
    let r = str_to_utf16_ptr(b"EFI", &mut bs);
    assert!(matches!(r, Err(Status::OutOfResources)));
    assert_eq!(bs.pool_allocated, 0);
}

#[test]
fn narrow_wide_narrow_round_trip() {
    let mut bs = CountingBootServices::new();
    let wide = str_to_utf16_ptr(b"BOOTX64.EFI", &mut bs).expect("widening should succeed");
    assert_eq!(utf16_strlen(wide.as_slice()), 11);
    let narrow = utf16_ptr_to_str(wide.as_slice(), &mut bs).expect("narrowing should succeed");
    assert_eq!(narrow, b"BOOTX64.EFI".to_vec());
    bs.free_pool_utf16(wide);
    bs.free_pool(narrow);
    assert!(bs.balanced());
    assert_eq!(bs.pool_allocated, 2);
    assert_eq!(bs.pool_freed, 2);
}
