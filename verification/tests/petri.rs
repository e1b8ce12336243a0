use openvmm::petri::config::{Drive, VmbusStorageController, VmbusStorageType, Vtl};
use openvmm::petri::name::make_vm_safe_name;

#[test]
fn test_short_names_unchanged() {
    let short_name = "short_test_name";
    assert_eq!(make_vm_safe_name(short_name), short_name);
}

#[test]
fn test_exactly_100_chars_unchanged() {
    let name_100 = "a".repeat(100);
    assert_eq!(make_vm_safe_name(&name_100), name_100);
}

#[test]
fn test_long_name_truncated() {
    let long_name = "multiarch::openhcl_servicing::hyperv_openhcl_uefi_aarch64_ubuntu_2404_server_aarch64_openhcl_servicing";
    let result = make_vm_safe_name(long_name);

    // Should be exactly 100 characters
    assert_eq!(result.len(), 100);

    // Should start with the truncated prefix
    assert!(result.starts_with("multiarch::openhcl_servicing::hyperv_openhcl_uefi_aarch64_ubuntu_2404_server_aarch64_ope"));

    // Should end with a 4-character hash
    let suffix = &result[96..];
    assert_eq!(suffix.len(), 4);
    // Should be valid hex
    assert!(u16::from_str_radix(suffix, 16).is_ok());
}

#[test]
fn test_deterministic_results() {
    let long_name = "very_long_test_name_that_exceeds_the_100_character_limit_and_should_be_truncated_consistently_every_time";
    let result1 = make_vm_safe_name(long_name);
    let result2 = make_vm_safe_name(long_name);

    assert_eq!(result1, result2);
    assert_eq!(result1.len(), 100);
}

#[test]
fn test_different_names_different_hashes() {
    let name1 = "very_long_test_name_that_definitely_exceeds_the_100_character_limit_and_should_be_truncated_by_the_function_version_1";
    let name2 = "very_long_test_name_that_definitely_exceeds_the_100_character_limit_and_should_be_truncated_by_the_function_version_2";

    let result1 = make_vm_safe_name(name1);
    let result2 = make_vm_safe_name(name2);

    // Both should be 100 chars
    assert_eq!(result1.len(), 100);
    assert_eq!(result2.len(), 100);

    // Should have different suffixes since the full names are different
    assert_ne!(result1, result2);
    assert_ne!(&result1[96..], &result2[96..]);
}

#[test]
fn test_vmbus_storage_controller() {
    let mut controller = VmbusStorageController::new(Vtl::Vtl0, VmbusStorageType::Scsi);
    assert_eq!(
        controller.set_drive(Some(1), Drive::new(None, false), false),
        1
    );
    assert!(controller.drives.contains_key(&1));
    assert_eq!(
        controller.set_drive(None, Drive::new(None, false), false),
        0
    );
    assert!(controller.drives.contains_key(&0));
    assert_eq!(
        controller.set_drive(None, Drive::new(None, false), false),
        2
    );
    assert!(controller.drives.contains_key(&2));
    assert_eq!(
        controller.set_drive(Some(0), Drive::new(None, false), true),
        0
    );
    assert!(controller.drives.contains_key(&0));
}
