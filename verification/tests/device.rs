use libfprint_rs::{FpDevice, FpDeviceFeature, FpFingerStatus, FpScanType};

fn scanner(features: u32) -> FpDevice {
    FpDevice {
        driver: String::from("virtual_image"),
        device_id: String::from("0"),
        name: String::from("Virtual image device for debugging"),
        scan_type: 1,
        nr_enroll_stages: 5,
        finger_status: 1,
        features,
        open: true,
    }
}

#[test]
fn feature_try_from_takes_single_capabilities_only() {
    assert_eq!(FpDeviceFeature::try_from(0), Ok(FpDeviceFeature::NoFeature));
    assert_eq!(FpDeviceFeature::try_from(1), Ok(FpDeviceFeature::Capture));
    assert_eq!(FpDeviceFeature::try_from(2), Ok(FpDeviceFeature::Identify));
    assert_eq!(FpDeviceFeature::try_from(4), Ok(FpDeviceFeature::Verify));
    assert_eq!(FpDeviceFeature::try_from(8), Ok(FpDeviceFeature::Storage));
    assert_eq!(FpDeviceFeature::try_from(16), Ok(FpDeviceFeature::StorageList));
    assert_eq!(FpDeviceFeature::try_from(32), Ok(FpDeviceFeature::StorageDelete));
    assert_eq!(FpDeviceFeature::try_from(64), Ok(FpDeviceFeature::StorageClear));
    assert_eq!(FpDeviceFeature::try_from(128), Ok(FpDeviceFeature::DuplicatesCheck));
    assert_eq!(FpDeviceFeature::try_from(256), Ok(FpDeviceFeature::AlwaysOn));
    assert_eq!(FpDeviceFeature::try_from(512), Ok(FpDeviceFeature::UpdatePrint));
    assert_eq!(FpDeviceFeature::try_from(3), Err(()));
    assert_eq!(FpDeviceFeature::try_from(1024), Err(()));
    assert_eq!(FpDeviceFeature::try_from(u32::MAX), Err(()));
}

#[test]
fn features_of_the_empty_mask() {
    assert_eq!(scanner(0).features(), vec![FpDeviceFeature::NoFeature]);
}

#[test]
fn features_come_by_rising_bit() {
    assert_eq!(
        scanner(2 | 4).features(),
        vec![FpDeviceFeature::Identify, FpDeviceFeature::Verify]
    );
    assert_eq!(
        scanner(512 | 1 | 64).features(),
        vec![
            FpDeviceFeature::Capture,
            FpDeviceFeature::StorageClear,
            FpDeviceFeature::UpdatePrint
        ]
    );
    assert_eq!(
        scanner(0x3ff).features(),
        vec![
            FpDeviceFeature::Capture,
            FpDeviceFeature::Identify,
            FpDeviceFeature::Verify,
            FpDeviceFeature::Storage,
            FpDeviceFeature::StorageList,
            FpDeviceFeature::StorageDelete,
            FpDeviceFeature::StorageClear,
            FpDeviceFeature::DuplicatesCheck,
            FpDeviceFeature::AlwaysOn,
            FpDeviceFeature::UpdatePrint,
        ]
    );
}

#[test]
fn features_pass_over_bits_that_name_nothing() {
    assert_eq!(scanner(1024 | 1).features(), vec![FpDeviceFeature::Capture]);
    assert_eq!(scanner(1 << 31).features(), Vec::<FpDeviceFeature>::new());
    assert_eq!(scanner(0xffff_fc00).features(), Vec::<FpDeviceFeature>::new());
    assert_eq!(scanner(u32::MAX).features().len(), 10);
}

#[test]
fn has_feature_agrees_with_features() {
    let all = [
        FpDeviceFeature::NoFeature,
        FpDeviceFeature::Capture,
        FpDeviceFeature::Identify,
        FpDeviceFeature::Verify,
        FpDeviceFeature::Storage,
        FpDeviceFeature::StorageList,
        FpDeviceFeature::StorageDelete,
        FpDeviceFeature::StorageClear,
        FpDeviceFeature::DuplicatesCheck,
        FpDeviceFeature::AlwaysOn,
        FpDeviceFeature::UpdatePrint,
    ];
    for mask in [0u32, 1, 6, 0x155, 0x2aa, 0x3ff, 0x400, 0x8000_0001, u32::MAX] {
        let device = scanner(mask);
        let listed = device.features();
        for feature in all {
            assert_eq!(device.has_feature(feature), listed.contains(&feature));
        }
    }
    assert!(scanner(0).has_feature(FpDeviceFeature::NoFeature));
    assert!(!scanner(4).has_feature(FpDeviceFeature::NoFeature));
    assert!(scanner(4).has_feature(FpDeviceFeature::Verify));
    assert!(!scanner(4).has_feature(FpDeviceFeature::Identify));
}

#[test]
fn scan_type_from_its_number() {
    assert_eq!(FpScanType::try_from(0), Ok(FpScanType::Swipe));
    assert_eq!(FpScanType::try_from(1), Ok(FpScanType::Press));
    assert_eq!(FpScanType::try_from(2), Err(()));
    assert_eq!(FpScanType::try_from(u32::MAX), Err(()));
}

#[test]
fn finger_status_from_its_flags() {
    assert_eq!(FpFingerStatus::try_from(0), Ok(FpFingerStatus::NoStatus));
    assert_eq!(FpFingerStatus::try_from(1), Ok(FpFingerStatus::Needed));
    assert_eq!(FpFingerStatus::try_from(2), Ok(FpFingerStatus::Present));
    assert_eq!(FpFingerStatus::try_from(3), Err(()));
}

#[test]
fn device_tells_what_was_read_from_it() {
    let device = scanner(6);
    assert_eq!(device.driver(), "virtual_image");
    assert_eq!(device.device_id(), "0");
    assert_eq!(device.name(), "Virtual image device for debugging");
    assert_eq!(device.scan_type(), FpScanType::Press);
    assert_eq!(device.nr_enroll_stage(), 5);
    assert_eq!(device.finger_status(), FpFingerStatus::Needed);
    assert!(device.is_open());

    let swipe = FpDevice { scan_type: 0, finger_status: 2, ..scanner(0) };
    assert_eq!(swipe.scan_type(), FpScanType::Swipe);
    assert_eq!(swipe.finger_status(), FpFingerStatus::Present);
    let idle = FpDevice { finger_status: 0, open: false, ..scanner(0) };
    assert_eq!(idle.finger_status(), FpFingerStatus::NoStatus);
    assert!(!idle.is_open());
}

#[test]
fn copies_of_a_device_do_not_depend_on_each_other() {
    let device = scanner(6);
    let copies = vec![device.clone(), device.clone(), device.clone()];
    assert!(copies.iter().all(|copy| *copy == device));
    drop(copies);
    assert_eq!(device, scanner(6));
    assert_eq!(device.features(), vec![FpDeviceFeature::Identify, FpDeviceFeature::Verify]);
}
