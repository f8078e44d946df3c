use libfprint_rs::FpFinger;

#[test]
fn finger_from_raw_number() {
    assert_eq!(FpFinger::from(0), FpFinger::Unknown);
    assert_eq!(FpFinger::from(1), FpFinger::LeftThumb);
    assert_eq!(FpFinger::from(5), FpFinger::LeftLittle);
    assert_eq!(FpFinger::from(6), FpFinger::RightThumb);
    assert_eq!(FpFinger::from(10), FpFinger::RightLittle);
}

#[test]
fn finger_try_from_rejects_what_is_no_finger() {
    assert_eq!(FpFinger::try_from(-1), Err(()));
    assert_eq!(FpFinger::try_from(i32::MIN), Err(()));
    assert_eq!(FpFinger::try_from(11), Err(()));
    assert_eq!(FpFinger::try_from(i32::MAX), Err(()));
    assert_eq!(FpFinger::try_from(0), Ok(FpFinger::Unknown));
    assert_eq!(FpFinger::try_from(9), Ok(FpFinger::RightRing));
    assert_eq!(FpFinger::try_from(10), Ok(FpFinger::RightLittle));
}

#[test]
fn finger_round_trips_through_its_number() {
    let all = [
        FpFinger::Unknown,
        FpFinger::LeftThumb,
        FpFinger::LeftIndex,
        FpFinger::LeftMiddle,
        FpFinger::LeftRing,
        FpFinger::LeftLittle,
        FpFinger::RightThumb,
        FpFinger::RightIndex,
        FpFinger::RightMiddle,
        FpFinger::RightRing,
        FpFinger::RightLittle,
    ];
    for (number, finger) in all.iter().enumerate() {
        let raw = i32::from(*finger);
        assert_eq!(raw, number as i32);
        assert_eq!(FpFinger::try_from(raw), Ok(*finger));
        assert_eq!(FpFinger::from(raw as u32), *finger);
    }
}

#[test]
fn finger_names() {
    assert_eq!(FpFinger::Unknown.to_string(), "Unknown");
    assert_eq!(FpFinger::LeftThumb.to_string(), "Left Thumb");
    assert_eq!(FpFinger::LeftIndex.to_string(), "Left Index");
    assert_eq!(FpFinger::LeftMiddle.to_string(), "Left Middle");
    assert_eq!(FpFinger::LeftRing.to_string(), "Left Ring");
    assert_eq!(FpFinger::LeftLittle.to_string(), "Left Little");
    assert_eq!(FpFinger::RightThumb.to_string(), "Right Thumb");
    assert_eq!(FpFinger::RightIndex.to_string(), "Right Index");
    assert_eq!(FpFinger::RightMiddle.to_string(), "Right Middle");
    assert_eq!(FpFinger::RightRing.to_string(), "Right Ring");
    assert_eq!(FpFinger::RightLittle.to_string(), "Right Little");
}

#[test]
fn fingers_are_ordered_by_their_number() {
    assert!(FpFinger::Unknown < FpFinger::LeftThumb);
    assert!(FpFinger::LeftLittle < FpFinger::RightThumb);
    assert!(FpFinger::RightRing < FpFinger::RightLittle);
}
