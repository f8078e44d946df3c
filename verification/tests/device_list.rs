use libfprint_rs::{DeviceList, FpContext, FpDevice};

fn scanner(id: u32, name: &str) -> FpDevice {
    FpDevice {
        driver: String::from("virtual_image"),
        device_id: id.to_string(),
        name: String::from(name),
        scan_type: 0,
        nr_enroll_stages: 5,
        finger_status: 0,
        features: 0,
        open: false,
    }
}

#[test]
fn new_context_has_found_nothing() {
    let context = FpContext::new();
    let devices = context.devices();
    assert_eq!(devices.len(), 0);
    assert!(devices.get(0).is_none());
    assert!(devices.iter().next().is_none());
}

#[test]
fn enumerate_replaces_what_was_found() {
    let mut context = FpContext::new();
    context.enumerate(vec![scanner(1, "one"), scanner(2, "two")]);
    assert_eq!(context.devices().len(), 2);
    context.enumerate(vec![scanner(3, "three")]);
    let devices = context.devices();
    assert_eq!(devices.len(), 1);
    assert_eq!(devices.get(0), Some(&scanner(3, "three")));
    assert_eq!(devices.get(1), None);
}

#[test]
fn walk_hands_out_each_device_once_in_order() {
    let found = vec![scanner(1, "one"), scanner(2, "two"), scanner(3, "three")];
    let list = DeviceList::new(&found);
    assert_eq!(list.len(), 3);
    let mut walk = list.iter();
    assert_eq!(walk.next(), Some(&found[0]));
    assert_eq!(walk.next(), Some(&found[1]));
    assert_eq!(walk.next(), Some(&found[2]));
    assert_eq!(walk.next(), None);
    assert_eq!(walk.next(), None);
    let mut again = list.iter();
    assert_eq!(again.next().map(|d| d.name()), Some(String::from("one")));
}
