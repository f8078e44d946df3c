//! Scanner devices, their capability flags and their operations.

pub mod callback;
pub mod device;
pub mod device_list;
pub mod device_sync;
pub mod enums;
pub mod user_data;

use vstd::prelude::*;

verus! {

/// A fingerprint scanner, as the values that the scanner library reports of
/// it.
#[derive(Debug, Clone, PartialEq, Eq)]
pub struct FpDevice {
    /// The ID of the driver.
    pub driver: String,
    /// The ID of the device.
    pub device_id: String,
    /// The human readable name of the device.
    pub name: String,
    /// How a finger is presented to the sensor, as the number that the
    /// scanner library reports.
    pub scan_type: u32,
    /// The number of enroll stages for this device.
    pub nr_enroll_stages: i32,
    /// What the sensor currently tells of a finger, as the flags that the
    /// scanner library reports.
    pub finger_status: u32,
    /// The capability mask, one bit for each capability.
    pub features: u32,
    /// Whether the device is open.
    pub open: bool,
}

/// What a callback is called with besides the event itself: the function
/// that the caller gave, and the caller's own data.
pub struct UserData<F, T> {
    pub function: F,
    pub data: Option<T>,
}

/// Pairs a callback with the caller's data for the time of one blocking
/// call. Without a callback there is nothing to call, and the data is
/// dropped.
pub fn fn_pointer<F, T>(function: Option<F>, data: Option<T>) -> (r: Option<UserData<F, T>>)
    ensures
        r == match function {
            Some(cb) => Some(UserData { function: cb, data }),
            None => None,
        },
{
    match function {
        Some(cb) => Some(UserData { function: cb, data }),
        None => None,
    }
}

} // verus!
