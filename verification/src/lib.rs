//! Verified core of a binding to the libfprint fingerprint scanning
//! library.
//!
//! The scanner library is driven through foreign calls, which this crate
//! does not make. It holds what the binding decides around those calls, on
//! plain values:
//!
//! - the values of a device, a print or an image, as they were read from
//!   the object behind them ([`FpDevice`], [`FpPrint`], [`FpImage`]), and
//!   the numbers of the scanner library as enums ([`FpFinger`],
//!   [`FpScanType`], [`FpFingerStatus`], [`FpDeviceFeature`]);
//! - what a failed call left behind as an error with a kind
//!   ([`from_libfprint`]), also where it left nothing behind;
//! - what the reply to a blocking call means to the caller (the `*_sync`
//!   functions of [`FpDevice`], which take the reply as an argument), and
//!   which template an enrollment hands over ([`FpDevice::check_print`]);
//! - what happens when the scanner library calls back during a blocking
//!   call ([`fn_pointer`], [`fp_enroll_progress`], [`fp_match_cb`]).
//!
//! Where a function only hands a device, a print or an image on, it takes
//! it as a value of any type, so that the objects of a binding pass through
//! it as they are.
//!
//! Every function states in its contract what it returns, and Verus proves
//! the contracts.

pub mod context;
pub mod device;
pub mod error;
pub mod finger;
pub mod image;
pub mod print;

pub use context::FpContext;
pub use device::callback::{fp_enroll_progress, fp_match_cb};
pub use device::device_list::{DeviceList, Devices};
pub use device::device_sync::{
    CaptureReply, EnrollReply, FpEnrollProgress, FpMatchCb, IdentifyReply, ListReply,
    NativeStatus, VerifyReply,
};
pub use device::enums::{FpDeviceFeature, FpFingerStatus, FpScanType};
pub use device::{fn_pointer, FpDevice, UserData};
pub use error::{from_libfprint, from_libfprint_static, GError, GErrorKind, GErrorSource, RawError};
pub use finger::FpFinger;
pub use image::FpImage;
pub use print::{DeserializeReply, FpPrint, GDate, SerializeReply};
