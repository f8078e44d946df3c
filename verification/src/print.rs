//! Fingerprints: templates that a caller prepares for an enrollment, and
//! prints that a scanner or a store handed out.

use vstd::prelude::*;

use crate::device::FpDevice;
use crate::error::{
    fails_with, from_libfprint, from_libfprint_decode, GError, GErrorKind, RawError,
};
use crate::finger::FpFinger;
use crate::image::{image_view, FpImage, FpImageView};

verus! {

/// A calendar date, as day of the month, month of the year and year.
#[derive(Debug, Clone, Copy, PartialEq, Eq, Structural)]
pub struct GDate {
    pub day: u8,
    pub month: u8,
    pub year: u16,
}

/// Struct representing a fingerprint, as the values read from it.
#[derive(Debug, Clone, PartialEq, Eq)]
pub struct FpPrint {
    /// The driver that the print was created for.
    pub driver: String,
    /// The device ID that the print was created for.
    pub device_id: String,
    /// Whether the print is stored on the device.
    pub device_stored: bool,
    /// The image that the print was created from.
    pub image: Option<FpImage>,
    /// The finger that the print was created for.
    pub finger: FpFinger,
    /// The user defined username for the print.
    pub username: Option<String>,
    /// The user defined description for the print.
    pub description: Option<String>,
    /// The user defined enroll date for the print.
    pub enroll_date: Option<GDate>,
    /// Whether the print was handed out by a scanner or read from a store,
    /// and is no template that a caller prepared.
    pub enrolled: bool,
}

/// An `FpPrint` as mathematical values.
pub struct FpPrintView {
    pub driver: Seq<char>,
    pub device_id: Seq<char>,
    pub device_stored: bool,
    pub image: Option<FpImageView>,
    pub finger: FpFinger,
    pub username: Option<Seq<char>>,
    pub description: Option<Seq<char>>,
    pub enroll_date: Option<GDate>,
    pub enrolled: bool,
}

/// The view of a text that may be absent.
pub open spec fn text_view(text: Option<String>) -> Option<Seq<char>> {
    match text {
        Some(t) => Some(t@),
        None => None,
    }
}

impl View for FpPrint {
    type V = FpPrintView;

    open spec fn view(&self) -> FpPrintView {
        FpPrintView {
            driver: self.driver@,
            device_id: self.device_id@,
            device_stored: self.device_stored,
            image: image_view(self.image),
            finger: self.finger,
            username: text_view(self.username),
            description: text_view(self.description),
            enroll_date: self.enroll_date,
            enrolled: self.enrolled,
        }
    }
}

/// The template that is made for a device: it names the device's driver and
/// ID and holds nothing else.
pub open spec fn blank_template(driver: Seq<char>, device_id: Seq<char>) -> FpPrintView {
    FpPrintView {
        driver,
        device_id,
        device_stored: false,
        image: None,
        finger: FpFinger::Unknown,
        username: None,
        description: None,
        enroll_date: None,
        enrolled: false,
    }
}

/// What the scanner library handed back when a print was written out for
/// permanent storage.
#[derive(Debug, Clone, PartialEq, Eq)]
pub struct SerializeReply {
    /// Whether the call reported success.
    pub success: bool,
    /// The bytes that were written.
    pub content: Vec<u8>,
    /// The error that the call left behind, if any.
    pub error: Option<RawError>,
}

/// What the scanner library handed back when a print was read from stored
/// bytes.
#[derive(Debug, Clone, PartialEq, Eq)]
pub struct DeserializeReply {
    /// The print that was read, if the bytes could be read.
    pub print: Option<FpPrint>,
    /// The error that the call left behind, if any.
    pub error: Option<RawError>,
}

impl GDate {
    /// The date with the given day, month and year.
    pub fn new(day: u8, month: u8, year: u16) -> (r: GDate)
        ensures
            r == (GDate { day, month, year }),
    {
        GDate { day, month, year }
    }
}

impl FpPrint {
    /// Create a new `FpPrint`. This is only useful to prepare an enrollment
    /// of a new print. For this you should first create a new print, fill in
    /// the relevant metadata, and then start the enrollment.
    pub fn new(dev: &FpDevice) -> (r: FpPrint)
        ensures
            r@ == blank_template(dev.driver@, dev.device_id@),
    {
        FpPrint {
            driver: dev.driver.clone(),
            device_id: dev.device_id.clone(),
            device_stored: false,
            image: None,
            finger: FpFinger::Unknown,
            username: None,
            description: None,
            enroll_date: None,
            enrolled: false,
        }
    }

    /// Returns the driver that the print was created for.
    pub fn driver(&self) -> (r: String)
        ensures
            r@ == self@.driver,
    {
        self.driver.clone()
    }

    /// Returns the device ID that the print was created for.
    pub fn device_id(&self) -> (r: String)
        ensures
            r@ == self@.device_id,
    {
        self.device_id.clone()
    }

    /// Whether the print is actually stored on the device and this is just
    /// a handle to use that references the device stored data.
    pub fn device_stored(&self) -> (r: bool)
        ensures
            r == self@.device_stored,
    {
        self.device_stored
    }

    /// Returns the image that the print was created from, or None
    pub fn image(&self) -> (r: Option<FpImage>)
        ensures
            image_view(r) == self@.image,
    {
        match &self.image {
            Some(image) => Some(
                FpImage {
                    width: image.width,
                    height: image.height,
                    data: image.data.clone(),
                    binarized: image.binarized.clone(),
                },
            ),
            None => None,
        }
    }

    /// Returns the finger that the print was created for.
    pub fn finger(&self) -> (r: FpFinger)
        ensures
            r == self@.finger,
    {
        self.finger
    }

    /// Returns the user defined username for the print.
    pub fn username(&self) -> (r: Option<String>)
        ensures
            text_view(r) == self@.username,
    {
        match &self.username {
            Some(name) => Some(name.clone()),
            None => None,
        }
    }

    /// Returns the user defined description for the print.
    pub fn description(&self) -> (r: Option<String>)
        ensures
            text_view(r) == self@.description,
    {
        match &self.description {
            Some(text) => Some(text.clone()),
            None => None,
        }
    }

    /// Returns the user defined enroll date for the print.
    pub fn enroll_date(&self) -> (r: Option<GDate>)
        ensures
            r == self@.enroll_date,
    {
        self.enroll_date
    }

    /// Set the finger that the print is for.
    pub fn set_finger(&mut self, finger: FpFinger)
        ensures
            final(self)@ == (FpPrintView { finger, ..old(self)@ }),
    {
        self.finger = finger;
    }

    /// Set the username for the print.
    pub fn set_username(&mut self, username: &str)
        ensures
            final(self)@ == (FpPrintView { username: Some(username@), ..old(self)@ }),
    {
        self.username = Some(username.to_owned());
    }

    /// Set the description for the print.
    pub fn set_description(&mut self, description: &str)
        ensures
            final(self)@ == (FpPrintView { description: Some(description@), ..old(self)@ }),
    {
        self.description = Some(description.to_owned());
    }

    /// Set the enroll date for the print.
    pub fn set_enroll_date(&mut self, enroll_date: GDate)
        ensures
            final(self)@ == (FpPrintView { enroll_date: Some(enroll_date), ..old(self)@ }),
    {
        self.enroll_date = Some(enroll_date);
    }

    /// Tests whether the print is compatible with the given device: whether
    /// it was created for the device's driver and device ID.
    pub fn compatible(&self, device: &FpDevice) -> (r: bool)
        ensures
            r == (self@.driver == device.driver@ && self@.device_id == device.device_id@),
    {
        self.driver == device.driver && self.device_id == device.device_id
    }
}

impl FpPrint {
    /// Serialize a print definition for permanent storage, from what the
    /// scanner library handed back: the bytes where it reported success,
    /// else the error of the failed call.
    pub fn serialize(reply: SerializeReply) -> (r: Result<Vec<u8>, GError>)
        ensures
            reply.success ==> r == Ok::<Vec<u8>, GError>(reply.content),
            !reply.success ==> fails_with(r, reply.error, GErrorKind::Native),
    {
        if reply.success {
            Ok(reply.content)
        } else {
            Err(from_libfprint(reply.error))
        }
    }

    /// Deserialize a print definition from permanent storage, from what the
    /// scanner library handed back: the print, marked as one that is no
    /// template, or a decode error where the bytes gave no print.
    pub fn deserialize(reply: DeserializeReply) -> (r: Result<FpPrint, GError>)
        ensures
            reply.print matches Some(p) ==> (r matches Ok(q) && q@ == (FpPrintView {
                enrolled: true,
                ..p@
            })),
            reply.print is None ==> fails_with(r, reply.error, GErrorKind::Decode),
    {
        match reply.print {
            Some(print) => {
                let mut print = print;
                print.enrolled = true;
                Ok(print)
            },
            None => Err(from_libfprint_decode(reply.error)),
        }
    }
}

} // verus!
