//! The blocking operations of a scanner: what is handed to the scanner
//! library, and what its reply means to the caller.
//!
//! A reply holds what the call handed back. Prints and images that are only
//! handed on to the caller may be of any type `P` and `I`: nothing here
//! looks into them. Where a print is looked into or changed, it is an
//! `FpPrint`.

use vstd::prelude::*;

use super::FpDevice;
use crate::error::{fails_with, from_libfprint, GError, GErrorKind, RawError};
use crate::print::{blank_template, FpPrint, FpPrintView};

verus! {

/// This type represents the callback function for an enrollment and will be
/// called for each stage of the enrollment process.
pub type FpEnrollProgress<T> =
    fn(&FpDevice, i32, Option<FpPrint>, Option<GError>, &Option<T>) -> ();

/// This type represents the callback function for a verification or an
/// identification and will be called when a print is matched.
pub type FpMatchCb<T> =
    fn(&FpDevice, Option<FpPrint>, FpPrint, Option<GError>, &Option<T>) -> ();

/// What the scanner library handed back from an operation that yields
/// nothing but success or failure.
#[derive(Debug, Clone, PartialEq, Eq)]
pub struct NativeStatus {
    /// Whether the call reported success.
    pub success: bool,
    /// The error that the call left behind, if any.
    pub error: Option<RawError>,
}

/// What the scanner library handed back from an enrollment.
#[derive(Debug, Clone, PartialEq, Eq)]
pub struct EnrollReply {
    /// The enrolled print; none where the enrollment failed.
    pub print: Option<FpPrint>,
    /// The error that the call left behind, if any.
    pub error: Option<RawError>,
}

/// What the scanner library handed back from a verification.
#[derive(Debug, Clone, PartialEq, Eq)]
pub struct VerifyReply<P> {
    /// Whether the call reported success.
    pub success: bool,
    /// Whether the scanned finger matched the enrolled print.
    pub matched: bool,
    /// The print that was scanned, where one was handed out.
    pub new_print: Option<P>,
    /// The error that the call left behind, if any.
    pub error: Option<RawError>,
}

/// What the scanner library handed back from an identification.
#[derive(Debug, Clone, PartialEq, Eq)]
pub struct IdentifyReply<P> {
    /// Whether the call reported success.
    pub success: bool,
    /// The candidate that the scanned finger matched, if any.
    pub matched: Option<P>,
    /// The print that was scanned, where one was handed out.
    pub new_print: Option<P>,
    /// The error that the call left behind, if any.
    pub error: Option<RawError>,
}

/// What the scanner library handed back from an image capture.
#[derive(Debug, Clone, PartialEq, Eq)]
pub struct CaptureReply<I> {
    /// The captured image; none where the capture failed.
    pub image: Option<I>,
    /// The error that the call left behind, if any.
    pub error: Option<RawError>,
}

/// What the scanner library handed back when the prints stored on a device
/// were listed.
#[derive(Debug, Clone, PartialEq, Eq)]
pub struct ListReply<P> {
    /// The stored prints; none where the listing failed.
    pub prints: Option<Vec<P>>,
    /// The error that the call left behind, if any.
    pub error: Option<RawError>,
}

/// What a reply that yields nothing but success or failure means to the
/// caller: nothing, or the error of the failed call.
pub open spec fn status_outcome(reply: NativeStatus, r: Result<(), GError>) -> bool {
    &&& reply.success ==> r is Ok
    &&& !reply.success ==> fails_with(r, reply.error, GErrorKind::Native)
}

/// The template that is handed to the scanner library in place of
/// `template`: a template that a caller prepared goes as it is; for a print
/// that is no template, a blank one for the device with the driver
/// `driver` and the ID `device_id`, with the print's finger, username,
/// description and enroll date.
pub open spec fn refreshed(driver: Seq<char>, device_id: Seq<char>, template: FpPrintView)
    -> FpPrintView {
    if template.enrolled {
        FpPrintView {
            finger: template.finger,
            username: template.username,
            description: template.description,
            enroll_date: template.enroll_date,
            ..blank_template(driver, device_id)
        }
    } else {
        template
    }
}

/// What is handed to the scanner library is always a template that a caller
/// could have prepared, and it carries the finger, username, description
/// and enroll date of the print it was made from. Choosing again changes
/// nothing.
pub proof fn lemma_refreshed_template(
    driver: Seq<char>,
    device_id: Seq<char>,
    template: FpPrintView,
)
    ensures
        !refreshed(driver, device_id, template).enrolled,
        refreshed(driver, device_id, template).finger == template.finger,
        refreshed(driver, device_id, template).username == template.username,
        refreshed(driver, device_id, template).description == template.description,
        refreshed(driver, device_id, template).enroll_date == template.enroll_date,
        refreshed(driver, device_id, refreshed(driver, device_id, template)) == refreshed(
            driver,
            device_id,
            template,
        ),
{
}

/// A print that an enrollment handed out never goes back to the scanner
/// library itself: what is handed over in its place is a blank template for
/// the device, that differs from a fresh one in nothing but the four values
/// that a caller can set.
pub proof fn lemma_enrolled_print_is_replaced(
    driver: Seq<char>,
    device_id: Seq<char>,
    print: FpPrintView,
)
    requires
        print.enrolled,
    ensures
        refreshed(driver, device_id, print) == (FpPrintView {
            finger: print.finger,
            username: print.username,
            description: print.description,
            enroll_date: print.enroll_date,
            ..blank_template(driver, device_id)
        }),
        refreshed(driver, device_id, print).image is None,
        !refreshed(driver, device_id, print).device_stored,
{
}

fn status_result(reply: NativeStatus) -> (r: Result<(), GError>)
    ensures
        status_outcome(reply, r),
{
    if !reply.success {
        return Err(from_libfprint(reply.error));
    }
    Ok(())
}

impl FpDevice {
    /// Open the device synchronously: what the reply to the call means.
    pub fn open_sync(reply: NativeStatus) -> (r: Result<(), GError>)
        ensures
            status_outcome(reply, r),
    {
        status_result(reply)
    }

    /// Close the device synchronously: what the reply to the call means.
    pub fn close_sync(reply: NativeStatus) -> (r: Result<(), GError>)
        ensures
            status_outcome(reply, r),
    {
        status_result(reply)
    }

    /// Prepare device for suspend: what the reply to the call means.
    pub fn suspend_sync(reply: NativeStatus) -> (r: Result<(), GError>)
        ensures
            status_outcome(reply, r),
    {
        status_result(reply)
    }

    /// Resume device after suspend: what the reply to the call means.
    pub fn resume_sync(reply: NativeStatus) -> (r: Result<(), GError>)
        ensures
            status_outcome(reply, r),
    {
        status_result(reply)
    }

    /// Delete a given print from the device: what the reply to the call
    /// means.
    pub fn delete_print_sync(reply: NativeStatus) -> (r: Result<(), GError>)
        ensures
            status_outcome(reply, r),
    {
        status_result(reply)
    }

    /// Clear sensor storage: what the reply to the call means.
    pub fn clear_storage_sync(reply: NativeStatus) -> (r: Result<(), GError>)
        ensures
            status_outcome(reply, r),
    {
        status_result(reply)
    }

    /// List device stored prints synchronously: the prints that the reply
    /// holds, or the error of the failed call.
    pub fn list_prints_sync<P>(reply: ListReply<P>) -> (r: Result<Vec<P>, GError>)
        ensures
            reply.prints matches Some(prints) ==> r == Ok::<Vec<P>, GError>(prints),
            reply.prints is None ==> fails_with(r, reply.error, GErrorKind::Native),
    {
        match reply.prints {
            Some(prints) => Ok(prints),
            None => Err(from_libfprint(reply.error)),
        }
    }

    /// Start an synchronous operation to capture an image: the image that
    /// the reply holds, or the error of the failed call.
    pub fn capture_sync<I>(reply: CaptureReply<I>) -> (r: Result<I, GError>)
        ensures
            reply.image matches Some(image) ==> r == Ok::<I, GError>(image),
            reply.image is None ==> fails_with(r, reply.error, GErrorKind::Native),
    {
        match reply.image {
            Some(image) => Ok(image),
            None => Err(from_libfprint(reply.error)),
        }
    }

    /// Chooses the template that an enrollment hands to the scanner
    /// library. The library takes only a template that was freshly made, so
    /// a print that a scanner handed out or that was read from a store is
    /// replaced by a blank template for this device that carries its
    /// username, description, finger and enroll date. A template that the
    /// caller prepared is handed on as it is.
    pub fn check_print(&self, template: FpPrint) -> (r: FpPrint)
        ensures
            r@ == refreshed(self.driver@, self.device_id@, template@),
            !template.enrolled ==> r == template,
    {
        if template.enrolled {
            let mut empty_template = FpPrint::new(self);
            if let Some(username) = template.username() {
                empty_template.set_username(username.as_str());
            }
            if let Some(description) = template.description() {
                empty_template.set_description(description.as_str());
            }
            empty_template.set_finger(template.finger());
            if let Some(date) = template.enroll_date() {
                empty_template.set_enroll_date(date);
            }
            empty_template
        } else {
            template
        }
    }

    /// Enroll a new print: what the reply to the call means. The print that
    /// the scanner handed out is returned, marked as one that is no
    /// template; where it handed out none, the error of the failed call.
    pub fn enroll_sync(reply: EnrollReply) -> (r: Result<FpPrint, GError>)
        ensures
            reply.print matches Some(p) ==> (r matches Ok(q) && q@ == (FpPrintView {
                enrolled: true,
                ..p@
            })),
            reply.print is None ==> fails_with(r, reply.error, GErrorKind::Native),
    {
        match reply.print {
            Some(print) => {
                let mut print = print;
                print.enrolled = true;
                Ok(print)
            },
            None => Err(from_libfprint(reply.error)),
        }
    }

    /// Verify a given print synchronously: what the reply to the call
    /// means. Where the caller asked for the scanned print and one was
    /// handed out, it is stored in `print`, whether or not the call
    /// succeeded. The result tells whether the finger matched, or is the
    /// error of the failed call.
    pub fn verify_sync<P>(print: Option<&mut P>, reply: VerifyReply<P>) -> (r: Result<
        bool,
        GError,
    >)
        ensures
            print matches Some(p) ==> *final(p) == (match reply.new_print {
                Some(scanned) => scanned,
                None => *p,
            }),
            reply.success ==> r == Ok::<bool, GError>(reply.matched),
            !reply.success ==> fails_with(r, reply.error, GErrorKind::Native),
    {
        match print {
            Some(p) => {
                if let Some(scanned) = reply.new_print {
                    *p = scanned;
                }
            },
            None => {},
        }
        if !reply.success {
            return Err(from_libfprint(reply.error));
        }
        Ok(reply.matched)
    }

    /// Identify a print synchronously: what the reply to the call means.
    /// Where the caller asked for the scanned print and one was handed out,
    /// it is stored in `print`, whether or not the call succeeded. Where the
    /// call succeeded and a candidate matched, the result holds that
    /// candidate, and `matched`, if the caller gave it, receives a clone of
    /// it; with no match the result holds none and `matched` is left as it
    /// was. Where the call failed the result is its error.
    pub fn identify_sync<P: Clone>(
        matched: Option<&mut P>,
        print: Option<&mut P>,
        reply: IdentifyReply<P>,
    ) -> (r: Result<Option<P>, GError>)
        ensures
            print matches Some(p) ==> *final(p) == (match reply.new_print {
                Some(scanned) => scanned,
                None => *p,
            }),
            matched matches Some(m) ==> (match reply.matched {
                Some(candidate) if reply.success => cloned(candidate, *final(m)),
                _ => *final(m) == *m,
            }),
            reply.success ==> r == Ok::<Option<P>, GError>(reply.matched),
            !reply.success ==> fails_with(r, reply.error, GErrorKind::Native),
    {
        match print {
            Some(p) => {
                if let Some(scanned) = reply.new_print {
                    *p = scanned;
                }
            },
            None => {},
        }
        if !reply.success {
            return Err(from_libfprint(reply.error));
        }
        match matched {
            Some(m) => {
                if let Some(candidate) = &reply.matched {
                    *m = candidate.clone();
                }
            },
            None => {},
        }
        Ok(reply.matched)
    }
}

} // verus!
