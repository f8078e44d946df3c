//! What happens when the scanner library calls back during a blocking call.
//!
//! An enrollment reports each stage, so it calls back any number of times,
//! and what the callback is called with has to stay until the blocking call
//! has returned. A verification or identification calls back once, and what
//! the callback is called with ends with that call.
//!
//! The device and the prints of an event are handed on to the caller's
//! function as they come; nothing here looks into them, so they may be of
//! any type `D` and `P`.

use vstd::prelude::*;

use super::UserData;
use crate::error::{from_libfprint_static, reported, GError, RawError};

verus! {

/// One stage of an enrollment. Where the blocking call was started with a
/// callback, the caller's function is called once, with the device, the
/// number of completed stages, the print of this stage, the error that the
/// stage reported (see `lemma_reported_error`), and the caller's data.
/// `user_data` is only read: it is there for the next stage.
pub fn fp_enroll_progress<F, T, D, P>(
    device: &D,
    completed_stages: i32,
    print: Option<P>,
    user_data: &Option<UserData<F, T>>,
    error: Option<RawError>,
) where F: Fn(&D, i32, Option<P>, Option<GError>, &Option<T>)
    requires
        user_data matches Some(u) ==> call_requires(
            u.function,
            (device, completed_stages, print, reported(error), &u.data),
        ),
    ensures
        user_data matches Some(u) ==> call_ensures(
            u.function,
            (device, completed_stages, print, reported(error), &u.data),
            (),
        ),
{
    if let Some(callback_data) = user_data {
        let error = match error {
            Some(raw) => Some(from_libfprint_static(raw)),
            None => None,
        };
        callback_data.callback_enroll(device, completed_stages, print, error);
    }
}

/// The end of a verification or identification. Where the blocking call was
/// started with a callback that has not been called yet, the caller's
/// function is called once, with the device, the matched print if any, the
/// scanned print, the error that was reported, and the caller's data. After
/// that `user_data` is empty: what the callback was called with is gone, and
/// a second call does nothing.
pub fn fp_match_cb<F, T, D, P>(
    device: &D,
    match_print: Option<P>,
    print: P,
    user_data: &mut Option<UserData<F, T>>,
    error: Option<RawError>,
) where F: Fn(&D, Option<P>, P, Option<GError>, &Option<T>)
    requires
        *old(user_data) matches Some(u) ==> call_requires(
            u.function,
            (device, match_print, print, reported(error), &u.data),
        ),
    ensures
        *final(user_data) is None,
        *old(user_data) matches Some(u) ==> call_ensures(
            u.function,
            (device, match_print, print, reported(error), &u.data),
            (),
        ),
{
    if let Some(callback_data) = user_data.take() {
        let error = match error {
            Some(raw) => Some(from_libfprint_static(raw)),
            None => None,
        };
        callback_data.callback_match(device, match_print, print, error);
    }
}

} // verus!
