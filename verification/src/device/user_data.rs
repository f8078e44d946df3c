//! Calling the caller's function with the caller's data.

use vstd::prelude::*;

use super::UserData;
use crate::error::GError;

verus! {

impl<F, T> UserData<F, T> {
    /// Reports one stage of an enrollment to the caller's function.
    pub fn callback_enroll<D, P>(
        &self,
        device: &D,
        enroll_stage: i32,
        print: Option<P>,
        error: Option<GError>,
    ) where F: Fn(&D, i32, Option<P>, Option<GError>, &Option<T>)
        requires
            call_requires(self.function, (device, enroll_stage, print, error, &self.data)),
        ensures
            call_ensures(self.function, (device, enroll_stage, print, error, &self.data), ()),
    {
        (self.function)(device, enroll_stage, print, error, &self.data);
    }

    /// Reports the end of a verification or identification to the caller's
    /// function.
    pub fn callback_match<D, P>(
        &self,
        device: &D,
        match_print: Option<P>,
        print: P,
        error: Option<GError>,
    ) where F: Fn(&D, Option<P>, P, Option<GError>, &Option<T>)
        requires
            call_requires(self.function, (device, match_print, print, error, &self.data)),
        ensures
            call_ensures(self.function, (device, match_print, print, error, &self.data), ()),
    {
        (self.function)(device, match_print, print, error, &self.data);
    }
}

} // verus!
