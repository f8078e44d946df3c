//! The starting point: discovering fingerprint scanning hardware.

use vstd::prelude::*;

use crate::device::device_list::DeviceList;
use crate::device::FpDevice;

verus! {

/// This struct allows you to discover fingerprint scanning hardware. It
/// holds the devices that the last discovery found.
pub struct FpContext {
    devices: Vec<FpDevice>,
}

impl View for FpContext {
    type V = Seq<FpDevice>;

    closed spec fn view(&self) -> Seq<FpDevice> {
        self.devices@
    }
}

impl FpContext {
    /// Create a new `FpContext`, which has found no device yet.
    pub fn new() -> (r: FpContext)
        ensures
            r@ == Seq::<FpDevice>::empty(),
    {
        FpContext { devices: Vec::new() }
    }

    /// Get the list of devices connected to the system, as the last
    /// discovery found them. The list is lent out and lives no longer than
    /// the context.
    pub fn devices(&self) -> (r: DeviceList<'_>)
        ensures
            r@ == self@,
    {
        DeviceList::new(&self.devices)
    }

    /// Enumerate all the devices connected to the system: `found` is what
    /// the discovery reported, and takes the place of what was found
    /// before.
    pub fn enumerate(&mut self, found: Vec<FpDevice>)
        ensures
            final(self)@ == found@,
    {
        self.devices = found;
    }
}

} // verus!
